//! The classification of a video by frame size and dynamic range.

use crate::analyzer::ffprobe::{or_unknown, RawStream};
use crate::error::AppError;
use crate::text::{has_substring, str_contains, str_eq};
use crate::tracks::{AudioTrack, SubtitleTrack};
use vstd::prelude::*;

verus! {

/// Video resolutions enum
#[derive(Debug, Clone, Copy, PartialEq, Eq, Structural)]
pub enum Resolution {
    HD1080p,
    HD1080pHDR,
    HD1080pDV,
    UHD2160p,
    UHD2160pHDR,
    UHD2160pDV,
}

impl Resolution {
    /// Dolby Vision content is not converted as it is.
    pub open spec fn dolby_vision(self) -> bool {
        self == Resolution::HD1080pDV || self == Resolution::UHD2160pDV
    }

    /// The frame size that a resolution stands for.
    pub open spec fn frame(self) -> (u32, u32) {
        match self {
            Resolution::HD1080p | Resolution::HD1080pHDR | Resolution::HD1080pDV => (1920, 1080),
            _ => (3840, 2160),
        }
    }

    /// Returns true if this resolution should skip conversion
    pub fn should_skip_conversion(&self) -> (skip: bool)
        ensures
            skip == self.dolby_vision(),
    {
        matches!(self, Resolution::HD1080pDV | Resolution::UHD2160pDV)
    }

    /// Get target dimensions for this resolution
    pub fn dimensions(&self) -> (frame: (u32, u32))
        ensures
            frame == self.frame(),
    {
        match self {
            Resolution::HD1080p | Resolution::HD1080pHDR | Resolution::HD1080pDV => (1920, 1080),
            _ => (3840, 2160),
        }
    }
}

/// What the probe reports of the first video stream. The side data is held
/// as text, one entry for each item of the list.
#[derive(Debug, Clone)]
pub struct AnalysisResult {
    pub width: u32,
    pub height: u32,
    pub pix_fmt: String,
    pub color_primaries: Option<String>,
    pub color_transfer: Option<String>,
    pub color_space: Option<String>,
    pub side_data_list: Option<Vec<String>>,
}

/// The transfer characteristic is one of the two HDR curves: PQ or HLG.
pub open spec fn hdr_transfer(transfer: Option<Seq<char>>) -> bool {
    transfer == Some("smpte2084"@) || transfer == Some("arib-std-b67"@)
}

/// An entry of the side data names Dolby Vision.
pub open spec fn entry_names_dolby_vision(entry: Seq<char>) -> bool {
    has_substring(entry, "Dolby Vision"@)
}

/// Some entry of the side data names Dolby Vision.
pub open spec fn names_dolby_vision(side_data: Option<Seq<Seq<char>>>) -> bool {
    side_data.is_some() && exists|i: int|
        0 <= i < side_data.unwrap().len() && #[trigger] entry_names_dolby_vision(
            side_data.unwrap()[i],
        )
}

/// The class of a video: UHD from 3000 columns or 1800 lines on, else HD;
/// Dolby Vision where the side data names it, else HDR by the transfer
/// characteristic.
pub open spec fn class_of(width: u32, height: u32, hdr: bool, dolby_vision: bool) -> Resolution {
    let is_4k = width >= 3000 || height >= 1800;
    if is_4k {
        if dolby_vision {
            Resolution::UHD2160pDV
        } else if hdr {
            Resolution::UHD2160pHDR
        } else {
            Resolution::UHD2160p
        }
    } else {
        if dolby_vision {
            Resolution::HD1080pDV
        } else if hdr {
            Resolution::HD1080pHDR
        } else {
            Resolution::HD1080p
        }
    }
}

/// Tells whether some entry of a side data list names Dolby Vision.
pub fn side_data_names_dolby_vision(side_data: &Option<Vec<String>>) -> (found: bool)
    ensures
        found == names_dolby_vision(side_data.deep_view()),
{
    match side_data {
        Some(list) => {
            let mut k: usize = 0;
            while k < list.len()
                invariant
                    k <= list@.len(),
                    side_data.deep_view() == Some(list.deep_view()),
                    forall|i: int|
                        0 <= i < k ==> !#[trigger] entry_names_dolby_vision(list.deep_view()[i]),
                decreases list@.len() - k,
            {
                if str_contains(list[k].as_str(), "Dolby Vision") {
                    proof {
                        let texts = list.deep_view();
                        assert(entry_names_dolby_vision(texts[k as int]));
                        assert(entry_names_dolby_vision(side_data.deep_view().unwrap()[k as int]));

                    }
                    return true;
                }
                k += 1;
            }
            false
        },
        None => false,
    }
}

/// Tells whether a transfer characteristic is one of the two HDR curves.
pub fn transfer_is_hdr(transfer: &Option<String>) -> (hdr: bool)
    ensures
        hdr == hdr_transfer(transfer.deep_view()),
{
    match transfer {
        Some(t) => str_eq(t.as_str(), "smpte2084") || str_eq(t.as_str(), "arib-std-b67"),
        None => false,
    }
}

impl AnalysisResult {
    pub fn is_hdr(&self) -> (hdr: bool)
        ensures
            hdr == hdr_transfer(self.color_transfer.deep_view()),
    {
        transfer_is_hdr(&self.color_transfer)
    }

    pub fn is_dolby_vision(&self) -> (found: bool)
        ensures
            found == names_dolby_vision(self.side_data_list.deep_view()),
    {
        side_data_names_dolby_vision(&self.side_data_list)
    }

    /// Get the color transfer characteristic
    pub fn color_transfer(&self) -> (transfer: Option<&str>)
        ensures
            transfer.is_some() == self.color_transfer.is_some(),
            transfer matches Some(t) ==> Some(t@) == self.color_transfer.deep_view(),
    {
        match &self.color_transfer {
            Some(t) => Some(t.as_str()),
            None => None,
        }
    }

    pub fn classify_video(&self) -> (class: Resolution)
        ensures
            class == class_of(
                self.width,
                self.height,
                hdr_transfer(self.color_transfer.deep_view()),
                names_dolby_vision(self.side_data_list.deep_view()),
            ),
    {
        let is_4k = self.width >= 3000 || self.height >= 1800;
        let hdr = self.is_hdr();
        let dv = self.is_dolby_vision();
        if is_4k {
            if dv {
                Resolution::UHD2160pDV
            } else if hdr {
                Resolution::UHD2160pHDR
            } else {
                Resolution::UHD2160p
            }
        } else {
            if dv {
                Resolution::HD1080pDV
            } else if hdr {
                Resolution::HD1080pHDR
            } else {
                Resolution::HD1080p
            }
        }
    }
}

/// What the probe reports of the video streams of a file.
#[derive(Debug, Clone)]
pub struct AnalysisOutput {
    pub streams: Vec<AnalysisResult>,
}

/// Full analysis result including all tracks
#[derive(Debug, Clone)]
pub struct FullAnalysis {
    pub video: AnalysisResult,
    pub audio_tracks: Vec<AudioTrack>,
    pub subtitle_tracks: Vec<SubtitleTrack>,
}

/// The test for a stream of one kind: audio, subtitle, and so on.
pub open spec fn of_kind(kind: Seq<char>) -> spec_fn(RawStream) -> bool {
    |stream: RawStream| stream.codec_type.deep_view() == Some(kind)
}

/// The audio track that a stream amounts to, at `index` among the audio
/// streams: two channels are assumed where the probe names none, and bit
/// rate and sample rate are not looked at.
pub open spec fn plain_audio_track(stream: RawStream, index: usize, track: AudioTrack) -> bool {
    &&& track.index == index
    &&& track.language.deep_view() == (match stream.tags {
        Some(tags) => tags.language.deep_view(),
        None => None,
    })
    &&& track.codec@ == or_unknown(stream.codec_name.deep_view())
    &&& track.channels == (match stream.channels {
        Some(c) => c,
        None => 2,
    })
    &&& track.title.deep_view() == (match stream.tags {
        Some(tags) => tags.title.deep_view(),
        None => None,
    })
    &&& track.bitrate.is_none()
    &&& track.sample_rate.is_none()
}

/// The subtitle track that a stream amounts to, at `index` among the
/// subtitle streams.
pub open spec fn plain_subtitle_track(stream: RawStream, index: usize, track: SubtitleTrack) -> bool {
    &&& track.index == index
    &&& track.language.deep_view() == (match stream.tags {
        Some(tags) => tags.language.deep_view(),
        None => None,
    })
    &&& track.codec@ == or_unknown(stream.codec_name.deep_view())
    &&& track.title.deep_view() == (match stream.tags {
        Some(tags) => tags.title.deep_view(),
        None => None,
    })
    &&& !track.forced
}

/// The tracks are those of the audio streams and of the subtitle streams
/// among `streams`, each kind in order and numbered from zero.
pub open spec fn tracks_of(
    streams: Seq<RawStream>,
    audio: Seq<AudioTrack>,
    subtitles: Seq<SubtitleTrack>,
) -> bool {
    let audio_streams = streams.filter(of_kind("audio"@));
    let subtitle_streams = streams.filter(of_kind("subtitle"@));
    &&& audio.len() == audio_streams.len()
    &&& forall|i: int|
        0 <= i < audio.len() ==> plain_audio_track(audio_streams[i], i as usize, #[trigger] audio[i])
    &&& subtitles.len() == subtitle_streams.len()
    &&& forall|i: int|
        0 <= i < subtitles.len() ==> plain_subtitle_track(
            subtitle_streams[i],
            i as usize,
            #[trigger] subtitles[i],
        )
}

fn text_of(text: &Option<String>) -> (copy: Option<String>)
    ensures
        copy.deep_view() == text.deep_view(),
{
    match text {
        Some(t) => Some(t.clone()),
        None => None,
    }
}

fn codec_of(stream: &RawStream) -> (codec: String)
    ensures
        codec@ == or_unknown(stream.codec_name.deep_view()),
{
    match &stream.codec_name {
        Some(c) => c.clone(),
        None => "unknown".to_string(),
    }
}

/// Tells whether a stream is of the given kind.
pub fn stream_is(stream: &RawStream, kind: &str) -> (yes: bool)
    ensures
        yes == of_kind(kind@)(*stream),
{
    match &stream.codec_type {
        Some(t) => str_eq(t.as_str(), kind),
        None => false,
    }
}

/// Sorts the streams of a file into audio tracks and subtitle tracks.
pub fn split_tracks(streams: &Vec<RawStream>) -> (tracks: (Vec<AudioTrack>, Vec<SubtitleTrack>))
    ensures
        tracks_of(streams@, tracks.0@, tracks.1@),
{
    let ghost audio_kind = of_kind("audio"@);
    let ghost subtitle_kind = of_kind("subtitle"@);
    let mut audio_tracks: Vec<AudioTrack> = Vec::new();
    let mut subtitle_tracks: Vec<SubtitleTrack> = Vec::new();
    let mut k: usize = 0;
    proof {
        reveal(Seq::filter);
        assert(streams@.take(0) =~= Seq::<RawStream>::empty());
    }
    while k < streams.len()
        invariant
            k <= streams@.len(),
            audio_kind == of_kind("audio"@),
            subtitle_kind == of_kind("subtitle"@),
            tracks_of(streams@.take(k as int), audio_tracks@, subtitle_tracks@),
        decreases streams@.len() - k,
    {
        let stream = &streams[k];
        let ghost seen = streams@.take(k as int);
        let ghost audio_before = audio_tracks@;
        let ghost subtitles_before = subtitle_tracks@;
        let ghost audio_seen = seen.filter(audio_kind);
        let ghost subtitles_seen = seen.filter(subtitle_kind);
        proof {
            reveal_strlit("audio");
            reveal_strlit("subtitle");
            assert("audio"@.len() != "subtitle"@.len());
            assert(streams@.take(k + 1) =~= seen.push(streams@[k as int]));
            seen.lemma_filter_push(streams@[k as int], audio_kind);
            seen.lemma_filter_push(streams@[k as int], subtitle_kind);
            seen.lemma_filter_len(audio_kind);
            seen.lemma_filter_len(subtitle_kind);
        }
        let (language, title) = match &stream.tags {
            Some(tags) => (text_of(&tags.language), text_of(&tags.title)),
            None => (None, None),
        };
        if stream_is(stream, "audio") {
            audio_tracks.push(
                AudioTrack {
                    index: audio_tracks.len(),
                    language,
                    codec: codec_of(stream),
                    channels: match stream.channels {
                        Some(c) => c,
                        None => 2,
                    },
                    title,
                    bitrate: None,
                    sample_rate: None,
                },
            );
            proof {
                let grown = streams@.take(k + 1).filter(audio_kind);
                assert(grown == audio_seen.push(streams@[k as int]));
                assert(streams@.take(k + 1).filter(subtitle_kind) == subtitles_seen);
                assert forall|i: int| 0 <= i < audio_tracks@.len() implies plain_audio_track(
                    grown[i],
                    i as usize,
                    #[trigger] audio_tracks@[i],
                ) by {
                    if i < audio_before.len() {
                        assert(audio_tracks@[i] == audio_before[i]);
                        assert(grown[i] == audio_seen[i]);
                    }
                }
            }
        } else if stream_is(stream, "subtitle") {
            subtitle_tracks.push(
                SubtitleTrack {
                    index: subtitle_tracks.len(),
                    language,
                    codec: codec_of(stream),
                    title,
                    forced: false,
                },
            );
            proof {
                let grown = streams@.take(k + 1).filter(subtitle_kind);
                assert(grown == subtitles_seen.push(streams@[k as int]));
                assert(streams@.take(k + 1).filter(audio_kind) == audio_seen);
                assert forall|i: int|
                    0 <= i < subtitle_tracks@.len() implies plain_subtitle_track(
                    grown[i],
                    i as usize,
                    #[trigger] subtitle_tracks@[i],
                ) by {
                    if i < subtitles_before.len() {
                        assert(subtitle_tracks@[i] == subtitles_before[i]);
                        assert(grown[i] == subtitles_seen[i]);
                    }
                }
            }
        } else {
            proof {
                assert(streams@.take(k + 1).filter(audio_kind) == audio_seen);
                assert(streams@.take(k + 1).filter(subtitle_kind) == subtitles_seen);
            }
        }
        k += 1;
    }
    proof {
        assert(streams@.take(k as int) =~= streams@);
    }
    (audio_tracks, subtitle_tracks)
}

/// Puts the analysis of a file together from what the probe reported of
/// its video streams and of all its streams: the first video stream with
/// the audio and subtitle tracks.
pub fn analyze(video: AnalysisOutput, streams: &Vec<RawStream>) -> (r: Result<
    FullAnalysis,
    AppError,
>)
    ensures
        r.is_ok() == (video.streams@.len() > 0),
        r matches Ok(analysis) ==> analysis.video == video.streams@[0] && tracks_of(
            streams@,
            analysis.audio_tracks@,
            analysis.subtitle_tracks@,
        ),
        r matches Err(error) ==> (error matches AppError::CommandExecution(text) && text@
            == "No video stream found"@),
{
    let mut found = video.streams;
    if found.len() == 0 {
        return Err(AppError::CommandExecution("No video stream found".to_string()));
    }
    let first = found.swap_remove(0);
    let (audio_tracks, subtitle_tracks) = split_tracks(streams);
    Ok(FullAnalysis { video: first, audio_tracks, subtitle_tracks })
}

} // verus!
