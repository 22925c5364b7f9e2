use crate::analysis::{names_dolby_vision, side_data_names_dolby_vision};
use crate::analyzer::metadata::{HdrType, VideoMetadata};
use crate::error::AppError;
use crate::scan::{
    find_byte, index_of, millionths_value, parse_millionths, parse_unsigned, unsigned_value,
};
use crate::text::{concat, str_eq, strings_of};
use crate::tracks::{AudioTrack, SubtitleTrack};
use vstd::prelude::*;
use vstd::utf8::encode_utf8;

verus! {

/// Full analysis result with all tracks
#[derive(Debug, Clone)]
pub struct AnalysisResult {
    pub metadata: VideoMetadata,
    pub audio_tracks: Vec<AudioTrack>,
    pub subtitle_tracks: Vec<SubtitleTrack>,
}

/// What the probe reports of the container.
#[derive(Debug, Clone)]
pub struct FormatInfo {
    pub duration: Option<String>,
    pub bit_rate: Option<String>,
}

/// What the probe reports of a video stream. The side data is held as
/// text, one entry for each item of the list.
#[derive(Debug, Clone)]
pub struct VideoStream {
    pub width: u32,
    pub height: u32,
    pub codec_name: Option<String>,
    pub pix_fmt: Option<String>,
    pub color_primaries: Option<String>,
    pub color_transfer: Option<String>,
    pub color_space: Option<String>,
    pub r_frame_rate: Option<String>,
    pub avg_frame_rate: Option<String>,
    pub bit_rate: Option<String>,
    pub side_data_list: Option<Vec<String>>,
}

/// The language and the title that a stream is tagged with.
#[derive(Debug, Clone)]
pub struct StreamTags {
    pub language: Option<String>,
    pub title: Option<String>,
}

/// What the probe reports of an audio or subtitle stream.
#[derive(Debug, Clone)]
pub struct RawStream {
    pub index: Option<usize>,
    pub codec_type: Option<String>,
    pub codec_name: Option<String>,
    pub channels: Option<u16>,
    pub bit_rate: Option<String>,
    pub sample_rate: Option<String>,
    pub tags: Option<StreamTags>,
}

/// The frame rate that a text writes as a fraction: two unsigned integers
/// with one slash between them, the second above zero. Any other text
/// gives zero over one.
pub open spec fn frame_rate_of(s: Seq<u8>) -> (u32, u32) {
    let slash = index_of(s, 47);
    if slash < s.len() && index_of(s.skip(slash + 1), 47) == s.skip(slash + 1).len() {
        match (unsigned_value(s.take(slash), u32::MAX as u64), unsigned_value(
            s.skip(slash + 1),
            u32::MAX as u64,
        )) {
            (Some(num), Some(den)) => if den > 0 {
                (num as u32, den as u32)
            } else {
                (0, 1)
            },
            _ => (0, 1),
        }
    } else {
        (0, 1)
    }
}

/// The dynamic range of a stream: Dolby Vision where its side data names
/// it, else by its transfer characteristic.
pub open spec fn dynamic_range(dolby_vision: bool, transfer: Option<Seq<char>>) -> HdrType {
    if dolby_vision {
        HdrType::DolbyVision
    } else if transfer == Some("smpte2084"@) {
        HdrType::Pq
    } else if transfer == Some("arib-std-b67"@) {
        HdrType::Hlg
    } else {
        HdrType::Sdr
    }
}

/// The number that an optional text writes as an unsigned integer.
pub open spec fn number_of(text: Option<Seq<char>>, max: u64) -> Option<u64> {
    match text {
        Some(t) => unsigned_value(encode_utf8(t), max),
        None => None,
    }
}

/// The duration in microseconds that an optional text writes in seconds;
/// zero where it writes none.
pub open spec fn duration_of(text: Option<Seq<char>>) -> u64 {
    match text {
        Some(t) => match millionths_value(encode_utf8(t)) {
            Some(d) => d,
            None => 0,
        },
        None => 0,
    }
}

/// The text, or `unknown` where there is none.
pub open spec fn or_unknown(text: Option<Seq<char>>) -> Seq<char> {
    match text {
        Some(t) => t,
        None => "unknown"@,
    }
}

/// The metadata that the probe's report of a stream and of its container
/// amounts to.
pub open spec fn metadata_of(
    stream: VideoStream,
    format: Option<FormatInfo>,
    metadata: VideoMetadata,
) -> bool {
    let rate = match stream.r_frame_rate {
        Some(r) => frame_rate_of(encode_utf8(r@)),
        None => match stream.avg_frame_rate {
            Some(r) => frame_rate_of(encode_utf8(r@)),
            None => (0u32, 1u32),
        },
    };
    let format_duration = match format {
        Some(f) => f.duration.deep_view(),
        None => None,
    };
    let format_bit_rate = match format {
        Some(f) => number_of(f.bit_rate.deep_view(), u64::MAX),
        None => None,
    };
    &&& metadata.width == stream.width
    &&& metadata.height == stream.height
    &&& metadata.hdr_type == dynamic_range(
        names_dolby_vision(stream.side_data_list.deep_view()),
        stream.color_transfer.deep_view(),
    )
    &&& metadata.codec_name@ == or_unknown(stream.codec_name.deep_view())
    &&& metadata.pixel_format.deep_view() == stream.pix_fmt.deep_view()
    &&& metadata.frame_rate_num == rate.0
    &&& metadata.frame_rate_den == rate.1
    &&& metadata.duration_us == duration_of(format_duration)
    &&& metadata.bitrate == (match format_bit_rate {
        Some(b) => Some(b),
        None => number_of(stream.bit_rate.deep_view(), u64::MAX),
    })
}

/// The audio track that the probe's report of a stream amounts to, at
/// `index` among the audio streams.
pub open spec fn audio_track_of(stream: RawStream, index: usize, track: AudioTrack) -> bool {
    &&& track.index == index
    &&& track.language.deep_view() == (match stream.tags {
        Some(tags) => tags.language.deep_view(),
        None => None,
    })
    &&& track.codec@ == or_unknown(stream.codec_name.deep_view())
    &&& track.channels == (match stream.channels {
        Some(c) => c,
        None => 2,
    })
    &&& track.title.deep_view() == (match stream.tags {
        Some(tags) => tags.title.deep_view(),
        None => None,
    })
    &&& track.bitrate == number_of(stream.bit_rate.deep_view(), u64::MAX)
    &&& track.sample_rate == (match number_of(stream.sample_rate.deep_view(), u32::MAX as u64) {
        Some(r) => Some(r as u32),
        None => None,
    })
}

/// The subtitle track that the probe's report of a stream amounts to, at
/// `index` among the subtitle streams.
pub open spec fn subtitle_track_of(stream: RawStream, index: usize, track: SubtitleTrack) -> bool {
    &&& track.index == index
    &&& track.language.deep_view() == (match stream.tags {
        Some(tags) => tags.language.deep_view(),
        None => None,
    })
    &&& track.codec@ == or_unknown(stream.codec_name.deep_view())
    &&& track.title.deep_view() == (match stream.tags {
        Some(tags) => tags.title.deep_view(),
        None => None,
    })
    &&& !track.forced
}

/// The probe options that report the first video stream and the
/// container as JSON.
pub open spec fn video_query(input_path: Seq<char>) -> Seq<Seq<char>> {
    seq![
        "-v"@,
        "error"@,
        "-select_streams"@,
        "v:0"@,
        "-show_entries"@,
        "stream=width,height,pix_fmt,color_primaries,color_transfer,color_space,codec_name,r_frame_rate,avg_frame_rate,bit_rate,side_data_list"@,
        "-show_entries"@,
        "format=duration,bit_rate"@,
        "-of"@,
        "json"@,
        input_path,
    ]
}

/// The probe options that report the audio streams as JSON.
pub open spec fn audio_query(input_path: Seq<char>) -> Seq<Seq<char>> {
    seq![
        "-v"@,
        "error"@,
        "-show_entries"@,
        "stream=index,codec_type,codec_name,channels,bit_rate,sample_rate:stream_tags=language,title"@,
        "-select_streams"@,
        "a"@,
        "-of"@,
        "json"@,
        input_path,
    ]
}

/// The probe options that report the subtitle streams as JSON.
pub open spec fn subtitle_query(input_path: Seq<char>) -> Seq<Seq<char>> {
    seq![
        "-v"@,
        "error"@,
        "-show_entries"@,
        "stream=index,codec_type,codec_name:stream_tags=language,title"@,
        "-select_streams"@,
        "s"@,
        "-of"@,
        "json"@,
        input_path,
    ]
}

/// The probe command line for the video stream of a file.
pub fn video_query_args(input_path: &str) -> (args: Vec<String>)
    ensures
        args.deep_view() == video_query(input_path@),
{
    let args = strings_of(
        &[
            "-v",
            "error",
            "-select_streams",
            "v:0",
            "-show_entries",
            "stream=width,height,pix_fmt,color_primaries,color_transfer,color_space,codec_name,r_frame_rate,avg_frame_rate,bit_rate,side_data_list",
            "-show_entries",
            "format=duration,bit_rate",
            "-of",
            "json",
            input_path,
        ],
    );
    assert(args.deep_view() =~= video_query(input_path@));
    args
}

/// The probe command line for the audio streams of a file.
pub fn audio_query_args(input_path: &str) -> (args: Vec<String>)
    ensures
        args.deep_view() == audio_query(input_path@),
{
    let args = strings_of(
        &[
            "-v",
            "error",
            "-show_entries",
            "stream=index,codec_type,codec_name,channels,bit_rate,sample_rate:stream_tags=language,title",
            "-select_streams",
            "a",
            "-of",
            "json",
            input_path,
        ],
    );
    assert(args.deep_view() =~= audio_query(input_path@));
    args
}

/// The probe command line for the subtitle streams of a file.
pub fn subtitle_query_args(input_path: &str) -> (args: Vec<String>)
    ensures
        args.deep_view() == subtitle_query(input_path@),
{
    let args = strings_of(
        &[
            "-v",
            "error",
            "-show_entries",
            "stream=index,codec_type,codec_name:stream_tags=language,title",
            "-select_streams",
            "s",
            "-of",
            "json",
            input_path,
        ],
    );
    assert(args.deep_view() =~= subtitle_query(input_path@));
    args
}

/// Reads a frame rate from the bytes of a fraction.
pub fn frame_rate_from(text: &[u8]) -> (rate: (u32, u32))
    ensures
        rate == frame_rate_of(text@),
{
    let end = text.len();
    let slash = find_byte(text, 0, end, 47);
    proof {
        assert(text@.subrange(0, end as int) =~= text@);
    }
    if slash >= end {
        return (0, 1);
    }
    let second = find_byte(text, slash + 1, end, 47);
    proof {
        assert(text@.skip(slash + 1) =~= text@.subrange(slash + 1, end as int));
        assert(text@.take(slash as int) =~= text@.subrange(0, slash as int));
    }
    if second < end {
        return (0, 1);
    }
    let num = parse_unsigned(text, 0, slash, 0xffff_ffff);
    let den = parse_unsigned(text, slash + 1, end, 0xffff_ffff);
    match (num, den) {
        (Some(n), Some(d)) => if d > 0 {
            (n as u32, d as u32)
        } else {
            (0, 1)
        },
        _ => (0, 1),
    }
}

/// Parse frame rate from the probe's format
pub fn parse_frame_rate(rate_str: Option<&str>) -> (rate: (u32, u32))
    ensures
        rate == (match rate_str {
            Some(s) => frame_rate_of(encode_utf8(s@)),
            None => (0u32, 1u32),
        }),
{
    match rate_str {
        Some(s) => frame_rate_from(s.as_bytes()),
        None => (0, 1),
    }
}

/// Reads an optional text as an unsigned integer of at most `max`.
pub fn parse_number(text: &Option<String>, max: u64) -> (value: Option<u64>)
    ensures
        value == number_of(text.deep_view(), max),
{
    match text {
        Some(t) => {
            let bytes = t.as_str().as_bytes();
            assert(bytes@.subrange(0, bytes@.len() as int) =~= bytes@);
            parse_unsigned(bytes, 0, bytes.len(), max)
        },
        None => None,
    }
}

/// Reads an optional text in seconds as a duration in microseconds.
pub fn parse_duration(text: &Option<String>) -> (duration_us: u64)
    ensures
        duration_us == duration_of(text.deep_view()),
{
    match text {
        Some(t) => {
            let bytes = t.as_str().as_bytes();
            assert(bytes@.subrange(0, bytes@.len() as int) =~= bytes@);
            match parse_millionths(bytes, 0, bytes.len()) {
                Some(d) => d,
                None => 0,
            }
        },
        None => 0,
    }
}

/// Determines the dynamic range of a stream.
pub fn hdr_type_of(side_data: &Option<Vec<String>>, transfer: &Option<String>) -> (hdr: HdrType)
    ensures
        hdr == dynamic_range(names_dolby_vision(side_data.deep_view()), transfer.deep_view()),
{
    if side_data_names_dolby_vision(side_data) {
        HdrType::DolbyVision
    } else {
        match transfer {
            Some(t) => {
                if str_eq(t.as_str(), "smpte2084") {
                    HdrType::Pq
                } else if str_eq(t.as_str(), "arib-std-b67") {
                    HdrType::Hlg
                } else {
                    HdrType::Sdr
                }
            },
            None => HdrType::Sdr,
        }
    }
}

fn text_or_unknown(text: &Option<String>) -> (s: String)
    ensures
        s@ == or_unknown(text.deep_view()),
{
    match text {
        Some(t) => t.clone(),
        None => "unknown".to_string(),
    }
}

fn copy_text(text: &Option<String>) -> (copy: Option<String>)
    ensures
        copy.deep_view() == text.deep_view(),
{
    match text {
        Some(t) => Some(t.clone()),
        None => None,
    }
}

/// Makes the metadata of a video from the probe's report of its stream and
/// of its container.
pub fn metadata_from(stream: &VideoStream, format: &Option<FormatInfo>) -> (metadata: VideoMetadata)
    ensures
        metadata_of(*stream, *format, metadata),
{
    let hdr_type = hdr_type_of(&stream.side_data_list, &stream.color_transfer);
    let rate = match &stream.r_frame_rate {
        Some(r) => parse_frame_rate(Some(r.as_str())),
        None => match &stream.avg_frame_rate {
            Some(r) => parse_frame_rate(Some(r.as_str())),
            None => parse_frame_rate(None),
        },
    };
    let duration_us = match format {
        Some(f) => parse_duration(&f.duration),
        None => 0,
    };
    let format_bit_rate = match format {
        Some(f) => parse_number(&f.bit_rate, u64::MAX),
        None => None,
    };
    let bitrate = match format_bit_rate {
        Some(b) => Some(b),
        None => parse_number(&stream.bit_rate, u64::MAX),
    };
    VideoMetadata {
        width: stream.width,
        height: stream.height,
        hdr_type,
        codec_name: text_or_unknown(&stream.codec_name),
        pixel_format: copy_text(&stream.pix_fmt),
        frame_rate_num: rate.0,
        frame_rate_den: rate.1,
        duration_us,
        bitrate,
    }
}

/// Analyze the primary video stream: the first of the reported streams.
pub fn analyze_video_stream(streams: &Vec<VideoStream>, format: &Option<FormatInfo>) -> (r: Result<
    VideoMetadata,
    AppError,
>)
    ensures
        r.is_ok() == (streams@.len() > 0),
        r matches Ok(metadata) ==> metadata_of(streams@[0], *format, metadata),
        r matches Err(error) ==> (error matches AppError::Analysis(text) && text@
            == "No video stream found"@),
{
    if streams.len() == 0 {
        Err(AppError::Analysis("No video stream found".to_string()))
    } else {
        Ok(metadata_from(&streams[0], format))
    }
}

/// Makes the audio tracks from the probe's report of the audio streams,
/// numbered in order.
pub fn audio_tracks_from(streams: &Vec<RawStream>) -> (tracks: Vec<AudioTrack>)
    ensures
        tracks@.len() == streams@.len(),
        forall|i: int|
            0 <= i < streams@.len() ==> audio_track_of(
                streams@[i],
                i as usize,
                #[trigger] tracks@[i],
            ),
{
    let mut tracks: Vec<AudioTrack> = Vec::new();
    let mut k: usize = 0;
    while k < streams.len()
        invariant
            k <= streams@.len(),
            tracks@.len() == k,
            forall|i: int|
                0 <= i < k ==> audio_track_of(streams@[i], i as usize, #[trigger] tracks@[i]),
        decreases streams@.len() - k,
    {
        let stream = &streams[k];
        let sample_rate = match parse_number(&stream.sample_rate, 0xffff_ffff) {
            Some(r) => Some(r as u32),
            None => None,
        };
        let (language, title) = match &stream.tags {
            Some(tags) => (copy_text(&tags.language), copy_text(&tags.title)),
            None => (None, None),
        };
        tracks.push(
            AudioTrack {
                index: k,
                language,
                codec: text_or_unknown(&stream.codec_name),
                channels: match stream.channels {
                    Some(c) => c,
                    None => 2,
                },
                title,
                bitrate: parse_number(&stream.bit_rate, u64::MAX),
                sample_rate,
            },
        );
        k += 1;
    }
    tracks
}

/// Makes the subtitle tracks from the probe's report of the subtitle
/// streams, numbered in order.
pub fn subtitle_tracks_from(streams: &Vec<RawStream>) -> (tracks: Vec<SubtitleTrack>)
    ensures
        tracks@.len() == streams@.len(),
        forall|i: int|
            0 <= i < streams@.len() ==> subtitle_track_of(
                streams@[i],
                i as usize,
                #[trigger] tracks@[i],
            ),
{
    let mut tracks: Vec<SubtitleTrack> = Vec::new();
    let mut k: usize = 0;
    while k < streams.len()
        invariant
            k <= streams@.len(),
            tracks@.len() == k,
            forall|i: int|
                0 <= i < k ==> subtitle_track_of(streams@[i], i as usize, #[trigger] tracks@[i]),
        decreases streams@.len() - k,
    {
        let stream = &streams[k];
        let (language, title) = match &stream.tags {
            Some(tags) => (copy_text(&tags.language), copy_text(&tags.title)),
            None => (None, None),
        };
        tracks.push(
            SubtitleTrack {
                index: k,
                language,
                codec: text_or_unknown(&stream.codec_name),
                title,
                forced: false,
            },
        );
        k += 1;
    }
    tracks
}

/// Puts the analysis of a file together from what the probe reported of
/// its video stream, its container, and its audio and subtitle streams.
pub fn analyze(
    video_streams: &Vec<VideoStream>,
    format: &Option<FormatInfo>,
    audio_streams: &Vec<RawStream>,
    subtitle_streams: &Vec<RawStream>,
) -> (r: Result<AnalysisResult, AppError>)
    ensures
        r.is_ok() == (video_streams@.len() > 0),
        r matches Ok(analysis) ==> {
            &&& metadata_of(video_streams@[0], *format, analysis.metadata)
            &&& analysis.audio_tracks@.len() == audio_streams@.len()
            &&& forall|i: int|
                0 <= i < audio_streams@.len() ==> audio_track_of(
                    audio_streams@[i],
                    i as usize,
                    #[trigger] analysis.audio_tracks@[i],
                )
            &&& analysis.subtitle_tracks@.len() == subtitle_streams@.len()
            &&& forall|i: int|
                0 <= i < subtitle_streams@.len() ==> subtitle_track_of(
                    subtitle_streams@[i],
                    i as usize,
                    #[trigger] analysis.subtitle_tracks@[i],
                )
        },
        r matches Err(error) ==> (error matches AppError::Analysis(text) && text@
            == "No video stream found"@),
{
    let metadata = match analyze_video_stream(video_streams, format) {
        Ok(m) => m,
        Err(e) => {
            return Err(e);
        },
    };
    Ok(
        AnalysisResult {
            metadata,
            audio_tracks: audio_tracks_from(audio_streams),
            subtitle_tracks: subtitle_tracks_from(subtitle_streams),
        },
    )
}

/// The error of a probe whose output could not be read as JSON.
pub fn parse_failure(reason: &str) -> (error: AppError)
    ensures
        error matches AppError::Analysis(text) && text@ == "Failed to parse ffprobe output: "@
            + reason@,
{
    AppError::Analysis(concat("Failed to parse ffprobe output: ", reason))
}

/// The error of a probe that could not be run.
pub fn execute_failure(reason: &str) -> (error: AppError)
    ensures
        error matches AppError::Analysis(text) && text@ == "Failed to execute ffprobe: "@ + reason@,
{
    AppError::Analysis(concat("Failed to execute ffprobe: ", reason))
}

/// The error of a probe that ran and failed.
pub fn probe_failure(stderr: &str) -> (error: AppError)
    ensures
        error matches AppError::Analysis(text) && text@ == "ffprobe failed: "@ + stderr@,
{
    AppError::Analysis(concat("ffprobe failed: ", stderr))
}

} // verus!
