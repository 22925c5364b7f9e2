use crate::analyzer::{HdrType, ResolutionTier, VideoMetadata};
use crate::config::{preset_of, AppConfig, Encoder};
use crate::text::{
    concat, decimal, decimal_string, extend_strings, push_str, push_string, strings_of,
};
use crate::tracks::TrackSelection;
use vstd::prelude::*;

verus! {

/// Parameters for encoding a video file
#[derive(Debug, Clone)]
pub struct EncodingParams {
    pub input: String,
    pub output: String,
    pub encoder: Encoder,
    pub crf: u8,
    pub film_grain: u8,
    pub hdr_type: HdrType,
    pub tracks: TrackSelection,
    pub frame_rate_num: u32,
    pub frame_rate_den: u32,
    pub svt_preset: u8,
    pub nvenc_preset: String,
}

/// The rate-control value that a preset holds for an encoder.
pub open spec fn preset_quality(config: AppConfig, metadata: VideoMetadata) -> u8 {
    let preset = preset_of(
        config.presets,
        ResolutionTier::of(metadata.width, metadata.height),
        metadata.hdr_type.hdr(),
    );
    match config.encoder {
        Encoder::SvtAv1 => preset.crf,
        Encoder::Nvenc => preset.nvenc_cq,
        Encoder::Qsv => preset.qsv_quality,
        Encoder::Amf => preset.amf_quality,
    }
}

/// One `-map` option for each index: the stream kind followed by the index.
pub open spec fn map_args(kind: Seq<char>, indices: Seq<usize>) -> Seq<Seq<char>>
    decreases indices.len(),
{
    if indices.len() == 0 {
        Seq::empty()
    } else {
        map_args(kind, indices.drop_last()) + seq!["-map"@, kind + decimal(indices.last() as nat)]
    }
}

/// The options that select audio and subtitle streams: every stream of
/// both kinds where nothing is selected, else the selected streams, audio
/// first.
pub open spec fn track_args(audio: Seq<usize>, subtitles: Seq<usize>) -> Seq<Seq<char>> {
    if audio.len() == 0 && subtitles.len() == 0 {
        seq!["-map"@, "0:a?"@, "-map"@, "0:s?"@]
    } else {
        map_args("0:a:"@, audio) + map_args("0:s:"@, subtitles)
    }
}

/// The filter chain: ten-bit output, and for Dolby Vision the colour
/// parameters of HDR10.
pub open spec fn video_filter(hdr_type: HdrType) -> Seq<char> {
    if hdr_type == HdrType::DolbyVision {
        "format=yuv420p10le,setparams=colorspace=bt2020nc:color_primaries=bt2020:color_trc=smpte2084"@
    } else {
        "format=yuv420p10le"@
    }
}

/// The option that keeps the frame rate, where the source has one.
pub open spec fn frame_rate_args(num: u32, den: u32) -> Seq<Seq<char>> {
    if num > 0 && den > 0 {
        seq!["-r"@, decimal(num as nat) + "/"@ + decimal(den as nat)]
    } else {
        Seq::empty()
    }
}

/// The SVT-AV1 tuning: film grain synthesis with denoising where the
/// preset asks for grain, else temporal filtering.
pub open spec fn svt_tuning(film_grain: u8) -> Seq<char> {
    if film_grain > 0 {
        "tune=0:film-grain="@ + decimal(film_grain as nat)
            + ":film-grain-denoise=1:enable-overlays=1:scd=1"@
    } else {
        "tune=0:film-grain=0:enable-overlays=1:scd=1:enable-tf=1"@
    }
}

/// The quality options for SVT-AV1.
pub open spec fn svtav1_args(params: EncodingParams) -> Seq<Seq<char>> {
    seq![
        "-crf"@,
        decimal(params.crf as nat),
        "-preset"@,
        decimal(params.svt_preset as nat),
        "-svtav1-params"@,
        svt_tuning(params.film_grain),
    ]
}

/// The quality options for NVENC: a longer lookahead for the more
/// demanding rate-control values.
pub open spec fn nvenc_args(params: EncodingParams) -> Seq<Seq<char>> {
    seq![
        "-cq"@,
        decimal(params.crf as nat),
        "-preset"@,
        params.nvenc_preset@,
        "-tune"@,
        "hq"@,
        "-multipass"@,
        "fullres"@,
        "-rc-lookahead"@,
        if params.crf <= 23 {
            "48"@
        } else {
            "32"@
        },
        "-spatial-aq"@,
        "1"@,
        "-temporal-aq"@,
        "1"@,
    ]
}

/// The quality options for Quick Sync.
pub open spec fn qsv_args(params: EncodingParams) -> Seq<Seq<char>> {
    seq![
        "-global_quality"@,
        decimal(params.crf as nat),
        "-preset"@,
        "veryslow"@,
        "-look_ahead"@,
        "1"@,
        "-look_ahead_depth"@,
        "40"@,
    ]
}

/// The quality options for AMF.
pub open spec fn amf_args(params: EncodingParams) -> Seq<Seq<char>> {
    seq!["-quality"@, decimal(params.crf as nat), "-usage"@, "transcoding"@, "-rc"@, "cqp"@]
}

/// The quality options of the encoder that the parameters name.
pub open spec fn quality_args(params: EncodingParams) -> Seq<Seq<char>> {
    match params.encoder {
        Encoder::SvtAv1 => svtav1_args(params),
        Encoder::Nvenc => nvenc_args(params),
        Encoder::Qsv => qsv_args(params),
        Encoder::Amf => amf_args(params),
    }
}

/// The colour metadata options of each dynamic range.
pub open spec fn color_args(hdr_type: HdrType) -> Seq<Seq<char>> {
    match hdr_type {
        HdrType::DolbyVision => seq![
            "-color_primaries"@,
            "bt2020"@,
            "-color_trc"@,
            "smpte2084"@,
            "-colorspace"@,
            "bt2020nc"@,
        ],
        HdrType::Pq => seq![
            "-color_primaries"@,
            "bt2020"@,
            "-color_trc"@,
            "smpte2084"@,
            "-colorspace"@,
            "bt2020nc"@,
            "-map_metadata"@,
            "0"@,
        ],
        HdrType::Hlg => seq![
            "-color_primaries"@,
            "bt2020"@,
            "-color_trc"@,
            "arib-std-b67"@,
            "-colorspace"@,
            "bt2020nc"@,
            "-map_metadata"@,
            "0"@,
        ],
        HdrType::Sdr => Seq::empty(),
    }
}

/// The whole FFmpeg command line for an encode, in order: the input, the
/// stream selection, the encoder, the filter chain, the frame rate, stream
/// copy for audio and subtitles, the quality options, the colour metadata,
/// and the output.
pub open spec fn ffmpeg_args(params: EncodingParams) -> Seq<Seq<char>> {
    seq!["-y"@, "-nostdin"@, "-i"@, params.input@, "-map"@, "0:v:0"@] + track_args(
        params.tracks.audio_indices@,
        params.tracks.subtitle_indices@,
    ) + seq!["-c:v"@, params.encoder.codec_name(), "-vf"@, video_filter(params.hdr_type)]
        + frame_rate_args(params.frame_rate_num, params.frame_rate_den) + seq![
        "-c:a"@,
        "copy"@,
        "-c:s"@,
        "copy"@,
    ] + quality_args(params) + color_args(params.hdr_type) + seq![params.output@]
}

impl EncodingParams {
    /// The parameters are those of an encode of `input` to `output` under
    /// `config`: the preset of the video's resolution tier and dynamic range
    /// decides the film grain and, unless the quality search found one, the
    /// rate-control value.
    pub open spec fn built_from(
        &self,
        input: Seq<char>,
        output: Seq<char>,
        metadata: VideoMetadata,
        config: AppConfig,
        tracks: TrackSelection,
        crf_override: Option<u8>,
    ) -> bool {
        &&& self.input@ == input
        &&& self.output@ == output
        &&& self.encoder == config.encoder
        &&& self.crf == (match crf_override {
            Some(crf) => crf,
            None => preset_quality(config, metadata),
        })
        &&& self.film_grain == preset_of(
            config.presets,
            ResolutionTier::of(metadata.width, metadata.height),
            metadata.hdr_type.hdr(),
        ).film_grain
        &&& self.hdr_type == metadata.hdr_type
        &&& self.tracks.audio_indices@ == tracks.audio_indices@
        &&& self.tracks.subtitle_indices@ == tracks.subtitle_indices@
        &&& self.frame_rate_num == metadata.frame_rate_num
        &&& self.frame_rate_den == metadata.frame_rate_den
        &&& self.svt_preset == config.performance.svt_preset
        &&& self.nvenc_preset@ == config.performance.nvenc_preset@
    }

    /// Create encoding params from video metadata and config. A rate-control
    /// value found by the quality search takes the place of the preset's.
    pub fn from_metadata(
        input: &str,
        output: &str,
        metadata: &VideoMetadata,
        config: &AppConfig,
        tracks: TrackSelection,
        crf_override: Option<u8>,
    ) -> (params: Self)
        ensures
            params.built_from(input@, output@, *metadata, *config, tracks, crf_override),
            params.tracks == tracks,
    {
        let tier = ResolutionTier::from_dimensions(metadata.width, metadata.height);
        let preset = config.preset_for(&tier, metadata.hdr_type.is_hdr());
        let crf = match crf_override {
            Some(crf) => crf,
            None => match config.encoder {
                Encoder::SvtAv1 => preset.crf,
                Encoder::Nvenc => preset.nvenc_cq,
                Encoder::Qsv => preset.qsv_quality,
                Encoder::Amf => preset.amf_quality,
            },
        };
        EncodingParams {
            input: input.to_string(),
            output: output.to_string(),
            encoder: config.encoder,
            crf,
            film_grain: preset.film_grain,
            hdr_type: metadata.hdr_type,
            tracks,
            frame_rate_num: metadata.frame_rate_num,
            frame_rate_den: metadata.frame_rate_den,
            svt_preset: config.performance.svt_preset,
            nvenc_preset: config.performance.nvenc_preset.clone(),
        }
    }
}

/// Appends one `-map` option for each index.
pub fn push_map_args(args: &mut Vec<String>, kind: &str, indices: &Vec<usize>)
    ensures
        final(args).deep_view() == old(args).deep_view() + map_args(kind@, indices@),
{
    let ghost start = args.deep_view();
    let mut k: usize = 0;
    proof {
        assert(indices@.take(0) =~= Seq::<usize>::empty());
        assert(args.deep_view() =~= start + map_args(kind@, indices@.take(0)));
    }
    while k < indices.len()
        invariant
            k <= indices@.len(),
            args.deep_view() == start + map_args(kind@, indices@.take(k as int)),
        decreases indices@.len() - k,
    {
        let ghost so_far = args.deep_view();
        push_str(args, "-map");
        let mut stream = kind.to_string();
        stream.append(decimal_string(indices[k] as u64).as_str());
        push_string(args, stream);
        proof {
            assert(indices@.take(k + 1).drop_last() =~= indices@.take(k as int));
            assert(args.deep_view() =~= start + map_args(kind@, indices@.take(k + 1)));
        }
        k += 1;
    }
    proof {
        assert(indices@.take(k as int) =~= indices@);
    }
}

/// Appends the options that select audio and subtitle streams.
pub fn push_track_args(args: &mut Vec<String>, audio: &Vec<usize>, subtitles: &Vec<usize>)
    ensures
        final(args).deep_view() == old(args).deep_view() + track_args(audio@, subtitles@),
{
    if audio.is_empty() && subtitles.is_empty() {
        let all = strings_of(&["-map", "0:a?", "-map", "0:s?"]);
        assert(all.deep_view() =~= seq!["-map"@, "0:a?"@, "-map"@, "0:s?"@]);
        extend_strings(args, all);
    } else {
        push_map_args(args, "0:a:", audio);
        push_map_args(args, "0:s:", subtitles);
        assert(args.deep_view() =~= old(args).deep_view() + (map_args("0:a:"@, audio@) + map_args(
            "0:s:"@,
            subtitles@,
        )));
    }
}

/// Build FFmpeg arguments for encoding
pub fn build_ffmpeg_args(params: &EncodingParams) -> (args: Vec<String>)
    ensures
        args.deep_view() == ffmpeg_args(*params),
{
    let mut args = strings_of(&["-y", "-nostdin", "-i", params.input.as_str(), "-map", "0:v:0"]);
    assert(args.deep_view() =~= seq![
        "-y"@,
        "-nostdin"@,
        "-i"@,
        params.input@,
        "-map"@,
        "0:v:0"@,
    ]);

    // Track mapping
    push_track_args(&mut args, &params.tracks.audio_indices, &params.tracks.subtitle_indices);

    // Video encoder and filter chain
    let vf = build_video_filter(params.hdr_type);
    let video = strings_of(&["-c:v", params.encoder.ffmpeg_name(), "-vf", vf.as_str()]);
    assert(video.deep_view() =~= seq![
        "-c:v"@,
        params.encoder.codec_name(),
        "-vf"@,
        video_filter(params.hdr_type),
    ]);
    extend_strings(&mut args, video);

    // Explicit frame rate preservation
    extend_strings(&mut args, get_frame_rate_params(params.frame_rate_num, params.frame_rate_den));

    // Copy audio and subtitles
    let copy = strings_of(&["-c:a", "copy", "-c:s", "copy"]);
    assert(copy.deep_view() =~= seq!["-c:a"@, "copy"@, "-c:s"@, "copy"@]);
    extend_strings(&mut args, copy);

    // Encoder-specific quality parameters
    extend_strings(&mut args, get_quality_params(params));

    // HDR/color parameters (metadata only, the filter is handled above)
    extend_strings(&mut args, get_color_params(params.hdr_type));

    push_str(&mut args, params.output.as_str());
    args
}

/// The option that keeps the frame rate of the source.
pub fn get_frame_rate_params(num: u32, den: u32) -> (args: Vec<String>)
    ensures
        args.deep_view() == frame_rate_args(num, den),
{
    if num > 0 && den > 0 {
        let mut rate = decimal_string(num as u64);
        rate.append("/");
        rate.append(decimal_string(den as u64).as_str());
        let args = strings_of(&["-r", rate.as_str()]);
        assert(args.deep_view() =~= frame_rate_args(num, den));
        args
    } else {
        let args: Vec<String> = Vec::new();
        assert(args.deep_view() =~= frame_rate_args(num, den));
        args
    }
}

/// Get encoder-specific quality parameters
pub fn get_quality_params(params: &EncodingParams) -> (args: Vec<String>)
    ensures
        args.deep_view() == quality_args(*params),
{
    match params.encoder {
        Encoder::SvtAv1 => get_svtav1_params(params),
        Encoder::Nvenc => get_nvenc_params(params),
        Encoder::Qsv => get_qsv_params(params),
        Encoder::Amf => get_amf_params(params),
    }
}

/// The SVT-AV1 tuning for a film grain level.
pub fn svt_tuning_string(film_grain: u8) -> (tuning: String)
    ensures
        tuning@ == svt_tuning(film_grain),
{
    if film_grain > 0 {
        let mut tuning = "tune=0:film-grain=".to_string();
        tuning.append(decimal_string(film_grain as u64).as_str());
        tuning.append(":film-grain-denoise=1:enable-overlays=1:scd=1");
        tuning
    } else {
        "tune=0:film-grain=0:enable-overlays=1:scd=1:enable-tf=1".to_string()
    }
}

pub fn get_svtav1_params(params: &EncodingParams) -> (args: Vec<String>)
    ensures
        args.deep_view() == svtav1_args(*params),
{
    let crf = decimal_string(params.crf as u64);
    let preset = decimal_string(params.svt_preset as u64);
    let tuning = svt_tuning_string(params.film_grain);
    let args = strings_of(
        &["-crf", crf.as_str(), "-preset", preset.as_str(), "-svtav1-params", tuning.as_str()],
    );
    assert(args.deep_view() =~= svtav1_args(*params));
    args
}

pub fn get_nvenc_params(params: &EncodingParams) -> (args: Vec<String>)
    ensures
        args.deep_view() == nvenc_args(*params),
{
    let lookahead = if params.crf <= 23 {
        "48"
    } else {
        "32"
    };
    let crf = decimal_string(params.crf as u64);
    let args = strings_of(
        &[
            "-cq",
            crf.as_str(),
            "-preset",
            params.nvenc_preset.as_str(),
            "-tune",
            "hq",
            "-multipass",
            "fullres",
            "-rc-lookahead",
            lookahead,
            "-spatial-aq",
            "1",
            "-temporal-aq",
            "1",
        ],
    );
    assert(args.deep_view() =~= nvenc_args(*params));
    args
}

pub fn get_qsv_params(params: &EncodingParams) -> (args: Vec<String>)
    ensures
        args.deep_view() == qsv_args(*params),
{
    let crf = decimal_string(params.crf as u64);
    let args = strings_of(
        &[
            "-global_quality",
            crf.as_str(),
            "-preset",
            "veryslow",
            "-look_ahead",
            "1",
            "-look_ahead_depth",
            "40",
        ],
    );
    assert(args.deep_view() =~= qsv_args(*params));
    args
}

pub fn get_amf_params(params: &EncodingParams) -> (args: Vec<String>)
    ensures
        args.deep_view() == amf_args(*params),
{
    let crf = decimal_string(params.crf as u64);
    let args = strings_of(&["-quality", crf.as_str(), "-usage", "transcoding", "-rc", "cqp"]);
    assert(args.deep_view() =~= amf_args(*params));
    args
}

/// The colour metadata options of a dynamic range.
pub fn get_color_params(hdr_type: HdrType) -> (args: Vec<String>)
    ensures
        args.deep_view() == color_args(hdr_type),
{
    match hdr_type {
        HdrType::DolbyVision => get_dolby_vision_color_params(),
        HdrType::Pq => get_pq_params(),
        HdrType::Hlg => get_hlg_params(),
        HdrType::Sdr => {
            let args: Vec<String> = Vec::new();
            assert(args.deep_view() =~= color_args(hdr_type));
            args
        },
    }
}

pub fn get_pq_params() -> (args: Vec<String>)
    ensures
        args.deep_view() == color_args(HdrType::Pq),
{
    let args = strings_of(
        &[
            "-color_primaries",
            "bt2020",
            "-color_trc",
            "smpte2084",
            "-colorspace",
            "bt2020nc",
            "-map_metadata",
            "0",
        ],
    );
    assert(args.deep_view() =~= color_args(HdrType::Pq));
    args
}

pub fn get_hlg_params() -> (args: Vec<String>)
    ensures
        args.deep_view() == color_args(HdrType::Hlg),
{
    let args = strings_of(
        &[
            "-color_primaries",
            "bt2020",
            "-color_trc",
            "arib-std-b67",
            "-colorspace",
            "bt2020nc",
            "-map_metadata",
            "0",
        ],
    );
    assert(args.deep_view() =~= color_args(HdrType::Hlg));
    args
}

/// Build the video filter chain for format conversion and HDR metadata
pub fn build_video_filter(hdr_type: HdrType) -> (filter: String)
    ensures
        filter@ == video_filter(hdr_type),
{
    if hdr_type == HdrType::DolbyVision {
        "format=yuv420p10le,setparams=colorspace=bt2020nc:color_primaries=bt2020:color_trc=smpte2084".to_string()
    } else {
        "format=yuv420p10le".to_string()
    }
}

/// Dolby Vision color metadata parameters (the filter is handled in
/// `build_video_filter`)
pub fn get_dolby_vision_color_params() -> (args: Vec<String>)
    ensures
        args.deep_view() == color_args(HdrType::DolbyVision),
{
    let args = strings_of(
        &["-color_primaries", "bt2020", "-color_trc", "smpte2084", "-colorspace", "bt2020nc"],
    );
    assert(args.deep_view() =~= color_args(HdrType::DolbyVision));
    args
}

} // verus!
