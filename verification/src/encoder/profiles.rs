use crate::analysis::Resolution;
use crate::config::encoder_detect::{
    amd_encodes_av1, has_amd_av1, has_intel_av1, has_nvidia_av1, intel_encodes_av1,
    nvidia_encodes_av1, HardwareReport,
};
use crate::text::{has_substring, lowercase_of, str_contains, str_eq, strings_of, to_lowercase};
use vstd::prelude::*;

verus! {

/// AV1 encoders
#[derive(Debug, Clone, Copy, PartialEq, Eq, Structural)]
pub enum AV1Encoder {
    /// NVIDIA NVENC
    Nvenc,
    /// Intel Quick Sync Video
    Qsv,
    /// AMD AMF
    Amf,
    /// SVT-AV1 software encoder
    SvtAv1,
}

impl AV1Encoder {
    /// The name under which FFmpeg knows the encoder.
    pub open spec fn codec_name(self) -> Seq<char> {
        match self {
            AV1Encoder::Nvenc => "av1_nvenc"@,
            AV1Encoder::Qsv => "av1_qsv"@,
            AV1Encoder::Amf => "av1_amf"@,
            AV1Encoder::SvtAv1 => "libsvtav1"@,
        }
    }

    /// The name shown for the encoder.
    pub open spec fn label(self) -> Seq<char> {
        match self {
            AV1Encoder::Nvenc => "NVENC (NVIDIA)"@,
            AV1Encoder::Qsv => "Quick Sync (Intel)"@,
            AV1Encoder::Amf => "AMF (AMD)"@,
            AV1Encoder::SvtAv1 => "SVT-AV1 (Software)"@,
        }
    }

    /// Get the ffmpeg encoder name
    pub fn ffmpeg_name(&self) -> (name: &'static str)
        ensures
            name@ == self.codec_name(),
    {
        match self {
            AV1Encoder::Nvenc => "av1_nvenc",
            AV1Encoder::Qsv => "av1_qsv",
            AV1Encoder::Amf => "av1_amf",
            AV1Encoder::SvtAv1 => "libsvtav1",
        }
    }

    /// Get the encoder display name
    pub fn display_name(&self) -> (name: &'static str)
        ensures
            name@ == self.label(),
    {
        match self {
            AV1Encoder::Nvenc => "NVENC (NVIDIA)",
            AV1Encoder::Qsv => "Quick Sync (Intel)",
            AV1Encoder::Amf => "AMF (AMD)",
            AV1Encoder::SvtAv1 => "SVT-AV1 (Software)",
        }
    }
}

/// Default quality threshold, in hundredths
pub const DEFAULT_VMAF_THRESHOLD: u32 = 9_000;

/// Encoder configuration
#[derive(Debug, Clone, Copy, PartialEq, Eq, Structural)]
pub struct EncoderConfig {
    /// Selected encoder to use
    pub selected_encoder: AV1Encoder,
    /// Whether to run the quality check after encoding (always true)
    pub run_vmaf: bool,
    /// Quality threshold, in hundredths
    pub vmaf_threshold: Option<u32>,
}

/// The encoders that a system offers, hardware first, the software encoder
/// always last.
pub open spec fn available_encoders(report: HardwareReport) -> Seq<AV1Encoder> {
    (if nvidia_encodes_av1(report) {
        seq![AV1Encoder::Nvenc]
    } else {
        Seq::empty()
    }) + (if intel_encodes_av1(report) {
        seq![AV1Encoder::Qsv]
    } else {
        Seq::empty()
    }) + (if amd_encodes_av1(report) {
        seq![AV1Encoder::Amf]
    } else {
        Seq::empty()
    }) + seq![AV1Encoder::SvtAv1]
}

/// The encoder to use of those on offer: the first, or the software
/// encoder where none is offered.
pub open spec fn selected(available: Seq<AV1Encoder>) -> AV1Encoder {
    if available.len() > 0 {
        available[0]
    } else {
        AV1Encoder::SvtAv1
    }
}

impl EncoderConfig {
    /// Create a new encoder config for the hardware that was found. The
    /// quality check is always enabled, with the default threshold.
    pub fn new(report: &HardwareReport) -> (config: Self)
        ensures
            config.selected_encoder == selected(available_encoders(*report)),
            config.run_vmaf,
            config.vmaf_threshold == Some(DEFAULT_VMAF_THRESHOLD),
    {
        let available_encoders = detect_available_encoders(report);
        let selected_encoder = select_encoder(available_encoders.as_slice());
        EncoderConfig {
            selected_encoder,
            run_vmaf: true,
            vmaf_threshold: Some(DEFAULT_VMAF_THRESHOLD),
        }
    }
}

/// Detect available AV1 encoders
pub fn detect_available_encoders(report: &HardwareReport) -> (encoders: Vec<AV1Encoder>)
    ensures
        encoders@ == available_encoders(*report),
{
    let mut encoders: Vec<AV1Encoder> = Vec::new();
    if has_nvidia_av1_support(report) {
        encoders.push(AV1Encoder::Nvenc);
    }
    if has_intel_av1_support(report) {
        encoders.push(AV1Encoder::Qsv);
    }
    if has_amd_av1_support(report) {
        encoders.push(AV1Encoder::Amf);
    }
    encoders.push(AV1Encoder::SvtAv1);
    assert(encoders@ =~= available_encoders(*report));
    encoders
}

/// Check NVIDIA GPU AV1 encoding support
pub fn has_nvidia_av1_support(report: &HardwareReport) -> (found: bool)
    ensures
        found == nvidia_encodes_av1(*report),
{
    has_nvidia_av1(report)
}

/// Check Intel GPU AV1 encoding support
pub fn has_intel_av1_support(report: &HardwareReport) -> (found: bool)
    ensures
        found == intel_encodes_av1(*report),
{
    has_intel_av1(report)
}

/// Check AMD GPU AV1 encoding support
pub fn has_amd_av1_support(report: &HardwareReport) -> (found: bool)
    ensures
        found == amd_encodes_av1(*report),
{
    has_amd_av1(report)
}

/// Select available encoder: the hardware encoder if present, or software
/// as a fallback
pub fn select_encoder(available: &[AV1Encoder]) -> (encoder: AV1Encoder)
    ensures
        encoder == selected(available@),
{
    if available.len() > 0 {
        available[0]
    } else {
        AV1Encoder::SvtAv1
    }
}

/// Quality profile for encoding
#[derive(Debug, Clone, Copy, PartialEq, Eq, Structural)]
pub enum QualityProfile {
    HD1080p,
    HD1080pHDR,
    UHD2160p,
    UHD2160pHDR,
}

/// Content type for optimized encoding parameters
#[derive(Debug, Clone, Copy, PartialEq, Eq, Structural)]
pub enum ContentType {
    /// Live action footage
    LiveAction,
    /// Animation / cartoon content
    Animation,
}

impl Default for ContentType {
    fn default() -> (content: Self)
        ensures
            content == ContentType::LiveAction,
    {
        ContentType::LiveAction
    }
}

/// A file name suggests animation when its lowercase form holds one of
/// the words for it.
pub open spec fn suggests_animation(filename: Seq<char>) -> bool {
    let lower = lowercase_of(filename);
    has_substring(lower, "anime"@) || has_substring(lower, "animation"@) || has_substring(
        lower,
        "cartoon"@,
    ) || has_substring(lower, "animated"@)
}

impl ContentType {
    /// Detect content type from filename (basic heuristic)
    pub fn from_filename(filename: &str) -> (content: Self)
        ensures
            content == (if suggests_animation(filename@) {
                ContentType::Animation
            } else {
                ContentType::LiveAction
            }),
    {
        let lower = to_lowercase(filename);
        let l = lower.as_str();
        if str_contains(l, "anime") || str_contains(l, "animation") || str_contains(l, "cartoon")
            || str_contains(l, "animated") {
            ContentType::Animation
        } else {
            ContentType::LiveAction
        }
    }
}

/// The rate-control value of SVT-AV1 for a profile.
pub open spec fn svtav1_crf(profile: QualityProfile) -> Seq<char> {
    match profile {
        QualityProfile::HD1080p => "24"@,
        QualityProfile::HD1080pHDR => "25"@,
        QualityProfile::UHD2160p => "25"@,
        QualityProfile::UHD2160pHDR => "24"@,
    }
}

/// The SVT-AV1 tuning for a profile and a kind of content: film grain
/// synthesis for live action where the profile asks for grain, else none,
/// with temporal filtering.
pub open spec fn svtav1_tuning(profile: QualityProfile, content_type: ContentType) -> Seq<char> {
    if content_type == ContentType::Animation {
        "tune=0:film-grain=0:enable-overlays=1:scd=1:enable-tf=1"@
    } else {
        match profile {
            QualityProfile::HD1080p => "tune=0:film-grain=0:enable-overlays=1:scd=1:enable-tf=1"@,
            QualityProfile::HD1080pHDR =>
                "tune=0:film-grain=4:film-grain-denoise=1:enable-overlays=1:scd=1"@,
            QualityProfile::UHD2160p =>
                "tune=0:film-grain=5:film-grain-denoise=1:enable-overlays=1:scd=1"@,
            QualityProfile::UHD2160pHDR =>
                "tune=0:film-grain=6:film-grain-denoise=1:enable-overlays=1:scd=1"@,
        }
    }
}

/// The quality options of SVT-AV1.
pub open spec fn svtav1_options(profile: QualityProfile, content_type: ContentType) -> Seq<
    Seq<char>,
> {
    seq![
        "-crf"@,
        svtav1_crf(profile),
        "-preset"@,
        "4"@,
        "-svtav1-params"@,
        svtav1_tuning(profile, content_type),
    ]
}

/// The quality options of NVENC.
pub open spec fn nvenc_options(profile: QualityProfile) -> Seq<Seq<char>> {
    let (cq, lookahead) = match profile {
        QualityProfile::HD1080p => ("24"@, "32"@),
        QualityProfile::HD1080pHDR => ("23"@, "32"@),
        QualityProfile::UHD2160p => ("25"@, "48"@),
        QualityProfile::UHD2160pHDR => ("22"@, "48"@),
    };
    seq![
        "-cq"@,
        cq,
        "-preset"@,
        "p7"@,
        "-tune"@,
        "hq"@,
        "-multipass"@,
        "fullres"@,
        "-rc-lookahead"@,
        lookahead,
        "-spatial-aq"@,
        "1"@,
        "-temporal-aq"@,
        "1"@,
    ]
}

/// The quality value that Quick Sync and AMF use for a profile.
pub open spec fn hardware_quality(profile: QualityProfile) -> Seq<char> {
    match profile {
        QualityProfile::HD1080p => "24"@,
        QualityProfile::HD1080pHDR => "23"@,
        QualityProfile::UHD2160p => "25"@,
        QualityProfile::UHD2160pHDR => "22"@,
    }
}

/// The quality options of Quick Sync.
pub open spec fn qsv_options(profile: QualityProfile) -> Seq<Seq<char>> {
    seq![
        "-global_quality"@,
        hardware_quality(profile),
        "-preset"@,
        "veryslow"@,
        "-look_ahead"@,
        "1"@,
        "-look_ahead_depth"@,
        "40"@,
    ]
}

/// The quality options of AMF.
pub open spec fn amf_options(profile: QualityProfile) -> Seq<Seq<char>> {
    seq!["-quality"@, hardware_quality(profile), "-usage"@, "transcoding"@, "-rc"@, "cqp"@]
}

/// The quality options of an encoder for a profile and a kind of content.
pub open spec fn quality_options(
    encoder: AV1Encoder,
    profile: QualityProfile,
    content_type: ContentType,
) -> Seq<Seq<char>> {
    match encoder {
        AV1Encoder::SvtAv1 => svtav1_options(profile, content_type),
        AV1Encoder::Nvenc => nvenc_options(profile),
        AV1Encoder::Qsv => qsv_options(profile),
        AV1Encoder::Amf => amf_options(profile),
    }
}

/// The colour options of an HDR profile: BT.2020 with the HLG curve where
/// the source has it, else with PQ, and the metadata of the source. None
/// for an SDR profile.
pub open spec fn hdr_options(profile: QualityProfile, transfer: Option<Seq<char>>) -> Seq<
    Seq<char>,
> {
    if profile == QualityProfile::HD1080pHDR || profile == QualityProfile::UHD2160pHDR {
        seq![
            "-color_primaries"@,
            "bt2020"@,
            "-color_trc"@,
            if transfer == Some("arib-std-b67"@) {
                "arib-std-b67"@
            } else {
                "smpte2084"@
            },
            "-colorspace"@,
            "bt2020nc"@,
            "-map_metadata"@,
            "0"@,
        ]
    } else {
        Seq::empty()
    }
}

/// The options that turn Dolby Vision into HDR10.
pub open spec fn dv_to_hdr10_options() -> Seq<Seq<char>> {
    seq![
        "-vf"@,
        "setparams=colorspace=bt2020nc:color_primaries=bt2020:color_trc=smpte2084"@,
        "-color_primaries"@,
        "bt2020"@,
        "-color_trc"@,
        "smpte2084"@,
        "-colorspace"@,
        "bt2020nc"@,
    ]
}

/// Get quality parameters for a specific encoder and profile
pub fn get_quality_params(
    encoder: AV1Encoder,
    profile: QualityProfile,
    content_type: ContentType,
) -> (args: Vec<String>)
    ensures
        args.deep_view() == quality_options(encoder, profile, content_type),
{
    match encoder {
        AV1Encoder::SvtAv1 => get_svtav1_params(profile, content_type),
        AV1Encoder::Nvenc => get_nvenc_params(profile),
        AV1Encoder::Qsv => get_qsv_params(profile),
        AV1Encoder::Amf => get_amf_params(profile),
    }
}

/// SVT-AV1 parameters: a low rate-control value, and film grain synthesis
/// to mask compression artifacts in live action
pub fn get_svtav1_params(profile: QualityProfile, content_type: ContentType) -> (args: Vec<String>)
    ensures
        args.deep_view() == svtav1_options(profile, content_type),
{
    let crf = match profile {
        QualityProfile::HD1080p => "24",
        QualityProfile::HD1080pHDR => "25",
        QualityProfile::UHD2160p => "25",
        QualityProfile::UHD2160pHDR => "24",
    };
    let plain = "tune=0:film-grain=0:enable-overlays=1:scd=1:enable-tf=1";
    let tuning = match content_type {
        ContentType::Animation => plain,
        ContentType::LiveAction => match profile {
            QualityProfile::HD1080p => plain,
            QualityProfile::HD1080pHDR =>
                "tune=0:film-grain=4:film-grain-denoise=1:enable-overlays=1:scd=1",
            QualityProfile::UHD2160p =>
                "tune=0:film-grain=5:film-grain-denoise=1:enable-overlays=1:scd=1",
            QualityProfile::UHD2160pHDR =>
                "tune=0:film-grain=6:film-grain-denoise=1:enable-overlays=1:scd=1",
        },
    };
    let args = strings_of(&["-crf", crf, "-preset", "4", "-svtav1-params", tuning]);
    assert(args.deep_view() =~= svtav1_options(profile, content_type));
    args
}

/// NVENC parameters: the slowest preset, multipass, lookahead and adaptive
/// quantization
pub fn get_nvenc_params(profile: QualityProfile) -> (args: Vec<String>)
    ensures
        args.deep_view() == nvenc_options(profile),
{
    let (cq, lookahead) = match profile {
        QualityProfile::HD1080p => ("24", "32"),
        QualityProfile::HD1080pHDR => ("23", "32"),
        QualityProfile::UHD2160p => ("25", "48"),
        QualityProfile::UHD2160pHDR => ("22", "48"),
    };
    let args = strings_of(
        &[
            "-cq",
            cq,
            "-preset",
            "p7",
            "-tune",
            "hq",
            "-multipass",
            "fullres",
            "-rc-lookahead",
            lookahead,
            "-spatial-aq",
            "1",
            "-temporal-aq",
            "1",
        ],
    );
    assert(args.deep_view() =~= nvenc_options(profile));
    args
}

fn hardware_quality_str(profile: QualityProfile) -> (quality: &'static str)
    ensures
        quality@ == hardware_quality(profile),
{
    match profile {
        QualityProfile::HD1080p => "24",
        QualityProfile::HD1080pHDR => "23",
        QualityProfile::UHD2160p => "25",
        QualityProfile::UHD2160pHDR => "22",
    }
}

/// Intel QSV parameters with optimized quality settings
pub fn get_qsv_params(profile: QualityProfile) -> (args: Vec<String>)
    ensures
        args.deep_view() == qsv_options(profile),
{
    let args = strings_of(
        &[
            "-global_quality",
            hardware_quality_str(profile),
            "-preset",
            "veryslow",
            "-look_ahead",
            "1",
            "-look_ahead_depth",
            "40",
        ],
    );
    assert(args.deep_view() =~= qsv_options(profile));
    args
}

/// AMD AMF parameters with optimized quality settings
pub fn get_amf_params(profile: QualityProfile) -> (args: Vec<String>)
    ensures
        args.deep_view() == amf_options(profile),
{
    let args = strings_of(
        &["-quality", hardware_quality_str(profile), "-usage", "transcoding", "-rc", "cqp"],
    );
    assert(args.deep_view() =~= amf_options(profile));
    args
}

/// Get HDR color parameters with metadata passthrough
pub fn get_hdr_params(profile: QualityProfile, transfer: Option<&str>) -> (args: Vec<String>)
    ensures
        args.deep_view() == hdr_options(
            profile,
            match transfer {
                Some(t) => Some(t@),
                None => None,
            },
        ),
{
    match profile {
        QualityProfile::HD1080pHDR | QualityProfile::UHD2160pHDR => {
            let hlg = match transfer {
                Some(t) => str_eq(t, "arib-std-b67"),
                None => false,
            };
            let color_trc = if hlg {
                "arib-std-b67"
            } else {
                "smpte2084"
            };
            let args = strings_of(
                &[
                    "-color_primaries",
                    "bt2020",
                    "-color_trc",
                    color_trc,
                    "-colorspace",
                    "bt2020nc",
                    "-map_metadata",
                    "0",
                ],
            );
            assert(args.deep_view() =~= hdr_options(
                profile,
                match transfer {
                    Some(t) => Some(t@),
                    None => None,
                },
            ));
            args
        },
        _ => {
            let args: Vec<String> = Vec::new();
            assert(args.deep_view() =~= Seq::<Seq<char>>::empty());
            args
        },
    }
}

/// Get parameters for converting Dolby Vision to HDR10: the base layer is
/// kept with the colour information of HDR10
pub fn get_dv_to_hdr10_params() -> (args: Vec<String>)
    ensures
        args.deep_view() == dv_to_hdr10_options(),
{
    let args = strings_of(
        &[
            "-vf",
            "setparams=colorspace=bt2020nc:color_primaries=bt2020:color_trc=smpte2084",
            "-color_primaries",
            "bt2020",
            "-color_trc",
            "smpte2084",
            "-colorspace",
            "bt2020nc",
        ],
    );
    assert(args.deep_view() =~= dv_to_hdr10_options());
    args
}

/// Check if a resolution represents Dolby Vision content
pub fn is_dolby_vision_resolution(resolution: &Resolution) -> (dolby_vision: bool)
    ensures
        dolby_vision == resolution.dolby_vision(),
{
    matches!(resolution, Resolution::HD1080pDV | Resolution::UHD2160pDV)
}

} // verus!
