use crate::text::{has_substring, lowercase_of, str_contains, to_lowercase};
use vstd::prelude::*;

verus! {

/// AV1 encoders
#[derive(Debug, Clone, Copy, PartialEq, Eq, Structural)]
pub enum Encoder {
    /// NVIDIA NVENC
    Nvenc,
    /// Intel Quick Sync Video (Arc GPUs)
    Qsv,
    /// AMD AMF
    Amf,
    /// SVT-AV1 software encoder
    SvtAv1,
}

impl Encoder {
    /// The name under which FFmpeg knows the encoder.
    pub open spec fn codec_name(self) -> Seq<char> {
        match self {
            Encoder::Nvenc => "av1_nvenc"@,
            Encoder::Qsv => "av1_qsv"@,
            Encoder::Amf => "av1_amf"@,
            Encoder::SvtAv1 => "libsvtav1"@,
        }
    }

    /// The name shown for the encoder.
    pub open spec fn label(self) -> Seq<char> {
        match self {
            Encoder::Nvenc => "NVENC (NVIDIA)"@,
            Encoder::Qsv => "Quick Sync (Intel)"@,
            Encoder::Amf => "AMF (AMD)"@,
            Encoder::SvtAv1 => "SVT-AV1 (Software)"@,
        }
    }

    /// FFmpeg encoder name
    pub fn ffmpeg_name(&self) -> (name: &'static str)
        ensures
            name@ == self.codec_name(),
    {
        match self {
            Encoder::Nvenc => "av1_nvenc",
            Encoder::Qsv => "av1_qsv",
            Encoder::Amf => "av1_amf",
            Encoder::SvtAv1 => "libsvtav1",
        }
    }

    /// Display name for UI
    pub fn display_name(&self) -> (name: &'static str)
        ensures
            name@ == self.label(),
    {
        match self {
            Encoder::Nvenc => "NVENC (NVIDIA)",
            Encoder::Qsv => "Quick Sync (Intel)",
            Encoder::Amf => "AMF (AMD)",
            Encoder::SvtAv1 => "SVT-AV1 (Software)",
        }
    }
}

/// What the system's tools said about its graphics hardware. Each field
/// holds the output of one tool, or nothing where the tool was not run or
/// gave no usable answer.
#[derive(Debug, Clone)]
pub struct HardwareReport {
    /// The GPU names listed by `nvidia-smi`, where it ran and succeeded
    pub nvidia_smi: Option<String>,
    /// The device list of `lspci`
    pub lspci: Option<String>,
    /// The capabilities listed by `vainfo`
    pub vainfo: Option<String>,
    /// The video controllers listed by `wmic`
    pub wmic: Option<String>,
}

/// The lowercase form of a report mentions `word`.
pub open spec fn mentions(report: Option<Seq<char>>, word: Seq<char>) -> bool {
    match report {
        Some(text) => has_substring(lowercase_of(text), word),
        None => false,
    }
}

/// The GPU names include a model that encodes AV1: an RTX 40 or 50, the
/// Ada architecture, an L40 or an L4.
pub open spec fn nvidia_encodes_av1(report: HardwareReport) -> bool {
    let smi = report.nvidia_smi.deep_view();
    mentions(smi, "rtx 40"@) || mentions(smi, "rtx 50"@) || mentions(smi, "ada"@) || mentions(
        smi,
        "l40"@,
    ) || mentions(smi, "l4"@)
}

/// The device list shows an Intel Arc, or the driver offers an AV1 encode
/// entry point.
pub open spec fn intel_encodes_av1(report: HardwareReport) -> bool {
    let lspci = report.lspci.deep_view();
    let vainfo = report.vainfo.deep_view();
    let wmic = report.wmic.deep_view();
    (mentions(lspci, "intel"@) && mentions(lspci, "arc"@)) || (mentions(
        vainfo,
        "vaentrypointencslice"@,
    ) && mentions(vainfo, "av1"@)) || (mentions(wmic, "intel"@) && mentions(wmic, "arc"@))
}

/// The device list shows an AMD card of the RDNA3 generation, or a Radeon
/// driver offers an AV1 encode entry point.
pub open spec fn amd_encodes_av1(report: HardwareReport) -> bool {
    let lspci = report.lspci.deep_view();
    let vainfo = report.vainfo.deep_view();
    let wmic = report.wmic.deep_view();
    ((mentions(lspci, "amd"@) || mentions(lspci, "radeon"@)) && (mentions(lspci, "navi 31"@)
        || mentions(lspci, "navi 32"@) || mentions(lspci, "navi 33"@) || mentions(
        lspci,
        "rx 7"@,
    ))) || (mentions(vainfo, "radeon"@) && mentions(vainfo, "vaentrypointencslice"@) && mentions(
        vainfo,
        "av1"@,
    )) || mentions(wmic, "rx 7"@)
}

/// The encoder to prefer on a system: hardware before software, NVIDIA
/// before Intel before AMD.
pub open spec fn preferred_encoder(report: HardwareReport) -> Encoder {
    if nvidia_encodes_av1(report) {
        Encoder::Nvenc
    } else if intel_encodes_av1(report) {
        Encoder::Qsv
    } else if amd_encodes_av1(report) {
        Encoder::Amf
    } else {
        Encoder::SvtAv1
    }
}

/// The lowercase form of a report, where there is one.
pub fn lowered(report: &Option<String>) -> (lower: Option<String>)
    ensures
        lower.deep_view() == (match report.deep_view() {
            Some(text) => Some(lowercase_of(text)),
            None => None,
        }),
{
    match report {
        Some(text) => Some(to_lowercase(text.as_str())),
        None => None,
    }
}

/// Tells whether a lowercase report holds `word`.
pub fn holds(lower: &Option<String>, word: &str) -> (found: bool)
    ensures
        found == (match lower.deep_view() {
            Some(text) => has_substring(text, word@),
            None => false,
        }),
{
    match lower {
        Some(text) => str_contains(text.as_str(), word),
        None => false,
    }
}

/// Detect available AV1 encoder
///
/// Priority: Hardware > Software (SVT-AV1)
pub fn detect_encoder(report: &HardwareReport) -> (encoder: Encoder)
    ensures
        encoder == preferred_encoder(*report),
{
    if has_nvidia_av1(report) {
        Encoder::Nvenc
    } else if has_intel_av1(report) {
        Encoder::Qsv
    } else if has_amd_av1(report) {
        Encoder::Amf
    } else {
        Encoder::SvtAv1
    }
}

/// Tells whether an NVIDIA GPU that encodes AV1 was reported.
pub fn has_nvidia_av1(report: &HardwareReport) -> (found: bool)
    ensures
        found == nvidia_encodes_av1(*report),
{
    let smi = lowered(&report.nvidia_smi);
    holds(&smi, "rtx 40") || holds(&smi, "rtx 50") || holds(&smi, "ada") || holds(&smi, "l40")
        || holds(&smi, "l4")
}

/// Tells whether an Intel GPU that encodes AV1 was reported.
pub fn has_intel_av1(report: &HardwareReport) -> (found: bool)
    ensures
        found == intel_encodes_av1(*report),
{
    let lspci = lowered(&report.lspci);
    if holds(&lspci, "intel") && holds(&lspci, "arc") {
        return true;
    }
    let vainfo = lowered(&report.vainfo);
    if holds(&vainfo, "vaentrypointencslice") && holds(&vainfo, "av1") {
        return true;
    }
    let wmic = lowered(&report.wmic);
    holds(&wmic, "intel") && holds(&wmic, "arc")
}

/// Tells whether an AMD GPU that encodes AV1 was reported.
pub fn has_amd_av1(report: &HardwareReport) -> (found: bool)
    ensures
        found == amd_encodes_av1(*report),
{
    let lspci = lowered(&report.lspci);
    if (holds(&lspci, "amd") || holds(&lspci, "radeon")) && (holds(&lspci, "navi 31") || holds(
        &lspci,
        "navi 32",
    ) || holds(&lspci, "navi 33") || holds(&lspci, "rx 7")) {
        return true;
    }
    let vainfo = lowered(&report.vainfo);
    if holds(&vainfo, "radeon") && holds(&vainfo, "vaentrypointencslice") && holds(
        &vainfo,
        "av1",
    ) {
        return true;
    }
    let wmic = lowered(&report.wmic);
    holds(&wmic, "rx 7")
}

} // verus!
