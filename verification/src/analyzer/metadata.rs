use crate::text::{decimal, decimal_string, three_decimals, three_decimals_string};
use vstd::prelude::*;

verus! {

/// HDR type classification
#[derive(Debug, Clone, Copy, PartialEq, Eq, Structural)]
pub enum HdrType {
    /// Standard Dynamic Range
    Sdr,
    /// PQ (Perceptual Quantizer) - HDR10/HDR10+
    Pq,
    /// HLG (Hybrid Log-Gamma)
    Hlg,
    /// Dolby Vision
    DolbyVision,
}

impl Default for HdrType {
    fn default() -> (hdr: Self)
        ensures
            hdr == HdrType::Sdr,
    {
        HdrType::Sdr
    }
}

impl HdrType {
    /// Every type but SDR is an HDR format.
    pub open spec fn hdr(&self) -> bool {
        *self != HdrType::Sdr
    }

    /// The name shown for a dynamic range.
    pub open spec fn name(self) -> Seq<char> {
        match self {
            HdrType::Sdr => "SDR"@,
            HdrType::Pq => "HDR10"@,
            HdrType::Hlg => "HLG"@,
            HdrType::DolbyVision => "Dolby Vision"@,
        }
    }

    /// Check if this is any HDR format
    #[verifier::when_used_as_spec(hdr)]
    pub fn is_hdr(&self) -> (hdr: bool)
        ensures
            hdr == self.hdr(),
    {
        !matches!(self, HdrType::Sdr)
    }

    /// Get display string for this HDR type
    pub fn display_string(&self) -> (name: &'static str)
        ensures
            name@ == self.name(),
    {
        match self {
            HdrType::Sdr => "SDR",
            HdrType::Pq => "HDR10",
            HdrType::Hlg => "HLG",
            HdrType::DolbyVision => "Dolby Vision",
        }
    }
}

/// Video metadata from analysis.
///
/// The duration is held in microseconds, the unit in which the encoder
/// reports how far it has come.
#[derive(Debug, Clone)]
pub struct VideoMetadata {
    pub width: u32,
    pub height: u32,
    pub hdr_type: HdrType,
    pub codec_name: String,
    pub pixel_format: Option<String>,
    pub frame_rate_num: u32,
    pub frame_rate_den: u32,
    pub duration_us: u64,
    pub bitrate: Option<u64>,
}

/// Width and height written as `WxH`.
pub open spec fn resolution_text(width: u32, height: u32) -> Seq<char> {
    decimal(width as nat) + "x"@ + decimal(height as nat)
}

/// A frame rate in thousandths of a frame per second, rounded to the
/// nearest thousandth.
pub open spec fn rate_thousandths(num: u32, den: u32) -> nat
    recommends
        den > 0,
{
    ((num * 1000 + den / 2) / (den as int)) as nat
}

/// The frame rate shown for a video: frames per second with three decimal
/// places; `Unknown` where the rate is not above zero or rounds to zero.
pub open spec fn frame_rate_text(num: u32, den: u32) -> Seq<char> {
    if den > 0 && num > 0 && rate_thousandths(num, den) > 0 {
        three_decimals(rate_thousandths(num, den)) + " fps"@
    } else {
        "Unknown"@
    }
}

/// Computes a frame rate in thousandths of a frame per second.
pub fn frame_rate_thousandths(num: u32, den: u32) -> (thousandths: u64)
    requires
        den > 0,
    ensures
        thousandths == rate_thousandths(num, den),
{
    ((num as u64) * 1000 + (den as u64) / 2) / (den as u64)
}

impl VideoMetadata {
    /// Get resolution string
    pub fn resolution_string(&self) -> (s: String)
        ensures
            s@ == resolution_text(self.width, self.height),
    {
        let mut s = decimal_string(self.width as u64);
        s.append("x");
        let h = decimal_string(self.height as u64);
        s.append(h.as_str());
        s
    }

    /// Get HDR status string
    pub fn hdr_string(&self) -> (name: &'static str)
        ensures
            name@ == self.hdr_type.name(),
    {
        self.hdr_type.display_string()
    }

    /// Get frame rate string
    pub fn frame_rate_string(&self) -> (s: String)
        ensures
            s@ == frame_rate_text(self.frame_rate_num, self.frame_rate_den),
    {
        if self.frame_rate_den > 0 && self.frame_rate_num > 0 {
            let thousandths = frame_rate_thousandths(self.frame_rate_num, self.frame_rate_den);
            if thousandths > 0 {
                let mut s = three_decimals_string(thousandths);
                s.append(" fps");
                return s;
            }
        }
        "Unknown".to_string()
    }

    /// Both hold the same data.
    pub open spec fn same_data(&self, other: &VideoMetadata) -> bool {
        &&& self.width == other.width
        &&& self.height == other.height
        &&& self.hdr_type == other.hdr_type
        &&& self.codec_name@ == other.codec_name@
        &&& self.pixel_format.deep_view() == other.pixel_format.deep_view()
        &&& self.frame_rate_num == other.frame_rate_num
        &&& self.frame_rate_den == other.frame_rate_den
        &&& self.duration_us == other.duration_us
        &&& self.bitrate == other.bitrate
    }

    /// A copy with the same contents.
    pub fn duplicate(&self) -> (copy: Self)
        ensures
            copy.same_data(self),
    {
        VideoMetadata {
            width: self.width,
            height: self.height,
            hdr_type: self.hdr_type,
            codec_name: self.codec_name.clone(),
            pixel_format: match &self.pixel_format {
                Some(p) => Some(p.clone()),
                None => None,
            },
            frame_rate_num: self.frame_rate_num,
            frame_rate_den: self.frame_rate_den,
            duration_us: self.duration_us,
            bitrate: self.bitrate,
        }
    }
}

} // verus!
