use crate::text::{lowercase_of, str_eq, to_lowercase};
use vstd::prelude::*;

verus! {

/// Resolution tier classification
#[derive(Debug, Clone, Copy, PartialEq, Eq, Structural)]
pub enum ResolutionTier {
    /// SD: below 720p
    SD,
    /// HD: 720p
    HD,
    /// Full HD: 1080p
    FullHD,
    /// UHD: 4K
    Uhd,
    /// Above 4K
    Above4K,
}

impl ResolutionTier {
    /// The tier of a frame size: the highest tier whose width or height bound
    /// the frame reaches.
    pub open spec fn of(width: u32, height: u32) -> ResolutionTier {
        if width >= 4097 || height >= 2161 {
            ResolutionTier::Above4K
        } else if width >= 3000 || height >= 1800 {
            ResolutionTier::Uhd
        } else if width >= 1920 || height >= 721 {
            ResolutionTier::FullHD
        } else if width >= 1280 || height >= 600 {
            ResolutionTier::HD
        } else {
            ResolutionTier::SD
        }
    }

    /// The name shown for a tier.
    pub open spec fn name(self) -> Seq<char> {
        match self {
            ResolutionTier::SD => "SD"@,
            ResolutionTier::HD => "HD 720p"@,
            ResolutionTier::FullHD => "Full HD 1080p"@,
            ResolutionTier::Uhd => "4K UHD"@,
            ResolutionTier::Above4K => "Above 4K"@,
        }
    }

    /// Classify resolution into a tier
    pub fn from_dimensions(width: u32, height: u32) -> (tier: Self)
        ensures
            tier == Self::of(width, height),
    {
        if width >= 4097 || height >= 2161 {
            ResolutionTier::Above4K
        } else if width >= 3000 || height >= 1800 {
            ResolutionTier::Uhd
        } else if width >= 1920 || height >= 721 {
            ResolutionTier::FullHD
        } else if width >= 1280 || height >= 600 {
            ResolutionTier::HD
        } else {
            ResolutionTier::SD
        }
    }

    pub fn display_name(&self) -> (name: &'static str)
        ensures
            name@ == self.name(),
    {
        match self {
            ResolutionTier::SD => "SD",
            ResolutionTier::HD => "HD 720p",
            ResolutionTier::FullHD => "Full HD 1080p",
            ResolutionTier::Uhd => "4K UHD",
            ResolutionTier::Above4K => "Above 4K",
        }
    }
}

/// A codec name denotes AV1 when its lowercase form is one of the four names
/// under which AV1 streams and encoders are reported.
pub open spec fn names_av1(codec_name: Seq<char>) -> bool {
    let lower = lowercase_of(codec_name);
    lower == "av1"@ || lower == "av01"@ || lower == "libaom-av1"@ || lower == "libsvtav1"@
}

/// Check if a codec name indicates AV1
pub fn is_av1_codec(codec_name: &str) -> (av1: bool)
    ensures
        av1 == names_av1(codec_name@),
{
    let lower = to_lowercase(codec_name);
    str_eq(lower.as_str(), "av1") || str_eq(lower.as_str(), "av01") || str_eq(
        lower.as_str(),
        "libaom-av1",
    ) || str_eq(lower.as_str(), "libsvtav1")
}

} // verus!
