//! What the analysis of a video holds for the choice of a profile.

use crate::analyzer::metadata::resolution_text;
use crate::analyzer::HdrType;
use crate::converter::EncoderProfile;
use crate::text::decimal_string;
use vstd::prelude::*;

verus! {

/// Video analysis result
#[derive(Debug, Clone, Copy, PartialEq, Eq, Structural)]
pub struct VideoAnalysis {
    pub width: u32,
    pub height: u32,
    pub hdr_type: HdrType,
}

impl VideoAnalysis {
    /// The profile of a video: UHD from 3000 columns or 1800 lines on, and
    /// HDR for every dynamic range but SDR.
    pub open spec fn chosen_profile(&self) -> EncoderProfile {
        let is_4k = self.width >= 3000 || self.height >= 1800;
        if is_4k {
            if self.hdr_type.hdr() {
                EncoderProfile::UHD2160pHDR
            } else {
                EncoderProfile::UHD2160p
            }
        } else {
            if self.hdr_type.hdr() {
                EncoderProfile::HD1080pHDR
            } else {
                EncoderProfile::HD1080p
            }
        }
    }

    /// Determine the encoding profile based on analysis
    pub fn profile(&self) -> (profile: EncoderProfile)
        ensures
            profile == self.chosen_profile(),
    {
        let is_4k = self.width >= 3000 || self.height >= 1800;
        let is_hdr = self.hdr_type.is_hdr();
        if is_4k {
            if is_hdr {
                EncoderProfile::UHD2160pHDR
            } else {
                EncoderProfile::UHD2160p
            }
        } else {
            if is_hdr {
                EncoderProfile::HD1080pHDR
            } else {
                EncoderProfile::HD1080p
            }
        }
    }

    /// Get resolution string for display
    pub fn resolution_string(&self) -> (s: String)
        ensures
            s@ == resolution_text(self.width, self.height),
    {
        let mut s = decimal_string(self.width as u64);
        s.append("x");
        s.append(decimal_string(self.height as u64).as_str());
        s
    }

    /// Get HDR status string for display
    pub fn hdr_string(&self) -> (name: &'static str)
        ensures
            name@ == self.hdr_type.name(),
    {
        self.hdr_type.display_string()
    }
}

} // verus!
