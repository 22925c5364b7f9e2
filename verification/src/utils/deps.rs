use crate::text::{has_substring, str_contains};
use vstd::prelude::*;

verus! {

/// Status of required and optional dependencies
#[derive(Debug, Clone, Copy, PartialEq, Eq, Structural)]
pub struct DependencyStatus {
    pub ffmpeg: bool,
    pub ffprobe: bool,
    pub ab_av1: bool,
    pub vmaf: bool,
}

/// The filter list of FFmpeg names the VMAF filter.
pub open spec fn lists_vmaf(filters: Option<Seq<char>>) -> bool {
    match filters {
        Some(text) => has_substring(text, "libvmaf"@),
        None => false,
    }
}

impl DependencyStatus {
    /// Check all dependencies: whether each tool answered a request for its
    /// version, and what FFmpeg listed as its filters, if it listed any.
    pub fn check(ffmpeg: bool, ffprobe: bool, ab_av1: bool, filters: Option<&str>) -> (status: Self)
        ensures
            status == (DependencyStatus {
                ffmpeg,
                ffprobe,
                ab_av1,
                vmaf: lists_vmaf(
                    match filters {
                        Some(text) => Some(text@),
                        None => None,
                    },
                ),
            }),
    {
        DependencyStatus { ffmpeg, ffprobe, ab_av1, vmaf: check_vmaf_available(filters) }
    }

    /// Check if the minimum required dependencies are available
    pub fn has_required(&self) -> (ok: bool)
        ensures
            ok == (self.ffmpeg && self.ffprobe),
    {
        self.ffmpeg && self.ffprobe
    }
}

/// Check if VMAF is available in FFmpeg, by its list of filters
pub fn check_vmaf_available(filters: Option<&str>) -> (found: bool)
    ensures
        found == lists_vmaf(
            match filters {
                Some(text) => Some(text@),
                None => None,
            },
        ),
{
    match filters {
        Some(text) => str_contains(text, "libvmaf"),
        None => false,
    }
}

} // verus!
