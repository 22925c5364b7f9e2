use crate::analyzer::HdrType;
use crate::error::AppError;
use crate::text::{
    concat, decimal, decimal_string, has_substring, str_contains, strings_of, two_decimals,
    two_decimals_string,
};
use vstd::prelude::*;

verus! {

/// VMAF quality result. The scores are in hundredths: 9 542 is a score of
/// 95.42 on the scale from 0 to 100.
#[derive(Debug, Clone, Copy, PartialEq, Eq, Structural)]
pub struct VmafResult {
    /// Mean score (higher is better)
    pub score: u32,
    /// Minimum frame score
    pub min_score: u32,
    /// Maximum frame score
    pub max_score: u32,
}

/// The grade of a score, by its whole part.
pub open spec fn grade_of(score: u32) -> Seq<char> {
    let whole = score / 100;
    if 95 <= whole <= 100 {
        "Excellent"@
    } else if 90 <= whole <= 94 {
        "Very Good"@
    } else if 80 <= whole <= 89 {
        "Good"@
    } else if 70 <= whole <= 79 {
        "Fair"@
    } else if 60 <= whole <= 69 {
        "Poor"@
    } else {
        "Bad"@
    }
}

impl VmafResult {
    /// Check if quality meets threshold
    pub fn meets_threshold(&self, threshold: u32) -> (meets: bool)
        ensures
            meets == (self.score >= threshold),
    {
        self.score >= threshold
    }

    /// The result in one line: the score with its grade, and the range of
    /// the frame scores.
    pub open spec fn summary_text(&self) -> Seq<char> {
        "VMAF: "@ + two_decimals(self.score as nat) + " ("@ + grade_of(self.score) + ") [min: "@
            + two_decimals(self.min_score as nat) + ", max: "@ + two_decimals(
            self.max_score as nat,
        ) + "]"@
    }

    /// Writes the result in one line.
    pub fn summary(&self) -> (s: String)
        ensures
            s@ == self.summary_text(),
    {
        let mut s = concat("VMAF: ", two_decimals_string(self.score as u64).as_str());
        s.append(" (");
        s.append(self.quality_grade());
        s.append(") [min: ");
        s.append(two_decimals_string(self.min_score as u64).as_str());
        s.append(", max: ");
        s.append(two_decimals_string(self.max_score as u64).as_str());
        s.append("]");
        s
    }

    /// Get human-readable quality grade
    pub fn quality_grade(&self) -> (grade: &'static str)
        ensures
            grade@ == grade_of(self.score),
    {
        let whole = self.score / 100;
        if 95 <= whole && whole <= 100 {
            "Excellent"
        } else if 90 <= whole && whole <= 94 {
            "Very Good"
        } else if 80 <= whole && whole <= 89 {
            "Good"
        } else if 70 <= whole && whole <= 79 {
            "Fair"
        } else if 60 <= whole && whole <= 69 {
            "Poor"
        } else {
            "Bad"
        }
    }
}

/// The colour in which a score is shown.
#[derive(Debug, Clone, Copy, PartialEq, Eq, Structural)]
pub enum ScoreColor {
    Cyan,
    Green,
    Yellow,
    Orange,
    Red,
}

/// The colour of a score, by its whole part: cyan from 95, green from 90,
/// yellow from 85, orange from 80, and red below that and above 100.
pub open spec fn color_of(score: u32) -> ScoreColor {
    let whole = score / 100;
    if 95 <= whole <= 100 {
        ScoreColor::Cyan
    } else if 90 <= whole <= 94 {
        ScoreColor::Green
    } else if 85 <= whole <= 89 {
        ScoreColor::Yellow
    } else if 80 <= whole <= 84 {
        ScoreColor::Orange
    } else {
        ScoreColor::Red
    }
}

/// The words for a score, by its whole part.
pub open spec fn description_of(score: u32) -> Seq<char> {
    let whole = score / 100;
    if 95 <= whole <= 100 {
        "Excellent"@
    } else if 90 <= whole <= 94 {
        "Very Good"@
    } else if 85 <= whole <= 89 {
        "Good"@
    } else if 80 <= whole <= 84 {
        "Fair"@
    } else if 70 <= whole <= 79 {
        "Poor"@
    } else {
        "Bad"@
    }
}

/// Get color for a score or threshold
pub fn get_vmaf_color(score: u32) -> (color: ScoreColor)
    ensures
        color == color_of(score),
{
    let whole = score / 100;
    if 95 <= whole && whole <= 100 {
        ScoreColor::Cyan
    } else if 90 <= whole && whole <= 94 {
        ScoreColor::Green
    } else if 85 <= whole && whole <= 89 {
        ScoreColor::Yellow
    } else if 80 <= whole && whole <= 84 {
        ScoreColor::Orange
    } else {
        ScoreColor::Red
    }
}

/// Get quality description for a score
pub fn get_quality_description(score: u32) -> (words: &'static str)
    ensures
        words@ == description_of(score),
{
    let whole = score / 100;
    if 95 <= whole && whole <= 100 {
        "Excellent"
    } else if 90 <= whole && whole <= 94 {
        "Very Good"
    } else if 85 <= whole && whole <= 89 {
        "Good"
    } else if 80 <= whole && whole <= 84 {
        "Fair"
    } else if 70 <= whole && whole <= 79 {
        "Poor"
    } else {
        "Bad"
    }
}

/// Configuration options for the measurement
#[derive(Debug, Clone, Copy, PartialEq, Eq, Structural)]
pub struct VmafOptions {
    /// Number of threads to use (0 = auto)
    pub threads: u32,
    /// Subsample rate (1 = every frame, 5 = every 5th frame)
    pub subsample: u32,
}

impl Default for VmafOptions {
    fn default() -> (options: Self)
        ensures
            options == (VmafOptions { threads: 4, subsample: 1 }),
    {
        VmafOptions { threads: 4, subsample: 1 }
    }
}

impl VmafOptions {
    /// Create options optimized for quick estimation (less accurate but
    /// faster)
    pub fn quick() -> (options: Self)
        ensures
            options == (VmafOptions { threads: 4, subsample: 5 }),
    {
        VmafOptions { threads: 4, subsample: 5 }
    }
}

/// The filter graph that compares the two inputs under the given options,
/// with the default model, and writes its result as JSON to `log_path`.
pub open spec fn filter_graph_with(log_path: Seq<char>, options: VmafOptions) -> Seq<char> {
    "[0:v]format=yuv420p,setpts=PTS-STARTPTS[ref];[1:v]format=yuv420p,setpts=PTS-STARTPTS[dist];[ref][dist]libvmaf=log_path="@
        + log_path + ":log_fmt=json:n_threads="@ + decimal(options.threads as nat)
        + ":n_subsample="@ + decimal(options.subsample as nat)
}

/// The filter graph for a measurement under the given options.
pub fn vmaf_filter_with(log_path: &str, options: &VmafOptions) -> (filter: String)
    ensures
        filter@ == filter_graph_with(log_path@, *options),
{
    let mut filter =
        "[0:v]format=yuv420p,setpts=PTS-STARTPTS[ref];[1:v]format=yuv420p,setpts=PTS-STARTPTS[dist];[ref][dist]libvmaf=log_path=".to_string();
    filter.append(log_path);
    filter.append(":log_fmt=json:n_threads=");
    filter.append(decimal_string(options.threads as u64).as_str());
    filter.append(":n_subsample=");
    filter.append(decimal_string(options.subsample as u64).as_str());
    filter
}

/// The name of the file that holds the result of the measurement made by
/// process `process_id`.
pub fn vmaf_result_file_name(process_id: u32) -> (name: String)
    ensures
        name@ == "vmaf_result_"@ + decimal(process_id as nat) + ".json"@,
{
    let mut name = concat("vmaf_result_", decimal_string(process_id as u64).as_str());
    name.append(".json");
    name
}

/// The model option that the measurement is given: the 4K model for frames
/// at least 3840 wide, else the model without enhancement gain for HDR, else
/// none, which selects the default model.
pub open spec fn model_option(width: u32, hdr_type: HdrType) -> Seq<char> {
    if width >= 3840 {
        ":model='version=vmaf_4k_v0.6.1'"@
    } else if hdr_type.hdr() {
        ":model='version=vmaf_v0.6.1neg'"@
    } else {
        Seq::empty()
    }
}

/// The filter graph that compares the two inputs and writes its result as
/// JSON to `log_path`.
pub open spec fn filter_graph(log_path: Seq<char>, width: u32, hdr_type: HdrType) -> Seq<char> {
    "[0:v]format=yuv420p10le,setpts=PTS-STARTPTS[ref];[1:v]format=yuv420p10le,setpts=PTS-STARTPTS[dist];[ref][dist]libvmaf=log_path="@
        + log_path + ":log_fmt=json:n_threads=4:n_subsample=10"@ + model_option(width, hdr_type)
}

/// The arguments of the FFmpeg run that measures `encoded` against
/// `reference`.
pub open spec fn measure_args(reference: Seq<char>, encoded: Seq<char>, filter: Seq<char>) -> Seq<
    Seq<char>,
> {
    seq!["-i"@, reference, "-i"@, encoded, "-lavfi"@, filter, "-f"@, "null"@, "-"@]
}

/// The error output says that this FFmpeg cannot measure VMAF at all.
pub open spec fn reports_missing_vmaf(stderr: Seq<char>) -> bool {
    has_substring(stderr, "No such filter: 'libvmaf'"@) || has_substring(
        stderr,
        "Unknown libvmaf"@,
    ) || has_substring(stderr, "Option model not found"@)
}

/// Check if VMAF is available in the current FFmpeg installation, by its
/// list of filters
pub fn is_vmaf_available(filters: Option<&str>) -> (available: bool)
    ensures
        available == (match filters {
            Some(text) => has_substring(text@, "libvmaf"@),
            None => false,
        }),
{
    match filters {
        Some(text) => str_contains(text, "libvmaf"),
        None => false,
    }
}

/// The model option for a frame width and dynamic range.
pub fn vmaf_model_option(width: u32, hdr_type: HdrType) -> (option: &'static str)
    ensures
        option@ == model_option(width, hdr_type),
{
    proof {
        reveal_strlit("");
        assert(""@ =~= Seq::<char>::empty());
    }
    if width >= 3840 {
        ":model='version=vmaf_4k_v0.6.1'"
    } else if hdr_type.is_hdr() {
        ":model='version=vmaf_v0.6.1neg'"
    } else {
        ""
    }
}

/// The filter graph for a measurement whose result goes to `log_path`.
pub fn vmaf_filter(log_path: &str, width: u32, hdr_type: HdrType) -> (filter: String)
    ensures
        filter@ == filter_graph(log_path@, width, hdr_type),
{
    let mut filter =
        "[0:v]format=yuv420p10le,setpts=PTS-STARTPTS[ref];[1:v]format=yuv420p10le,setpts=PTS-STARTPTS[dist];[ref][dist]libvmaf=log_path=".to_string();
    filter.append(log_path);
    filter.append(":log_fmt=json:n_threads=4:n_subsample=10");
    filter.append(vmaf_model_option(width, hdr_type));
    filter
}

/// The arguments of the FFmpeg run for a measurement.
pub fn vmaf_command_args(reference: &str, encoded: &str, filter: &str) -> (args: Vec<String>)
    ensures
        args.deep_view() == measure_args(reference@, encoded@, filter@),
{
    let args = strings_of(&["-i", reference, "-i", encoded, "-lavfi", filter, "-f", "null", "-"]);
    assert(args.deep_view() =~= measure_args(reference@, encoded@, filter@));
    args
}

/// The error for a measurement run that failed with `stderr`.
pub fn vmaf_failure(stderr: &str) -> (error: AppError)
    ensures
        error matches AppError::Vmaf(text) && text@ == (if reports_missing_vmaf(stderr@) {
            "VMAF not available. FFmpeg must be compiled with libvmaf support."@
        } else {
            "VMAF calculation failed: "@ + stderr@
        }),
{
    if str_contains(stderr, "No such filter: 'libvmaf'") || str_contains(stderr, "Unknown libvmaf")
        || str_contains(stderr, "Option model not found") {
        AppError::Vmaf(
            "VMAF not available. FFmpeg must be compiled with libvmaf support.".to_string(),
        )
    } else {
        AppError::Vmaf(concat("VMAF calculation failed: ", stderr))
    }
}

} // verus!
