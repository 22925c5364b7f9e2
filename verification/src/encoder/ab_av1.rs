use crate::config::Encoder;
use crate::error::AppError;
use crate::scan::{hundredths_value, parse_hundredths, parse_unsigned, unsigned_value};
use crate::text::{concat, decimal, decimal_string, decimal_string_two, decimal_two, strings_of};
use vstd::prelude::*;
use vstd::utf8::encode_utf8;

verus! {

/// Result of the quality search
#[derive(Debug, Clone, Copy, PartialEq, Eq, Structural)]
pub struct CrfSearchResult {
    /// Optimal CRF value found
    pub crf: u8,
    /// Predicted quality score, in hundredths
    pub predicted_vmaf: u32,
}

/// The time to wait between two looks at the search, in milliseconds.
pub const SEARCH_POLL_INTERVAL_MS: u64 = 100;

/// What a look at the search process found.
#[derive(Debug, Clone)]
pub enum SearchProcess {
    /// The process is still at work
    Running,
    /// The process has ended: whether it reported success, and what it
    /// wrote to its two outputs
    Exited { success: bool, stdout: String, stderr: String },
    /// The state of the process could not be read: the reason
    Unknown(String),
}

/// What to do after a look at the search.
#[derive(Debug)]
pub enum SearchStep {
    /// Wait for one poll interval and look again
    Wait,
    /// Stop the process: the search ends with `error`
    Abort { error: AppError },
    /// The search has ended
    Finish { result: Result<CrfSearchResult, AppError> },
}

/// What the first capture group of a regular expression holds in the
/// leftmost match of the expression in a text; nothing where the
/// expression does not match or the group takes no part in the match.
pub uninterp spec fn first_group_of(pattern: Seq<char>, text: Seq<char>) -> Option<Seq<char>>;

/// The message with which the compiler of regular expressions refuses a
/// pattern; nothing for a pattern that it compiles.
pub uninterp spec fn compile_error_of(pattern: Seq<char>) -> Option<Seq<char>>;

/// What a search of `text` with `pattern` gives: the compiler's message for
/// a pattern that does not compile, else what the first group holds.
pub open spec fn capture_of(pattern: Seq<char>, text: Seq<char>) -> Result<
    Option<Seq<char>>,
    Seq<char>,
> {
    match compile_error_of(pattern) {
        Some(why) => Err(why),
        None => Ok(first_group_of(pattern, text)),
    }
}

/// The texts that the result of a search holds.
pub open spec fn capture_texts(found: Result<Option<String>, String>) -> Result<
    Option<Seq<char>>,
    Seq<char>,
> {
    match found {
        Ok(group) => Ok(group.deep_view()),
        Err(why) => Err(why@),
    }
}

/// The expression that finds the rate-control value in the search's
/// output: the word `crf`, white space, and a run of digits.
pub open spec fn crf_pattern() -> Seq<char> {
    "crf\\s+(\\d+)"@
}

/// The expression that finds the predicted score in the search's output:
/// the word `VMAF`, white space, and a run of digits and points.
pub open spec fn vmaf_pattern() -> Seq<char> {
    "VMAF\\s+([\\d.]+)"@
}

/// Trusted: compiles `pattern` with `regex::Regex::new`, searches `text`
/// with `Regex::captures` and hands out the text of group 1 of the match
/// (`Captures::get`, `Match::as_str`). Whether a pattern compiles, and the
/// message of the compiler where it does not, depend on the pattern alone;
/// of a pattern that compiles, what is found depends on pattern and text
/// alone. Both results are named, not described.
#[verifier::external_body]
pub(crate) fn first_capture(pattern: &str, text: &str) -> (found: Result<Option<String>, String>)
    ensures
        found matches Ok(group) ==> compile_error_of(pattern@).is_none() && group.deep_view()
            == first_group_of(pattern@, text@),
        found matches Err(why) ==> compile_error_of(pattern@) == Some(why@),
{
    match regex::Regex::new(pattern) {
        Ok(re) => Ok(
            match re.captures(text) {
                Some(caps) => match caps.get(1) {
                    Some(m) => Some(m.as_str().to_string()),
                    None => None,
                },
                None => None,
            },
        ),
        Err(e) => Err(e.to_string()),
    }
}

/// The rate-control value that a captured text writes: an integer of at
/// most 255.
pub open spec fn crf_of(group: Option<Seq<char>>) -> Option<u8> {
    match group {
        Some(text) => match unsigned_value(encode_utf8(text), 255) {
            Some(v) => Some(v as u8),
            None => None,
        },
        None => None,
    }
}

/// The score that a captured text writes, in hundredths; zero where it
/// writes none.
pub open spec fn score_of(group: Option<Seq<char>>) -> u32 {
    match group {
        Some(text) => match hundredths_value(encode_utf8(text)) {
            Some(v) => v,
            None => 0,
        },
        None => 0,
    }
}

/// What the two searches in the output of the quality search amount to: the
/// message of an expression that did not compile, that of the first
/// expression before that of the second; else the rate-control value, which
/// must be there, and the predicted score, which counts as zero where it is
/// missing.
pub open spec fn search_outcome(
    crf: Result<Option<Seq<char>>, Seq<char>>,
    vmaf: Result<Option<Seq<char>>, Seq<char>>,
    result: Result<CrfSearchResult, AppError>,
) -> bool {
    match crf {
        Err(why) => result matches Err(AppError::AbAv1(text)) && text@ == why,
        Ok(crf_group) => match vmaf {
            Err(why) => result matches Err(AppError::AbAv1(text)) && text@ == why,
            Ok(vmaf_group) => match crf_of(crf_group) {
                Some(value) => result == Ok::<CrfSearchResult, AppError>(
                    CrfSearchResult { crf: value, predicted_vmaf: score_of(vmaf_group) },
                ),
                None => result matches Err(AppError::AbAv1(text)) && text@
                    == "Could not parse CRF from ab-av1 output"@,
            },
        },
    }
}

/// What the output of the quality search amounts to, searched with the two
/// expressions.
pub open spec fn parsed_output(output: Seq<char>, result: Result<CrfSearchResult, AppError>) -> bool {
    search_outcome(
        capture_of(crf_pattern(), output),
        capture_of(vmaf_pattern(), output),
        result,
    )
}

/// Reads a captured text as a rate-control value.
pub fn crf_from_capture(group: &Option<String>) -> (crf: Option<u8>)
    ensures
        crf == crf_of(group.deep_view()),
{
    match group {
        Some(text) => {
            let bytes = text.as_str().as_bytes();
            match parse_unsigned(bytes, 0, bytes.len(), 255) {
                Some(v) => {
                    assert(bytes@.subrange(0, bytes@.len() as int) =~= bytes@);
                    Some(v as u8)
                },
                None => {
                    assert(bytes@.subrange(0, bytes@.len() as int) =~= bytes@);
                    None
                },
            }
        },
        None => None,
    }
}

/// Reads a captured text as a score, in hundredths.
pub fn score_from_capture(group: &Option<String>) -> (score: u32)
    ensures
        score == score_of(group.deep_view()),
{
    match group {
        Some(text) => {
            let bytes = text.as_str().as_bytes();
            assert(bytes@.subrange(0, bytes@.len() as int) =~= bytes@);
            match parse_hundredths(bytes, 0, bytes.len()) {
                Some(v) => v,
                None => 0,
            }
        },
        None => 0,
    }
}

/// Makes the result of the quality search from what the two expressions
/// found in its output.
pub fn search_result_from(
    crf: Result<Option<String>, String>,
    vmaf: Result<Option<String>, String>,
) -> (result: Result<CrfSearchResult, AppError>)
    ensures
        search_outcome(capture_texts(crf), capture_texts(vmaf), result),
{
    let crf_group = match crf {
        Ok(group) => group,
        Err(why) => {
            return Err(AppError::AbAv1(why));
        },
    };
    let vmaf_group = match vmaf {
        Ok(group) => group,
        Err(why) => {
            return Err(AppError::AbAv1(why));
        },
    };
    match crf_from_capture(&crf_group) {
        Some(value) => Ok(
            CrfSearchResult { crf: value, predicted_vmaf: score_from_capture(&vmaf_group) },
        ),
        None => Err(AppError::AbAv1("Could not parse CRF from ab-av1 output".to_string())),
    }
}

/// Parse the output of the quality search to extract the rate-control
/// value and the predicted score.
///
/// The output is searched with the two expressions, and the result is what
/// `search_result_from` makes of what they find.
pub fn parse_ab_av1_output(output: &str) -> (result: Result<CrfSearchResult, AppError>)
    ensures
        parsed_output(output@, result),
{
    let crf = first_capture("crf\\s+(\\d+)", output);
    let vmaf = first_capture("VMAF\\s+([\\d.]+)", output);
    search_result_from(crf, vmaf)
}

/// A score in hundredths as a decimal number without trailing zeros.
pub open spec fn score_text(score: u32) -> Seq<char> {
    let whole = (score / 100) as nat;
    let fraction = (score % 100) as nat;
    if fraction == 0 {
        decimal(whole)
    } else if fraction % 10 == 0 {
        decimal(whole) + "."@ + decimal(fraction / 10)
    } else {
        decimal(whole) + "."@ + decimal_two(fraction)
    }
}

/// Writes a score in hundredths as a decimal number.
pub fn score_string(score: u32) -> (s: String)
    ensures
        s@ == score_text(score),
{
    let whole = (score / 100) as u64;
    let fraction = (score % 100) as u64;
    let mut s = decimal_string(whole);
    if fraction == 0 {
        s
    } else if fraction % 10 == 0 {
        s.append(".");
        s.append(decimal_string(fraction / 10).as_str());
        s
    } else {
        s.append(".");
        s.append(decimal_string_two(fraction).as_str());
        s
    }
}

/// The command line of the quality search.
pub open spec fn search_query(input: Seq<char>, encoder: Encoder, min_vmaf: u32) -> Seq<Seq<char>> {
    seq![
        "auto-encode"@,
        "--input"@,
        input,
        "--encoder"@,
        encoder.codec_name(),
        "--min-vmaf"@,
        score_text(min_vmaf),
        "--quiet"@,
    ]
}

/// The arguments with which the quality search is run for `input`.
pub fn search_args(input: &str, encoder: Encoder, min_vmaf: u32) -> (args: Vec<String>)
    ensures
        args.deep_view() == search_query(input@, encoder, min_vmaf),
{
    let target = score_string(min_vmaf);
    let args = strings_of(
        &[
            "auto-encode",
            "--input",
            input,
            "--encoder",
            encoder.ffmpeg_name(),
            "--min-vmaf",
            target.as_str(),
            "--quiet",
        ],
    );
    assert(args.deep_view() =~= search_query(input@, encoder, min_vmaf));
    args
}

/// The error of a search whose tool is not installed.
pub fn unavailable() -> (error: AppError)
    ensures
        error matches AppError::AbAv1(text) && text@ == "ab-av1 not available"@,
{
    AppError::AbAv1("ab-av1 not available".to_string())
}

/// The error of a search whose process could not be started.
pub fn spawn_failure(reason: &str) -> (error: AppError)
    ensures
        error matches AppError::AbAv1(text) && text@ == "Failed to run ab-av1: "@ + reason@,
{
    AppError::AbAv1(concat("Failed to run ab-av1: ", reason))
}

/// Decides what one look at the quality search leads to.
///
/// A cancellation comes first: the process is to be stopped and the search
/// ends with an error. Else the search waits while the process runs, ends
/// with an error where the process failed or its state could not be read,
/// and with what its output holds where it succeeded.
pub fn search_step(cancelled: bool, process: SearchProcess) -> (step: SearchStep)
    ensures
        cancelled ==> (step matches SearchStep::Abort { error } && (
        error matches AppError::AbAv1(text) && text@ == "CRF search cancelled"@)),
        !cancelled ==> (match process {
            SearchProcess::Running => step is Wait,
            SearchProcess::Exited { success, stdout, stderr } => step matches SearchStep::Finish {
                result,
            } && (if success {
                parsed_output(stdout@, result)
            } else {
                result matches Err(AppError::AbAv1(text)) && text@ == "ab-av1 failed: "@ + stderr@
            }),
            SearchProcess::Unknown(reason) => step matches SearchStep::Finish { result } && (
            result matches Err(AppError::AbAv1(text)) && text@ == "Error waiting for ab-av1: "@
                + reason@),
        }),
{
    if cancelled {
        return SearchStep::Abort { error: AppError::AbAv1("CRF search cancelled".to_string()) };
    }
    match process {
        SearchProcess::Running => SearchStep::Wait,
        SearchProcess::Exited { success, stdout, stderr } => {
            if !success {
                SearchStep::Finish {
                    result: Err(AppError::AbAv1(concat("ab-av1 failed: ", stderr.as_str()))),
                }
            } else {
                SearchStep::Finish { result: parse_ab_av1_output(stdout.as_str()) }
            }
        },
        SearchProcess::Unknown(reason) => SearchStep::Finish {
            result: Err(AppError::AbAv1(concat("Error waiting for ab-av1: ", reason.as_str()))),
        },
    }
}

} // verus!
