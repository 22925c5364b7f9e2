use crate::encoder::command_builder::{build_ffmpeg_args, ffmpeg_args, EncodingParams};
use crate::queue::job::FULL_PROGRESS;
use crate::error::AppError;
use crate::scan::{
    drop_spaces, find_byte, has_prefix, index_of, parse_unsigned, skip_spaces, starts_with,
    trimmed, unsigned_value,
};
use crate::text::{
    concat, decimal, decimal_string, join_from, join_lines, last_lines, line_texts, lines_of,
    str_trim, strings_of, trimmed_text,
};
use vstd::prelude::*;
use vstd::utf8::encode_utf8;

verus! {

/// Encoding result
#[derive(Debug, Clone)]
pub enum EncodeResult {
    /// Encoding completed successfully
    Success,
    /// Encoding was cancelled
    Cancelled,
    /// Encoding failed
    Error(String),
}

/// The time to wait between two looks at the encoder, in milliseconds.
pub const POLL_INTERVAL_MS: u64 = 250;

/// What a look at the encoder process found.
#[derive(Debug, Clone)]
pub enum ProcessState {
    /// The process is still at work
    Running,
    /// The process has ended and reported success
    Succeeded,
    /// The process has ended with a failure: its exit status in words,
    /// and what it wrote to its error output (empty where that could not
    /// be read)
    Failed { status: String, stderr: String },
    /// The state of the process could not be read: the reason
    Unknown(String),
}

/// What to do after a look at the encoder.
#[derive(Debug, Clone)]
pub enum EncodeStep {
    /// Wait for one poll interval and look again
    Wait,
    /// Stop the process and remove what it has written of the output: the
    /// encode ends as cancelled
    Abort,
    /// The encode has ended with `result`; a failed encode leaves no output
    /// behind
    Finish { result: EncodeResult, remove_output: bool },
}

/// What one look at the encoder leads to: the progress to report, if any,
/// and the next step.
#[derive(Debug, Clone)]
pub struct Observation {
    pub progress: Option<u32>,
    pub step: EncodeStep,
}

/// Follows one encode: the duration of the source in microseconds, and the
/// progress reported last, in hundredths of a percent.
#[derive(Debug, Clone, Copy, PartialEq, Eq, Structural)]
pub struct EncodeMonitor {
    pub duration_us: u64,
    pub last_progress: u32,
}

/// The field under which the encoder reports the time it has written, in
/// microseconds: `out_time_us=`.
pub open spec fn time_key() -> Seq<u8> {
    seq![111u8, 117u8, 116u8, 95u8, 116u8, 105u8, 109u8, 101u8, 95u8, 117u8, 115u8, 61u8]
}

/// Where the last line of a text begins: behind its last line feed.
pub open spec fn last_line_start(s: Seq<u8>) -> int
    decreases s.len(),
{
    if s.len() == 0 {
        0
    } else if s.last() == 10 {
        s.len() as int
    } else {
        last_line_start(s.drop_last())
    }
}

/// The time that one line of a progress report gives: the number behind
/// the time field, white space aside, where it is above zero.
pub open spec fn time_of_line(line: Seq<u8>) -> Option<u64> {
    if has_prefix(line, time_key()) {
        match unsigned_value(trimmed(line.skip(time_key().len() as int)), u64::MAX) {
            Some(t) => if t > 0 {
                Some(t)
            } else {
                None
            },
            None => None,
        }
    } else {
        None
    }
}

/// The latest time in a progress report: that of the last line that gives
/// one.
pub open spec fn latest_time(report: Seq<u8>) -> Option<u64>
    decreases report.len(),
{
    let start = last_line_start(report);
    match time_of_line(report.skip(start)) {
        Some(t) => Some(t),
        None => if start <= 0 || start > report.len() {
            None
        } else {
            latest_time(report.take(start - 1))
        },
    }
}

/// The share of `duration_us` that `time_us` is, in hundredths of a percent,
/// rounded down and at most 100 %.
pub open spec fn progress_at(time_us: u64, duration_us: u64) -> u32
    recommends
        duration_us > 0,
{
    let raw = (time_us as int) * 10_000 / (duration_us as int);
    if raw > 10_000 {
        10_000
    } else {
        raw as u32
    }
}

/// What the encoder's failure is reported as: its exit status where it
/// wrote nothing, else the last five lines of what it wrote.
pub open spec fn failure_text(status: Seq<char>, stderr: Seq<char>) -> Seq<char> {
    if stderr.len() == 0 {
        "ffmpeg failed with status: "@ + status
    } else {
        "ffmpeg failed: "@ + join_lines(last_lines(line_texts(stderr), 5))
    }
}

/// The command line of an encode that reports its progress to a file: the
/// progress option and the file stand behind the first two arguments.
pub open spec fn encode_args(params: EncodingParams, progress_file: Seq<char>) -> Seq<Seq<char>> {
    ffmpeg_args(params).take(2) + seq!["-progress"@, progress_file] + ffmpeg_args(params).skip(2)
}

/// The name of the progress file of the process with the given id.
pub open spec fn progress_file_text(process_id: u32) -> Seq<char> {
    "ffmpeg_progress_"@ + decimal(process_id as nat)
}

/// The name of the file, in the directory for temporary files, through
/// which the encoder started by process `process_id` reports its progress.
pub fn progress_file_name(process_id: u32) -> (name: String)
    ensures
        name@ == progress_file_text(process_id),
{
    concat("ffmpeg_progress_", decimal_string(process_id as u64).as_str())
}

/// The command line of an encode that reports its progress to
/// `progress_file`.
pub fn encode_command_args(params: &EncodingParams, progress_file: &str) -> (args: Vec<String>)
    ensures
        args.deep_view() == encode_args(*params, progress_file@),
{
    let mut args = build_ffmpeg_args(params);
    let ghost plain = args.deep_view();
    proof {
        // the command line always starts with its fixed options
        assert(ffmpeg_args(*params).len() >= 6);
    }
    args.insert(2, "-progress".to_string());
    args.insert(3, progress_file.to_string());
    proof {
        assert(args.deep_view() =~= plain.take(2) + seq!["-progress"@, progress_file@] + plain.skip(
            2,
        ));
    }
    args
}

/// The result of an encode whose progress file could not be made.
pub fn progress_file_failure() -> (result: EncodeResult)
    ensures
        result matches EncodeResult::Error(text) && text@ == "Failed to create progress file"@,
{
    EncodeResult::Error("Failed to create progress file".to_string())
}

/// The result of an encode whose process could not be started.
pub fn start_failure(reason: &str) -> (result: EncodeResult)
    ensures
        result matches EncodeResult::Error(text) && text@ == "Failed to start ffmpeg: "@ + reason@,
{
    EncodeResult::Error(concat("Failed to start ffmpeg: ", reason))
}

/// The message for an encoder that ended with a failure.
pub fn failure_message(status: &str, stderr: &str) -> (message: String)
    ensures
        message@ == failure_text(status@, stderr@),
{
    if stderr.is_empty() {
        concat("ffmpeg failed with status: ", status)
    } else {
        let lines = lines_of(stderr);
        let from = if lines.len() > 5 {
            lines.len() - 5
        } else {
            0
        };
        proof {
            if lines@.len() <= 5 {
                assert(lines.deep_view().skip(0) =~= lines.deep_view());
            }
        }
        let tail = join_from(&lines, from);
        concat("ffmpeg failed: ", tail.as_str())
    }
}

/// Reads the time that the line `report[start..end]` gives.
pub fn line_time(report: &[u8], start: usize, end: usize) -> (time: Option<u64>)
    requires
        start <= end <= report@.len(),
    ensures
        time == time_of_line(report@.subrange(start as int, end as int)),
{
    let key: [u8; 12] = [111, 117, 116, 95, 116, 105, 109, 101, 95, 117, 115, 61];
    assert(key@ =~= time_key());
    if !starts_with(report, start, end, key.as_slice()) {
        return None;
    }
    let ghost line = report@.subrange(start as int, end as int);
    proof {
        assert(line.skip(12) =~= report@.subrange(start + 12, end as int));
    }
    let first = skip_spaces(report, start + 12, end);
    let last = drop_spaces(report, first, end);
    match parse_unsigned(report, first, last, u64::MAX) {
        Some(t) => if t > 0 {
            Some(t)
        } else {
            None
        },
        None => None,
    }
}

/// Reads the latest time that a progress report gives.
pub fn latest_out_time(report: &[u8]) -> (time: Option<u64>)
    ensures
        time == latest_time(report@),
{
    let mut end: usize = report.len();
    proof {
        assert(report@.take(end as int) =~= report@);
    }
    loop
        invariant
            end <= report@.len(),
            latest_time(report@) == latest_time(report@.take(end as int)),
        decreases end,
    {
        let ghost text = report@.take(end as int);
        let mut start: usize = end;
        while start > 0 && report[start - 1] != 10
            invariant
                start <= end <= report@.len(),
                text == report@.take(end as int),
                last_line_start(text) == last_line_start(report@.take(start as int)),
            decreases start,
        {
            proof {
                assert(report@.take(start as int).drop_last() =~= report@.take(start - 1));
            }
            start -= 1;
        }
        proof {
            assert(text.skip(start as int) =~= report@.subrange(start as int, end as int));
            if start > 0 {
                assert(text.take(start - 1) =~= report@.take(start - 1));
            }
        }
        match line_time(report, start, end) {
            Some(t) => {
                return Some(t);
            },
            None => {
                if start == 0 {
                    return None;
                }
                end = start - 1;
            },
        }
    }
}

/// The progress of an encode that has written `time_us` of `duration_us`.
pub fn progress_of(time_us: u64, duration_us: u64) -> (progress: u32)
    requires
        duration_us > 0,
    ensures
        progress == progress_at(time_us, duration_us),
        progress <= FULL_PROGRESS,
{
    assert((time_us as int) * 10_000 <= 0xffff_ffff_ffff_ffff * 10_000) by (nonlinear_arith)
        requires
            time_us <= 0xffff_ffff_ffff_ffff,
    ;
    let raw: u128 = (time_us as u128) * 10_000 / (duration_us as u128);
    if raw > 10_000 {
        10_000
    } else {
        raw as u32
    }
}

impl EncodeMonitor {
    /// The progress that a report leads to: none where the report gives no
    /// time or the duration is unknown; else the progress at the latest
    /// time, but never less than what was reported before.
    pub open spec fn progress_from(&self, report: Option<Seq<u8>>) -> Option<u32> {
        match report {
            Some(text) => match latest_time(text) {
                Some(t) => if self.duration_us > 0 {
                    let now = progress_at(t, self.duration_us);
                    Some(
                        if now < self.last_progress {
                            self.last_progress
                        } else {
                            now
                        },
                    )
                } else {
                    None
                },
                None => None,
            },
            None => None,
        }
    }

    /// The step that the state of the process leads to.
    pub open spec fn step_for(process: ProcessState, step: EncodeStep) -> bool {
        match process {
            ProcessState::Running => step is Wait,
            ProcessState::Succeeded => step matches EncodeStep::Finish { result, remove_output }
                && result is Success && !remove_output,
            ProcessState::Failed { status, stderr } => step matches EncodeStep::Finish {
                result,
                remove_output,
            } && remove_output && (result matches EncodeResult::Error(text) && text@
                == failure_text(status@, stderr@)),
            ProcessState::Unknown(reason) => step matches EncodeStep::Finish {
                result,
                remove_output,
            } && !remove_output && (result matches EncodeResult::Error(text) && text@
                == "Failed to check ffmpeg status: "@ + reason@),
        }
    }

    /// A monitor for an encode of a source that lasts `duration_us`.
    pub fn new(duration_us: u64) -> (monitor: Self)
        ensures
            monitor == (EncodeMonitor { duration_us, last_progress: 0 }),
    {
        EncodeMonitor { duration_us, last_progress: 0 }
    }

    /// Decides what one look at the encoder leads to.
    ///
    /// A cancellation comes first: the process is to be stopped and its
    /// output removed, and nothing is reported. Else the progress that the
    /// report shows is reported, never less than before, and the state of
    /// the process decides: wait while it runs, success where it succeeded,
    /// an error with the removal of the output where it failed, an error
    /// where its state could not be read.
    pub fn observe(
        &mut self,
        cancelled: bool,
        report: Option<&[u8]>,
        process: ProcessState,
    ) -> (seen: Observation)
        ensures
            final(self).duration_us == old(self).duration_us,
            cancelled ==> seen.progress.is_none() && seen.step is Abort && final(self).last_progress
                == old(self).last_progress,
            !cancelled ==> seen.progress == old(self).progress_from(
                match report {
                    Some(text) => Some(text@),
                    None => None,
                },
            ),
            !cancelled ==> Self::step_for(process, seen.step),
            !cancelled ==> final(self).last_progress == (match seen.progress {
                Some(p) => p,
                None => old(self).last_progress,
            }),
            final(self).last_progress >= old(self).last_progress,
            seen.progress matches Some(p) ==> p >= old(self).last_progress && (p <= FULL_PROGRESS
                || p == old(self).last_progress),
    {
        if cancelled {
            return Observation { progress: None, step: EncodeStep::Abort };
        }
        let progress = match report {
            Some(text) => match latest_out_time(text) {
                Some(t) => if self.duration_us > 0 {
                    let now = progress_of(t, self.duration_us);
                    if now < self.last_progress {
                        Some(self.last_progress)
                    } else {
                        Some(now)
                    }
                } else {
                    None
                },
                None => None,
            },
            None => None,
        };
        match progress {
            Some(p) => {
                self.last_progress = p;
            },
            None => {},
        }
        let step = match process {
            ProcessState::Running => EncodeStep::Wait,
            ProcessState::Succeeded => EncodeStep::Finish {
                result: EncodeResult::Success,
                remove_output: false,
            },
            ProcessState::Failed { status, stderr } => EncodeStep::Finish {
                result: EncodeResult::Error(failure_message(status.as_str(), stderr.as_str())),
                remove_output: true,
            },
            ProcessState::Unknown(reason) => EncodeStep::Finish {
                result: EncodeResult::Error(
                    concat("Failed to check ffmpeg status: ", reason.as_str()),
                ),
                remove_output: false,
            },
        };
        Observation { progress, step }
    }
}

/// Only a failed encoder has its output removed: where the encoder
/// succeeded the encode ends in success and the output stays, and where
/// the state of the encoder could not be read the output stays too.
pub proof fn lemma_only_failure_removes_output(process: ProcessState, step: EncodeStep)
    requires
        EncodeMonitor::step_for(process, step),
    ensures
        step matches EncodeStep::Finish { result, remove_output } ==> (remove_output
            <==> process is Failed),
        process is Succeeded ==> (step matches EncodeStep::Finish { result, remove_output }
            && result is Success && !remove_output),
        process is Running <==> step is Wait,
        !(step is Abort),
{
}

/// The FFprobe options that print the duration of a file in seconds.
pub open spec fn duration_query(input: Seq<char>) -> Seq<Seq<char>> {
    seq![
        "-v"@,
        "error"@,
        "-show_entries"@,
        "format=duration"@,
        "-of"@,
        "default=noprint_wrappers=1:nokey=1"@,
        input,
    ]
}

/// The FFprobe options that print the frame rate of the first video stream
/// as a fraction.
pub open spec fn frame_rate_query(path: Seq<char>) -> Seq<Seq<char>> {
    seq![
        "-v"@,
        "error"@,
        "-select_streams"@,
        "v:0"@,
        "-show_entries"@,
        "stream=r_frame_rate"@,
        "-of"@,
        "default=noprint_wrappers=1:nokey=1"@,
        path,
    ]
}

/// The FFprobe command line that asks for the duration of `input`.
pub fn duration_query_args(input: &str) -> (args: Vec<String>)
    ensures
        args.deep_view() == duration_query(input@),
{
    let args = strings_of(
        &[
            "-v",
            "error",
            "-show_entries",
            "format=duration",
            "-of",
            "default=noprint_wrappers=1:nokey=1",
            input,
        ],
    );
    assert(args.deep_view() =~= duration_query(input@));
    args
}

/// The FFprobe command line that asks for the frame rate of `path`.
pub fn frame_rate_query_args(path: &str) -> (args: Vec<String>)
    ensures
        args.deep_view() == frame_rate_query(path@),
{
    let args = strings_of(
        &[
            "-v",
            "error",
            "-select_streams",
            "v:0",
            "-show_entries",
            "stream=r_frame_rate",
            "-of",
            "default=noprint_wrappers=1:nokey=1",
            path,
        ],
    );
    assert(args.deep_view() =~= frame_rate_query(path@));
    args
}

/// What the probe's answer to a frame rate query amounts to: the answer,
/// white space aside, must be two texts with one slash between them; a
/// text that is no number counts as zero before the slash and as one
/// behind it.
pub open spec fn probed_frame_rate(output: Seq<char>) -> Option<(u32, u32)> {
    let rate = encode_utf8(trimmed_text(output));
    let slash = index_of(rate, 47);
    if slash < rate.len() && index_of(rate.skip(slash + 1), 47) == rate.skip(slash + 1).len() {
        Some(
            (
                match unsigned_value(rate.take(slash), u32::MAX as u64) {
                    Some(num) => num as u32,
                    None => 0u32,
                },
                match unsigned_value(rate.skip(slash + 1), u32::MAX as u64) {
                    Some(den) => den as u32,
                    None => 1u32,
                },
            ),
        )
    } else {
        None
    }
}

/// Get the frame rate of an encoded file as num/den, from the probe's
/// answer to the frame rate query
pub fn get_frame_rate(output: &str) -> (r: Result<(u32, u32), AppError>)
    ensures
        match probed_frame_rate(output@) {
            Some(rate) => r == Ok::<(u32, u32), AppError>(rate),
            None => r matches Err(AppError::Validation(text)) && text@
                == "Unexpected frame rate format: "@ + trimmed_text(output@),
        },
{
    let rate_str = str_trim(output);
    let rate = rate_str.as_str().as_bytes();
    let end = rate.len();
    let slash = find_byte(rate, 0, end, 47);
    proof {
        assert(rate@.subrange(0, end as int) =~= rate@);
    }
    if slash < end {
        let second = find_byte(rate, slash + 1, end, 47);
        proof {
            assert(rate@.skip(slash + 1) =~= rate@.subrange(slash + 1, end as int));
            assert(rate@.take(slash as int) =~= rate@.subrange(0, slash as int));
        }
        if second >= end {
            let num = match parse_unsigned(rate, 0, slash, 0xffff_ffff) {
                Some(n) => n as u32,
                None => 0,
            };
            let den = match parse_unsigned(rate, slash + 1, end, 0xffff_ffff) {
                Some(d) => d as u32,
                None => 1,
            };
            return Ok((num, den));
        }
    }
    Err(AppError::Validation(concat("Unexpected frame rate format: ", rate_str.as_str())))
}

/// Get video duration in microseconds from the probe's answer to the
/// duration query: the answer, white space aside, must write a number of
/// seconds.
pub fn get_duration(output: &str) -> (duration_us: Option<u64>)
    ensures
        duration_us == crate::scan::millionths_value(encode_utf8(trimmed_text(output@))),
{
    let text = str_trim(output);
    let bytes = text.as_str().as_bytes();
    assert(bytes@.subrange(0, bytes@.len() as int) =~= bytes@);
    crate::scan::parse_millionths(bytes, 0, bytes.len())
}

/// The error of a frame rate query that could not be run.
pub fn frame_rate_query_failure(reason: &str) -> (error: AppError)
    ensures
        error matches AppError::Validation(text) && text@ == "Failed to run ffprobe: "@ + reason@,
{
    AppError::Validation(concat("Failed to run ffprobe: ", reason))
}

} // verus!
