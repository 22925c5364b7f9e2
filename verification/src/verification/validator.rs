use crate::analyzer::metadata::{frame_rate_thousandths, rate_thousandths};
use crate::error::AppError;
use crate::text::{
    concat, one_decimal, one_decimal_string, push_string, three_decimals, three_decimals_string,
};
use vstd::prelude::*;

verus! {

/// Validation result after encoding. Durations are in microseconds.
#[derive(Debug, Clone)]
pub struct ValidationResult {
    /// Whether frame rates match
    pub frame_rate_match: bool,
    /// Whether durations match (within tolerance)
    pub duration_match: bool,
    /// Whether the output file is readable/valid
    pub file_integrity: bool,
    /// Source duration
    pub source_duration: u64,
    /// Output duration
    pub output_duration: u64,
    /// Validation messages
    pub messages: Vec<String>,
}

impl ValidationResult {
    pub fn is_valid(&self) -> (valid: bool)
        ensures
            valid == (self.frame_rate_match && self.duration_match && self.file_integrity),
    {
        self.frame_rate_match && self.duration_match && self.file_integrity
    }
}

/// Two frame rates differ by more than a hundredth of a frame per second.
/// A rate over zero counts as beyond every rate, and nothing is said to
/// differ where neither rate is a number.
pub open spec fn rates_differ(source: (u32, u32), output: (u32, u32)) -> bool {
    if source.1 > 0 && output.1 > 0 {
        let cross = source.0 * output.1 - output.0 * source.1;
        let gap = if cross < 0 {
            -cross
        } else {
            cross
        };
        100 * gap > source.1 * output.1
    } else if source.1 == 0 && output.1 == 0 {
        false
    } else if output.1 == 0 {
        output.0 > 0
    } else {
        source.0 > 0
    }
}

/// Two durations differ by more than a second.
pub open spec fn durations_differ(source_us: u64, output_us: u64) -> bool {
    source_us > 0 && output_us > 0 && (source_us - output_us > 1_000_000 || output_us - source_us
        > 1_000_000)
}

/// A frame rate as it is written in a message.
pub open spec fn rate_text(rate: (u32, u32)) -> Seq<char> {
    if rate.1 > 0 {
        three_decimals(rate_thousandths(rate.0, rate.1))
    } else if rate.0 > 0 {
        "inf"@
    } else {
        "NaN"@
    }
}

/// A duration in seconds with one decimal place, rounded to the nearest
/// tenth.
pub open spec fn seconds_text(duration_us: u64) -> Seq<char> {
    one_decimal(((duration_us + 50_000) / 100_000) as nat)
}

/// The message for two frame rates that differ.
pub open spec fn rate_mismatch_text(source: (u32, u32), output: (u32, u32)) -> Seq<char> {
    "Frame rate mismatch: source "@ + rate_text(source) + " fps, output "@ + rate_text(output)
        + " fps"@
}

/// The message for two durations that differ.
pub open spec fn duration_mismatch_text(source_us: u64, output_us: u64) -> Seq<char> {
    let gap = if source_us > output_us {
        (source_us - output_us) as u64
    } else {
        (output_us - source_us) as u64
    };
    "Duration mismatch: source "@ + seconds_text(source_us) + "s, output "@ + seconds_text(
        output_us,
    ) + "s (diff: "@ + seconds_text(gap) + "s)"@
}

/// What holds of the result of a validation.
///
/// An output that is missing or empty fails every check, and nothing else
/// is looked at. Else the frame rates are compared where the source has
/// one and the rate of the output could be read; a rate that could not be
/// read is noted and passes. The durations are compared where both are
/// known. Each failed check leaves one message, in this order.
pub open spec fn validated(
    output_size: Option<u64>,
    expected_frame_rate: (u32, u32),
    output_frame_rate: Result<(u32, u32), AppError>,
    source_duration: u64,
    output_duration: Option<u64>,
    result: ValidationResult,
) -> bool {
    let intact = output_size matches Some(size) && size > 0;
    let messages = result.messages.deep_view();
    if !intact {
        &&& !result.frame_rate_match
        &&& !result.duration_match
        &&& !result.file_integrity
        &&& result.source_duration == source_duration
        &&& result.output_duration == 0
        &&& messages == seq!["Output file is missing or empty"@]
    } else {
        let duration = match output_duration {
            Some(d) => d,
            None => 0,
        };
        let rate_note: Seq<Seq<char>> = if expected_frame_rate.0 > 0 {
            match output_frame_rate {
                Ok(rate) => if rates_differ(expected_frame_rate, rate) {
                    seq![rate_mismatch_text(expected_frame_rate, rate)]
                } else {
                    Seq::empty()
                },
                Err(error) => seq!["Could not verify frame rate: "@ + error.text()],
            }
        } else {
            Seq::empty()
        };
        let duration_note: Seq<Seq<char>> = if durations_differ(source_duration, duration) {
            seq![duration_mismatch_text(source_duration, duration)]
        } else {
            Seq::empty()
        };
        &&& result.file_integrity
        &&& result.frame_rate_match == !(expected_frame_rate.0 > 0 && (
        output_frame_rate matches Ok(rate) && rates_differ(expected_frame_rate, rate)))
        &&& result.duration_match == !durations_differ(source_duration, duration)
        &&& result.source_duration == source_duration
        &&& result.output_duration == duration
        &&& messages == rate_note + duration_note
    }
}

/// Tells whether two frame rates differ by more than a hundredth.
pub fn frame_rates_differ(source: (u32, u32), output: (u32, u32)) -> (differ: bool)
    ensures
        differ == rates_differ(source, output),
{
    if source.1 > 0 && output.1 > 0 {
        assert((source.0 as int) * (output.1 as int) <= 0xffff_ffff * 0xffff_ffff
            && (output.0 as int) * (source.1 as int) <= 0xffff_ffff * 0xffff_ffff
            && (source.1 as int) * (output.1 as int) <= 0xffff_ffff * 0xffff_ffff)
            by (nonlinear_arith)
            requires
                source.0 <= 0xffff_ffff,
                output.0 <= 0xffff_ffff,
                source.1 <= 0xffff_ffff,
                output.1 <= 0xffff_ffff,
        ;
        let a: u128 = (source.0 as u128) * (output.1 as u128);
        let b: u128 = (output.0 as u128) * (source.1 as u128);
        let gap: u128 = if a >= b {
            a - b
        } else {
            b - a
        };
        100 * gap > (source.1 as u128) * (output.1 as u128)
    } else if source.1 == 0 && output.1 == 0 {
        false
    } else if output.1 == 0 {
        output.0 > 0
    } else {
        source.0 > 0
    }
}

/// Writes a frame rate for a message.
pub fn rate_string(rate: (u32, u32)) -> (s: String)
    ensures
        s@ == rate_text(rate),
{
    if rate.1 > 0 {
        three_decimals_string(frame_rate_thousandths(rate.0, rate.1))
    } else if rate.0 > 0 {
        "inf".to_string()
    } else {
        "NaN".to_string()
    }
}

/// Writes a duration in seconds with one decimal place.
pub fn seconds_string(duration_us: u64) -> (s: String)
    ensures
        s@ == seconds_text(duration_us),
{
    let tenths = duration_us / 100_000 + (if duration_us % 100_000 >= 50_000 {
        1
    } else {
        0
    });
    one_decimal_string(tenths)
}

/// Validate an encoded video file against the source, from what was found
/// out about the output: its size where it exists, its frame rate or why
/// that could not be read, and its duration where that could be read.
pub fn validate(
    output_size: Option<u64>,
    expected_frame_rate: (u32, u32),
    output_frame_rate: Result<(u32, u32), AppError>,
    source_duration: u64,
    output_duration: Option<u64>,
) -> (r: Result<ValidationResult, AppError>)
    ensures
        r matches Ok(result) && validated(
            output_size,
            expected_frame_rate,
            output_frame_rate,
            source_duration,
            output_duration,
            result,
        ),
{
    let mut messages: Vec<String> = Vec::new();
    assert(messages.deep_view() =~= Seq::<Seq<char>>::empty());
    let file_integrity = match output_size {
        Some(size) => size > 0,
        None => false,
    };
    if !file_integrity {
        push_string(&mut messages, "Output file is missing or empty".to_string());
        assert(messages.deep_view() =~= seq!["Output file is missing or empty"@]);
        return Ok(
            ValidationResult {
                frame_rate_match: false,
                duration_match: false,
                file_integrity: false,
                source_duration,
                output_duration: 0,
                messages,
            },
        );
    }
    // Check frame rate
    let frame_rate_match = if expected_frame_rate.0 > 0 {
        match &output_frame_rate {
            Ok(rate) => {
                if frame_rates_differ(expected_frame_rate, *rate) {
                    let mut text = concat(
                        "Frame rate mismatch: source ",
                        rate_string(expected_frame_rate).as_str(),
                    );
                    text.append(" fps, output ");
                    text.append(rate_string(*rate).as_str());
                    text.append(" fps");
                    push_string(&mut messages, text);
                    false
                } else {
                    true
                }
            },
            Err(error) => {
                push_string(
                    &mut messages,
                    concat("Could not verify frame rate: ", error.message().as_str()),
                );
                true
            },
        }
    } else {
        true
    };
    let ghost rate_note = messages.deep_view();
    // Check duration (1 second tolerance)
    let duration = match output_duration {
        Some(d) => d,
        None => 0,
    };
    let duration_match = if source_duration > 0 && duration > 0 {
        let gap = if source_duration > duration {
            source_duration - duration
        } else {
            duration - source_duration
        };
        if gap > 1_000_000 {
            let mut text = concat(
                "Duration mismatch: source ",
                seconds_string(source_duration).as_str(),
            );
            text.append("s, output ");
            text.append(seconds_string(duration).as_str());
            text.append("s (diff: ");
            text.append(seconds_string(gap).as_str());
            text.append("s)");
            push_string(&mut messages, text);
            false
        } else {
            true
        }
    } else {
        true
    };
    proof {
        if duration_match {
            assert(messages.deep_view() =~= rate_note + Seq::<Seq<char>>::empty());
        } else {
            assert(messages.deep_view() =~= rate_note + seq![
                duration_mismatch_text(source_duration, duration),
            ]);
        }
    }
    Ok(
        ValidationResult {
            frame_rate_match,
            duration_match,
            file_integrity,
            source_duration,
            output_duration: duration,
            messages,
        },
    )
}

} // verus!
