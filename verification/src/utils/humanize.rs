use crate::text::{
    decimal, decimal_string, decimal_string_two, decimal_two, one_decimal, one_decimal_string,
};
use vstd::prelude::*;

verus! {

/// A number of seconds as `HH:MM:SS`, or as `MM:SS` below an hour.
pub open spec fn duration_text(total_secs: u64) -> Seq<char> {
    let hours = (total_secs / 3600) as nat;
    let minutes = ((total_secs % 3600) / 60) as nat;
    let seconds = (total_secs % 60) as nat;
    if hours > 0 {
        decimal_two(hours) + ":"@ + decimal_two(minutes) + ":"@ + decimal_two(seconds)
    } else {
        decimal_two(minutes) + ":"@ + decimal_two(seconds)
    }
}

/// Format a duration, given in whole seconds, as HH:MM:SS or MM:SS
pub fn format_duration(total_secs: u64) -> (s: String)
    ensures
        s@ == duration_text(total_secs),
{
    let hours = total_secs / 3600;
    let minutes = (total_secs % 3600) / 60;
    let seconds = total_secs % 60;
    if hours > 0 {
        let mut s = decimal_string_two(hours);
        s.append(":");
        s.append(decimal_string_two(minutes).as_str());
        s.append(":");
        s.append(decimal_string_two(seconds).as_str());
        s
    } else {
        let mut s = decimal_string_two(minutes);
        s.append(":");
        s.append(decimal_string_two(seconds).as_str());
        s
    }
}

/// A number of hundredths with one decimal place, rounded to the nearest
/// tenth: the form in which progress and scores are shown.
pub open spec fn hundredths_text(value: u32) -> Seq<char> {
    one_decimal(((value + 5) / 10) as nat)
}

/// Format a number of hundredths with one decimal place
pub fn format_hundredths(value: u32) -> (s: String)
    ensures
        s@ == hundredths_text(value),
{
    one_decimal_string(((value as u64) + 5) / 10)
}

/// A number of bytes in the largest binary unit that it fills, with one
/// decimal place, rounded down; whole bytes below one KiB.
pub open spec fn file_size_text(bytes: u64) -> Seq<char> {
    if bytes < 1024 {
        decimal(bytes as nat) + " B"@
    } else if bytes < 1_048_576 {
        one_decimal((bytes * 10 / 1024) as nat) + " KB"@
    } else if bytes < 1_073_741_824 {
        one_decimal((bytes * 10 / 1_048_576) as nat) + " MB"@
    } else {
        one_decimal((bytes * 10 / 1_073_741_824) as nat) + " GB"@
    }
}

/// Format a number of bytes for display
pub fn format_file_size(bytes: u64) -> (s: String)
    ensures
        s@ == file_size_text(bytes),
{
    if bytes < 1024 {
        let mut s = decimal_string(bytes);
        s.append(" B");
        s
    } else if bytes < 1_048_576 {
        let mut s = one_decimal_string(bytes * 10 / 1024);
        s.append(" KB");
        s
    } else if bytes < 1_073_741_824 {
        let mut s = one_decimal_string(bytes * 10 / 1_048_576);
        s.append(" MB");
        s
    } else {
        let tenths: u128 = (bytes as u128) * 10 / 1_073_741_824;
        let mut s = one_decimal_string(tenths as u64);
        s.append(" GB");
        s
    }
}

} // verus!
