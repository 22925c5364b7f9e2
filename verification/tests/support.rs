use av1converter::error::AppError;
use av1converter::scan::{
    digits_only, drop_spaces, find_byte, find_point, parse_digits, parse_hundredths,
    parse_millionths, parse_unsigned, skip_spaces, starts_with,
};
use av1converter::text::{
    decimal_string, decimal_string_two, extend_strings, join_from, one_decimal_string,
    push_str, push_string, strings_of, three_decimals_string,
};
use av1converter::utils::deps::check_vmaf_available;
use av1converter::utils::disk_space::{available_space, has_enough_space, FileSystemStats};
use av1converter::utils::{format_duration, format_file_size, DependencyStatus};

#[test]
fn decimal_strings() {
    assert_eq!(decimal_string(0), "0");
    assert_eq!(decimal_string(9), "9");
    assert_eq!(decimal_string(10), "10");
    assert_eq!(decimal_string(1_234_567_890), "1234567890");
    assert_eq!(decimal_string(u64::MAX), "18446744073709551615");
    assert_eq!(decimal_string_two(0), "00");
    assert_eq!(decimal_string_two(7), "07");
    assert_eq!(decimal_string_two(10), "10");
    assert_eq!(decimal_string_two(123), "123");
    assert_eq!(one_decimal_string(0), "0.0");
    assert_eq!(one_decimal_string(481), "48.1");
    assert_eq!(three_decimals_string(23_976), "23.976");
    assert_eq!(three_decimals_string(5), "0.005");
    assert_eq!(three_decimals_string(1_000), "1.000");
}

#[test]
fn string_lists() {
    let mut list = strings_of(&["a", "b"]);
    push_str(&mut list, "c");
    push_string(&mut list, "d".to_string());
    extend_strings(&mut list, vec!["e".to_string(), "f".to_string()]);
    assert_eq!(list, vec!["a", "b", "c", "d", "e", "f"]);
    assert_eq!(av1converter::text::concat("ab", "cd"), "abcd");
    assert_eq!(join_from(&list, 4), "e\nf");
    assert_eq!(join_from(&list, 5), "f");
    assert_eq!(join_from(&list, 6), "");
    assert_eq!(join_from(&list, 0), "a\nb\nc\nd\ne\nf");
}

#[test]
fn numbers_are_read_from_bytes() {
    assert_eq!(parse_digits(b"x123y", 1, 4, 1_000), Some(123));
    assert_eq!(parse_digits(b"x123y", 1, 4, 122), None);
    assert_eq!(parse_digits(b"x123y", 1, 5, 1_000), None);
    assert_eq!(parse_digits(b"x123y", 2, 2, 1_000), None);
    assert_eq!(parse_digits(b"000", 0, 3, 0), Some(0));
    assert_eq!(parse_unsigned(b"+42", 0, 3, 100), Some(42));
    assert_eq!(parse_unsigned(b"+", 0, 1, 100), None);
    assert_eq!(parse_unsigned(b"++1", 0, 3, 100), None);
    assert_eq!(parse_unsigned(b"-1", 0, 2, 100), None);
    assert_eq!(parse_unsigned(b"18446744073709551615", 0, 20, u64::MAX), Some(u64::MAX));
    assert_eq!(parse_unsigned(b"18446744073709551616", 0, 20, u64::MAX), None);
    assert_eq!(parse_unsigned(b"99999999999999999999999", 0, 23, u64::MAX), None);
    assert!(digits_only(b"0123456789", 0, 10));
    assert!(!digits_only(b"12a", 0, 3));
    assert!(!digits_only(b"12a", 1, 1));
    assert_eq!(parse_hundredths(b"12.345", 0, 6), Some(1_234));
    assert_eq!(parse_hundredths(b"12", 0, 2), Some(1_200));
    assert_eq!(parse_hundredths(b"a.5", 0, 3), None);
    assert_eq!(parse_millionths(b"1.0000005", 0, 9), Some(1_000_000));
    assert_eq!(parse_millionths(b"0.000001", 0, 8), Some(1));
    assert_eq!(parse_millionths(b"7", 0, 1), Some(7_000_000));
    assert_eq!(parse_millionths(b"1.5x", 0, 4), None);
}

#[test]
fn scanning() {
    assert_eq!(skip_spaces(b"  \t x ", 0, 6), 4);
    assert_eq!(skip_spaces(b"    ", 1, 3), 3);
    assert_eq!(drop_spaces(b" x \r\n", 0, 5), 2);
    assert_eq!(drop_spaces(b"   ", 1, 3), 1);
    assert!(starts_with(b"out_time=1", 0, 10, b"out_"));
    assert!(!starts_with(b"out_time=1", 1, 10, b"out_"));
    assert!(!starts_with(b"ou", 0, 2, b"out_"));
    assert!(starts_with(b"ou", 0, 2, b""));
    assert_eq!(find_byte(b"a/b/c", 0, 5, b'/'), 1);
    assert_eq!(find_byte(b"a/b/c", 2, 5, b'/'), 3);
    assert_eq!(find_byte(b"a/b/c", 4, 5, b'/'), 5);
    assert_eq!(find_point(b"12.5", 0, 4), 2);
    assert_eq!(find_point(b"125", 0, 3), 3);
}

#[test]
fn durations_are_shown_as_clock_times() {
    assert_eq!(format_duration(0), "00:00");
    assert_eq!(format_duration(59), "00:59");
    assert_eq!(format_duration(60), "01:00");
    assert_eq!(format_duration(3_599), "59:59");
    assert_eq!(format_duration(3_600), "01:00:00");
    assert_eq!(format_duration(3_725), "01:02:05");
    assert_eq!(format_duration(360_000), "100:00:00");
}

#[test]
fn file_sizes() {
    assert_eq!(format_file_size(0), "0 B");
    assert_eq!(format_file_size(1_023), "1023 B");
    assert_eq!(format_file_size(1_024), "1.0 KB");
    assert_eq!(format_file_size(1_536), "1.5 KB");
    assert_eq!(format_file_size(1_048_576), "1.0 MB");
    assert_eq!(format_file_size(1_073_741_824 * 5 / 2), "2.5 GB");
    assert_eq!(format_file_size(u64::MAX), "17179869183.9 GB");
}

#[test]
fn dependencies() {
    let status = DependencyStatus::check(true, true, false, Some("... libvmaf  VV->V ..."));
    assert_eq!(status, DependencyStatus { ffmpeg: true, ffprobe: true, ab_av1: false, vmaf: true });
    assert!(status.has_required());
    assert!(!DependencyStatus::check(true, false, true, None).has_required());
    assert!(!DependencyStatus::check(false, true, true, None).has_required());
    assert!(!DependencyStatus::check(true, true, true, Some("scale")).vmaf);
    assert!(!check_vmaf_available(None));
    assert!(check_vmaf_available(Some("libvmaf")));
}

#[test]
fn disk_space() {
    let stats = |blocks_available, fragment_size| Some(FileSystemStats { blocks_available, fragment_size });
    assert_eq!(available_space(stats(10, 4_096)), Some(40_960));
    assert_eq!(available_space(stats(u64::MAX, 2)), Some(u64::MAX));
    assert_eq!(available_space(None), None);
    assert!(has_enough_space(stats(10, 4_096), 40_959));
    assert!(!has_enough_space(stats(10, 4_096), 40_960));
    assert!(has_enough_space(None, u64::MAX));
}

#[test]
fn error_messages() {
    let io = AppError::Io {
        path: "/x".to_string(),
        operation: "read".to_string(),
        message: "denied".to_string(),
    };
    assert_eq!(io.message(), "I/O error during 'read' on '/x': denied");
    assert_eq!(AppError::Analysis("a".to_string()).message(), "Video analysis failed: a");
    assert_eq!(AppError::Config("b".to_string()).message(), "Configuration error: b");
    assert_eq!(AppError::Vmaf("c".to_string()).message(), "VMAF calculation failed: c");
    assert_eq!(
        AppError::DependencyMissing("ffmpeg".to_string()).message(),
        "Required dependency missing: ffmpeg"
    );
    let parse = AppError::Parse { context: "JSON".to_string(), message: "eof".to_string() };
    assert_eq!(parse.message(), "Parse error in JSON: eof");
    assert_eq!(
        AppError::CommandExecution("d".to_string()).message(),
        "Command execution failed: d"
    );
    assert_eq!(AppError::AbAv1("e".to_string()).message(), "Quality search failed: e");
    assert_eq!(AppError::Validation("f".to_string()).message(), "Validation failed: f");
}
