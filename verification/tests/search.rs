use av1converter::config::Encoder;
use av1converter::encoder::ab_av1::{
    crf_from_capture, parse_ab_av1_output, score_from_capture, score_string, search_args,
    search_result_from, search_step, spawn_failure, unavailable, CrfSearchResult, SearchProcess,
    SearchStep, SEARCH_POLL_INTERVAL_MS,
};
use av1converter::error::AppError;

#[test]
fn search_output_gives_crf_and_predicted_score() {
    let found = parse_ab_av1_output("Encoded video.mkv crf 23 VMAF 95.42 predicted (45%)").unwrap();
    assert_eq!(found, CrfSearchResult { crf: 23, predicted_vmaf: 9_542 });
    let found = parse_ab_av1_output("crf   31\nVMAF\t90").unwrap();
    assert_eq!(found, CrfSearchResult { crf: 31, predicted_vmaf: 9_000 });
}

#[test]
fn first_match_counts() {
    let found = parse_ab_av1_output("crf 20 VMAF 91.5, then crf 40 VMAF 80").unwrap();
    assert_eq!(found, CrfSearchResult { crf: 20, predicted_vmaf: 9_150 });
}

#[test]
fn missing_score_counts_as_zero() {
    let found = parse_ab_av1_output("crf 28").unwrap();
    assert_eq!(found, CrfSearchResult { crf: 28, predicted_vmaf: 0 });
    let found = parse_ab_av1_output("crf 28 VMAF 1.2.3").unwrap();
    assert_eq!(found.predicted_vmaf, 0);
    let found = parse_ab_av1_output("crf 28 vmaf 95").unwrap();
    assert_eq!(found.predicted_vmaf, 0);
}

#[test]
fn missing_or_unreadable_crf_is_an_error() {
    for output in ["", "VMAF 95.0", "crf: 23", "crf23", "crf 256 VMAF 95", "CRF 23"] {
        let failed = parse_ab_av1_output(output);
        assert!(
            matches!(&failed, Err(AppError::AbAv1(text)) if text == "Could not parse CRF from ab-av1 output"),
            "{:?} for {:?}",
            failed,
            output
        );
    }
    assert_eq!(parse_ab_av1_output("crf 255").unwrap().crf, 255);
    assert_eq!(parse_ab_av1_output("crf 007").unwrap().crf, 7);
}

#[test]
fn captures_are_read_as_numbers() {
    assert_eq!(crf_from_capture(&Some("23".to_string())), Some(23));
    assert_eq!(crf_from_capture(&Some("300".to_string())), None);
    assert_eq!(crf_from_capture(&Some("".to_string())), None);
    assert_eq!(crf_from_capture(&None), None);
    assert_eq!(score_from_capture(&Some("95.429".to_string())), 9_542);
    assert_eq!(score_from_capture(&Some("95.4".to_string())), 9_540);
    assert_eq!(score_from_capture(&Some("95.".to_string())), 9_500);
    assert_eq!(score_from_capture(&Some(".5".to_string())), 50);
    assert_eq!(score_from_capture(&Some(".".to_string())), 0);
    assert_eq!(score_from_capture(&Some("..".to_string())), 0);
    assert_eq!(score_from_capture(&Some("42949672.95".to_string())), u32::MAX);
    assert_eq!(score_from_capture(&Some("42949672.96".to_string())), 0);
    assert_eq!(score_from_capture(&None), 0);
}

#[test]
fn results_of_the_two_searches_are_put_together() {
    let crf = || Ok(Some("30".to_string()));
    let vmaf = || Ok(Some("93.1".to_string()));
    assert_eq!(
        search_result_from(crf(), vmaf()).unwrap(),
        CrfSearchResult { crf: 30, predicted_vmaf: 9_310 }
    );
    assert!(matches!(
        search_result_from(Err("bad crf pattern".to_string()), vmaf()),
        Err(AppError::AbAv1(text)) if text == "bad crf pattern"
    ));
    assert!(matches!(
        search_result_from(crf(), Err("bad vmaf pattern".to_string())),
        Err(AppError::AbAv1(text)) if text == "bad vmaf pattern"
    ));
    assert!(matches!(
        search_result_from(Ok(None), vmaf()),
        Err(AppError::AbAv1(text)) if text == "Could not parse CRF from ab-av1 output"
    ));
    assert_eq!(search_result_from(crf(), Ok(None)).unwrap().predicted_vmaf, 0);
}

#[test]
fn scores_are_written_without_trailing_zeros() {
    assert_eq!(score_string(9_000), "90");
    assert_eq!(score_string(9_250), "92.5");
    assert_eq!(score_string(9_542), "95.42");
    assert_eq!(score_string(9_505), "95.05");
    assert_eq!(score_string(0), "0");
    assert_eq!(score_string(7), "0.07");
    assert_eq!(score_string(10_000), "100");
}

#[test]
fn search_command_line() {
    assert_eq!(
        search_args("/in/a.mkv", Encoder::Qsv, 9_350),
        vec![
            "auto-encode", "--input", "/in/a.mkv", "--encoder", "av1_qsv", "--min-vmaf", "93.5",
            "--quiet"
        ]
    );
}

#[test]
fn search_steps() {
    assert_eq!(SEARCH_POLL_INTERVAL_MS, 100);
    assert!(matches!(
        search_step(true, SearchProcess::Running),
        SearchStep::Abort { error: AppError::AbAv1(text) } if text == "CRF search cancelled"
    ));
    assert!(matches!(search_step(false, SearchProcess::Running), SearchStep::Wait));
    let failed = search_step(
        false,
        SearchProcess::Exited {
            success: false,
            stdout: "crf 20".to_string(),
            stderr: "no input".to_string(),
        },
    );
    assert!(matches!(
        failed,
        SearchStep::Finish { result: Err(AppError::AbAv1(text)) } if text == "ab-av1 failed: no input"
    ));
    let found = search_step(
        false,
        SearchProcess::Exited {
            success: true,
            stdout: "crf 20 VMAF 96".to_string(),
            stderr: String::new(),
        },
    );
    assert!(matches!(
        found,
        SearchStep::Finish { result: Ok(CrfSearchResult { crf: 20, predicted_vmaf: 9_600 }) }
    ));
    assert!(matches!(
        search_step(false, SearchProcess::Unknown("lost".to_string())),
        SearchStep::Finish { result: Err(AppError::AbAv1(text)) } if text == "Error waiting for ab-av1: lost"
    ));
    assert!(matches!(unavailable(), AppError::AbAv1(text) if text == "ab-av1 not available"));
    assert!(matches!(spawn_failure("x"), AppError::AbAv1(text) if text == "Failed to run ab-av1: x"));
}
