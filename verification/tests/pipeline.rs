use av1converter::analyzer::{HdrType, VideoMetadata};
use av1converter::config::{AppConfig, Encoder};
use av1converter::encoder::ab_av1::CrfSearchResult;
use av1converter::encoder::pipeline::quality_verdict;
use av1converter::encoder::{
    EncodeResult, FullEncodeResult, Pipeline, PipelineAction, PipelineStage,
};
use av1converter::tracks::TrackSelection;
use av1converter::verification::VmafResult;

fn metadata(width: u32, height: u32, hdr_type: HdrType) -> VideoMetadata {
    VideoMetadata {
        width,
        height,
        hdr_type,
        codec_name: "hevc".to_string(),
        pixel_format: None,
        frame_rate_num: 24,
        frame_rate_den: 1,
        duration_us: 1_000_000,
        bitrate: None,
    }
}

fn pipeline(config: AppConfig) -> Pipeline {
    Pipeline::new(
        "/in/a.mkv".to_string(),
        "/in/a_av1.mkv".to_string(),
        metadata(1920, 1080, HdrType::Sdr),
        TrackSelection { audio_indices: vec![1], subtitle_indices: vec![] },
        config,
    )
}

fn score(value: u32) -> VmafResult {
    VmafResult { score: value, min_score: 0, max_score: 10_000 }
}

#[test]
fn pipeline_without_search_starts_with_the_encode_under_the_preset() {
    let mut p = pipeline(AppConfig::new(Encoder::SvtAv1));
    assert_eq!(p.stage, PipelineStage::Start);
    match p.start(false) {
        PipelineAction::Encode { params } => {
            assert_eq!(params.input, "/in/a.mkv");
            assert_eq!(params.output, "/in/a_av1.mkv");
            assert_eq!(params.crf, 22);
            assert_eq!(params.film_grain, 0);
            assert_eq!(params.encoder, Encoder::SvtAv1);
            assert_eq!(params.tracks.audio_indices, vec![1]);
            assert_eq!(params.svt_preset, 4);
            assert_eq!(params.nvenc_preset, "p7");
        }
        other => panic!("unexpected action {:?}", other),
    }
    assert_eq!(p.stage, PipelineStage::Encoding);
}

#[test]
fn pipeline_with_search_asks_for_the_configured_target() {
    let mut config = AppConfig::new(Encoder::Nvenc);
    config.quality.vmaf_threshold = 9_300;
    let mut p = pipeline(config);
    match p.start(true) {
        PipelineAction::SearchQuality { input, encoder, min_vmaf } => {
            assert_eq!(input, "/in/a.mkv");
            assert_eq!(encoder, Encoder::Nvenc);
            assert_eq!(min_vmaf, 9_300);
        }
        other => panic!("unexpected action {:?}", other),
    }
    assert_eq!(p.stage, PipelineStage::Searching);
    match p.search_finished(Some(CrfSearchResult { crf: 31, predicted_vmaf: 9_542 })) {
        PipelineAction::Encode { params } => assert_eq!(params.crf, 31),
        other => panic!("unexpected action {:?}", other),
    }
    assert_eq!(p.crf, Some(31));
    assert_eq!(p.stage, PipelineStage::Encoding);
}

#[test]
fn failed_search_falls_back_to_the_preset() {
    let mut p = pipeline(AppConfig::new(Encoder::Nvenc));
    p.start(true);
    match p.search_finished(None) {
        PipelineAction::Encode { params } => assert_eq!(params.crf, 24),
        other => panic!("unexpected action {:?}", other),
    }
    assert_eq!(p.crf, None);
}

#[test]
fn encode_outcomes() {
    let mut cancelled = pipeline(AppConfig::new(Encoder::SvtAv1));
    cancelled.start(false);
    assert!(matches!(
        cancelled.encode_finished(EncodeResult::Cancelled),
        PipelineAction::Finish { result: FullEncodeResult::Cancelled }
    ));
    assert_eq!(cancelled.stage, PipelineStage::Finished);

    let mut failed = pipeline(AppConfig::new(Encoder::SvtAv1));
    failed.start(false);
    match failed.encode_finished(EncodeResult::Error("no space".to_string())) {
        PipelineAction::Finish { result: FullEncodeResult::Error(text) } => {
            assert_eq!(text, "no space")
        }
        other => panic!("unexpected action {:?}", other),
    }

    let mut config = AppConfig::new(Encoder::SvtAv1);
    config.quality.vmaf_enabled = false;
    let mut unchecked = pipeline(config);
    unchecked.start(false);
    assert!(matches!(
        unchecked.encode_finished(EncodeResult::Success),
        PipelineAction::Finish { result: FullEncodeResult::Success }
    ));

    let mut checked = pipeline(AppConfig::new(Encoder::SvtAv1));
    checked.start(false);
    match checked.encode_finished(EncodeResult::Success) {
        PipelineAction::Verify { input, output } => {
            assert_eq!(input, "/in/a.mkv");
            assert_eq!(output, "/in/a_av1.mkv");
        }
        other => panic!("unexpected action {:?}", other),
    }
    assert_eq!(checked.stage, PipelineStage::Verifying);
}

#[test]
fn verification_decides_between_success_and_warning() {
    let run = |measured: Option<VmafResult>, threshold: u32| {
        let mut config = AppConfig::new(Encoder::SvtAv1);
        config.quality.vmaf_threshold = threshold;
        let mut p = pipeline(config);
        p.start(false);
        p.encode_finished(EncodeResult::Success);
        let result = p.verify_finished(measured);
        assert_eq!(p.stage, PipelineStage::Finished);
        result
    };
    assert!(matches!(run(None, 9_000), FullEncodeResult::Success));
    assert!(matches!(
        run(Some(score(9_600)), 9_000),
        FullEncodeResult::SuccessWithVmaf(v) if v.score == 9_600
    ));
    assert!(matches!(
        run(Some(score(9_000)), 9_000),
        FullEncodeResult::SuccessWithVmaf(v) if v.score == 9_000
    ));
    assert!(matches!(
        run(Some(score(7_200)), 8_500),
        FullEncodeResult::QualityWarning { vmaf, threshold: 8_500 } if vmaf.score == 7_200
    ));
    assert!(matches!(
        quality_verdict(Some(score(8_999)), 9_000),
        FullEncodeResult::QualityWarning { threshold: 9_000, .. }
    ));
}

#[test]
fn preset_follows_tier_dynamic_range_and_encoder() {
    let crf_for = |encoder: Encoder, width: u32, height: u32, hdr: HdrType| {
        let mut p = Pipeline::new(
            "i".to_string(),
            "o".to_string(),
            metadata(width, height, hdr),
            TrackSelection::default(),
            AppConfig::new(encoder),
        );
        match p.start(false) {
            PipelineAction::Encode { params } => (params.crf, params.film_grain),
            other => panic!("unexpected action {:?}", other),
        }
    };
    assert_eq!(crf_for(Encoder::SvtAv1, 640, 480, HdrType::Sdr), (24, 0));
    assert_eq!(crf_for(Encoder::Nvenc, 1280, 720, HdrType::Pq), (25, 0));
    assert_eq!(crf_for(Encoder::Qsv, 1920, 1080, HdrType::Hlg), (23, 3));
    assert_eq!(crf_for(Encoder::Amf, 3840, 2160, HdrType::Sdr), (25, 4));
    assert_eq!(crf_for(Encoder::SvtAv1, 3840, 2160, HdrType::DolbyVision), (22, 4));
    assert_eq!(crf_for(Encoder::Qsv, 7680, 4320, HdrType::Sdr), (24, 4));
    assert_eq!(crf_for(Encoder::SvtAv1, 7680, 4320, HdrType::Pq), (22, 4));
}
