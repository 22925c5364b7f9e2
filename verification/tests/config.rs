use av1converter::analyzer::ResolutionTier;
use av1converter::config::encoder_detect::{has_amd_av1, has_intel_av1, has_nvidia_av1};
use av1converter::config::types::{default_full_hd_dv, default_uhd_dv};
use av1converter::config::{
    detect_encoder, AppConfig, Encoder, EncoderOptions, EncodingPresetsConfig, HardwareReport,
    OutputConfig, PerformanceConfig, QualityConfig, TrackPresetConfig, CONFIG_ITEM_COUNT,
};
use av1converter::encoder::{detect_available_encoders, select_encoder, AV1Encoder, EncoderConfig};
use av1converter::error::AppError;

fn report(smi: Option<&str>, lspci: Option<&str>, vainfo: Option<&str>, wmic: Option<&str>) -> HardwareReport {
    HardwareReport {
        nvidia_smi: smi.map(|s| s.to_string()),
        lspci: lspci.map(|s| s.to_string()),
        vainfo: vainfo.map(|s| s.to_string()),
        wmic: wmic.map(|s| s.to_string()),
    }
}

#[test]
fn encoder_names() {
    assert_eq!(Encoder::Nvenc.ffmpeg_name(), "av1_nvenc");
    assert_eq!(Encoder::Qsv.ffmpeg_name(), "av1_qsv");
    assert_eq!(Encoder::Amf.ffmpeg_name(), "av1_amf");
    assert_eq!(Encoder::SvtAv1.ffmpeg_name(), "libsvtav1");
    assert_eq!(Encoder::Nvenc.display_name(), "NVENC (NVIDIA)");
    assert_eq!(Encoder::Qsv.display_name(), "Quick Sync (Intel)");
    assert_eq!(Encoder::Amf.display_name(), "AMF (AMD)");
    assert_eq!(Encoder::SvtAv1.display_name(), "SVT-AV1 (Software)");
    assert_eq!(AV1Encoder::Qsv.ffmpeg_name(), "av1_qsv");
    assert_eq!(AV1Encoder::Amf.display_name(), "AMF (AMD)");
}

#[test]
fn nvidia_detection() {
    for name in ["NVIDIA GeForce RTX 4090\n", "NVIDIA RTX 5080", "RTX 6000 Ada Generation", "NVIDIA L40S", "NVIDIA L4"] {
        assert!(has_nvidia_av1(&report(Some(name), None, None, None)), "{}", name);
    }
    for name in ["NVIDIA GeForce RTX 3080", "Tesla T4", ""] {
        assert!(!has_nvidia_av1(&report(Some(name), None, None, None)), "{}", name);
    }
    assert!(!has_nvidia_av1(&report(None, Some("rtx 40"), None, None)));
}

#[test]
fn intel_detection() {
    assert!(has_intel_av1(&report(None, Some("03:00.0 VGA: Intel Corporation DG2 [Arc A770]"), None, None)));
    assert!(!has_intel_av1(&report(None, Some("00:02.0 VGA: Intel Corporation UHD Graphics"), None, None)));
    assert!(has_intel_av1(&report(None, None, Some("VAProfileAV1Profile0 : VAEntrypointEncSlice"), None)));
    assert!(!has_intel_av1(&report(None, None, Some("VAProfileAV1Profile0 : VAEntrypointVLD"), None)));
    assert!(has_intel_av1(&report(None, None, None, Some("Name\nIntel(R) Arc(TM) A380"))));
    assert!(!has_intel_av1(&report(None, None, None, None)));
}

#[test]
fn amd_detection() {
    assert!(has_amd_av1(&report(None, Some("VGA: AMD/ATI Navi 31 [Radeon RX 7900 XT]"), None, None)));
    assert!(has_amd_av1(&report(None, Some("Radeon RX 7600"), None, None)));
    assert!(!has_amd_av1(&report(None, Some("VGA: AMD/ATI Navi 21 [Radeon RX 6800]"), None, None)));
    assert!(!has_amd_av1(&report(None, Some("navi 31"), None, None)));
    assert!(has_amd_av1(&report(None, None, Some("Radeon: VAProfileAV1Profile0 VAEntrypointEncSlice"), None)));
    assert!(!has_amd_av1(&report(None, None, Some("VAProfileAV1Profile0 VAEntrypointEncSlice"), None)));
    assert!(has_amd_av1(&report(None, None, None, Some("AMD Radeon RX 7800 XT"))));
}

#[test]
fn detection_prefers_hardware_in_order() {
    let all = report(Some("RTX 4070"), Some("Intel Arc ; Radeon RX 7600"), None, None);
    assert_eq!(detect_encoder(&all), Encoder::Nvenc);
    assert_eq!(
        detect_available_encoders(&all),
        vec![AV1Encoder::Nvenc, AV1Encoder::Qsv, AV1Encoder::Amf, AV1Encoder::SvtAv1]
    );
    let intel_amd = report(None, Some("Intel Arc ; Radeon RX 7600"), None, None);
    assert_eq!(detect_encoder(&intel_amd), Encoder::Qsv);
    let amd = report(None, Some("Radeon RX 7600"), None, None);
    assert_eq!(detect_encoder(&amd), Encoder::Amf);
    assert_eq!(detect_available_encoders(&amd), vec![AV1Encoder::Amf, AV1Encoder::SvtAv1]);
    let none = report(None, None, None, None);
    assert_eq!(detect_encoder(&none), Encoder::SvtAv1);
    assert_eq!(detect_available_encoders(&none), vec![AV1Encoder::SvtAv1]);
    assert_eq!(select_encoder(&[]), AV1Encoder::SvtAv1);
    assert_eq!(select_encoder(&[AV1Encoder::Qsv, AV1Encoder::SvtAv1]), AV1Encoder::Qsv);
    let config = EncoderConfig::new(&amd);
    assert_eq!(config.selected_encoder, AV1Encoder::Amf);
    assert!(config.run_vmaf);
    assert_eq!(config.vmaf_threshold, Some(9_000));
}

#[test]
fn standard_configuration() {
    let config = AppConfig::new(Encoder::Qsv);
    assert_eq!(config.encoder, Encoder::Qsv);
    assert_eq!(config.quality, QualityConfig { vmaf_threshold: 9_000, vmaf_enabled: true });
    assert_eq!(QualityConfig::default(), config.quality);
    assert_eq!(config.performance.svt_preset, 4);
    assert_eq!(config.performance.nvenc_preset, "p7");
    assert_eq!(PerformanceConfig::default().nvenc_preset, "p7");
    assert_eq!(config.presets, EncodingPresetsConfig::default());
    assert_eq!(config.presets.sd.crf, 24);
    assert_eq!(config.presets.uhd_hdr.nvenc_cq, 22);
    assert_eq!(config.presets.full_hd_dv, default_full_hd_dv());
    assert_eq!(config.presets.uhd_dv, default_uhd_dv());
    assert_eq!(default_full_hd_dv().amf_quality, 21);
    assert_eq!(default_uhd_dv().film_grain, 4);
    assert_eq!(config.output.suffix, "_av1");
    assert_eq!(config.output.container, "mkv");
    assert!(config.output.same_directory);
    assert_eq!(OutputConfig::default().output_directory, None);
    assert_eq!(config.tracks.preferred_audio_languages, vec!["eng", "ita"]);
    assert_eq!(TrackPresetConfig::default().preferred_subtitle_languages, vec!["eng"]);
    assert!(config.tracks.select_all_fallback);
    assert!(config.validate().is_ok());
}

#[test]
fn validation_rejects_settings_out_of_range() {
    let mut config = AppConfig::new(Encoder::SvtAv1);
    config.quality.vmaf_threshold = 10_000;
    config.performance.svt_preset = 13;
    assert!(config.validate().is_ok());
    config.performance.svt_preset = 14;
    assert!(matches!(
        config.validate(),
        Err(AppError::Config(text)) if text == "SVT-AV1 preset must be between 0 and 13"
    ));
    config.quality.vmaf_threshold = 10_001;
    assert!(matches!(
        config.validate(),
        Err(AppError::Config(text)) if text == "VMAF threshold must be between 0 and 100"
    ));
}

#[test]
fn preset_for_tier_and_dynamic_range() {
    let config = AppConfig::new(Encoder::SvtAv1);
    assert_eq!(*config.preset_for(&ResolutionTier::SD, true), config.presets.sd);
    assert_eq!(*config.preset_for(&ResolutionTier::HD, false), config.presets.hd);
    assert_eq!(*config.preset_for(&ResolutionTier::FullHD, false), config.presets.full_hd);
    assert_eq!(*config.preset_for(&ResolutionTier::FullHD, true), config.presets.full_hd_hdr);
    assert_eq!(*config.preset_for(&ResolutionTier::Uhd, false), config.presets.uhd);
    assert_eq!(*config.preset_for(&ResolutionTier::Uhd, true), config.presets.uhd_hdr);
    assert_eq!(*config.preset_for(&ResolutionTier::Above4K, false), config.presets.uhd);
    assert_eq!(*config.preset_for(&ResolutionTier::Above4K, true), config.presets.uhd_hdr);
}

#[test]
fn settings_move_in_steps() {
    assert_eq!(CONFIG_ITEM_COUNT, 10);
    let mut config = AppConfig::new(Encoder::SvtAv1);
    config.adjust_value(0, true);
    assert_eq!(config.encoder, Encoder::Nvenc);
    config.adjust_value(0, true);
    config.adjust_value(0, true);
    assert_eq!(config.encoder, Encoder::Amf);
    config.adjust_value(0, true);
    assert_eq!(config.encoder, Encoder::SvtAv1);
    config.adjust_value(0, false);
    assert_eq!(config.encoder, Encoder::Amf);

    config.adjust_value(1, true);
    assert_eq!(config.quality.vmaf_threshold, 9_100);
    config.quality.vmaf_threshold = 9_950;
    config.adjust_value(1, true);
    assert_eq!(config.quality.vmaf_threshold, 10_000);
    config.adjust_value(1, true);
    assert_eq!(config.quality.vmaf_threshold, 10_000);
    config.quality.vmaf_threshold = 50;
    config.adjust_value(1, false);
    assert_eq!(config.quality.vmaf_threshold, 0);

    config.adjust_value(2, true);
    assert!(!config.quality.vmaf_enabled);
    config.adjust_value(2, false);
    assert!(config.quality.vmaf_enabled);

    config.adjust_value(3, false);
    assert_eq!(config.performance.svt_preset, 3);
    config.performance.svt_preset = 13;
    config.adjust_value(3, true);
    assert_eq!(config.performance.svt_preset, 13);
    config.performance.svt_preset = 0;
    config.adjust_value(3, false);
    assert_eq!(config.performance.svt_preset, 0);

    config.adjust_value(4, true);
    assert_eq!(config.performance.nvenc_preset, "p1");
    config.adjust_value(4, false);
    assert_eq!(config.performance.nvenc_preset, "p7");
    config.adjust_value(4, false);
    assert_eq!(config.performance.nvenc_preset, "p6");
    config.performance.nvenc_preset = "slow".to_string();
    config.adjust_value(4, false);
    assert_eq!(config.performance.nvenc_preset, "p6");

    config.adjust_value(7, true);
    assert!(!config.output.same_directory);
    for index in [5usize, 6, 8, 9, 10] {
        let before = format!("{:?}", config);
        config.adjust_value(index, true);
        assert_eq!(format!("{:?}", config), before);
    }
}

#[test]
fn encoder_options() {
    let analysis = av1converter::analysis::AnalysisResult {
        width: 1,
        height: 1,
        pix_fmt: String::new(),
        color_primaries: None,
        color_transfer: Some("arib-std-b67".to_string()),
        color_space: None,
        side_data_list: None,
    };
    let options = EncoderOptions::from_analysis(&analysis, None);
    assert_eq!(options.vmaf, Some(9_000));
    assert_eq!(options.color_transfer.as_deref(), Some("arib-std-b67"));
    assert_eq!(EncoderOptions::from_analysis(&analysis, Some(9_500)).vmaf, Some(9_500));
    let args = options.ffmpeg_args(
        "i.mkv",
        "o.mkv",
        &av1converter::tracks::TrackSelection { audio_indices: vec![0], subtitle_indices: vec![2] },
        AV1Encoder::Qsv,
        false,
    );
    assert_eq!(
        args,
        vec![
            "-y", "-nostdin", "-i", "i.mkv", "-map", "0:v:0", "-map", "0:a:0", "-map", "0:s:2",
            "-c:v", "av1_qsv", "-pix_fmt", "yuv420p10le", "-c:a", "copy", "-c:s", "copy",
            "-global_quality", "24", "-preset", "veryslow", "-look_ahead", "1",
            "-look_ahead_depth", "40", "o.mkv"
        ]
    );
}
