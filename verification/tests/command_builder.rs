use av1converter::analysis::Resolution;
use av1converter::analyzer::HdrType;
use av1converter::config::Encoder;
use av1converter::converter::{run_vmaf_check, Converter, EncodeOptions, EncodeResult, EncoderProfile};
use av1converter::encoder::command_builder::{
    build_video_filter, get_amf_params, get_color_params, get_frame_rate_params, get_nvenc_params,
    get_qsv_params, get_quality_params, get_svtav1_params,
};
use av1converter::encoder::{
    build_ffmpeg_args, get_dv_to_hdr10_params, is_dolby_vision_resolution, AV1Encoder,
    ContentType, EncodingParams,
};
use av1converter::error::AppError;
use av1converter::tracks::TrackSelection;
use av1converter::verification::VmafResult;

fn params(encoder: Encoder, hdr_type: HdrType) -> EncodingParams {
    EncodingParams {
        input: "/in/a b.mkv".to_string(),
        output: "/out/a b_av1.mkv".to_string(),
        encoder,
        crf: 23,
        film_grain: 4,
        hdr_type,
        tracks: TrackSelection { audio_indices: vec![0, 2], subtitle_indices: vec![1] },
        frame_rate_num: 24_000,
        frame_rate_den: 1_001,
        svt_preset: 6,
        nvenc_preset: "p5".to_string(),
    }
}

#[test]
fn whole_command_line_for_svt_av1_and_dolby_vision() {
    let args = build_ffmpeg_args(&params(Encoder::SvtAv1, HdrType::DolbyVision));
    assert_eq!(
        args,
        vec![
            "-y", "-nostdin", "-i", "/in/a b.mkv", "-map", "0:v:0", "-map", "0:a:0", "-map",
            "0:a:2", "-map", "0:s:1", "-c:v", "libsvtav1", "-vf",
            "format=yuv420p10le,setparams=colorspace=bt2020nc:color_primaries=bt2020:color_trc=smpte2084",
            "-r", "24000/1001", "-c:a", "copy", "-c:s", "copy", "-crf", "23", "-preset", "6",
            "-svtav1-params",
            "tune=0:film-grain=4:film-grain-denoise=1:enable-overlays=1:scd=1",
            "-color_primaries", "bt2020", "-color_trc", "smpte2084", "-colorspace", "bt2020nc",
            "/out/a b_av1.mkv"
        ]
    );
}

#[test]
fn empty_selection_maps_every_track_and_unknown_rate_is_left_out() {
    let mut p = params(Encoder::Amf, HdrType::Sdr);
    p.tracks = TrackSelection::default();
    p.frame_rate_num = 0;
    assert_eq!(
        build_ffmpeg_args(&p),
        vec![
            "-y", "-nostdin", "-i", "/in/a b.mkv", "-map", "0:v:0", "-map", "0:a?", "-map",
            "0:s?", "-c:v", "av1_amf", "-vf", "format=yuv420p10le", "-c:a", "copy", "-c:s",
            "copy", "-quality", "23", "-usage", "transcoding", "-rc", "cqp", "/out/a b_av1.mkv"
        ]
    );
    p.frame_rate_num = 25;
    p.frame_rate_den = 0;
    assert!(!build_ffmpeg_args(&p).contains(&"-r".to_string()));
}

#[test]
fn only_subtitles_selected() {
    let mut p = params(Encoder::Qsv, HdrType::Sdr);
    p.tracks = TrackSelection { audio_indices: vec![], subtitle_indices: vec![3, 10] };
    let args = build_ffmpeg_args(&p);
    assert_eq!(&args[6..10], &["-map", "0:s:3", "-map", "0:s:10"]);
    assert_eq!(args[11], "av1_qsv");
}

#[test]
fn quality_params_by_encoder() {
    let p = params(Encoder::Nvenc, HdrType::Sdr);
    assert_eq!(
        get_quality_params(&p),
        vec![
            "-cq", "23", "-preset", "p5", "-tune", "hq", "-multipass", "fullres",
            "-rc-lookahead", "48", "-spatial-aq", "1", "-temporal-aq", "1"
        ]
    );
    let mut high = params(Encoder::Nvenc, HdrType::Sdr);
    high.crf = 24;
    assert_eq!(get_nvenc_params(&high)[9], "32");
    assert_eq!(
        get_qsv_params(&p),
        vec![
            "-global_quality", "23", "-preset", "veryslow", "-look_ahead", "1",
            "-look_ahead_depth", "40"
        ]
    );
    assert_eq!(get_amf_params(&p), vec!["-quality", "23", "-usage", "transcoding", "-rc", "cqp"]);
    let mut plain = params(Encoder::SvtAv1, HdrType::Sdr);
    plain.film_grain = 0;
    plain.crf = 255;
    assert_eq!(
        get_svtav1_params(&plain),
        vec![
            "-crf", "255", "-preset", "6", "-svtav1-params",
            "tune=0:film-grain=0:enable-overlays=1:scd=1:enable-tf=1"
        ]
    );
    assert_eq!(get_quality_params(&plain), get_svtav1_params(&plain));
}

#[test]
fn colour_params_and_filters() {
    assert!(get_color_params(HdrType::Sdr).is_empty());
    assert_eq!(get_color_params(HdrType::Pq)[3], "smpte2084");
    assert_eq!(get_color_params(HdrType::Pq).len(), 8);
    assert_eq!(get_color_params(HdrType::Hlg)[3], "arib-std-b67");
    assert_eq!(get_color_params(HdrType::DolbyVision).len(), 6);
    assert_eq!(build_video_filter(HdrType::Pq), "format=yuv420p10le");
    assert!(build_video_filter(HdrType::DolbyVision).starts_with("format=yuv420p10le,setparams="));
    assert_eq!(get_frame_rate_params(30, 1), vec!["-r", "30/1"]);
    assert!(get_frame_rate_params(0, 1).is_empty());
    assert_eq!(get_dv_to_hdr10_params().len(), 8);
    assert_eq!(get_dv_to_hdr10_params()[0], "-vf");
    assert!(is_dolby_vision_resolution(&Resolution::HD1080pDV));
    assert!(!is_dolby_vision_resolution(&Resolution::HD1080pHDR));
}

#[test]
fn profile_command_line() {
    let options = EncodeOptions {
        run_vmaf: false,
        vmaf_threshold: None,
        keep_low_quality: true,
        content_type: ContentType::Animation,
        color_transfer: Some("arib-std-b67".to_string()),
    };
    let args = EncoderProfile::UHD2160pHDR.build_ffmpeg_args(
        "i.mkv",
        "o.mkv",
        &TrackSelection::default(),
        AV1Encoder::SvtAv1,
        &options,
        false,
    );
    assert_eq!(
        args,
        vec![
            "-y", "-nostdin", "-i", "i.mkv", "-map", "0:v:0", "-map", "0:a?", "-map", "0:s?",
            "-c:v", "libsvtav1", "-pix_fmt", "yuv420p10le", "-c:a", "copy", "-c:s", "copy",
            "-crf", "24", "-preset", "4", "-svtav1-params",
            "tune=0:film-grain=0:enable-overlays=1:scd=1:enable-tf=1", "-color_primaries",
            "bt2020", "-color_trc", "arib-std-b67", "-colorspace", "bt2020nc", "-map_metadata",
            "0", "o.mkv"
        ]
    );
    let dolby = EncoderProfile::HD1080pHDR.build_ffmpeg_args(
        "i.mkv",
        "o.mkv",
        &TrackSelection::default(),
        AV1Encoder::Nvenc,
        &options,
        true,
    );
    assert_eq!(dolby[dolby.len() - 9], "-vf");
    assert_eq!(dolby[dolby.len() - 1], "o.mkv");
}

#[test]
fn quality_check_decides_the_result() {
    let score = |s: u32| Some(VmafResult { score: s, min_score: 0, max_score: 0 });
    let options = EncodeOptions::default().with_vmaf(Some(9_000));
    let good = run_vmaf_check(score(9_500), &options);
    assert!(matches!(good.result, EncodeResult::SuccessWithVmaf(v) if v.score == 9_500));
    assert!(!good.remove_output);
    let low = run_vmaf_check(score(8_000), &options);
    assert!(matches!(
        low.result,
        EncodeResult::QualityBelowThreshold { vmaf, threshold: 9_000 } if vmaf.score == 8_000
    ));
    assert!(!low.remove_output);
    assert!(!run_vmaf_check(score(9_000), &options).remove_output);
    let unmeasured = run_vmaf_check(None, &options);
    assert!(matches!(unmeasured.result, EncodeResult::Success));
    assert!(!unmeasured.remove_output);
    let no_threshold = EncodeOptions::default().with_vmaf(None);
    assert!(matches!(
        run_vmaf_check(score(1), &no_threshold).result,
        EncodeResult::SuccessWithVmaf(_)
    ));
}

#[test]
fn low_score_warns_and_the_encode_stays() {
    let mut options = EncodeOptions::default().with_vmaf(Some(8_500));
    options.keep_low_quality = false;
    let measured = Some(VmafResult { score: 7_200, min_score: 6_000, max_score: 9_000 });
    let decision = run_vmaf_check(measured, &options);
    assert!(matches!(
        decision.result,
        EncodeResult::QualityBelowThreshold { vmaf, threshold: 8_500 } if vmaf.score == 7_200
    ));
    assert!(!decision.remove_output);
    options.keep_low_quality = true;
    assert!(!run_vmaf_check(measured, &options).remove_output);
}

#[test]
fn converter_command_lines() {
    let mut converter = Converter::new();
    assert_eq!(converter.get_resolution(), Resolution::HD1080p);
    assert_eq!(Converter::default(), converter);
    assert_eq!(converter.analyze("in.mp4")[8], "in.mp4");
    assert_eq!(converter.analyze("in.mp4")[7], "json");
    assert_eq!(
        converter.evaluate("a.mp4", "b.mkv", "/tmp/log.json"),
        vec![
            "-i", "a.mp4", "-i", "b.mkv", "-lavfi", "libvmaf=log_path=/tmp/log.json:log_fmt=json",
            "-f", "null", "-"
        ]
    );
    assert_eq!(
        converter.convert("a.mp4", "b.mkv").unwrap(),
        vec![
            "-i", "a.mp4", "-c:v", "libsvtav1", "-crf", "30", "-preset", "6", "-vf",
            "scale=1920:1080", "-c:a", "copy", "b.mkv"
        ]
    );
    converter.set_resolution(Resolution::UHD2160pHDR);
    assert_eq!(converter.convert("a", "b").unwrap()[9], "scale=3840:2160");
    converter.set_resolution(Resolution::UHD2160pDV);
    assert!(matches!(
        converter.convert("a", "b"),
        Err(AppError::CommandExecution(text))
            if text == "Dolby Vision content (UHD2160pDV) should not be converted"
    ));
    assert_eq!(converter.needs_conversion(Ok("{}".to_string())).unwrap(), true);
    assert!(matches!(
        converter.needs_conversion(Err(AppError::CommandExecution("x".to_string()))),
        Err(AppError::CommandExecution(text)) if text == "x"
    ));
}
