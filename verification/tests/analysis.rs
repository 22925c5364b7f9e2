use av1converter::analysis::{
    analyze as analyze_file, split_tracks, AnalysisOutput, AnalysisResult as StreamReport, Resolution,
};
use av1converter::analyzer::ffprobe::{
    analyze, analyze_video_stream, audio_query_args, audio_tracks_from, execute_failure,
    hdr_type_of, metadata_from, parse_duration, parse_failure, parse_frame_rate, parse_number,
    probe_failure, subtitle_query_args, subtitle_tracks_from, video_query_args, FormatInfo,
    RawStream, StreamTags, VideoStream,
};
use av1converter::analyzer::{is_av1_codec, HdrType, ResolutionTier, VideoMetadata};
use av1converter::converter::EncoderProfile;
use av1converter::data::VideoAnalysis;
use av1converter::error::AppError;

fn stream() -> VideoStream {
    VideoStream {
        width: 3840,
        height: 2160,
        codec_name: Some("hevc".to_string()),
        pix_fmt: Some("yuv420p10le".to_string()),
        color_primaries: Some("bt2020".to_string()),
        color_transfer: Some("smpte2084".to_string()),
        color_space: Some("bt2020nc".to_string()),
        r_frame_rate: Some("24000/1001".to_string()),
        avg_frame_rate: Some("24/1".to_string()),
        bit_rate: Some("7000000".to_string()),
        side_data_list: None,
    }
}

fn raw(codec: Option<&str>, language: Option<&str>) -> RawStream {
    RawStream {
        index: Some(9),
        codec_type: Some("audio".to_string()),
        codec_name: codec.map(|c| c.to_string()),
        channels: Some(6),
        bit_rate: Some("640000".to_string()),
        sample_rate: Some("48000".to_string()),
        tags: Some(StreamTags { language: language.map(|l| l.to_string()), title: None }),
    }
}

#[test]
fn tiers_by_dimensions() {
    assert_eq!(ResolutionTier::from_dimensions(640, 480), ResolutionTier::SD);
    assert_eq!(ResolutionTier::from_dimensions(1279, 599), ResolutionTier::SD);
    assert_eq!(ResolutionTier::from_dimensions(1280, 0), ResolutionTier::HD);
    assert_eq!(ResolutionTier::from_dimensions(0, 600), ResolutionTier::HD);
    assert_eq!(ResolutionTier::from_dimensions(1280, 720), ResolutionTier::HD);
    assert_eq!(ResolutionTier::from_dimensions(1280, 721), ResolutionTier::FullHD);
    assert_eq!(ResolutionTier::from_dimensions(1920, 1080), ResolutionTier::FullHD);
    assert_eq!(ResolutionTier::from_dimensions(2999, 1799), ResolutionTier::FullHD);
    assert_eq!(ResolutionTier::from_dimensions(3000, 0), ResolutionTier::Uhd);
    assert_eq!(ResolutionTier::from_dimensions(3840, 2160), ResolutionTier::Uhd);
    assert_eq!(ResolutionTier::from_dimensions(4096, 2160), ResolutionTier::Uhd);
    assert_eq!(ResolutionTier::from_dimensions(4097, 0), ResolutionTier::Above4K);
    assert_eq!(ResolutionTier::from_dimensions(0, 2161), ResolutionTier::Above4K);
    assert_eq!(ResolutionTier::SD.display_name(), "SD");
    assert_eq!(ResolutionTier::HD.display_name(), "HD 720p");
    assert_eq!(ResolutionTier::FullHD.display_name(), "Full HD 1080p");
    assert_eq!(ResolutionTier::Uhd.display_name(), "4K UHD");
    assert_eq!(ResolutionTier::Above4K.display_name(), "Above 4K");
}

#[test]
fn av1_codec_names() {
    for name in ["av1", "AV1", "av01", "libaom-av1", "LibSvtAv1"] {
        assert!(is_av1_codec(name), "{}", name);
    }
    for name in ["hevc", "av", "av1 ", "libaom", ""] {
        assert!(!is_av1_codec(name), "{}", name);
    }
}

#[test]
fn hdr_types() {
    assert!(!HdrType::Sdr.is_hdr());
    assert!(HdrType::Pq.is_hdr());
    assert!(HdrType::Hlg.is_hdr());
    assert!(HdrType::DolbyVision.is_hdr());
    assert_eq!(HdrType::Sdr.display_string(), "SDR");
    assert_eq!(HdrType::Pq.display_string(), "HDR10");
    assert_eq!(HdrType::Hlg.display_string(), "HLG");
    assert_eq!(HdrType::DolbyVision.display_string(), "Dolby Vision");
    assert_eq!(HdrType::default(), HdrType::Sdr);
}

#[test]
fn metadata_strings() {
    let mut metadata = VideoMetadata {
        width: 1920,
        height: 1080,
        hdr_type: HdrType::Hlg,
        codec_name: "h264".to_string(),
        pixel_format: None,
        frame_rate_num: 24_000,
        frame_rate_den: 1_001,
        duration_us: 0,
        bitrate: None,
    };
    assert_eq!(metadata.resolution_string(), "1920x1080");
    assert_eq!(metadata.hdr_string(), "HLG");
    assert_eq!(metadata.frame_rate_string(), "23.976 fps");
    metadata.frame_rate_num = 25;
    metadata.frame_rate_den = 1;
    assert_eq!(metadata.frame_rate_string(), "25.000 fps");
    metadata.frame_rate_num = 30_000;
    metadata.frame_rate_den = 1_001;
    assert_eq!(metadata.frame_rate_string(), "29.970 fps");
    metadata.frame_rate_den = 0;
    assert_eq!(metadata.frame_rate_string(), "Unknown");
    metadata.frame_rate_num = 0;
    metadata.frame_rate_den = 1;
    assert_eq!(metadata.frame_rate_string(), "Unknown");
    let copy = metadata.duplicate();
    assert_eq!(copy.codec_name, "h264");
    assert_eq!(copy.width, 1920);
}

#[test]
fn frame_rates_are_read_from_fractions() {
    assert_eq!(parse_frame_rate(Some("30000/1001")), (30_000, 1_001));
    assert_eq!(parse_frame_rate(Some("25/1")), (25, 1));
    assert_eq!(parse_frame_rate(Some("+25/+1")), (25, 1));
    assert_eq!(parse_frame_rate(Some("0/0")), (0, 1));
    assert_eq!(parse_frame_rate(Some("25/0")), (0, 1));
    assert_eq!(parse_frame_rate(Some("25")), (0, 1));
    assert_eq!(parse_frame_rate(Some("25/1/1")), (0, 1));
    assert_eq!(parse_frame_rate(Some("a/1")), (0, 1));
    assert_eq!(parse_frame_rate(Some("25/ 1")), (0, 1));
    assert_eq!(parse_frame_rate(Some("/")), (0, 1));
    assert_eq!(parse_frame_rate(Some("")), (0, 1));
    assert_eq!(parse_frame_rate(Some("4294967295/1")), (u32::MAX, 1));
    assert_eq!(parse_frame_rate(Some("4294967296/1")), (0, 1));
    assert_eq!(parse_frame_rate(None), (0, 1));
}

#[test]
fn numbers_and_durations_are_read_from_text() {
    assert_eq!(parse_number(&Some("640000".to_string()), u64::MAX), Some(640_000));
    assert_eq!(parse_number(&Some("N/A".to_string()), u64::MAX), None);
    assert_eq!(parse_number(&Some("300".to_string()), 255), None);
    assert_eq!(parse_number(&None, 255), None);
    assert_eq!(parse_duration(&Some("5423.456000".to_string())), 5_423_456_000);
    assert_eq!(parse_duration(&Some("12".to_string())), 12_000_000);
    assert_eq!(parse_duration(&Some("0.0000019".to_string())), 1);
    assert_eq!(parse_duration(&Some("1.5".to_string())), 1_500_000);
    assert_eq!(parse_duration(&Some(".25".to_string())), 250_000);
    assert_eq!(parse_duration(&Some("3.".to_string())), 3_000_000);
    assert_eq!(parse_duration(&Some("N/A".to_string())), 0);
    assert_eq!(parse_duration(&Some("1.2.3".to_string())), 0);
    assert_eq!(parse_duration(&Some(".".to_string())), 0);
    assert_eq!(parse_duration(&Some("".to_string())), 0);
    assert_eq!(parse_duration(&Some("18446744073709.551615".to_string())), u64::MAX);
    assert_eq!(parse_duration(&Some("18446744073709.551616".to_string())), 0);
    assert_eq!(parse_duration(&None), 0);
}

#[test]
fn dynamic_range_of_a_stream() {
    let dolby = Some(vec!["{\"side_data_type\":\"DOVI configuration record\"}".to_string(),
        "{\"side_data_type\":\"Dolby Vision RPU Data\"}".to_string()]);
    let other = Some(vec!["{\"side_data_type\":\"Mastering display metadata\"}".to_string()]);
    let pq = Some("smpte2084".to_string());
    let hlg = Some("arib-std-b67".to_string());
    let sdr = Some("bt709".to_string());
    assert_eq!(hdr_type_of(&dolby, &sdr), HdrType::DolbyVision);
    assert_eq!(hdr_type_of(&other, &pq), HdrType::Pq);
    assert_eq!(hdr_type_of(&None, &hlg), HdrType::Hlg);
    assert_eq!(hdr_type_of(&None, &sdr), HdrType::Sdr);
    assert_eq!(hdr_type_of(&Some(vec![]), &None), HdrType::Sdr);
}

#[test]
fn metadata_is_made_from_stream_and_format() {
    let format = Some(FormatInfo {
        duration: Some("120.500000".to_string()),
        bit_rate: Some("8000000".to_string()),
    });
    let metadata = metadata_from(&stream(), &format);
    assert_eq!(metadata.width, 3840);
    assert_eq!(metadata.height, 2160);
    assert_eq!(metadata.hdr_type, HdrType::Pq);
    assert_eq!(metadata.codec_name, "hevc");
    assert_eq!(metadata.pixel_format.as_deref(), Some("yuv420p10le"));
    assert_eq!((metadata.frame_rate_num, metadata.frame_rate_den), (24_000, 1_001));
    assert_eq!(metadata.duration_us, 120_500_000);
    assert_eq!(metadata.bitrate, Some(8_000_000));

    let mut bare = stream();
    bare.codec_name = None;
    bare.r_frame_rate = None;
    let metadata = metadata_from(&bare, &None);
    assert_eq!(metadata.codec_name, "unknown");
    assert_eq!((metadata.frame_rate_num, metadata.frame_rate_den), (24, 1));
    assert_eq!(metadata.duration_us, 0);
    assert_eq!(metadata.bitrate, Some(7_000_000));
    bare.avg_frame_rate = None;
    bare.bit_rate = None;
    let metadata = metadata_from(&bare, &Some(FormatInfo { duration: None, bit_rate: None }));
    assert_eq!((metadata.frame_rate_num, metadata.frame_rate_den), (0, 1));
    assert_eq!(metadata.bitrate, None);
}

#[test]
fn tracks_are_numbered_in_order() {
    let mut second = raw(None, None);
    second.channels = None;
    second.tags = None;
    second.sample_rate = Some("fast".to_string());
    let audio = audio_tracks_from(&vec![raw(Some("eac3"), Some("eng")), second]);
    assert_eq!(audio.len(), 2);
    assert_eq!(audio[0].index, 0);
    assert_eq!(audio[0].codec, "eac3");
    assert_eq!(audio[0].language.as_deref(), Some("eng"));
    assert_eq!(audio[0].channels, 6);
    assert_eq!(audio[0].bitrate, Some(640_000));
    assert_eq!(audio[0].sample_rate, Some(48_000));
    assert_eq!(audio[1].index, 1);
    assert_eq!(audio[1].codec, "unknown");
    assert_eq!(audio[1].language, None);
    assert_eq!(audio[1].channels, 2);
    assert_eq!(audio[1].sample_rate, None);
    let subtitles = subtitle_tracks_from(&vec![raw(Some("subrip"), Some("ita"))]);
    assert_eq!(subtitles.len(), 1);
    assert_eq!(subtitles[0].index, 0);
    assert_eq!(subtitles[0].codec, "subrip");
    assert_eq!(subtitles[0].language.as_deref(), Some("ita"));
    assert!(!subtitles[0].forced);
}

#[test]
fn analysis_needs_a_video_stream() {
    let failed = analyze(&vec![], &None, &vec![raw(None, None)], &vec![]);
    assert!(matches!(failed, Err(AppError::Analysis(text)) if text == "No video stream found"));
    assert!(analyze_video_stream(&vec![], &None).is_err());
    let found = analyze(&vec![stream(), stream()], &None, &vec![raw(None, None)], &vec![]).unwrap();
    assert_eq!(found.metadata.width, 3840);
    assert_eq!(found.audio_tracks.len(), 1);
    assert!(found.subtitle_tracks.is_empty());
}

#[test]
fn probe_command_lines_and_errors() {
    let video = video_query_args("/in/a.mkv");
    assert_eq!(video.len(), 11);
    assert_eq!(video[3], "v:0");
    assert_eq!(video[7], "format=duration,bit_rate");
    assert_eq!(video[10], "/in/a.mkv");
    let audio = audio_query_args("a");
    assert_eq!(audio[5], "a");
    assert_eq!(audio[8], "a");
    let subs = subtitle_query_args("b");
    assert_eq!(subs[3], "stream=index,codec_type,codec_name:stream_tags=language,title");
    assert_eq!(subs[5], "s");
    assert_eq!(parse_failure("eof").message(), "Video analysis failed: Failed to parse ffprobe output: eof");
    assert_eq!(execute_failure("gone").message(), "Video analysis failed: Failed to execute ffprobe: gone");
    assert_eq!(probe_failure("bad").message(), "Video analysis failed: ffprobe failed: bad");
}

#[test]
fn classification_by_size_and_dynamic_range() {
    let report = |width: u32, height: u32, transfer: Option<&str>, side: Option<Vec<&str>>| {
        StreamReport {
            width,
            height,
            pix_fmt: "yuv420p".to_string(),
            color_primaries: None,
            color_transfer: transfer.map(|t| t.to_string()),
            color_space: None,
            side_data_list: side.map(|l| l.into_iter().map(|s| s.to_string()).collect()),
        }
    };
    assert_eq!(report(1920, 1080, None, None).classify_video(), Resolution::HD1080p);
    assert_eq!(report(1920, 1080, Some("smpte2084"), None).classify_video(), Resolution::HD1080pHDR);
    assert_eq!(report(1920, 1080, Some("arib-std-b67"), None).classify_video(), Resolution::HD1080pHDR);
    assert_eq!(
        report(1920, 1080, None, Some(vec!["x", "Dolby Vision"])).classify_video(),
        Resolution::HD1080pDV
    );
    assert_eq!(report(3000, 100, None, None).classify_video(), Resolution::UHD2160p);
    assert_eq!(report(100, 1800, Some("smpte2084"), None).classify_video(), Resolution::UHD2160pHDR);
    assert_eq!(
        report(3840, 2160, Some("smpte2084"), Some(vec!["has Dolby Vision RPU"])).classify_video(),
        Resolution::UHD2160pDV
    );
    let hdr = report(1, 1, Some("smpte2084"), Some(vec![]));
    assert!(hdr.is_hdr());
    assert!(!hdr.is_dolby_vision());
    assert_eq!(hdr.color_transfer(), Some("smpte2084"));
    assert!(!report(1, 1, Some("bt709"), None).is_hdr());
}

#[test]
fn resolutions() {
    assert!(Resolution::HD1080pDV.should_skip_conversion());
    assert!(Resolution::UHD2160pDV.should_skip_conversion());
    assert!(!Resolution::UHD2160pHDR.should_skip_conversion());
    assert_eq!(Resolution::HD1080pHDR.dimensions(), (1920, 1080));
    assert_eq!(Resolution::UHD2160p.dimensions(), (3840, 2160));
    assert_eq!(EncoderProfile::from_resolution(Resolution::HD1080pDV), EncoderProfile::HD1080pHDR);
    assert_eq!(EncoderProfile::from_resolution(Resolution::UHD2160pDV), EncoderProfile::UHD2160pHDR);
    assert_eq!(EncoderProfile::from_resolution(Resolution::UHD2160p), EncoderProfile::UHD2160p);
    assert_eq!(EncoderProfile::default(), EncoderProfile::HD1080p);
}

#[test]
fn video_analysis_profile() {
    let analysis = |width, height, hdr_type| VideoAnalysis { width, height, hdr_type };
    assert_eq!(analysis(1920, 1080, HdrType::Sdr).profile(), EncoderProfile::HD1080p);
    assert_eq!(analysis(1920, 1080, HdrType::Hlg).profile(), EncoderProfile::HD1080pHDR);
    assert_eq!(analysis(3000, 1080, HdrType::Sdr).profile(), EncoderProfile::UHD2160p);
    assert_eq!(analysis(1920, 1800, HdrType::DolbyVision).profile(), EncoderProfile::UHD2160pHDR);
    assert_eq!(analysis(720, 576, HdrType::Pq).resolution_string(), "720x576");
    assert_eq!(analysis(720, 576, HdrType::Pq).hdr_string(), "HDR10");
}

#[test]
fn streams_are_split_by_kind() {
    let kind = |kind: &str, codec: &str| {
        let mut s = raw(Some(codec), Some("eng"));
        s.codec_type = Some(kind.to_string());
        s
    };
    let mut nameless = kind("audio", "x");
    nameless.codec_name = None;
    nameless.channels = None;
    nameless.tags = None;
    let mut untyped = kind("audio", "y");
    untyped.codec_type = None;
    let streams = vec![
        kind("video", "hevc"),
        kind("audio", "eac3"),
        kind("subtitle", "subrip"),
        untyped,
        nameless,
        kind("subtitle", "ass"),
        kind("attachment", "ttf"),
    ];
    let (audio, subtitles) = split_tracks(&streams);
    assert_eq!(audio.len(), 2);
    assert_eq!((audio[0].index, audio[0].codec.as_str(), audio[0].channels), (0, "eac3", 6));
    assert_eq!(audio[0].bitrate, None);
    assert_eq!((audio[1].index, audio[1].codec.as_str(), audio[1].channels), (1, "unknown", 2));
    assert_eq!(audio[1].language, None);
    assert_eq!(subtitles.len(), 2);
    assert_eq!((subtitles[0].index, subtitles[0].codec.as_str()), (0, "subrip"));
    assert_eq!((subtitles[1].index, subtitles[1].codec.as_str()), (1, "ass"));

    let report = StreamReport {
        width: 1280,
        height: 720,
        pix_fmt: "yuv420p".to_string(),
        color_primaries: None,
        color_transfer: None,
        color_space: None,
        side_data_list: None,
    };
    let found = analyze_file(AnalysisOutput { streams: vec![report] }, &streams).unwrap();
    assert_eq!(found.video.width, 1280);
    assert_eq!(found.audio_tracks.len(), 2);
    assert_eq!(found.subtitle_tracks.len(), 2);
    assert!(matches!(
        analyze_file(AnalysisOutput { streams: vec![] }, &streams),
        Err(AppError::CommandExecution(text)) if text == "No video stream found"
    ));
}
