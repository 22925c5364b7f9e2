use av1converter::analyzer::{HdrType, VideoMetadata};
use av1converter::queue::{is_video_file, EncodingJob, JobStatus};
use av1converter::tracks::{AudioTrack, SubtitleTrack};

fn statuses() -> Vec<JobStatus> {
    vec![
        JobStatus::Pending,
        JobStatus::Analyzing,
        JobStatus::AwaitingConfig,
        JobStatus::Ready,
        JobStatus::SearchingQuality,
        JobStatus::Encoding { progress: 500 },
        JobStatus::Verifying,
        JobStatus::Done,
        JobStatus::DoneWithVmaf { score: 9_600 },
        JobStatus::Skipped { reason: "Cancelled".to_string() },
        JobStatus::Error { message: "failed".to_string() },
        JobStatus::QualityWarning { vmaf: 7_200, threshold: 8_500 },
    ]
}

#[test]
fn new_job_starts_pending_with_the_given_size() {
    let job = EncodingJob::new("/videos/film.mkv".to_string(), Some(42));
    assert!(matches!(job.status, JobStatus::Pending));
    assert_eq!(job.source_size, Some(42));
    assert_eq!(job.output_size, None);
    assert!(!job.source_deleted);
    assert_eq!(job.source_kept_vmaf, None);
    assert_eq!(job.output_path, None);
    assert_eq!(job.filename(), "film.mkv");
    assert_eq!(job.resolution_string(), "Unknown");
    assert_eq!(job.hdr_string(), "Unknown");
}

#[test]
fn filename_of_a_path_without_one_is_unknown() {
    let job = EncodingJob::new("/".to_string(), None);
    assert_eq!(job.filename(), "Unknown");
}

#[test]
fn strings_come_from_the_metadata() {
    let mut job = EncodingJob::new("a.mkv".to_string(), None);
    job.metadata = Some(VideoMetadata {
        width: 3840,
        height: 2160,
        hdr_type: HdrType::DolbyVision,
        codec_name: "hevc".to_string(),
        pixel_format: None,
        frame_rate_num: 25,
        frame_rate_den: 1,
        duration_us: 1,
        bitrate: None,
    });
    assert_eq!(job.resolution_string(), "3840x2160");
    assert_eq!(job.hdr_string(), "Dolby Vision");
}

#[test]
fn output_path_is_derived_from_path_suffix_and_container() {
    let mut job = EncodingJob::new("/videos/season 1/film.final.mkv".to_string(), None);
    job.generate_output_path("_av1", "mkv");
    assert_eq!(job.output_path.as_deref(), Some("/videos/season 1/film.final_av1.mkv"));
    // the same call gives the same path
    job.generate_output_path("_av1", "mkv");
    assert_eq!(job.output_path.as_deref(), Some("/videos/season 1/film.final_av1.mkv"));
    job.generate_output_path("-small", "mp4");
    assert_eq!(job.output_path.as_deref(), Some("/videos/season 1/film.final-small.mp4"));
}

#[test]
fn output_path_of_a_bare_file_name_and_of_the_root() {
    let mut bare = EncodingJob::new("film.mkv".to_string(), None);
    bare.generate_output_path("_av1", "mkv");
    assert_eq!(bare.output_path.as_deref(), Some("film_av1.mkv"));
    let mut root = EncodingJob::new("/".to_string(), None);
    root.generate_output_path("_av1", "mkv");
    assert_eq!(root.output_path.as_deref(), Some("./_av1.mkv"));
}

#[test]
fn select_all_tracks_takes_every_index() {
    let mut job = EncodingJob::new("a.mkv".to_string(), None);
    for index in [0usize, 1, 4] {
        job.audio_tracks.push(AudioTrack {
            index,
            language: None,
            codec: "aac".to_string(),
            channels: 2,
            title: None,
            bitrate: None,
            sample_rate: None,
        });
    }
    job.subtitle_tracks.push(SubtitleTrack {
        index: 3,
        language: Some("eng".to_string()),
        codec: "srt".to_string(),
        title: None,
        forced: false,
    });
    job.select_all_tracks();
    assert_eq!(job.track_selection.audio_indices, vec![0, 1, 4]);
    assert_eq!(job.track_selection.subtitle_indices, vec![3]);
}

#[test]
fn size_reduction_needs_both_sizes() {
    let mut job = EncodingJob::new("a.mkv".to_string(), None);
    assert_eq!(job.size_reduction(), None);
    job.output_size = Some(10);
    assert_eq!(job.size_reduction(), None);
    job.source_size = Some(100);
    job.output_size = None;
    assert_eq!(job.size_reduction(), None);
    job.source_size = Some(0);
    job.output_size = Some(0);
    assert_eq!(job.size_reduction(), None);
}

#[test]
fn size_reduction_gives_bytes_and_share() {
    let mut job = EncodingJob::new("a.mkv".to_string(), Some(1_000));
    job.output_size = Some(400);
    assert_eq!(job.size_reduction(), Some((600, 6_000)));
    job.source_size = Some(3);
    job.output_size = Some(2);
    assert_eq!(job.size_reduction(), Some((1, 3_333)));
    job.source_size = Some(u64::MAX);
    job.output_size = Some(0);
    assert_eq!(job.size_reduction(), Some((u64::MAX, 10_000)));
}

#[test]
fn size_reduction_does_not_underflow_for_a_larger_output() {
    let mut job = EncodingJob::new("a.mkv".to_string(), Some(500));
    job.output_size = Some(800);
    assert_eq!(job.size_reduction(), Some((0, 0)));
}

#[test]
fn terminal_statuses_allow_no_step() {
    for from in statuses() {
        if from.is_terminal() {
            for to in statuses() {
                assert!(!from.can_become(&to));
            }
        }
    }
}

#[test]
fn lifecycle_steps() {
    let encoding = |progress: u32| JobStatus::Encoding { progress };
    assert!(JobStatus::Pending.can_become(&JobStatus::Analyzing));
    assert!(JobStatus::Analyzing.can_become(&JobStatus::AwaitingConfig));
    assert!(JobStatus::Analyzing.can_become(&JobStatus::Error { message: String::new() }));
    assert!(JobStatus::AwaitingConfig.can_become(&JobStatus::Ready));
    assert!(JobStatus::Ready.can_become(&JobStatus::Pending));
    assert!(JobStatus::Pending.can_become(&JobStatus::SearchingQuality));
    assert!(JobStatus::Pending.can_become(&encoding(0)));
    assert!(JobStatus::SearchingQuality.can_become(&encoding(0)));
    assert!(encoding(10).can_become(&encoding(10)));
    assert!(encoding(10).can_become(&encoding(11)));
    assert!(!encoding(10).can_become(&encoding(9)));
    assert!(encoding(10).can_become(&JobStatus::Verifying));
    assert!(JobStatus::Verifying.can_become(&JobStatus::DoneWithVmaf { score: 1 }));
    assert!(encoding(10).can_become(&JobStatus::Skipped { reason: String::new() }));
    assert!(!JobStatus::Pending.can_become(&JobStatus::Done));
    assert!(!JobStatus::AwaitingConfig.can_become(&encoding(0)));
    assert!(!JobStatus::Ready.can_become(&encoding(0)));
    assert!(!JobStatus::Verifying.can_become(&encoding(10_000)));
}

#[test]
fn advance_takes_only_allowed_steps() {
    let mut job = EncodingJob::new("a.mkv".to_string(), None);
    assert!(!job.advance(JobStatus::Done));
    assert!(matches!(job.status, JobStatus::Pending));
    assert!(job.advance(JobStatus::Encoding { progress: 0 }));
    assert!(!job.advance(JobStatus::Encoding { progress: 10_001 }));
    assert!(job.advance(JobStatus::Encoding { progress: 10_000 }));
    assert!(job.advance(JobStatus::Done));
    assert!(!job.advance(JobStatus::Error { message: "late".to_string() }));
    assert!(matches!(job.status, JobStatus::Done));
}

#[test]
fn status_kinds() {
    for status in statuses() {
        let success = matches!(
            status,
            JobStatus::Done | JobStatus::DoneWithVmaf { .. } | JobStatus::QualityWarning { .. }
        );
        let terminal =
            success || matches!(status, JobStatus::Skipped { .. } | JobStatus::Error { .. });
        let active = matches!(
            status,
            JobStatus::SearchingQuality | JobStatus::Encoding { .. } | JobStatus::Verifying
        );
        assert_eq!(status.is_success(), success);
        assert_eq!(status.is_terminal(), terminal);
        assert_eq!(status.is_active(), active);
    }
}

#[test]
fn video_files_are_known_by_their_extension() {
    for name in ["a.mp4", "a.mkv", "a.avi", "a.mov", "a.webm", "a.m4v", "a.ts", "a.wmv", "a.flv"] {
        assert!(is_video_file(name), "{}", name);
    }
    assert!(is_video_file("/videos/Film.MKV"));
    assert!(is_video_file("clip.tar.Mp4"));
    assert!(!is_video_file("notes.txt"));
    assert!(!is_video_file("mkv"));
    assert!(!is_video_file("/videos/.mkv"));
    assert!(!is_video_file("archive.mkv.zip"));
    assert!(!is_video_file(""));
}
