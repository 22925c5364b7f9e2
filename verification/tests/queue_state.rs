use av1converter::analyzer::AnalysisResult;
use av1converter::error::AppError;
use av1converter::queue::job::FULL_PROGRESS;
use av1converter::queue::{EncodingJob, JobStatus, QueueState, WorkerMessage};

fn job(name: &str, status: JobStatus) -> EncodingJob {
    let mut job = EncodingJob::new(name.to_string(), Some(1_000));
    job.status = status;
    job
}

fn queue_of(statuses: Vec<JobStatus>, submitted: usize) -> QueueState {
    let mut queue = QueueState::new();
    for (i, status) in statuses.into_iter().enumerate() {
        queue.jobs.push(job(&format!("/videos/{}.mkv", i), status));
    }
    queue.total_jobs_to_encode = submitted;
    queue
}

#[test]
fn new_queue_is_empty_and_idle() {
    let queue = QueueState::new();
    assert!(queue.jobs.is_empty());
    assert_eq!(queue.overall_progress(), 0);
    assert_eq!(queue.estimated_time_remaining(5_000), None);
    assert!(queue.all_completed());
    assert_eq!(queue.total_space_saved(), (0, "0 B".to_string()));
}

#[test]
fn overall_progress_is_zero_without_submitted_jobs() {
    let queue = queue_of(vec![JobStatus::Done, JobStatus::Done], 0);
    assert_eq!(queue.overall_progress(), 0);
}

#[test]
fn overall_progress_counts_done_jobs_and_current_progress() {
    let mut queue = queue_of(
        vec![
            JobStatus::Done,
            JobStatus::Encoding { progress: 5_000 },
            JobStatus::Pending,
            JobStatus::Pending,
        ],
        4,
    );
    queue.current_job_index = 1;
    // (1 * 100 % + 50 %) / 4 = 37.5 %
    assert_eq!(queue.overall_progress(), 3_750);
}

#[test]
fn overall_progress_ignores_errors_and_skips_in_the_numerator() {
    let queue = queue_of(
        vec![
            JobStatus::Error { message: "boom".to_string() },
            JobStatus::Skipped { reason: "Cancelled".to_string() },
            JobStatus::DoneWithVmaf { score: 9_600 },
            JobStatus::QualityWarning { vmaf: 7_200, threshold: 8_500 },
        ],
        4,
    );
    assert_eq!(queue.overall_progress(), 5_000);
}

#[test]
fn overall_progress_is_clamped_to_full() {
    let queue = queue_of(vec![JobStatus::Done, JobStatus::Done, JobStatus::Done], 2);
    assert_eq!(queue.overall_progress(), FULL_PROGRESS);
}

#[test]
fn overall_progress_rounds_down() {
    let mut queue = queue_of(
        vec![JobStatus::Encoding { progress: 1 }, JobStatus::Pending, JobStatus::Pending],
        3,
    );
    queue.current_job_index = 0;
    assert_eq!(queue.overall_progress(), 0);
    queue.jobs[0].status = JobStatus::Encoding { progress: 10_000 };
    assert_eq!(queue.overall_progress(), 3_333);
}

#[test]
fn elapsed_time_runs_until_the_end_is_marked() {
    let mut queue = QueueState::new();
    assert_eq!(queue.elapsed_time(10), None);
    queue.start_time = Some(1_000);
    assert_eq!(queue.elapsed_time(4_000), Some(3_000));
    assert_eq!(queue.elapsed_time(500), Some(0));
    queue.end_time = Some(2_500);
    assert_eq!(queue.elapsed_time(9_000), Some(1_500));
}

#[test]
fn estimate_is_absent_at_zero_and_full_progress() {
    let mut queue = queue_of(vec![JobStatus::Pending, JobStatus::Pending], 2);
    queue.start_time = Some(0);
    assert_eq!(queue.estimated_time_remaining(60_000), None);
    queue.jobs[0].status = JobStatus::Done;
    queue.jobs[1].status = JobStatus::Done;
    assert_eq!(queue.overall_progress(), FULL_PROGRESS);
    assert_eq!(queue.estimated_time_remaining(60_000), None);
}

#[test]
fn estimate_extrapolates_linearly() {
    let mut queue = queue_of(vec![JobStatus::Done, JobStatus::Pending, JobStatus::Pending, JobStatus::Pending], 4);
    queue.start_time = Some(10_000);
    // 25 % after 30 s: 120 s in all, 90 s left
    assert_eq!(queue.estimated_time_remaining(40_000), Some(90_000));
}

#[test]
fn estimate_is_absent_without_a_start_and_without_elapsed_time() {
    let mut queue = queue_of(vec![JobStatus::Done, JobStatus::Pending], 2);
    assert_eq!(queue.estimated_time_remaining(40_000), None);
    queue.start_time = Some(40_000);
    assert_eq!(queue.estimated_time_remaining(40_000), None);
}

#[test]
fn all_completed_needs_every_job_in_a_terminal_status() {
    let mut queue = queue_of(
        vec![
            JobStatus::Done,
            JobStatus::DoneWithVmaf { score: 9_000 },
            JobStatus::Skipped { reason: "x".to_string() },
            JobStatus::Error { message: "y".to_string() },
            JobStatus::QualityWarning { vmaf: 1, threshold: 2 },
        ],
        5,
    );
    assert!(queue.all_completed());
    queue.jobs.push(job("/videos/last.mkv", JobStatus::Verifying));
    assert!(!queue.all_completed());
}

#[test]
fn total_space_saved_sums_known_reductions() {
    let mut queue = queue_of(vec![JobStatus::Done, JobStatus::Done, JobStatus::Pending], 3);
    queue.jobs[0].output_size = Some(400);
    queue.jobs[1].output_size = Some(2_000);
    assert_eq!(queue.total_space_saved(), (600, "600 B".to_string()));
}

#[test]
fn total_space_saved_saturates() {
    let mut queue = queue_of(vec![JobStatus::Done, JobStatus::Done], 2);
    queue.jobs[0].source_size = Some(u64::MAX);
    queue.jobs[0].output_size = Some(0);
    queue.jobs[1].source_size = Some(10);
    queue.jobs[1].output_size = Some(0);
    assert_eq!(queue.total_space_saved().0, u64::MAX);
    assert_eq!(queue.saved_total(), u64::MAX);
}

#[test]
fn reset_clears_the_run() {
    let mut queue = queue_of(vec![JobStatus::Done], 1);
    queue.converted_count = 1;
    queue.start_time = Some(3);
    queue.reset();
    assert!(queue.jobs.is_empty());
    assert_eq!(queue.converted_count, 0);
    assert_eq!(queue.total_jobs_to_encode, 0);
    assert_eq!(queue.start_time, None);
}

#[test]
fn progress_message_moves_a_pending_job_into_encoding() {
    let mut queue = queue_of(vec![JobStatus::Pending, JobStatus::Pending], 2);
    assert!(!queue.apply_message(WorkerMessage::Progress(1, 250)));
    assert!(matches!(queue.jobs[1].status, JobStatus::Encoding { progress: 250 }));
    assert_eq!(queue.current_job_index, 1);
    assert!(matches!(queue.jobs[0].status, JobStatus::Pending));
}

#[test]
fn progress_never_falls_and_never_exceeds_full() {
    let mut queue = queue_of(vec![JobStatus::Encoding { progress: 4_000 }], 1);
    queue.apply_message(WorkerMessage::Progress(0, 3_000));
    assert!(matches!(queue.jobs[0].status, JobStatus::Encoding { progress: 4_000 }));
    queue.apply_message(WorkerMessage::Progress(0, 20_000));
    assert!(matches!(queue.jobs[0].status, JobStatus::Encoding { progress: 10_000 }));
}

#[test]
fn progress_for_a_second_job_waits_for_the_active_slot() {
    let mut queue = queue_of(vec![JobStatus::Encoding { progress: 10 }, JobStatus::Pending], 2);
    queue.apply_message(WorkerMessage::Progress(1, 0));
    assert!(matches!(queue.jobs[1].status, JobStatus::Pending));
    assert_eq!(queue.current_job_index, 0);
}

#[test]
fn outcomes_are_counted_once() {
    let mut queue = queue_of(
        vec![JobStatus::Encoding { progress: 9_000 }, JobStatus::Pending, JobStatus::Pending],
        3,
    );
    assert!(!queue.apply_message(WorkerMessage::Done(0)));
    assert!(matches!(queue.jobs[0].status, JobStatus::Done));
    assert_eq!(queue.converted_count, 1);
    // a second outcome for the same job changes nothing
    queue.apply_message(WorkerMessage::Error(0, "late".to_string()));
    assert!(matches!(queue.jobs[0].status, JobStatus::Done));
    assert_eq!(queue.converted_count, 1);
    assert_eq!(queue.error_count, 0);

    queue.apply_message(WorkerMessage::Progress(1, 0));
    queue.apply_message(WorkerMessage::Error(1, "ffmpeg failed".to_string()));
    assert!(matches!(&queue.jobs[1].status, JobStatus::Error { message } if message == "ffmpeg failed"));
    assert_eq!(queue.error_count, 1);

    queue.apply_message(WorkerMessage::Progress(2, 0));
    assert!(queue.apply_message(WorkerMessage::QualityWarning(2, 7_200, 8_500)));
    assert!(matches!(
        queue.jobs[2].status,
        JobStatus::QualityWarning { vmaf: 7_200, threshold: 8_500 }
    ));
    assert_eq!(queue.converted_count, 2);
    assert!(queue.converted_count + queue.skipped_count + queue.error_count <= queue.jobs.len());
}

#[test]
fn outcome_for_a_job_that_never_started_is_ignored() {
    let mut queue = queue_of(vec![JobStatus::Pending], 1);
    assert!(!queue.apply_message(WorkerMessage::DoneWithVmaf(0, 9_500)));
    assert!(matches!(queue.jobs[0].status, JobStatus::Pending));
    assert_eq!(queue.converted_count, 0);
    assert!(!queue.apply_message(WorkerMessage::Done(7)));
}

#[test]
fn cancellation_skips_what_waits_and_runs() {
    let mut queue = queue_of(
        vec![
            JobStatus::Done,
            JobStatus::Encoding { progress: 1_234 },
            JobStatus::Pending,
            JobStatus::AwaitingConfig,
        ],
        3,
    );
    queue.current_job_index = 1;
    queue.converted_count = 1;
    assert!(queue.apply_message(WorkerMessage::Cancelled));
    assert!(matches!(queue.jobs[0].status, JobStatus::Done));
    assert!(matches!(&queue.jobs[1].status, JobStatus::Skipped { reason } if reason == "Cancelled"));
    assert!(matches!(&queue.jobs[2].status, JobStatus::Skipped { reason } if reason == "Cancelled"));
    assert!(matches!(queue.jobs[3].status, JobStatus::AwaitingConfig));
    assert_eq!(queue.skipped_count, 2);
    assert_eq!(queue.converted_count, 1);
}

#[test]
fn source_reports_are_recorded_once_and_only_after_success() {
    let mut queue = queue_of(
        vec![JobStatus::DoneWithVmaf { score: 9_600 }, JobStatus::Encoding { progress: 1 }],
        2,
    );
    queue.current_job_index = 1;
    queue.apply_message(WorkerMessage::SourceDeleted(1));
    assert!(!queue.jobs[1].source_deleted);
    queue.apply_message(WorkerMessage::SourceDeleted(0));
    assert!(queue.jobs[0].source_deleted);
    queue.apply_message(WorkerMessage::SourceKeptLowVmaf(0, 8_000));
    assert_eq!(queue.jobs[0].source_kept_vmaf, None);

    queue.apply_message(WorkerMessage::QualityWarning(1, 7_200, 8_500));
    queue.apply_message(WorkerMessage::SourceKeptLowVmaf(1, 7_200));
    assert_eq!(queue.jobs[1].source_kept_vmaf, Some(7_200));
    queue.apply_message(WorkerMessage::SourceDeleted(1));
    assert!(!queue.jobs[1].source_deleted);
    queue.apply_message(WorkerMessage::SourceDeleteFailed(1, "denied".to_string()));
    assert_eq!(queue.jobs[1].source_kept_vmaf, Some(7_200));
}

#[test]
fn progress_grows_as_jobs_complete() {
    let mut queue = queue_of(vec![JobStatus::Pending, JobStatus::Pending, JobStatus::Pending], 3);
    let mut last = queue.overall_progress();
    let messages = vec![
        WorkerMessage::Progress(0, 0),
        WorkerMessage::Progress(0, 4_000),
        WorkerMessage::Progress(0, 9_900),
        WorkerMessage::Done(0),
        WorkerMessage::Progress(1, 0),
        WorkerMessage::Progress(1, 5_000),
        WorkerMessage::DoneWithVmaf(1, 9_700),
        WorkerMessage::SourceDeleted(1),
        WorkerMessage::Progress(2, 0),
        WorkerMessage::QualityWarning(2, 7_000, 9_000),
    ];
    for message in messages {
        assert!(queue.is_well_formed());
        queue.apply_message(message);
        let now = queue.overall_progress();
        assert!(now >= last);
        assert!(now <= FULL_PROGRESS);
        last = now;
    }
    assert_eq!(last, FULL_PROGRESS);
}

#[test]
fn start_encoding_hands_ready_jobs_to_the_worker_in_order() {
    let mut queue = QueueState::new();
    for (i, status) in vec![
        JobStatus::Ready,
        JobStatus::Error { message: "no video stream".to_string() },
        JobStatus::Ready,
        JobStatus::AwaitingConfig,
        JobStatus::Ready,
    ]
    .into_iter()
    .enumerate()
    {
        let mut j = job(&format!("/in/{}.mkv", i), status);
        j.metadata = Some(sample_metadata());
        j.generate_output_path("_av1", "mkv");
        j.track_selection.audio_indices = vec![0, 2];
        queue.jobs.push(j);
    }
    // a ready job whose metadata is not known is left where it is
    queue.jobs[4].metadata = None;
    queue.error_count = 1;

    let work = queue.start_encoding(77, true);
    assert_eq!(work.len(), 2);
    assert_eq!(work[0].index, 0);
    assert_eq!(work[1].index, 2);
    assert_eq!(work[0].input, "/in/0.mkv");
    assert_eq!(work[0].output, "/in/0_av1.mkv");
    assert_eq!(work[1].tracks.audio_indices, vec![0, 2]);
    assert!(work[0].delete_source);
    assert_eq!(work[1].metadata.width, 1920);
    assert_eq!(queue.total_jobs_to_encode, 2);
    assert_eq!(queue.start_time, Some(77));
    assert_eq!(queue.end_time, None);
    assert!(matches!(queue.jobs[0].status, JobStatus::Pending));
    assert!(matches!(queue.jobs[2].status, JobStatus::Pending));
    assert!(matches!(queue.jobs[3].status, JobStatus::AwaitingConfig));
    assert!(matches!(queue.jobs[4].status, JobStatus::Ready));
    assert_eq!(queue.error_count, 1);
}

#[test]
fn finish_marks_the_end_once() {
    let mut queue = QueueState::new();
    queue.finish(5);
    assert_eq!(queue.end_time, None);
    queue.start_time = Some(1);
    queue.finish(5);
    assert_eq!(queue.end_time, Some(5));
    queue.finish(9);
    assert_eq!(queue.end_time, Some(5));
}

fn sample_metadata() -> av1converter::analyzer::VideoMetadata {
    av1converter::analyzer::VideoMetadata {
        width: 1920,
        height: 1080,
        hdr_type: av1converter::analyzer::HdrType::Sdr,
        codec_name: "h264".to_string(),
        pixel_format: Some("yuv420p".to_string()),
        frame_rate_num: 24_000,
        frame_rate_den: 1_001,
        duration_us: 60_000_000,
        bitrate: Some(8_000_000),
    }
}

#[test]
fn well_formed_queues() {
    let mut queue = queue_of(vec![JobStatus::Done, JobStatus::Encoding { progress: 1 }], 2);
    queue.current_job_index = 1;
    queue.converted_count = 1;
    assert!(queue.is_well_formed());
    assert_eq!(queue.ended_count(), 1);
    assert_eq!(queue.completed_count(), 1);
    queue.error_count = 1;
    assert!(!queue.is_well_formed());
    queue.error_count = 0;
    queue.current_job_index = 0;
    assert!(!queue.is_well_formed());
    queue.current_job_index = 1;
    queue.jobs[1].output_size = Some(5);
    assert!(!queue.is_well_formed());
    queue.jobs[1].output_size = None;
    queue.jobs[0].source_deleted = true;
    queue.jobs[0].source_kept_vmaf = Some(1);
    assert!(!queue.is_well_formed());
    queue.jobs[0].source_kept_vmaf = None;
    assert!(queue.is_well_formed());
    queue.jobs[1].status = JobStatus::Encoding { progress: 10_001 };
    assert!(!queue.is_well_formed());
}

#[test]
fn analysis_is_recorded_with_the_job() {
    let mut queue = queue_of(vec![JobStatus::Pending, JobStatus::Pending, JobStatus::Done], 0);
    assert!(!queue.begin_analysis(2));
    assert!(!queue.begin_analysis(3));
    assert!(queue.begin_analysis(0));
    assert!(matches!(queue.jobs[0].status, JobStatus::Analyzing));
    assert!(!queue.begin_analysis(0));
    let found = AnalysisResult {
        metadata: sample_metadata(),
        audio_tracks: vec![av1converter::tracks::AudioTrack {
            index: 0,
            language: None,
            codec: "aac".to_string(),
            channels: 2,
            title: None,
            bitrate: None,
            sample_rate: None,
        }],
        subtitle_tracks: vec![],
    };
    assert!(!queue.finish_analysis(1, Ok(found.clone()), "_av1", "mkv"));
    assert!(queue.finish_analysis(0, Ok(found), "_av1", "mkv"));
    assert!(matches!(queue.jobs[0].status, JobStatus::AwaitingConfig));
    assert_eq!(queue.jobs[0].metadata.as_ref().unwrap().width, 1920);
    assert_eq!(queue.jobs[0].track_selection.audio_indices, vec![0]);
    assert_eq!(queue.jobs[0].output_path.as_deref(), Some("/videos/0_av1.mkv"));

    assert!(queue.begin_analysis(1));
    assert!(queue.finish_analysis(1, Err(AppError::Analysis("No video stream found".to_string())), "_av1", "mkv"));
    assert!(matches!(
        &queue.jobs[1].status,
        JobStatus::Error { message } if message == "Video analysis failed: No video stream found"
    ));
    assert_eq!(queue.error_count, 1);
    assert!(queue.is_well_formed());
}

#[test]
fn configuration_goes_from_job_to_job() {
    let mut queue = queue_of(
        vec![
            JobStatus::Error { message: "x".to_string() },
            JobStatus::AwaitingConfig,
            JobStatus::Done,
            JobStatus::AwaitingConfig,
        ],
        0,
    );
    assert_eq!(queue.find_awaiting(0), 1);
    assert_eq!(queue.find_awaiting(2), 3);
    assert_eq!(queue.find_awaiting(4), 4);
    assert!(queue.select_config_job());
    assert_eq!(queue.config_job_index, 1);
    assert!(!queue.confirm_track_config());
    assert!(matches!(queue.jobs[1].status, JobStatus::Ready));
    assert_eq!(queue.config_job_index, 3);
    assert!(queue.confirm_track_config());
    assert!(matches!(queue.jobs[3].status, JobStatus::Ready));
    assert_eq!(queue.config_job_index, 3);
    assert!(!queue.select_config_job());
    assert_eq!(queue.config_job_index, 0);
}
