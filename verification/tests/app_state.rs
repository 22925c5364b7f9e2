use av1converter::app::{
    cycle_focus, move_down, move_up, App, Command, ConfirmAction, Key, Screen, SelectionMode,
    TrackFocus, HOME_MENU_COUNT,
};
use av1converter::config::{AppConfig, Encoder};
use av1converter::queue::{EncodingJob, JobStatus, WorkerMessage};
use av1converter::tracks::{AudioTrack, SubtitleTrack};

fn app() -> App {
    App::new(AppConfig::new(Encoder::SvtAv1))
}

fn job_with_tracks(audio: usize, subtitles: usize) -> EncodingJob {
    let mut job = EncodingJob::new("/in/a.mkv".to_string(), None);
    for index in 0..audio {
        job.audio_tracks.push(AudioTrack {
            index,
            language: None,
            codec: "aac".to_string(),
            channels: 2,
            title: None,
            bitrate: None,
            sample_rate: None,
        });
    }
    for index in 0..subtitles {
        job.subtitle_tracks.push(SubtitleTrack {
            index,
            language: None,
            codec: "srt".to_string(),
            title: None,
            forced: false,
        });
    }
    job.metadata = Some(av1converter::analyzer::VideoMetadata {
        width: 1280,
        height: 720,
        hdr_type: av1converter::analyzer::HdrType::Sdr,
        codec_name: "h264".to_string(),
        pixel_format: None,
        frame_rate_num: 25,
        frame_rate_den: 1,
        duration_us: 1,
        bitrate: None,
    });
    job.status = JobStatus::AwaitingConfig;
    job
}

#[test]
fn cursors_stay_in_their_lists() {
    assert_eq!(move_up(0), 0);
    assert_eq!(move_up(3), 2);
    assert_eq!(move_down(0, 0), 0);
    assert_eq!(move_down(0, 1), 0);
    assert_eq!(move_down(0, 2), 1);
    assert_eq!(move_down(4, 5), 4);
    assert_eq!(move_down(9, 5), 9);
    assert_eq!(HOME_MENU_COUNT, 5);
}

#[test]
fn focus_goes_round_the_track_screen() {
    assert_eq!(cycle_focus(TrackFocus::Audio, 2, 1), TrackFocus::Subtitle);
    assert_eq!(cycle_focus(TrackFocus::Audio, 2, 0), TrackFocus::Confirm);
    assert_eq!(cycle_focus(TrackFocus::Subtitle, 2, 1), TrackFocus::Confirm);
    assert_eq!(cycle_focus(TrackFocus::Confirm, 2, 1), TrackFocus::Audio);
    assert_eq!(cycle_focus(TrackFocus::Confirm, 0, 1), TrackFocus::Subtitle);
}

#[test]
fn home_menu() {
    let mut app = app();
    assert_eq!(app.current_screen, Screen::Home);
    assert_eq!(app.handle_key(Key::Up), Command::Nothing);
    assert_eq!(app.home_index, 0);
    for _ in 0..10 {
        app.handle_key(Key::Char('j'));
    }
    assert_eq!(app.home_index, 4);
    app.handle_key(Key::Enter);
    assert_eq!(app.confirm_dialog, Some(ConfirmAction::ExitApp));
    assert!(!app.confirm_selection);
    app.handle_key(Key::Esc);
    assert_eq!(app.confirm_dialog, None);
    app.handle_key(Key::Char('k'));
    assert_eq!(app.home_index, 3);
    app.handle_key(Key::Enter);
    assert_eq!(app.current_screen, Screen::Configuration);
    app.handle_key(Key::Esc);
    assert_eq!(app.current_screen, Screen::Home);
    assert_eq!(app.home_index, 0);
    app.home_index = 2;
    assert_eq!(app.handle_key(Key::Enter), Command::OpenExplorer);
    assert_eq!(app.current_screen, Screen::FileExplorer { select_folder: true });
    assert_eq!(app.selection_mode, SelectionMode::Folder);
    assert!(app.recursive);
}

#[test]
fn leaving_needs_confirmation() {
    let mut app = app();
    app.handle_key(Key::Char('q'));
    assert_eq!(app.confirm_dialog, Some(ConfirmAction::ExitApp));
    // enter on "No" closes the dialog
    assert_eq!(app.handle_key(Key::Enter), Command::Nothing);
    assert_eq!(app.confirm_dialog, None);
    assert!(!app.should_quit);
    app.handle_key(Key::Char('q'));
    app.handle_key(Key::Left);
    assert!(app.confirm_selection);
    app.handle_key(Key::Char('x'));
    assert!(app.confirm_dialog.is_some());
    app.handle_key(Key::Enter);
    assert!(app.should_quit);
    assert_eq!(app.confirm_dialog, None);
    let mut direct = self::app();
    direct.ask(ConfirmAction::ExitApp);
    direct.handle_key(Key::Char('Y'));
    assert!(direct.should_quit);
}

#[test]
fn cancelling_is_asked_only_while_encoding() {
    let mut app = app();
    app.navigate_to_queue();
    app.handle_key(Key::Esc);
    assert_eq!(app.confirm_dialog, None);
    app.encoding_active = true;
    app.handle_key(Key::Enter);
    assert_eq!(app.current_screen, Screen::Queue);
    app.handle_key(Key::Esc);
    assert_eq!(app.confirm_dialog, Some(ConfirmAction::CancelEncoding));
    assert_eq!(app.handle_key(Key::Char('n')), Command::Nothing);
    app.handle_key(Key::Esc);
    assert_eq!(app.handle_key(Key::Char('y')), Command::CancelEncoding);
    assert!(!app.should_quit);
    app.encoding_active = false;
    app.handle_key(Key::Enter);
    assert_eq!(app.current_screen, Screen::Finish);
}

#[test]
fn explorer_keys() {
    let mut app = app();
    app.navigate_to_explorer(false, false);
    app.show_directory(3);
    app.set_message("No video files found in this folder");
    assert_eq!(app.handle_key(Key::Down), Command::Nothing);
    assert_eq!(app.message, None);
    app.handle_key(Key::Char('j'));
    app.handle_key(Key::Char('j'));
    assert_eq!(app.explorer_index, 2);
    app.handle_key(Key::Up);
    assert_eq!(app.explorer_index, 1);
    assert_eq!(app.handle_key(Key::Enter), Command::ExplorerSelect);
    assert_eq!(app.handle_key(Key::Char(' ')), Command::ExplorerToggle);
    app.navigate_to_explorer(true, false);
    assert_eq!(app.handle_key(Key::Enter), Command::ExplorerEnter);
    assert_eq!(app.handle_key(Key::Char(' ')), Command::ExplorerSelect);
    app.handle_key(Key::Esc);
    assert_eq!(app.current_screen, Screen::Home);
}

#[test]
fn file_confirmation_keys() {
    let mut app = app();
    app.current_screen = Screen::FileConfirm;
    app.queue.jobs.push(job_with_tracks(0, 0));
    app.queue.jobs.push(job_with_tracks(0, 0));
    app.handle_key(Key::Down);
    app.handle_key(Key::Down);
    assert_eq!(app.file_confirm_scroll, 1);
    app.handle_key(Key::Char('k'));
    assert_eq!(app.file_confirm_scroll, 0);
    assert_eq!(app.handle_key(Key::Enter), Command::ConfirmQueuedFiles);
    assert_eq!(app.handle_key(Key::Esc), Command::CancelFileConfirm);
}

#[test]
fn track_screen_keys() {
    let mut app = app();
    app.queue.jobs.push(job_with_tracks(3, 2));
    app.queue.jobs.push(job_with_tracks(1, 0));
    app.navigate_to_track_config();
    app.handle_key(Key::Down);
    app.handle_key(Key::Down);
    app.handle_key(Key::Down);
    assert_eq!(app.audio_cursor, 2);
    assert_eq!(app.handle_key(Key::Char(' ')), Command::Nothing);
    assert_eq!(app.queue.jobs[0].track_selection.audio_indices, vec![2]);
    app.handle_key(Key::Char('a'));
    assert_eq!(app.queue.jobs[0].track_selection.audio_indices, vec![0, 1, 2]);
    app.handle_key(Key::Char('a'));
    assert!(app.queue.jobs[0].track_selection.audio_indices.is_empty());
    app.handle_key(Key::Tab);
    assert_eq!(app.track_focus, TrackFocus::Subtitle);
    app.handle_key(Key::Char('j'));
    app.handle_key(Key::Char(' '));
    assert_eq!(app.queue.jobs[0].track_selection.subtitle_indices, vec![1]);
    app.handle_key(Key::Char('s'));
    assert_eq!(app.queue.jobs[0].track_selection.subtitle_indices, vec![0, 1]);
    assert_eq!(app.audio_cursor, 2);
    app.handle_key(Key::Tab);
    assert_eq!(app.track_focus, TrackFocus::Confirm);
    app.handle_key(Key::Up);
    assert_eq!((app.audio_cursor, app.subtitle_cursor), (2, 1));
    // confirming turns to the next job
    assert_eq!(app.handle_key(Key::Char(' ')), Command::Nothing);
    assert!(matches!(app.queue.jobs[0].status, JobStatus::Ready));
    assert_eq!(app.queue.config_job_index, 1);
    assert_eq!(app.track_focus, TrackFocus::Audio);
    assert_eq!((app.audio_cursor, app.subtitle_cursor), (0, 0));
    // a job without subtitles: the focus goes from audio to the confirmation
    app.handle_key(Key::Tab);
    assert_eq!(app.track_focus, TrackFocus::Confirm);
    assert_eq!(app.handle_key(Key::Enter), Command::StartEncoding);
    assert!(matches!(app.queue.jobs[1].status, JobStatus::Ready));
}

#[test]
fn track_screen_without_a_job_takes_no_key() {
    let mut app = app();
    app.navigate_to_track_config();
    assert_eq!(app.handle_key(Key::Esc), Command::Nothing);
    assert_eq!(app.current_screen, Screen::TrackConfig);
}

#[test]
fn configuration_keys() {
    let mut app = app();
    app.navigate_to_configuration();
    for _ in 0..20 {
        app.handle_key(Key::Down);
    }
    assert_eq!(app.config_selected, 9);
    app.config_selected = 1;
    app.handle_key(Key::Right);
    assert_eq!(app.config.quality.vmaf_threshold, 9_100);
    app.handle_key(Key::Char('h'));
    app.handle_key(Key::Left);
    assert_eq!(app.config.quality.vmaf_threshold, 8_900);
    app.handle_key(Key::Char('k'));
    app.handle_key(Key::Char('l'));
    assert_eq!(app.config.encoder, Encoder::Nvenc);
    assert_eq!(app.handle_key(Key::Char('s')), Command::SaveConfig);
    assert_eq!(app.handle_key(Key::Other), Command::Nothing);
}

#[test]
fn a_run_from_start_to_results() {
    let mut app = app();
    app.queue.jobs.push(job_with_tracks(1, 0));
    app.queue.jobs.push(job_with_tracks(1, 0));
    app.navigate_to_track_config();
    assert_eq!(app.handle_key(Key::Enter), Command::Nothing);
    assert_eq!(app.handle_key(Key::Enter), Command::StartEncoding);
    let work = app.start_encoding(1_000, false);
    assert_eq!(work.len(), 2);
    assert!(app.encoding_active);
    assert_eq!(app.current_screen, Screen::Queue);
    assert!(!app.process_progress_message(WorkerMessage::Progress(0, 0), 1_100));
    assert!(!app.process_progress_message(WorkerMessage::Done(0), 2_000));
    assert!(!app.process_progress_message(WorkerMessage::Progress(1, 0), 2_100));
    assert!(app.encoding_active);
    assert!(app.process_progress_message(WorkerMessage::Error(1, "x".to_string()), 3_000));
    assert!(!app.encoding_active);
    assert_eq!(app.current_screen, Screen::Finish);
    assert_eq!(app.queue.end_time, Some(3_000));
    assert_eq!(app.queue.elapsed_time(9_000), Some(2_000));
    app.handle_key(Key::Enter);
    assert_eq!(app.current_screen, Screen::Home);
    assert!(app.queue.jobs.is_empty());
    assert_eq!(app.queue.converted_count, 0);
}

#[test]
fn queue_readings() {
    let mut app = app();
    assert!(app.current_config_file().is_none());
    app.queue.jobs.push(job_with_tracks(1, 0));
    assert_eq!(app.current_config_file().unwrap().path, "/in/a.mkv");
    assert_eq!(app.queue_overall_progress(), 0);
    assert_eq!(app.queue_elapsed_time(5), None);
    assert_eq!(app.queue_estimated_time_remaining(5), None);
    app.queue.jobs[0].status = JobStatus::Ready;
    app.queue.jobs.push(job_with_tracks(1, 0));
    app.queue.jobs[1].status = JobStatus::Ready;
    app.start_encoding(1_000, false);
    app.process_progress_message(WorkerMessage::Progress(0, 5_000), 2_000);
    assert_eq!(app.queue_overall_progress(), 2_500);
    assert_eq!(app.queue_elapsed_time(3_000), Some(2_000));
    assert_eq!(app.queue_estimated_time_remaining(3_000), Some(6_000));
}

fn encoding_app(statuses: Vec<JobStatus>, current: usize) -> App {
    let mut app = app();
    for status in statuses {
        let mut job = job_with_tracks(1, 0);
        job.status = status;
        app.queue.jobs.push(job);
    }
    app.queue.current_job_index = current;
    app.queue.total_jobs_to_encode = app.queue.jobs.len();
    app.queue.start_time = Some(100);
    app.encoding_active = true;
    app.navigate_to_queue();
    app
}

#[test]
fn a_message_gives_its_job_the_matching_status() {
    let fresh = || encoding_app(vec![JobStatus::Pending, JobStatus::Encoding { progress: 10 }], 1);

    let mut app = fresh();
    assert!(!app.process_progress_message(WorkerMessage::Progress(1, 4_000), 200));
    assert!(matches!(app.queue.jobs[1].status, JobStatus::Encoding { progress: 4_000 }));
    assert!(matches!(app.queue.jobs[0].status, JobStatus::Pending));
    assert_eq!(app.queue.end_time, None);

    let mut app = fresh();
    app.process_progress_message(WorkerMessage::Done(1), 200);
    assert!(matches!(app.queue.jobs[1].status, JobStatus::Done));
    assert_eq!((app.queue.converted_count, app.queue.error_count), (1, 0));

    let mut app = fresh();
    app.process_progress_message(WorkerMessage::DoneWithVmaf(1, 9_600), 200);
    assert!(matches!(app.queue.jobs[1].status, JobStatus::DoneWithVmaf { score: 9_600 }));

    let mut app = fresh();
    app.process_progress_message(WorkerMessage::Error(1, "broken".to_string()), 200);
    assert!(matches!(&app.queue.jobs[1].status, JobStatus::Error { message } if message == "broken"));
    assert_eq!((app.queue.converted_count, app.queue.error_count), (0, 1));

    let mut app = fresh();
    app.process_progress_message(WorkerMessage::QualityWarning(1, 7_200, 8_500), 200);
    assert!(matches!(
        app.queue.jobs[1].status,
        JobStatus::QualityWarning { vmaf: 7_200, threshold: 8_500 }
    ));
    assert_eq!(app.queue.converted_count, 1);
    // the other job is as it was, and the run goes on
    assert!(matches!(app.queue.jobs[0].status, JobStatus::Pending));
    assert!(app.encoding_active);
    assert_eq!(app.current_screen, Screen::Queue);
    assert_eq!(app.queue.end_time, None);
}

#[test]
fn cancellation_ends_the_run_and_skips_what_was_left() {
    let mut app = encoding_app(
        vec![JobStatus::Done, JobStatus::Encoding { progress: 4_000 }, JobStatus::Pending],
        1,
    );
    app.queue.converted_count = 1;
    assert!(app.process_progress_message(WorkerMessage::Cancelled, 900));
    assert!(matches!(app.queue.jobs[0].status, JobStatus::Done));
    assert!(matches!(&app.queue.jobs[1].status, JobStatus::Skipped { reason } if reason == "Cancelled"));
    assert!(matches!(&app.queue.jobs[2].status, JobStatus::Skipped { reason } if reason == "Cancelled"));
    assert!(!app.encoding_active);
    assert_eq!(app.current_screen, Screen::Finish);
    assert_eq!(app.queue.converted_count, 1);
    assert_eq!(app.queue.error_count, 0);
    assert_eq!(app.queue.skipped_count, 2);
    assert_eq!(app.queue.end_time, Some(900));
    // a later message does not move the end of the run
    app.process_progress_message(WorkerMessage::Cancelled, 1_500);
    assert_eq!(app.queue.end_time, Some(900));
}

#[test]
fn started_jobs_wait_for_the_encoder() {
    let mut app = app();
    app.queue.jobs.push(job_with_tracks(1, 0));
    app.queue.jobs.push(job_with_tracks(1, 0));
    app.queue.jobs[0].status = JobStatus::Ready;
    app.queue.config_job_index = 1;
    app.queue.end_time = Some(5);
    let work = app.start_encoding(50, true);
    assert_eq!(work.len(), 1);
    assert!(matches!(app.queue.jobs[0].status, JobStatus::Pending));
    assert!(matches!(app.queue.jobs[1].status, JobStatus::AwaitingConfig));
    assert_eq!(app.queue.end_time, None);
    assert_eq!(app.queue.config_job_index, 1);
    assert_eq!(app.queue.start_time, Some(50));
    // the first report for a started job is taken
    app.process_progress_message(WorkerMessage::Progress(0, 0), 60);
    assert!(matches!(app.queue.jobs[0].status, JobStatus::Encoding { progress: 0 }));
}
