use clipshim::{
    check_input, collect, on_probe, prepare, JobError, JobRequest, Probe, Step, DEADLINE_MS,
    MAX_FILE_BYTES,
};

fn request(w: u32, h: u32) -> JobRequest {
    JobRequest { input_path: "/data/in.mov".to_string(), width: w, height: h }
}

#[test]
fn medium_input_runs_to_success() {
    let size: u64 = 500 * 1024 * 1024;
    let launch = prepare(&request(640, 360), Some(size), "/tmp", 7).expect("admitted");
    assert_eq!(launch.program, "ffmpeg");
    assert_eq!(launch.output, "/tmp/clip-7.mp4");
    let expected: Vec<&str> = vec![
        "-i",
        "/data/in.mov",
        "-vf",
        "scale='min(640,iw)':'min(360,ih)':force_original_aspect_ratio=decrease:force_divisible_by=2",
        "-c:v",
        "libx264",
        "-crf",
        "23",
        "-c:a",
        "aac",
        "-b:a",
        "128k",
        "-movflags",
        "+faststart",
        "-y",
        "/tmp/clip-7.mp4",
    ];
    assert_eq!(launch.args, expected);
    assert_eq!(on_probe(1_000, Probe::Running), Step::Sleep);
    assert_eq!(on_probe(12_000, Probe::Exited(true)), Step::Collect);
    let out = collect(Some(50 * 1024 * 1024), launch.output.clone());
    assert_eq!(out, Ok("/tmp/clip-7.mp4".to_string()));
}

#[test]
fn huge_input_is_refused_before_launch() {
    let size: u64 = 3 * 1024 * 1024 * 1024;
    assert_eq!(check_input(Some(size)), Err(JobError::InputTooLarge));
    assert!(matches!(prepare(&request(640, 360), Some(size), "/tmp", 1), Err(JobError::InputTooLarge)));
}

#[test]
fn size_limit_is_inclusive() {
    assert_eq!(check_input(Some(MAX_FILE_BYTES)), Ok(()));
    assert_eq!(check_input(Some(MAX_FILE_BYTES + 1)), Err(JobError::InputTooLarge));
    assert_eq!(check_input(Some(0)), Ok(()));
}

#[test]
fn missing_input_is_unavailable() {
    assert_eq!(check_input(None), Err(JobError::InputUnavailable));
    assert!(matches!(prepare(&request(2, 2), None, "/tmp", 1), Err(JobError::InputUnavailable)));
}

#[test]
fn hung_process_is_killed_at_deadline() {
    assert_eq!(on_probe(DEADLINE_MS - 1, Probe::Running), Step::Sleep);
    assert_eq!(on_probe(DEADLINE_MS, Probe::Running), Step::Kill(JobError::Timeout));
    assert_eq!(on_probe(301_000, Probe::Running), Step::Kill(JobError::Timeout));
}

#[test]
fn failed_exit_is_process_failed() {
    assert_eq!(on_probe(5_000, Probe::Exited(false)), Step::Fail(JobError::ProcessFailed));
    assert_eq!(on_probe(DEADLINE_MS + 5, Probe::Exited(false)), Step::Fail(JobError::ProcessFailed));
}

#[test]
fn unreadable_state_is_wait_error() {
    assert_eq!(on_probe(10, Probe::Unreadable), Step::Fail(JobError::WaitError));
}

#[test]
fn output_checks() {
    assert_eq!(collect(None, "/tmp/x.mp4".to_string()), Err(JobError::OutputMissing));
    assert_eq!(
        collect(Some(MAX_FILE_BYTES + 1), "/tmp/x.mp4".to_string()),
        Err(JobError::OutputTooLarge)
    );
    assert_eq!(collect(Some(MAX_FILE_BYTES), "/tmp/x.mp4".to_string()), Ok("/tmp/x.mp4".to_string()));
}

#[test]
fn odd_dimensions_round_up_to_even() {
    let launch = prepare(&request(641, 359), Some(10), "/s", 0).expect("admitted");
    assert_eq!(
        launch.args[3],
        "scale='min(642,iw)':'min(360,ih)':force_original_aspect_ratio=decrease:force_divisible_by=2"
    );
}

#[test]
fn distinct_tokens_give_distinct_outputs() {
    let a = prepare(&request(640, 360), Some(10), "/tmp", 12).expect("admitted");
    let b = prepare(&request(640, 360), Some(10), "/tmp", 121).expect("admitted");
    assert_ne!(a.output, b.output);
    assert_eq!(a.args[15], a.output);
}

#[test]
fn every_failure_has_a_message() {
    assert_eq!(JobError::InputUnavailable.message(), "input file could not be read");
    assert_eq!(JobError::InputTooLarge.message(), "input file exceeds 2 GiB");
    assert_eq!(JobError::SpawnFailed.message(), "failed to start the transcoder");
    assert_eq!(
        JobError::Timeout.message(),
        "transcoder did not finish within 300 s and was stopped"
    );
    assert_eq!(JobError::ProcessFailed.message(), "transcoder exited with a failure status");
    assert_eq!(
        JobError::OutputMissing.message(),
        "transcoder reported success but wrote no output"
    );
    assert_eq!(JobError::OutputTooLarge.message(), "output file exceeds 2 GiB");
    assert_eq!(JobError::WaitError.message(), "failed to poll the transcoder");
}
