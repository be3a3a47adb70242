use camera_recorder::config::UploadConfig;
use camera_recorder::storage::uploader::{
    build_key, checked_retry_delay, key_with_date, storage_key, UploadAttemptState, UploadPhase,
    UploadStep, UNKNOWN_FILE,
};
use camera_recorder::storage::SegmentInfo;

fn config(max_retries: u32, retry_backoff_secs: u64) -> UploadConfig {
    UploadConfig { max_concurrent: 4, max_retries, retry_backoff_secs }
}

fn segment(path: &str, timestamp: i64) -> SegmentInfo {
    SegmentInfo {
        camera_id: "camera-1".to_string(),
        local_path: path.to_string(),
        timestamp,
    }
}

/// Drives one upload over the given attempt results, as a worker does, and
/// returns the waits it made, the number of attempts, and how it ended.
fn drive(cfg: &UploadConfig, results: &[bool]) -> (Vec<u64>, usize, UploadPhase) {
    let mut state = UploadAttemptState::new(cfg);
    let mut waits = Vec::new();
    let mut attempts = 0;
    for ok in results {
        if state.phase() != UploadPhase::Attempting {
            break;
        }
        attempts += 1;
        match state.on_attempt(*ok).expect("an attempt was due") {
            UploadStep::Uploaded => {}
            UploadStep::RetryAfter { wait_secs } => waits.push(wait_secs),
            UploadStep::Abandoned => {}
        }
    }
    (waits, attempts, state.phase())
}

#[test]
fn two_failures_then_success() {
    let (waits, attempts, phase) = drive(&config(5, 5), &[false, false, true]);
    assert_eq!(waits, vec![5, 10]);
    assert_eq!(attempts, 3);
    assert_eq!(phase, UploadPhase::Uploaded);
}

#[test]
fn max_retries_failures_abandon_the_segment() {
    let (waits, attempts, phase) = drive(&config(5, 5), &[false; 12]);
    assert_eq!(waits, vec![5, 10, 20, 40]);
    assert_eq!(attempts, 5);
    assert_eq!(phase, UploadPhase::Abandoned);
}

#[test]
fn retry_delay_doubles_from_the_configured_backoff() {
    let mut state = UploadAttemptState::new(&config(8, 3));
    let mut expected = 3u64;
    for k in 1..8u32 {
        assert_eq!(
            state.on_attempt(false),
            Some(UploadStep::RetryAfter { wait_secs: expected })
        );
        assert_eq!(state.retry_count(), k);
        assert_eq!(checked_retry_delay(3, k), Some(expected));
        expected *= 2;
    }
    assert_eq!(state.on_attempt(false), Some(UploadStep::Abandoned));
    assert_eq!(state.retry_count(), 8);
}

#[test]
fn nothing_follows_a_finished_upload() {
    let mut state = UploadAttemptState::new(&config(1, 5));
    assert_eq!(state.on_attempt(false), Some(UploadStep::Abandoned));
    assert_eq!(state.phase(), UploadPhase::Abandoned);
    assert_eq!(state.on_attempt(false), None);
    assert_eq!(state.on_attempt(true), None);
    assert_eq!(state.phase(), UploadPhase::Abandoned);
    assert_eq!(state.retry_count(), 1);
    assert!(!state.can_fail());

    let mut state = UploadAttemptState::new(&config(3, 5));
    assert_eq!(state.on_attempt(true), Some(UploadStep::Uploaded));
    assert_eq!(state.on_attempt(true), None);
    assert_eq!(state.on_attempt(false), None);
    assert_eq!(state.phase(), UploadPhase::Uploaded);
    assert_eq!(state.retry_count(), 0);
}

#[test]
fn no_retries_configured_means_one_attempt() {
    let (waits, attempts, phase) = drive(&config(0, 5), &[false, false]);
    assert!(waits.is_empty());
    assert_eq!(attempts, 1);
    assert_eq!(phase, UploadPhase::Abandoned);
}

#[test]
fn first_attempt_success_waits_for_nothing() {
    let (waits, attempts, phase) = drive(&config(5, 5), &[true]);
    assert!(waits.is_empty());
    assert_eq!(attempts, 1);
    assert_eq!(phase, UploadPhase::Uploaded);
}

#[test]
fn zero_backoff_retries_at_once() {
    let (waits, attempts, phase) = drive(&config(4, 0), &[false, false, false, false]);
    assert_eq!(waits, vec![0, 0, 0]);
    assert_eq!(attempts, 4);
    assert_eq!(phase, UploadPhase::Abandoned);
}

#[test]
fn delay_that_does_not_fit_is_reported_and_changes_nothing() {
    assert_eq!(checked_retry_delay(1, 64), Some(1u64 << 63));
    assert_eq!(checked_retry_delay(1, 65), None);
    assert_eq!(checked_retry_delay(3, 64), None);
    assert_eq!(checked_retry_delay(u64::MAX, 1), Some(u64::MAX));
    assert_eq!(checked_retry_delay(u64::MAX, 2), None);
    assert_eq!(checked_retry_delay(0, u32::MAX), Some(0));

    let mut state = UploadAttemptState::new(&config(10, u64::MAX));
    assert!(state.can_fail());
    assert_eq!(
        state.on_attempt(false),
        Some(UploadStep::RetryAfter { wait_secs: u64::MAX })
    );
    assert!(!state.can_fail());
    assert_eq!(state.on_attempt(false), None);
    assert_eq!(state.retry_count(), 1);
    assert_eq!(state.phase(), UploadPhase::Attempting);
    assert_eq!(state.on_attempt(true), Some(UploadStep::Uploaded));
}

#[test]
fn key_is_camera_date_file() {
    assert_eq!(
        storage_key(&segment("/tmp/rec/camera-1/20251214_013000_camera-1.mp4", 1_765_675_800)),
        Some("camera-1/20251214/20251214_013000_camera-1.mp4".to_string())
    );
    assert_eq!(
        storage_key(&segment("a.mp4", 1_709_251_199)),
        Some("camera-1/20240229/a.mp4".to_string())
    );
    assert_eq!(storage_key(&segment("a.mp4", 0)), Some("camera-1/19700101/a.mp4".to_string()));
    assert_eq!(storage_key(&segment("a.mp4", -1)), Some("camera-1/19691231/a.mp4".to_string()));
}

#[test]
fn key_of_a_path_without_file_name() {
    assert_eq!(UNKNOWN_FILE, "unknown");
    for path in ["", "/", "..", "/tmp/rec/camera-1/.."] {
        assert_eq!(
            storage_key(&segment(path, 946_684_800)),
            Some("camera-1/20000101/unknown".to_string()),
            "path {:?}",
            path
        );
    }
    assert_eq!(
        storage_key(&segment("/tmp/rec/camera-1/", 946_684_800)),
        Some("camera-1/20000101/camera-1".to_string())
    );
}

#[test]
fn key_of_a_time_that_cannot_be_written() {
    assert_eq!(storage_key(&segment("a.mp4", i64::MAX)), None);
    assert_eq!(storage_key(&segment("a.mp4", i64::MIN)), None);
}

#[test]
fn key_parts_are_joined_with_slashes() {
    assert_eq!(build_key("cam", "20250101", "f.mp4"), "cam/20250101/f.mp4");
    assert_eq!(build_key("", "", ""), "//");
    let s = segment("/x/y/z.mp4", 0);
    assert_eq!(
        key_with_date(&s, Some("20250102".to_string())),
        Some("camera-1/20250102/z.mp4".to_string())
    );
    assert_eq!(key_with_date(&s, None), None);
}
