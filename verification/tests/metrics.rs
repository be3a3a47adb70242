use camera_recorder::config::UploadConfig;
use camera_recorder::metrics::{
    init_metrics, text_or_notice, CAMERA_CONNECTED, CAMERA_LABEL, ENCODING_ERROR_NOTICE,
    FFMPEG_RESTARTS, RECORDING_BYTES, SEGMENTS_RECORDED, SEGMENTS_UPLOADED, UPLOAD_DURATION,
    UPLOAD_FAILURES,
};
use camera_recorder::storage::uploader::{UploadAttemptState, UploadStep};

#[test]
fn metric_family_names() {
    assert_eq!(CAMERA_CONNECTED, "camera_stream_connected");
    assert_eq!(SEGMENTS_RECORDED, "camera_segments_recorded_total");
    assert_eq!(SEGMENTS_UPLOADED, "camera_segments_uploaded_total");
    assert_eq!(UPLOAD_FAILURES, "camera_upload_failures_total");
    assert_eq!(UPLOAD_DURATION, "camera_segment_upload_duration_seconds");
    assert_eq!(FFMPEG_RESTARTS, "camera_ffmpeg_restarts_total");
    assert_eq!(RECORDING_BYTES, "camera_recording_bytes_total");
    assert_eq!(CAMERA_LABEL, "camera_id");
}

#[test]
fn init_registers_all_families() {
    let metrics = init_metrics().expect("a fresh registry accepts the seven families");
    // A family shows up in the text once it has a value.
    metrics.set_camera_connected("camera-1", false);
    metrics.segment_recorded("camera-1", 0);
    metrics.segment_uploaded("camera-1", 0);
    metrics.upload_failed("camera-1");
    metrics.capture_restarted("camera-1");
    let text = metrics.render();
    for name in [
        CAMERA_CONNECTED,
        SEGMENTS_RECORDED,
        SEGMENTS_UPLOADED,
        UPLOAD_FAILURES,
        UPLOAD_DURATION,
        FFMPEG_RESTARTS,
        RECORDING_BYTES,
    ] {
        assert!(text.contains(&format!("# HELP {} ", name)), "{} is missing", name);
    }
    assert!(text.contains("# TYPE camera_stream_connected gauge"));
    assert!(text.contains("# TYPE camera_segments_recorded_total counter"));
    assert!(text.contains("# TYPE camera_segment_upload_duration_seconds histogram"));
}

#[test]
fn two_metric_sets_do_not_share_a_registry() {
    let first = init_metrics().expect("first");
    let second = init_metrics().expect("second");
    first.upload_failed("camera-1");
    assert!(first.render().contains("camera_upload_failures_total{camera_id=\"camera-1\"} 1"));
    assert!(!second.render().contains("camera_upload_failures_total{camera_id=\"camera-1\"}"));
}

#[test]
fn fresh_metrics_render_nothing_for_unseen_cameras() {
    let metrics = init_metrics().expect("init");
    assert!(!metrics.render().contains("camera_id="));
}

#[test]
fn recorded_segments_and_bytes_are_counted() {
    let metrics = init_metrics().expect("init");
    metrics.segment_recorded("camera-1", 1_048_576);
    metrics.segment_recorded("camera-1", 2_097_152);
    metrics.segment_recorded("camera-2", 10);
    let text = metrics.render();
    assert!(text.contains("camera_segments_recorded_total{camera_id=\"camera-1\"} 2"));
    assert!(text.contains("camera_recording_bytes_total{camera_id=\"camera-1\"} 3145728"));
    assert!(text.contains("camera_segments_recorded_total{camera_id=\"camera-2\"} 1"));
    assert!(text.contains("camera_recording_bytes_total{camera_id=\"camera-2\"} 10"));
}

#[test]
fn connection_gauge_follows_the_last_setting() {
    let metrics = init_metrics().expect("init");
    metrics.set_camera_connected("camera-1", true);
    assert!(metrics.render().contains("camera_stream_connected{camera_id=\"camera-1\"} 1"));
    metrics.set_camera_connected("camera-1", false);
    assert!(metrics.render().contains("camera_stream_connected{camera_id=\"camera-1\"} 0"));
}

#[test]
fn upload_duration_lands_in_its_bucket() {
    let metrics = init_metrics().expect("init");
    metrics.segment_uploaded("camera-1", 2_500_000_000);
    let text = metrics.render();
    assert!(text.contains("camera_segments_uploaded_total{camera_id=\"camera-1\"} 1"));
    assert!(text
        .contains("camera_segment_upload_duration_seconds_bucket{camera_id=\"camera-1\",le=\"1\"} 0"));
    assert!(text
        .contains("camera_segment_upload_duration_seconds_bucket{camera_id=\"camera-1\",le=\"5\"} 1"));
    assert!(text.contains(
        "camera_segment_upload_duration_seconds_bucket{camera_id=\"camera-1\",le=\"300\"} 1"
    ));
    assert!(text.contains(
        "camera_segment_upload_duration_seconds_bucket{camera_id=\"camera-1\",le=\"+Inf\"} 1"
    ));
    assert!(text.contains("camera_segment_upload_duration_seconds_sum{camera_id=\"camera-1\"} 2.5"));
    assert!(text.contains("camera_segment_upload_duration_seconds_count{camera_id=\"camera-1\"} 1"));
}

#[test]
fn failures_and_restarts_are_counted_per_camera() {
    let metrics = init_metrics().expect("init");
    for _ in 0..3 {
        metrics.upload_failed("camera-2");
    }
    metrics.capture_restarted("camera-1");
    metrics.capture_restarted("camera-1");
    let text = metrics.render();
    assert!(text.contains("camera_upload_failures_total{camera_id=\"camera-2\"} 3"));
    assert!(text.contains("camera_ffmpeg_restarts_total{camera_id=\"camera-1\"} 2"));
    assert!(!text.contains("camera_upload_failures_total{camera_id=\"camera-1\"}"));
}

#[test]
fn failed_upload_scenario_counts_one_failure_per_attempt() {
    let metrics = init_metrics().expect("init");
    let cfg = UploadConfig { max_concurrent: 1, max_retries: 3, retry_backoff_secs: 5 };
    let mut state = UploadAttemptState::new(&cfg);
    let mut deleted = false;
    loop {
        // The upload primitive fails every time.
        match state.on_attempt(false) {
            Some(UploadStep::Uploaded) => {
                metrics.segment_uploaded("camera-1", 1);
                deleted = true;
                break;
            }
            Some(UploadStep::RetryAfter { .. }) => metrics.upload_failed("camera-1"),
            Some(UploadStep::Abandoned) => {
                metrics.upload_failed("camera-1");
                break;
            }
            None => panic!("an attempt was due"),
        }
    }
    assert!(!deleted);
    let text = metrics.render();
    assert!(text.contains("camera_upload_failures_total{camera_id=\"camera-1\"} 3"));
    assert!(!text.contains("camera_segments_uploaded_total{camera_id=\"camera-1\"}"));
}

#[test]
fn successful_upload_scenario_counts_one_success() {
    let metrics = init_metrics().expect("init");
    let cfg = UploadConfig { max_concurrent: 1, max_retries: 5, retry_backoff_secs: 5 };
    let mut state = UploadAttemptState::new(&cfg);
    let mut results = [false, false, true].iter();
    let mut waits = Vec::new();
    let mut deleted = false;
    while let Some(ok) = results.next() {
        match state.on_attempt(*ok) {
            Some(UploadStep::Uploaded) => {
                metrics.segment_uploaded("camera-1", 15_200_000_000);
                deleted = true;
                break;
            }
            Some(UploadStep::RetryAfter { wait_secs }) => {
                metrics.upload_failed("camera-1");
                waits.push(wait_secs);
            }
            Some(UploadStep::Abandoned) => {
                metrics.upload_failed("camera-1");
                break;
            }
            None => panic!("an attempt was due"),
        }
    }
    assert_eq!(waits, vec![5, 10]);
    assert!(deleted);
    let text = metrics.render();
    assert!(text.contains("camera_segments_uploaded_total{camera_id=\"camera-1\"} 1"));
    assert!(text.contains("camera_upload_failures_total{camera_id=\"camera-1\"} 2"));
}

#[test]
fn text_or_notice_keeps_text_and_fills_in_for_none() {
    assert_eq!(ENCODING_ERROR_NOTICE, "# Encoding error\n");
    assert_eq!(text_or_notice(Some("abc".to_string())), "abc");
    assert_eq!(text_or_notice(Some(String::new())), "");
    assert_eq!(text_or_notice(None), "# Encoding error\n");
}
