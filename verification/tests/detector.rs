use camera_recorder::camera::detector::{Detector, LineReport, OPEN_PATTERN};
use camera_recorder::storage::SegmentInfo;

fn opening(path: &str) -> String {
    format!("[segment @ 0x55d0c8a1f2c0] Opening '{}' for writing", path)
}

fn fresh() -> Detector {
    Detector::new("camera-1".to_string(), "/tmp/rec/camera-1".to_string())
}

/// Runs a whole stream and collects the completed paths with the step at
/// which each was reported (the index of the line, or the number of lines for
/// the end of the stream).
fn run(lines: &[String]) -> Vec<(usize, String)> {
    let mut detector = fresh();
    let mut completed = Vec::new();
    for (i, line) in lines.iter().enumerate() {
        let report: LineReport = detector.on_line(line);
        if let Some(path) = report.completed {
            completed.push((i, path));
        }
    }
    if let Some(path) = detector.finish() {
        completed.push((lines.len(), path));
    }
    completed
}

#[test]
fn open_pattern_is_the_capture_tools_phrase() {
    assert_eq!(OPEN_PATTERN, "Opening '([^']+)' for writing");
}

#[test]
fn three_segments_then_close() {
    let lines = vec![
        opening("/tmp/rec/camera-1/A.mp4"),
        opening("/tmp/rec/camera-1/B.mp4"),
        opening("/tmp/rec/camera-1/C.mp4"),
    ];
    let completed = run(&lines);
    assert_eq!(
        completed,
        vec![
            (1, "/tmp/rec/camera-1/A.mp4".to_string()),
            (2, "/tmp/rec/camera-1/B.mp4".to_string()),
            (3, "/tmp/rec/camera-1/C.mp4".to_string()),
        ]
    );

    // Each completed file that exists becomes one record with its camera and path.
    let detector = fresh();
    let sizes = [1_048_576u64, 2_097_152, 524_288];
    let mut records: Vec<SegmentInfo> = Vec::new();
    for ((_, path), size) in completed.iter().zip(sizes.iter()) {
        let record = detector.record_at(path.clone(), Some(*size), 1_765_675_800);
        records.push(record.expect("an existing file gives a record"));
    }
    assert_eq!(records.len(), 3);
    assert_eq!(records[0].local_path, "/tmp/rec/camera-1/A.mp4");
    assert_eq!(records[1].local_path, "/tmp/rec/camera-1/B.mp4");
    assert_eq!(records[2].local_path, "/tmp/rec/camera-1/C.mp4");
    for r in &records {
        assert_eq!(r.camera_id, "camera-1");
        assert_eq!(r.timestamp, 1_765_675_800);
    }
}

#[test]
fn first_open_line_completes_nothing() {
    let mut detector = fresh();
    let report = detector.on_line(&opening("/tmp/rec/camera-1/20251214_013000_camera-1.mp4"));
    assert_eq!(report.completed, None);
    assert_eq!(report.started, Some("20251214_013000_camera-1.mp4".to_string()));
    assert_eq!(
        detector.current_segment(),
        Some("20251214_013000_camera-1.mp4".to_string())
    );
}

#[test]
fn directory_of_the_reported_path_is_dropped() {
    let mut detector = fresh();
    detector.on_line(&opening("/some/other/place/one.mp4"));
    let report = detector.on_line(&opening("two.mp4"));
    assert_eq!(report.completed, Some("/tmp/rec/camera-1/one.mp4".to_string()));
    assert_eq!(report.started, Some("two.mp4".to_string()));
    assert_eq!(detector.finish(), Some("/tmp/rec/camera-1/two.mp4".to_string()));
}

#[test]
fn other_lines_change_nothing() {
    let mut detector = fresh();
    for line in [
        "frame=  120 fps= 25 q=-1.0 size=N/A time=00:00:04.80 bitrate=N/A speed=1x",
        "Opening 'missing the rest",
        "Opening '' for writing",
        "opening 'a.mp4' for writing",
        "",
    ] {
        let report = detector.on_line(line);
        assert_eq!(report.completed, None);
        assert_eq!(report.started, None);
        assert_eq!(detector.current_segment(), None);
    }
    detector.on_line(&opening("a.mp4"));
    for line in ["Press [q] to stop", "Opening 'b.mp4' for reading"] {
        let report = detector.on_line(line);
        assert_eq!(report.completed, None);
        assert_eq!(report.started, None);
        assert_eq!(detector.current_segment(), Some("a.mp4".to_string()));
    }
}

#[test]
fn error_lines_are_flagged_whatever_the_case() {
    let mut detector = fresh();
    assert!(detector.on_line("[rtsp @ 0x1] error while decoding").is_error);
    assert!(detector.on_line("Error opening input").is_error);
    assert!(detector.on_line("FATAL ERROR: connection refused").is_error);
    assert!(detector.on_line("some eRrOr here").is_error);
    assert!(!detector.on_line("erro r").is_error);
    assert!(!detector.on_line("all fine").is_error);
    assert!(!detector.on_line("").is_error);
    assert_eq!(detector.current_segment(), None);
}

#[test]
fn error_line_that_opens_a_file_does_both() {
    let mut detector = fresh();
    let report = detector.on_line("Opening 'error.mp4' for writing");
    assert!(report.is_error);
    assert_eq!(report.started, Some("error.mp4".to_string()));
}

#[test]
fn leftmost_report_in_a_line_wins() {
    let mut detector = fresh();
    let report = detector.on_line("Opening 'x.mp4' for writing Opening 'y.mp4' for writing");
    assert_eq!(report.started, Some("x.mp4".to_string()));
}

#[test]
fn empty_stream_completes_nothing() {
    let completed = run(&[]);
    assert!(completed.is_empty());
    let mut detector = fresh();
    assert_eq!(detector.finish(), None);
    assert_eq!(detector.finish(), None);
}

#[test]
fn finish_closes_once() {
    let mut detector = fresh();
    detector.on_line(&opening("only.mp4"));
    assert_eq!(detector.finish(), Some("/tmp/rec/camera-1/only.mp4".to_string()));
    assert_eq!(detector.finish(), None);
    assert_eq!(detector.current_segment(), None);
}

#[test]
fn path_that_names_no_file_closes_the_previous_and_tracks_nothing() {
    for path in ["..", "/", "/tmp/rec/camera-1/..", "."] {
        let mut detector = fresh();
        detector.on_line(&opening("a.mp4"));
        let report = detector.on_line(&opening(path));
        assert_eq!(report.completed, Some("/tmp/rec/camera-1/a.mp4".to_string()));
        assert_eq!(report.started, None);
        assert_eq!(detector.current_segment(), None);
        assert_eq!(detector.finish(), None);
    }
}

#[test]
fn trailing_slash_of_the_reported_path_is_ignored() {
    let mut detector = fresh();
    let report = detector.on_line(&opening("/tmp/rec/camera-1/a.mp4/"));
    assert_eq!(report.started, Some("a.mp4".to_string()));
    assert_eq!(detector.finish(), Some("/tmp/rec/camera-1/a.mp4".to_string()));
}

#[test]
fn advance_takes_the_reported_path_directly() {
    let mut detector = fresh();
    assert_eq!(detector.advance(None), None);
    assert_eq!(detector.advance(Some("d/one.mp4".to_string())), None);
    assert_eq!(detector.advance(None), None);
    assert_eq!(
        detector.advance(Some("d/two.mp4".to_string())),
        Some("/tmp/rec/camera-1/one.mp4".to_string())
    );
    assert_eq!(detector.current_segment(), Some("two.mp4".to_string()));
}

#[test]
fn one_completion_per_opened_file_with_noise_between() {
    let lines = vec![
        "Input #0, rtsp, from 'rtsp://cam/stream':".to_string(),
        opening("/t/s1.mp4"),
        "frame= 10".to_string(),
        "frame= 20".to_string(),
        opening("/t/s2.mp4"),
        "[mp4 @ 0x2] error writing trailer".to_string(),
        opening("/t/s3.mp4"),
        opening("/t/s4.mp4"),
        "frame= 30".to_string(),
    ];
    let completed = run(&lines);
    assert_eq!(
        completed,
        vec![
            (4, "/tmp/rec/camera-1/s1.mp4".to_string()),
            (6, "/tmp/rec/camera-1/s2.mp4".to_string()),
            (7, "/tmp/rec/camera-1/s3.mp4".to_string()),
            (9, "/tmp/rec/camera-1/s4.mp4".to_string()),
        ]
    );
}

#[test]
fn missing_file_gives_no_record() {
    let detector = fresh();
    assert!(detector.record_at("/tmp/rec/camera-1/gone.mp4".to_string(), None, 0).is_none());
    assert!(detector.record("/tmp/rec/camera-1/gone.mp4".to_string(), None).is_none());
}

#[test]
fn record_is_stamped_with_the_current_time() {
    let detector = fresh();
    let record = detector
        .record("/tmp/rec/camera-1/a.mp4".to_string(), Some(0))
        .expect("an existing file gives a record");
    assert_eq!(record.camera_id, "camera-1");
    assert_eq!(record.local_path, "/tmp/rec/camera-1/a.mp4");
    // After 2020-01-01 and before the year 3000.
    assert!(record.timestamp > 1_577_836_800);
    assert!(record.timestamp < 32_503_680_000);
}
