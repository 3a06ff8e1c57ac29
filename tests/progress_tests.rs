use media_scanner::scanner::ScanProgress;
use media_scanner::{
    ProgressEvent, ProgressMessage, ProgressReporter, ScanConfig, ScanError, ScanErrorKind,
    ScanPhase, ScanResult,
};

#[test]
fn test_scan_phase_as_str() {
    assert_eq!(ScanPhase::Scan.as_str(), "scan");
    assert_eq!(ScanPhase::Process.as_str(), "process");
    assert_eq!(ScanPhase::Done.as_str(), "done");
}

#[test]
fn test_progress_reporter_new() {
    let reporter = ProgressReporter::new(true, 200);
    assert!(reporter.is_enabled());

    let reporter_disabled = ProgressReporter::new(false, 200);
    assert!(!reporter_disabled.is_enabled());
}

#[test]
fn test_progress_reporter_sequence_numbers() {
    let mut reporter = ProgressReporter::new(true, 200);

    let seq1 = reporter.next_seq();
    let seq2 = reporter.next_seq();
    let seq3 = reporter.next_seq();

    assert_eq!(seq1, 0);
    assert_eq!(seq2, 1);
    assert_eq!(seq3, 2);
    assert!(seq1 < seq2);
    assert!(seq2 < seq3);
}

#[test]
fn test_progress_reporter_should_report_disabled() {
    let reporter = ProgressReporter::new(false, 200);
    assert!(!reporter.should_report());
}

#[test]
fn test_progress_reporter_report_start_disabled() {
    let mut reporter = ProgressReporter::new(false, 200);
    let config = ScanConfig::default();
    reporter.report_start(&config);
    assert_eq!(reporter.next_seq(), 0);
}

#[test]
fn test_progress_reporter_report_progress_disabled() {
    let mut reporter = ProgressReporter::new(false, 200);
    let progress = ScanProgress::default();
    let result = reporter.report_progress(&progress);
    assert!(!result);
}

#[test]
fn test_progress_reporter_report_error_disabled() {
    let mut reporter = ProgressReporter::new(false, 200);
    let error = ScanError::new(ScanErrorKind::IoError, None, "Test error".to_string());
    reporter.report_error(&error);
    assert!(reporter.take_events().is_empty());
}

#[test]
fn test_progress_reporter_report_done_disabled() {
    let mut reporter = ProgressReporter::new(false, 200);
    let result = ScanResult::default();
    reporter.report_done(&result);
    assert!(reporter.take_events().is_empty());
}

#[test]
fn progress_is_throttled_but_errors_are_not() {
    let mut reporter = ProgressReporter::new(true, 500);
    let progress = ScanProgress::default();
    assert!(reporter.report_progress_at(&progress, 600));
    let error = ScanError::new(ScanErrorKind::IoError, Some("/a".to_string()), "x".to_string());
    reporter.report_error_at(&error, 650);
    assert!(!reporter.report_progress_at(&progress, 700));
    let events = reporter.take_events();
    assert_eq!(events.len(), 2);
    match &events[0] {
        ProgressEvent::Progress(m) => {
            assert_eq!(m.seq, 0);
            assert_eq!(m.ts, 600);
            assert_eq!(m.msg_type, "p");
        }
        _ => panic!("expected a progress event"),
    }
    match &events[1] {
        ProgressEvent::Error(m) => {
            assert_eq!(m.seq, 1);
            assert_eq!(m.error_type, "IoError");
            assert_eq!(m.path, Some("/a".to_string()));
        }
        _ => panic!("expected an error event"),
    }
    assert!(reporter.report_progress_at(&progress, 1100));
}

#[test]
fn progress_waits_for_first_interval() {
    let reporter = ProgressReporter::new(true, 500);
    assert!(!reporter.should_report_at(499));
    assert!(reporter.should_report_at(500));
}

#[test]
fn start_and_done_events() {
    let mut reporter = ProgressReporter::new(true, 0);
    let config = ScanConfig::builder()
        .add_root("/media".to_string())
        .max_depth(10)
        .compute_hash(false)
        .build();
    reporter.report_start_at(&config, 5);
    let mut result = ScanResult::new();
    result.total_files = 3;
    result.deleted_files = 1;
    result.duration_ms = 77;
    reporter.report_done_at(&result, 9);
    let events = reporter.take_events();
    match &events[0] {
        ProgressEvent::Start(m) => {
            assert_eq!(m.msg_type, "start");
            assert_eq!(m.roots, vec!["/media".to_string()]);
            assert_eq!(m.max_depth, 10);
            assert!(!m.compute_hash);
            assert_eq!(m.seq, 0);
        }
        _ => panic!("expected a start event"),
    }
    match &events[1] {
        ProgressEvent::Done(m) => {
            assert_eq!(m.seq, 1);
            assert_eq!(m.ts, 9);
            assert_eq!(m.total_files, 3);
            assert_eq!(m.deleted_files, 1);
            assert_eq!(m.ms, 77);
            assert_eq!(m.error_count, 0);
        }
        _ => panic!("expected a done event"),
    }
    assert!(reporter.take_events().is_empty());
}

#[test]
fn message_constructors_keep_fields() {
    let msg = ProgressMessage::new(
        2,
        200,
        ScanPhase::Scan,
        100,
        10,
        50,
        30,
        20,
        "/current/dir".to_string(),
        1500,
        Some(3000),
    );
    assert_eq!(msg.msg_type, "p");
    assert_eq!(msg.files, 100);
    assert_eq!(msg.audio_count, 20);
    assert_eq!(msg.eta_ms, Some(3000));
}
