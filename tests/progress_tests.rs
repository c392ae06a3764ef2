use bel7_cli::{
    CompletionSummary, ProgressReporter, QuietReporter, ReporterKind, completion_summary,
    select_reporter,
};

#[test]
fn test_quiet_reporter_lifecycle() {
    let mut reporter = QuietReporter::new();
    reporter.start(5, "Testing");
    reporter.progress(0, 5, "test1");
    reporter.success("test1");
    reporter.skip("test2", "disabled");
    reporter.failure("test3", "assertion failed");
    reporter.finish(5);
}

#[test]
fn test_select_reporter_quiet() {
    let reporter = select_reporter(true, false);
    let _ = reporter;
}

#[test]
fn test_select_reporter_non_interactive() {
    let reporter = select_reporter(false, true);
    let _ = reporter;
}

#[test]
fn test_select_reporter_interactive() {
    let reporter = select_reporter(false, false);
    let _ = reporter;
}

#[test]
fn test_select_reporter_quiet_takes_precedence() {
    let reporter = select_reporter(true, true);
    let _ = reporter;
}

#[test]
fn test_quiet_reporter_default() {
    let reporter = QuietReporter::default();
    let _ = reporter;
}

#[test]
fn test_boxed_reporter() {
    let mut reporter: Box<dyn ProgressReporter> = Box::new(QuietReporter::new());
    reporter.start(1, "boxed");
    reporter.finish(1);
}

#[test]
fn test_quiet_reporter_clone() {
    let reporter = QuietReporter::new();
    let cloned = reporter.clone();
    let _ = cloned;
}

#[test]
fn test_quiet_reporter_copy() {
    let reporter = QuietReporter::new();
    let copied = reporter;
    let _ = copied;
}

#[test]
fn test_quiet_reporter_debug() {
    let reporter = QuietReporter::new();
    let debug = format!("{:?}", reporter);
    assert!(debug.contains("QuietReporter"));
}

#[test]
fn reporter_selection_by_flags() {
    assert_eq!(select_reporter(true, false), ReporterKind::Quiet);
    assert_eq!(select_reporter(true, true), ReporterKind::Quiet);
    assert_eq!(select_reporter(false, true), ReporterKind::NonInteractive);
    assert_eq!(select_reporter(false, false), ReporterKind::Interactive);
}

#[test]
fn summary_without_failures() {
    let s = completion_summary(3, 0);
    assert_eq!(s, CompletionSummary::AllSucceeded { total: 3 });
    assert_eq!(s.message(), "Completed: 3 items processed successfully");
}

#[test]
fn summary_when_everything_failed() {
    let s = completion_summary(2, 2);
    assert_eq!(s, CompletionSummary::AllFailed { total: 2 });
    assert_eq!(s.message(), "Failed: all 2 items failed");
    assert_eq!(completion_summary(2, 5), CompletionSummary::AllFailed { total: 2 });
}

#[test]
fn summary_with_some_failures() {
    let s = completion_summary(120, 7);
    assert_eq!(
        s,
        CompletionSummary::Mixed { succeeded: 113, failed: 7, total: 120 }
    );
    assert_eq!(s.message(), "Completed with failures: 113 succeeded, 7 failed of 120 total");
}

#[test]
fn summary_of_an_empty_batch() {
    assert_eq!(completion_summary(0, 0).message(), "Completed: 0 items processed successfully");
}
