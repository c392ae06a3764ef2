//! Progress reporting: the reporter interface, the silent reporter, which
//! reporter a run uses, and the summary that ends an interactive run.
use vstd::prelude::*;
use vstd::string::*;

verus! {

/// A trait for reporting progress during multi-item operations.
pub trait ProgressReporter {
    /// Called when starting a batch operation.
    fn start(&mut self, total: usize, operation_name: &str);

    /// Called to report progress on an individual item.
    fn progress(&mut self, current: usize, total: usize, item_name: &str);

    /// Called when an item succeeds.
    fn success(&mut self, item_name: &str);

    /// Called when an item is skipped.
    fn skip(&mut self, item_name: &str, reason: &str);

    /// Called when an item fails.
    fn failure(&mut self, item_name: &str, error: &str);

    /// Called when the batch operation finishes.
    fn finish(&mut self, total: usize);
}

/// Progress reporter that produces no output.
#[derive(Debug, Clone, Copy, PartialEq, Eq, Structural, Default)]
pub struct QuietReporter;

impl QuietReporter {
    /// The silent reporter.
    pub fn new() -> (r: QuietReporter)
        ensures
            r == QuietReporter,
    {
        QuietReporter
    }
}

impl ProgressReporter for QuietReporter {
    fn start(&mut self, _total: usize, _operation_name: &str) {
    }

    fn progress(&mut self, _current: usize, _total: usize, _item_name: &str) {
    }

    fn success(&mut self, _item_name: &str) {
    }

    fn skip(&mut self, _item_name: &str, _reason: &str) {
    }

    fn failure(&mut self, _item_name: &str, _error: &str) {
    }

    fn finish(&mut self, _total: usize) {
    }
}

/// The kinds of progress reporter.
#[derive(Debug, Clone, Copy, PartialEq, Eq, Structural)]
pub enum ReporterKind {
    /// No output at all.
    Quiet,
    /// Plain progress lines, for logs and pipes.
    NonInteractive,
    /// A live progress bar.
    Interactive,
}

/// The reporter for the two mode flags; quiet takes precedence.
pub open spec fn reporter_for(quiet: bool, non_interactive: bool) -> ReporterKind {
    if quiet {
        ReporterKind::Quiet
    } else if non_interactive {
        ReporterKind::NonInteractive
    } else {
        ReporterKind::Interactive
    }
}

/// Selects a progress reporter based on mode flags.
pub fn select_reporter(quiet: bool, non_interactive: bool) -> (r: ReporterKind)
    ensures
        r == reporter_for(quiet, non_interactive),
{
    if quiet {
        ReporterKind::Quiet
    } else if non_interactive {
        ReporterKind::NonInteractive
    } else {
        ReporterKind::Interactive
    }
}

/// How a batch of items ended.
#[derive(Debug, Clone, Copy, PartialEq, Eq, Structural)]
pub enum CompletionSummary {
    /// No item failed.
    AllSucceeded { total: usize },
    /// Every item failed.
    AllFailed { total: usize },
    /// Some items failed and some succeeded.
    Mixed { succeeded: usize, failed: usize, total: usize },
}

/// The summary of a batch of `total` items of which `failures` failed; the
/// successes are the items that did not fail, and none when more failures
/// were counted than there were items.
pub open spec fn summary_for(total: usize, failures: usize) -> CompletionSummary {
    let succeeded = if failures <= total { (total - failures) as usize } else { 0usize };
    if failures == 0 {
        CompletionSummary::AllSucceeded { total }
    } else if succeeded == 0 {
        CompletionSummary::AllFailed { total }
    } else {
        CompletionSummary::Mixed { succeeded, failed: failures, total }
    }
}

/// Decides how a batch of `total` items with `failures` failures ended.
pub fn completion_summary(total: usize, failures: usize) -> (r: CompletionSummary)
    ensures
        r == summary_for(total, failures),
{
    let succeeded = total.saturating_sub(failures);
    if failures == 0 {
        CompletionSummary::AllSucceeded { total }
    } else if succeeded == 0 {
        CompletionSummary::AllFailed { total }
    } else {
        CompletionSummary::Mixed { succeeded, failed: failures, total }
    }
}

/// The decimal digits of `n`.
pub open spec fn decimal(n: nat) -> Seq<char>
    decreases n,
{
    if n < 10 {
        seq![digit(n)]
    } else {
        decimal(n / 10) + seq![digit(n % 10)]
    }
}

/// The character of a decimal digit.
pub open spec fn digit(d: nat) -> char {
    if d == 0 { '0' }
    else if d == 1 { '1' }
    else if d == 2 { '2' }
    else if d == 3 { '3' }
    else if d == 4 { '4' }
    else if d == 5 { '5' }
    else if d == 6 { '6' }
    else if d == 7 { '7' }
    else if d == 8 { '8' }
    else { '9' }
}

/// Relies on `ToString` for `usize`: its decimal digits, without sign or
/// leading zeros.
#[verifier::external_body]
fn decimal_string(n: usize) -> (r: String)
    ensures
        r@ == decimal(n as nat),
{
    n.to_string()
}

/// The line that reports a summary.
pub open spec fn summary_line(s: CompletionSummary) -> Seq<char> {
    match s {
        CompletionSummary::AllSucceeded { total } => "Completed: "@ + decimal(total as nat)
            + " items processed successfully"@,
        CompletionSummary::AllFailed { total } => "Failed: all "@ + decimal(total as nat)
            + " items failed"@,
        CompletionSummary::Mixed { succeeded, failed, total } => "Completed with failures: "@
            + decimal(succeeded as nat) + " succeeded, "@ + decimal(failed as nat) + " failed of "@
            + decimal(total as nat) + " total"@,
    }
}

impl CompletionSummary {
    /// The line that reports this summary.
    pub fn message(&self) -> (r: String)
        ensures
            r@ == summary_line(*self),
    {
        match *self {
            CompletionSummary::AllSucceeded { total } => {
                let mut out = String::from_str("Completed: ");
                out.append(decimal_string(total).as_str());
                out.append(" items processed successfully");
                out
            },
            CompletionSummary::AllFailed { total } => {
                let mut out = String::from_str("Failed: all ");
                out.append(decimal_string(total).as_str());
                out.append(" items failed");
                out
            },
            CompletionSummary::Mixed { succeeded, failed, total } => {
                let mut out = String::from_str("Completed with failures: ");
                out.append(decimal_string(succeeded).as_str());
                out.append(" succeeded, ");
                out.append(decimal_string(failed).as_str());
                out.append(" failed of ");
                out.append(decimal_string(total).as_str());
                out.append(" total");
                out
            },
        }
    }
}

} // verus!
