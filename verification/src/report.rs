//! The text of the diagnostic that reports a safety violation.
//!
//! Capturing a backtrace, writing to the diagnostic stream and ending the
//! process are left to the caller; what is written is decided here.
use vstd::prelude::*;
use vstd::string::StringExecFns;

verus! {

/// The fixed message that reports a guard dropped before its handles.
pub const ROOT_MSG: &'static str =
    "Fatal error: Scope dropped while Lifted references still exist. This would cause undefined behavior. Aborting.\n";

/// The hint given when backtraces are switched off.
pub const HINT_MSG: &'static str =
    "\n(Hint: re-run with `RUST_BACKTRACE=1` to see a backtrace.)\n";

/// The heading that precedes a captured backtrace.
pub const TRACE_HEADING: &'static str = "\nBacktrace:\n";

/// What an attempt to capture a backtrace came to.
#[derive(Clone, Copy, Debug, PartialEq, Eq, Structural)]
pub enum TraceStatus {
    /// The platform cannot capture backtraces.
    Unsupported,
    /// Capturing is possible but switched off.
    Disabled,
    /// A backtrace was captured.
    Captured,
    /// Any status not known when this was written.
    Other,
}

/// The diagnostic for a violation: the fixed message, followed by the hint
/// when backtraces are switched off, or by the heading, the backtrace and a
/// line end when one was captured.
pub open spec fn diagnostic(status: TraceStatus, trace: Seq<char>) -> Seq<char> {
    match status {
        TraceStatus::Disabled => ROOT_MSG@ + HINT_MSG@,
        TraceStatus::Captured => ROOT_MSG@ + TRACE_HEADING@ + trace + "\n"@,
        TraceStatus::Unsupported | TraceStatus::Other => ROOT_MSG@,
    }
}

/// Builds the diagnostic for a violation. `trace` is the rendered backtrace;
/// it is used only when `status` says that one was captured.
pub fn violation_message(status: TraceStatus, trace: &str) -> (message: String)
    ensures
        message@ == diagnostic(status, trace@),
{
    let mut message = String::from_str(ROOT_MSG);
    match status {
        TraceStatus::Disabled => {
            message.append(HINT_MSG);
        },
        TraceStatus::Captured => {
            message.append(TRACE_HEADING);
            message.append(trace);
            message.append("\n");
        },
        TraceStatus::Unsupported | TraceStatus::Other => {},
    }
    message
}

} // verus!
