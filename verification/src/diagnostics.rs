//! Routing of driver diagnostic reports: the severity flag bits of a report
//! decide which level the message is forwarded at.  The forwarding itself is
//! the diagnostics sink's business and has no effect on control flow.

use vstd::prelude::*;

verus! {

/// The flag bit marking an informational report.
pub const REPORT_INFORMATION_BIT: u32 = 0x1;

/// The flag bit marking a warning report.
pub const REPORT_WARNING_BIT: u32 = 0x2;

/// The flag bit marking an error report.
pub const REPORT_ERROR_BIT: u32 = 0x8;

/// The flag bit marking a debug report.
pub const REPORT_DEBUG_BIT: u32 = 0x10;

/// The level a diagnostic message is forwarded at.
#[derive(Clone, Copy, Debug, PartialEq, Eq, Structural)]
pub enum Severity {
    Error,
    Warning,
    Info,
    Debug,
    Trace,
}

/// The level chosen for a report with the given flags: the first of the
/// information, warning, error and debug bits that is set decides, in that
/// order of precedence; a report with none of them is forwarded at trace
/// level.
pub open spec fn spec_classify_severity(flags: u32) -> Severity {
    if flags & REPORT_INFORMATION_BIT != 0 {
        Severity::Info
    } else if flags & REPORT_WARNING_BIT != 0 {
        Severity::Warning
    } else if flags & REPORT_ERROR_BIT != 0 {
        Severity::Error
    } else if flags & REPORT_DEBUG_BIT != 0 {
        Severity::Debug
    } else {
        Severity::Trace
    }
}

/// Classify a driver report's severity flags.
pub fn classify_severity(flags: u32) -> (s: Severity)
    ensures
        s == spec_classify_severity(flags),
{
    if flags & REPORT_INFORMATION_BIT != 0 {
        Severity::Info
    } else if flags & REPORT_WARNING_BIT != 0 {
        Severity::Warning
    } else if flags & REPORT_ERROR_BIT != 0 {
        Severity::Error
    } else if flags & REPORT_DEBUG_BIT != 0 {
        Severity::Debug
    } else {
        Severity::Trace
    }
}

} // verus!
