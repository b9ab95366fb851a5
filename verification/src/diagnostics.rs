//! Diagnostics sink policy: how driver callbacks map to log output.
//!
//! The driver delivers (severity, category, message) triples asynchronously,
//! on a thread of its own. The sink itself only forwards; the policy here is
//! the mapping from the driver's severity mask to a log level, most severe
//! bit first, and the performance advisory the selector emits when the
//! graphics and present roles land on distinct queue families.

use vstd::prelude::*;
use crate::selector::SelectionResult;

verus! {

/// Severity bit for verbose driver chatter, as the driver encodes it.
pub const SEVERITY_VERBOSE_BIT: u32 = 0x1;
/// Severity bit for informational messages.
pub const SEVERITY_INFO_BIT: u32 = 0x10;
/// Severity bit for warnings.
pub const SEVERITY_WARNING_BIT: u32 = 0x100;
/// Severity bit for errors.
pub const SEVERITY_ERROR_BIT: u32 = 0x1000;

/// Category bit for general driver events.
pub const CATEGORY_GENERAL_BIT: u32 = 0x1;
/// Category bit for validation findings.
pub const CATEGORY_VALIDATION_BIT: u32 = 0x2;
/// Category bit for performance advisories.
pub const CATEGORY_PERFORMANCE_BIT: u32 = 0x4;

/// Log levels the sink forwards to, in descending severity.
#[derive(Clone, Copy, Debug, PartialEq, Eq, Structural)]
pub enum LogLevel {
    Error,
    Warn,
    Info,
    Trace,
}

/// One diagnostic as the sink receives it.
#[derive(Clone, Debug)]
pub struct DiagnosticEvent {
    /// Severity mask, in the driver's encoding.
    pub severity: u32,
    /// Category mask, in the driver's encoding.
    pub category: u32,
    pub message: String,
}

/// The level a severity mask maps to: the most severe bit set decides, and a
/// mask with none of the known bits is verbose chatter.
pub open spec fn spec_level_for_severity(severity: u32) -> LogLevel {
    if severity & SEVERITY_ERROR_BIT != 0 {
        LogLevel::Error
    } else if severity & SEVERITY_WARNING_BIT != 0 {
        LogLevel::Warn
    } else if severity & SEVERITY_INFO_BIT != 0 {
        LogLevel::Info
    } else {
        LogLevel::Trace
    }
}

/// Log level for a driver severity mask.
pub fn level_for_severity(severity: u32) -> (r: LogLevel)
    ensures
        r == spec_level_for_severity(severity),
{
    if severity & SEVERITY_ERROR_BIT != 0 {
        LogLevel::Error
    } else if severity & SEVERITY_WARNING_BIT != 0 {
        LogLevel::Warn
    } else if severity & SEVERITY_INFO_BIT != 0 {
        LogLevel::Info
    } else {
        LogLevel::Trace
    }
}

/// The performance advisory a selection carries: emitted exactly when the
/// graphics and present roles were given distinct queue families, since
/// resources crossing the two then need concurrent sharing and explicit
/// synchronization.
pub fn selection_advisory(s: &SelectionResult) -> (r: Option<DiagnosticEvent>)
    ensures
        r is Some <==> (s.present_queue_index matches Some(p) && p != s.graphics_queue_index),
        r matches Some(ev) ==> ev.severity == SEVERITY_WARNING_BIT && ev.category
            == CATEGORY_PERFORMANCE_BIT,
{
    match s.present_queue_index {
        Some(p) => {
            if p != s.graphics_queue_index {
                Some(
                    DiagnosticEvent {
                        severity: SEVERITY_WARNING_BIT,
                        category: CATEGORY_PERFORMANCE_BIT,
                        message: "graphics and present use distinct queue families".to_owned(),
                    },
                )
            } else {
                None
            }
        },
        None => None,
    }
}

} // verus!
