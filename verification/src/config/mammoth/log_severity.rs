//! The severity scale under the name the logging configuration uses.

use vstd::prelude::*;

verus! {

/// Describes the severity of the log output the host is configured to
/// keep: the same ordered scale that diagnostics are reported on.
pub type LogSeverity = crate::error::severity::Severity;

} // verus!
