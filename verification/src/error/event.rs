//! Timestamped diagnostic records produced by validators and loader
//! operations.

use vstd::prelude::*;

verus! {

use crate::error::Error;
use crate::error::severity::Severity;

/// A single diagnostic record: when it happened, what happened, how severe
/// it is, and the underlying failure if one was attached.
#[derive(Debug)]
pub struct Event {
    timestamp: i64,
    description: String,
    error: Option<Error>,
    severity: Severity,
}

/// Relies on chrono::Local::now for the wall-clock time an event is
/// stamped with; the result depends on the clock, so nothing is promised
/// of it.
#[verifier::external_body]
fn current_timestamp() -> i64 {
    chrono::Local::now().timestamp()
}

impl Event {
    /// The severity the event was recorded at.
    pub closed spec fn severity_spec(&self) -> Severity {
        self.severity
    }

    /// The text of the event.
    pub closed spec fn description_spec(&self) -> Seq<char> {
        self.description@
    }

    /// The underlying failure attached to the event, if any.
    pub closed spec fn error_spec(&self) -> Option<Error> {
        self.error
    }

    /// The second the event was stamped with, as the clock reported it.
    pub closed spec fn timestamp_spec(&self) -> i64 {
        self.timestamp
    }

    /// The second the event was stamped with, as the clock reported it.
    pub fn timestamp(&self) -> (r: i64)
        ensures
            r == self.timestamp_spec(),
    {
        self.timestamp
    }

    /// The severity the event was recorded at.
    pub fn severity(&self) -> (r: Severity)
        ensures
            r == self.severity_spec(),
    {
        self.severity
    }

    /// The text of the event.
    pub fn description(&self) -> (r: &str)
        ensures
            r@ == self.description_spec(),
    {
        self.description.as_str()
    }

    /// The underlying failure attached to the event, if any.
    pub fn error(&self) -> (r: &Option<Error>)
        ensures
            r == self.error_spec(),
    {
        &self.error
    }

    /// Records an event at the given severity, stamped with the current
    /// time.
    pub fn new(severity: Severity, description: &str) -> (r: Event)
        ensures
            r.severity_spec() == severity,
            r.description_spec() == description@,
            r.error_spec() is None,
    {
        Event {
            timestamp: current_timestamp(),
            description: String::from_str(description),
            error: Option::None,
            severity,
        }
    }

    /// Records an event carrying an underlying failure, stamped with the
    /// current time.
    pub fn with_error(severity: Severity, description: &str, error: Error) -> (r: Event)
        ensures
            r.severity_spec() == severity,
            r.description_spec() == description@,
            r.error_spec() == Option::Some(error),
    {
        Event {
            timestamp: current_timestamp(),
            description: String::from_str(description),
            error: Option::Some(error),
            severity,
        }
    }
}

/// Records an event of severity `Debug`.
pub fn debug(description: &str) -> (r: Event)
    ensures
        r.severity_spec() == Severity::Debug,
        r.description_spec() == description@,
        r.error_spec() is None,
{
    Event::new(Severity::Debug, description)
}

/// Records an event of severity `Information`.
pub fn info(description: &str) -> (r: Event)
    ensures
        r.severity_spec() == Severity::Information,
        r.description_spec() == description@,
        r.error_spec() is None,
{
    Event::new(Severity::Information, description)
}

/// Records an event of severity `Warning`.
pub fn warn(description: &str) -> (r: Event)
    ensures
        r.severity_spec() == Severity::Warning,
        r.description_spec() == description@,
        r.error_spec() is None,
{
    Event::new(Severity::Warning, description)
}

/// Records an event of severity `Error`.
pub fn err(description: &str) -> (r: Event)
    ensures
        r.severity_spec() == Severity::Error,
        r.description_spec() == description@,
        r.error_spec() is None,
{
    Event::new(Severity::Error, description)
}

/// Records an event of severity `Critical`.
pub fn critical(description: &str) -> (r: Event)
    ensures
        r.severity_spec() == Severity::Critical,
        r.description_spec() == description@,
        r.error_spec() is None,
{
    Event::new(Severity::Critical, description)
}

/// Records an event of severity `Debug` carrying an underlying failure.
pub fn debug_error(description: &str, error: Error) -> (r: Event)
    ensures
        r.severity_spec() == Severity::Debug,
        r.description_spec() == description@,
        r.error_spec() == Option::Some(error),
{
    Event::with_error(Severity::Debug, description, error)
}

/// Records an event of severity `Information` carrying an underlying
/// failure.
pub fn info_error(description: &str, error: Error) -> (r: Event)
    ensures
        r.severity_spec() == Severity::Information,
        r.description_spec() == description@,
        r.error_spec() == Option::Some(error),
{
    Event::with_error(Severity::Information, description, error)
}

/// Records an event of severity `Warning` carrying an underlying failure.
pub fn warn_error(description: &str, error: Error) -> (r: Event)
    ensures
        r.severity_spec() == Severity::Warning,
        r.description_spec() == description@,
        r.error_spec() == Option::Some(error),
{
    Event::with_error(Severity::Warning, description, error)
}

/// Records an event of severity `Error` carrying an underlying failure.
pub fn err_error(description: &str, error: Error) -> (r: Event)
    ensures
        r.severity_spec() == Severity::Error,
        r.description_spec() == description@,
        r.error_spec() == Option::Some(error),
{
    Event::with_error(Severity::Error, description, error)
}

/// Records an event of severity `Critical` carrying an underlying failure.
pub fn critical_error(description: &str, error: Error) -> (r: Event)
    ensures
        r.severity_spec() == Severity::Critical,
        r.description_spec() == description@,
        r.error_spec() == Option::Some(error),
{
    Event::with_error(Severity::Critical, description, error)
}

} // verus!
