//! The ordered severity scale used both for log filtering and for deciding
//! whether a validation condition is fatal.

use vstd::prelude::*;

verus! {

use crate::text::matches_ignore_ascii_case;
use crate::text::eq_ignore_ascii_case;

/// Describes the severity of a diagnostic report.
///
/// The variants are totally ordered, from `Debug` (lowest) to `Critical`
/// (highest); `rank` gives the position of a variant on that scale.
#[derive(Copy, Clone, Debug, PartialEq, Eq, Structural)]
pub enum Severity {
    /// Every useful and technical detail; not meant for production use.
    Debug,
    /// Every useful detail, omitting what is too technical.
    Information,
    /// Possibly problematic or unexpected situations only.
    Warning,
    /// Execution-breaking situations only.
    Error,
    /// Application-breaking situations only: the host must give up.
    Critical,
}

impl Severity {
    /// The position of the variant on the ordered scale, lowest first.
    pub open spec fn rank_spec(&self) -> int {
        match self {
            Severity::Debug => 0,
            Severity::Information => 1,
            Severity::Warning => 2,
            Severity::Error => 3,
            Severity::Critical => 4,
        }
    }

    /// The position of the variant on the ordered scale, lowest first.
    pub fn rank(&self) -> (r: u8)
        ensures
            r as int == self.rank_spec(),
    {
        match self {
            Severity::Debug => 0,
            Severity::Information => 1,
            Severity::Warning => 2,
            Severity::Error => 3,
            Severity::Critical => 4,
        }
    }

    /// Whether this severity is at least as high as `other` on the scale.
    pub fn at_least(&self, other: &Severity) -> (r: bool)
        ensures
            r == (self.rank_spec() >= other.rank_spec()),
    {
        self.rank() >= other.rank()
    }

    /// Whether a condition reported at this severity is fatal, that is,
    /// whether the severity reaches `Error` on the scale.
    pub open spec fn is_fatal_spec(&self) -> bool {
        self.rank_spec() >= Severity::Error.rank_spec()
    }

    /// Whether a condition reported at this severity is fatal.
    pub fn is_fatal(&self) -> (r: bool)
        ensures
            r == self.is_fatal_spec(),
    {
        self.at_least(&Severity::Error)
    }

    /// The fixed label used when the severity is printed in a log line.
    pub fn label(&self) -> (r: &'static str)
        ensures
            r@ == self.label_spec(),
    {
        match self {
            Severity::Debug => "DBG ",
            Severity::Information => "INFO",
            Severity::Warning => "WARN",
            Severity::Error => "ERR ",
            Severity::Critical => "CRIT",
        }
    }

    /// The text `label` returns for each variant.
    pub open spec fn label_spec(&self) -> Seq<char> {
        match self {
            Severity::Debug => "DBG "@,
            Severity::Information => "INFO"@,
            Severity::Warning => "WARN"@,
            Severity::Error => "ERR "@,
            Severity::Critical => "CRIT"@,
        }
    }
}

impl Severity {
    /// The severity a text names, comparing ASCII letters
    /// case-insensitively, if it names one.
    pub open spec fn from_text_spec(s: Seq<char>) -> Option<Severity> {
        if matches_ignore_ascii_case(s, "debug"@) {
            Option::Some(Severity::Debug)
        } else if matches_ignore_ascii_case(s, "information"@) {
            Option::Some(Severity::Information)
        } else if matches_ignore_ascii_case(s, "warning"@) {
            Option::Some(Severity::Warning)
        } else if matches_ignore_ascii_case(s, "error"@) {
            Option::Some(Severity::Error)
        } else if matches_ignore_ascii_case(s, "critical"@) {
            Option::Some(Severity::Critical)
        } else {
            Option::None
        }
    }

    /// Reads a severity from its text representation, comparing ASCII
    /// letters case-insensitively; any other text is rejected.
    pub fn from_text(s: &str) -> (r: Option<Severity>)
        ensures
            r == Severity::from_text_spec(s@),
    {
        if eq_ignore_ascii_case(s, "debug") {
            Option::Some(Severity::Debug)
        } else if eq_ignore_ascii_case(s, "information") {
            Option::Some(Severity::Information)
        } else if eq_ignore_ascii_case(s, "warning") {
            Option::Some(Severity::Warning)
        } else if eq_ignore_ascii_case(s, "error") {
            Option::Some(Severity::Error)
        } else if eq_ignore_ascii_case(s, "critical") {
            Option::Some(Severity::Critical)
        } else {
            Option::None
        }
    }

    /// The all-lowercase text representation of the severity.
    pub fn as_text(&self) -> (r: &'static str)
        ensures
            r@ == self.as_text_spec(),
    {
        match self {
            Severity::Debug => "debug",
            Severity::Information => "information",
            Severity::Warning => "warning",
            Severity::Error => "error",
            Severity::Critical => "critical",
        }
    }

    /// The text `as_text` returns for each variant.
    pub open spec fn as_text_spec(&self) -> Seq<char> {
        match self {
            Severity::Debug => "debug"@,
            Severity::Information => "information"@,
            Severity::Warning => "warning"@,
            Severity::Error => "error"@,
            Severity::Critical => "critical"@,
        }
    }
}

impl PartialOrd for Severity {
    fn partial_cmp(&self, other: &Severity) -> (r: Option<core::cmp::Ordering>) {
        let a = self.rank();
        let b = other.rank();
        if a < b {
            Option::Some(core::cmp::Ordering::Less)
        } else if a == b {
            Option::Some(core::cmp::Ordering::Equal)
        } else {
            Option::Some(core::cmp::Ordering::Greater)
        }
    }
}

impl vstd::std_specs::cmp::PartialOrdSpecImpl for Severity {
    open spec fn obeys_partial_cmp_spec() -> bool {
        true
    }

    open spec fn partial_cmp_spec(&self, other: &Severity) -> Option<core::cmp::Ordering> {
        if self.rank_spec() < other.rank_spec() {
            Option::Some(core::cmp::Ordering::Less)
        } else if self.rank_spec() == other.rank_spec() {
            Option::Some(core::cmp::Ordering::Equal)
        } else {
            Option::Some(core::cmp::Ordering::Greater)
        }
    }
}

impl Default for Severity {
    /// The severity assumed when none is configured.
    fn default() -> (r: Severity)
        ensures
            r == Severity::Error,
    {
        Severity::Error
    }
}

} // verus!
