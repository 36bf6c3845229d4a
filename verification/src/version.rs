//! Semantic versions and the host's module-compatibility requirement.

use vstd::prelude::*;

verus! {

use crate::text::dec_str;
use crate::text::u64_to_dec;

/// A semantic version as the module handshake reports it: three numeric
/// components, most significant first.
#[derive(Copy, Clone, Debug, PartialEq, Eq, Structural)]
pub struct Version {
    pub major: u64,
    pub minor: u64,
    pub patch: u64,
}

impl Version {
    /// Builds a version from its three components.
    pub fn new(major: u64, minor: u64, patch: u64) -> (r: Version)
        ensures
            r == (Version { major, minor, patch }),
    {
        Version { major, minor, patch }
    }

    /// The text a version is printed as: its components in decimal,
    /// separated by dots.
    pub open spec fn text_spec(&self) -> Seq<char> {
        dec_str(self.major as int) + "."@ + dec_str(self.minor as int) + "."@ + dec_str(
            self.patch as int,
        )
    }

    /// Renders the version as text.
    pub fn to_text(&self) -> (r: String)
        ensures
            r@ == self.text_spec(),
    {
        let mut s = u64_to_dec(self.major);
        s.append(".");
        let minor = u64_to_dec(self.minor);
        s.append(minor.as_str());
        s.append(".");
        let patch = u64_to_dec(self.patch);
        s.append(patch.as_str());
        s
    }
}

/// A tilde-style semantic-version requirement: a version satisfies
/// `Requirement { major, minor, patch }` when it has the same major and
/// minor components and a patch component at least as large.
#[derive(Copy, Clone, Debug, PartialEq, Eq, Structural)]
pub struct Requirement {
    pub major: u64,
    pub minor: u64,
    pub patch: u64,
}

impl Requirement {
    /// The text a requirement is printed as: a tilde before the version
    /// it is anchored at.
    pub open spec fn text_spec(&self) -> Seq<char> {
        "~"@ + (Version { major: self.major, minor: self.minor, patch: self.patch }).text_spec()
    }

    /// Renders the requirement as text.
    pub fn to_text(&self) -> (r: String)
        ensures
            r@ == self.text_spec(),
    {
        let mut s = String::from_str("~");
        let anchor = Version { major: self.major, minor: self.minor, patch: self.patch };
        let rendered = anchor.to_text();
        s.append(rendered.as_str());
        s
    }

    /// Whether `version` satisfies the requirement.
    pub open spec fn matches_spec(&self, version: Version) -> bool {
        &&& version.major == self.major
        &&& version.minor == self.minor
        &&& version.patch >= self.patch
    }

    /// Whether `version` satisfies the requirement.
    pub fn matches(&self, version: &Version) -> (r: bool)
        ensures
            r == self.matches_spec(*version),
    {
        version.major == self.major && version.minor == self.minor && version.patch
            >= self.patch
    }
}

/// The version this crate itself declares.
pub fn version() -> (r: Version)
    ensures
        r == (Version { major: 0, minor: 0, patch: 1 }),
{
    Version { major: 0, minor: 0, patch: 1 }
}

/// The compatibility requirement every loadable module must satisfy.
pub open spec fn requirement_spec() -> Requirement {
    Requirement { major: 0, minor: 0, patch: 0 }
}

/// The compatibility requirement every loadable module must satisfy.
pub fn requirement() -> (r: Requirement)
    ensures
        r == requirement_spec(),
{
    Requirement { major: 0, minor: 0, patch: 0 }
}

/// Whether a module version is compatible with this host.
pub open spec fn compatible_spec(version: Version) -> bool {
    requirement_spec().matches_spec(version)
}

/// Whether a module version is compatible with this host.
pub fn compatible(version: &Version) -> (r: bool)
    ensures
        r == compatible_spec(*version),
{
    let req = requirement();
    req.matches(version)
}

} // verus!
