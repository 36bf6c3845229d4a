//! The failure kinds shared by every component of the crate.

use vstd::prelude::*;

pub mod event;
pub mod severity;

verus! {

use crate::error::severity::Severity;

/// A closed set of failure kinds: configuration mistakes, filesystem
/// problems surfaced by validation, and module-loading failures.
#[derive(Debug)]
pub enum Error {
    /// Two entries of a collection share an identifier; carries a short
    /// description of the offending kind of item.
    DuplicateItem(String),
    /// A path that must exist was not found on the filesystem.
    FileNotFound(String),
    /// A wrapped failure that fits no other kind; carries its message.
    Generic(String),
    /// A path that must name an existing directory does not.
    InvalidDirectory(String),
    /// A path that must be usable as a file name is directory-like.
    InvalidFilePath(String),
    /// A host name that matches neither the name grammar nor the
    /// dotted-quad address grammar.
    InvalidHostname(String),
    /// A module declared a version that does not satisfy the host's
    /// compatibility requirement; carries the found version and the
    /// requirement.
    InvalidModuleVersion(crate::version::Version, crate::version::Requirement),
    /// An underlying input/output failure; carries its message.
    Io(String),
    /// The configuration declares no host at all.
    NoHost,
    /// Modules are declared but no modules directory is configured.
    NoModsDir,
    /// A secure binding was requested without certificate material.
    SecureBindOnInsecure,
    /// An underlying TLS-library failure; carries its message.
    Ssl(String),
    /// A failure nothing more is known about.
    Unknown,
}

/// The mathematical shape of an `Error`: the same failure kinds with the
/// text payloads read as character sequences.
pub enum ErrorView {
    DuplicateItem(Seq<char>),
    FileNotFound(Seq<char>),
    Generic(Seq<char>),
    InvalidDirectory(Seq<char>),
    InvalidFilePath(Seq<char>),
    InvalidHostname(Seq<char>),
    InvalidModuleVersion(crate::version::Version, crate::version::Requirement),
    Io(Seq<char>),
    NoHost,
    NoModsDir,
    SecureBindOnInsecure,
    Ssl(Seq<char>),
    Unknown,
}

impl View for Error {
    type V = ErrorView;

    open spec fn view(&self) -> ErrorView {
        match self {
            Error::DuplicateItem(s) => ErrorView::DuplicateItem(s@),
            Error::FileNotFound(s) => ErrorView::FileNotFound(s@),
            Error::Generic(s) => ErrorView::Generic(s@),
            Error::InvalidDirectory(s) => ErrorView::InvalidDirectory(s@),
            Error::InvalidFilePath(s) => ErrorView::InvalidFilePath(s@),
            Error::InvalidHostname(s) => ErrorView::InvalidHostname(s@),
            Error::InvalidModuleVersion(v, r) => ErrorView::InvalidModuleVersion(*v, *r),
            Error::Io(s) => ErrorView::Io(s@),
            Error::NoHost => ErrorView::NoHost,
            Error::NoModsDir => ErrorView::NoModsDir,
            Error::SecureBindOnInsecure => ErrorView::SecureBindOnInsecure,
            Error::Ssl(s) => ErrorView::Ssl(s@),
            Error::Unknown => ErrorView::Unknown,
        }
    }
}

/// The mathematical shape of a validation outcome: success, or the view of
/// the failure.
pub open spec fn outcome_view(r: Result<(), Error>) -> Result<(), ErrorView> {
    match r {
        Result::Ok(_) => Result::Ok(()),
        Result::Err(e) => Result::Err(e@),
    }
}

impl Error {
    /// A copy of the failure that reads the same.
    pub fn duplicate(&self) -> (r: Error)
        ensures
            r@ == self@,
    {
        match self {
            Error::DuplicateItem(s) => Error::DuplicateItem(s.clone()),
            Error::FileNotFound(s) => Error::FileNotFound(s.clone()),
            Error::Generic(s) => Error::Generic(s.clone()),
            Error::InvalidDirectory(s) => Error::InvalidDirectory(s.clone()),
            Error::InvalidFilePath(s) => Error::InvalidFilePath(s.clone()),
            Error::InvalidHostname(s) => Error::InvalidHostname(s.clone()),
            Error::InvalidModuleVersion(v, r) => Error::InvalidModuleVersion(*v, *r),
            Error::Io(s) => Error::Io(s.clone()),
            Error::NoHost => Error::NoHost,
            Error::NoModsDir => Error::NoModsDir,
            Error::SecureBindOnInsecure => Error::SecureBindOnInsecure,
            Error::Ssl(s) => Error::Ssl(s.clone()),
            Error::Unknown => Error::Unknown,
        }
    }

    /// The text a failure is reported with: the kind of failure together
    /// with its payload.
    pub open spec fn message_spec(&self) -> Seq<char> {
        match self {
            Error::DuplicateItem(name) => "Duplicate item: '"@ + name@ + "'"@,
            Error::FileNotFound(path) => "File not found: '"@ + path@ + "'"@,
            Error::Generic(text) => "Generic error: "@ + text@,
            Error::InvalidDirectory(dir) => "Invalid directory: '"@ + dir@ + "'"@,
            Error::InvalidFilePath(path) => "Invalid path: '"@ + path@ + "'"@,
            Error::InvalidHostname(hostname) => "Invalid hostname: '"@ + hostname@ + "'"@,
            Error::InvalidModuleVersion(found, required) => "Invalid module version: "@
                + found.text_spec() + "; expected: "@ + required.text_spec() + "."@,
            Error::Io(text) => "I/O error: "@ + text@,
            Error::NoHost => "No host specified; one required."@,
            Error::NoModsDir => "No directory specified for modules; required if modules are enabled."@,
            Error::SecureBindOnInsecure => "Tried to bind to a secure port without a certificate"@,
            Error::Ssl(text) => "SSL error: "@ + text@,
            Error::Unknown => "Unknown"@,
        }
    }

    /// Renders the failure as the text it is reported with.
    pub fn message(&self) -> (r: String)
        ensures
            r@ == self.message_spec(),
    {
        match self {
            Error::DuplicateItem(name) => {
                let mut s = String::from_str("Duplicate item: '");
                s.append(name.as_str());
                s.append("'");
                s
            },
            Error::FileNotFound(path) => {
                let mut s = String::from_str("File not found: '");
                s.append(path.as_str());
                s.append("'");
                s
            },
            Error::Generic(text) => {
                let mut s = String::from_str("Generic error: ");
                s.append(text.as_str());
                s
            },
            Error::InvalidDirectory(dir) => {
                let mut s = String::from_str("Invalid directory: '");
                s.append(dir.as_str());
                s.append("'");
                s
            },
            Error::InvalidFilePath(path) => {
                let mut s = String::from_str("Invalid path: '");
                s.append(path.as_str());
                s.append("'");
                s
            },
            Error::InvalidHostname(hostname) => {
                let mut s = String::from_str("Invalid hostname: '");
                s.append(hostname.as_str());
                s.append("'");
                s
            },
            Error::InvalidModuleVersion(found, required) => {
                let mut s = String::from_str("Invalid module version: ");
                let found_text = found.to_text();
                s.append(found_text.as_str());
                s.append("; expected: ");
                let required_text = required.to_text();
                s.append(required_text.as_str());
                s.append(".");
                s
            },
            Error::Io(text) => {
                let mut s = String::from_str("I/O error: ");
                s.append(text.as_str());
                s
            },
            Error::NoHost => String::from_str("No host specified; one required."),
            Error::NoModsDir => String::from_str(
                "No directory specified for modules; required if modules are enabled.",
            ),
            Error::SecureBindOnInsecure => String::from_str(
                "Tried to bind to a secure port without a certificate",
            ),
            Error::Ssl(text) => {
                let mut s = String::from_str("SSL error: ");
                s.append(text.as_str());
                s
            },
            Error::Unknown => String::from_str("Unknown"),
        }
    }

    /// A short fixed description of the failure kind.
    pub fn description(&self) -> (r: &'static str)
        ensures
            r@ == self.description_spec(),
    {
        match self {
            Error::DuplicateItem(_) => "duplicate item",
            Error::FileNotFound(_) => "file not found",
            Error::Generic(_) => "generic error",
            Error::InvalidDirectory(_) => "invalid directory",
            Error::InvalidFilePath(_) => "invalid file path",
            Error::InvalidHostname(_) => "invalid hostname",
            Error::InvalidModuleVersion(_, _) => "invalid module version",
            Error::Io(_) => "i/o error",
            Error::NoHost => "no host",
            Error::NoModsDir => "no mods_dir",
            Error::SecureBindOnInsecure => "secure binding without certificate",
            Error::Ssl(_) => "ssl error",
            Error::Unknown => "unknown",
        }
    }

    /// The text `description` returns for each failure kind.
    pub open spec fn description_spec(&self) -> Seq<char> {
        match self {
            Error::DuplicateItem(_) => "duplicate item"@,
            Error::FileNotFound(_) => "file not found"@,
            Error::Generic(_) => "generic error"@,
            Error::InvalidDirectory(_) => "invalid directory"@,
            Error::InvalidFilePath(_) => "invalid file path"@,
            Error::InvalidHostname(_) => "invalid hostname"@,
            Error::InvalidModuleVersion(_, _) => "invalid module version"@,
            Error::Io(_) => "i/o error"@,
            Error::NoHost => "no host"@,
            Error::NoModsDir => "no mods_dir"@,
            Error::SecureBindOnInsecure => "secure binding without certificate"@,
            Error::Ssl(_) => "ssl error"@,
            Error::Unknown => "unknown"@,
        }
    }
}

} // verus!
