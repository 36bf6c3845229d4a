//! The `Mammoth` structure contains the general configuration for the
//! host process: where modules live and how logging behaves.

use vstd::prelude::*;

pub mod log_severity;

verus! {

use crate::diagnostics::FsSnapshot;
use crate::diagnostics::Logger;
use crate::diagnostics::PathValidator;
use crate::diagnostics::PathValidatorKind;
use crate::diagnostics::Validator;
use crate::diagnostics::path_notes;
use crate::diagnostics::path_verdict;
use crate::error::Error;
use crate::error::ErrorView;
use crate::error::severity::Severity;
use crate::text::opt_string_view;

/// The mathematical shape of a `Mammoth` configuration.
pub struct MammothView {
    pub mods_dir: Option<Seq<char>>,
    pub log_file: Option<Seq<char>>,
    pub log_severity: Option<Severity>,
}

/// Structure that defines the general configuration for the host
/// application: the modules directory and the log settings.
#[derive(Debug)]
pub struct Mammoth {
    mods_dir: Option<String>,
    log_file: Option<String>,
    log_severity: Option<Severity>,
}

impl View for Mammoth {
    type V = MammothView;

    closed spec fn view(&self) -> MammothView {
        MammothView {
            mods_dir: opt_string_view(&self.mods_dir),
            log_file: opt_string_view(&self.log_file),
            log_severity: self.log_severity,
        }
    }
}

impl Mammoth {
    /// Creates a new, empty `Mammoth` structure.
    pub fn new() -> (r: Mammoth)
        ensures
            r@ == (MammothView {
                mods_dir: Option::None,
                log_file: Option::None,
                log_severity: Option::None,
            }),
    {
        Mammoth { mods_dir: Option::None, log_file: Option::None, log_severity: Option::None }
    }

    /// Obtains the modules directory.
    pub fn mods_dir(&self) -> (r: Option<&str>)
        ensures
            match r {
                Option::Some(p) => self@.mods_dir == Option::Some(p@),
                Option::None => self@.mods_dir is None,
            },
    {
        match &self.mods_dir {
            Option::Some(path) => Option::Some(path.as_str()),
            Option::None => Option::None,
        }
    }

    /// Obtains the log file path.
    pub fn log_file(&self) -> (r: Option<&str>)
        ensures
            match r {
                Option::Some(p) => self@.log_file == Option::Some(p@),
                Option::None => self@.log_file is None,
            },
    {
        match &self.log_file {
            Option::Some(path) => Option::Some(path.as_str()),
            Option::None => Option::None,
        }
    }

    /// Obtains the log severity.
    pub fn log_severity(&self) -> (r: Option<Severity>)
        ensures
            r == self@.log_severity,
    {
        self.log_severity
    }

    /// Sets the modules directory.
    pub fn set_mods_dir(&mut self, path: &str)
        ensures
            final (self)@ == (MammothView { mods_dir: Option::Some(path@), ..old(self)@ }),
    {
        self.mods_dir = Option::Some(String::from_str(path));
    }

    /// Sets the log file path.
    pub fn set_log_file(&mut self, path: &str)
        ensures
            final (self)@ == (MammothView { log_file: Option::Some(path@), ..old(self)@ }),
    {
        self.log_file = Option::Some(String::from_str(path));
    }

    /// Sets the log severity.
    pub fn set_log_severity(&mut self, severity: Severity)
        ensures
            final (self)@ == (MammothView { log_severity: Option::Some(severity), ..old(self)@ }),
    {
        self.log_severity = Option::Some(severity);
    }
}

/// The outcome of checking a `Mammoth` configuration against an observed
/// filesystem: the modules directory, if set, must exist; the log file
/// path, if set, must be usable as a file name.
pub open spec fn mammoth_verdict(fs: &FsSnapshot, m: MammothView) -> Result<(), ErrorView> {
    let dir_check = match m.mods_dir {
        Option::Some(p) => path_verdict(
            Severity::Error,
            PathValidatorKind::ExistingDirectory,
            p,
            fs.status_spec(p),
        ),
        Option::None => Result::Ok(()),
    };
    match dir_check {
        Result::Err(e) => Result::Err(e),
        Result::Ok(_) => match m.log_file {
            Option::Some(p) => path_verdict(
                Severity::Error,
                PathValidatorKind::FilePath,
                p,
                fs.status_spec(p),
            ),
            Option::None => Result::Ok(()),
        },
    }
}

/// The records checking a `Mammoth` configuration logs.
pub open spec fn mammoth_notes(fs: &FsSnapshot, m: MammothView) -> Seq<(Severity, Seq<char>)> {
    let dir_notes = match m.mods_dir {
        Option::Some(p) => path_notes(
            Severity::Error,
            PathValidatorKind::ExistingDirectory,
            p,
            fs.status_spec(p),
        ),
        Option::None => Seq::empty(),
    };
    let dir_check = match m.mods_dir {
        Option::Some(p) => path_verdict(
            Severity::Error,
            PathValidatorKind::ExistingDirectory,
            p,
            fs.status_spec(p),
        ),
        Option::None => Result::Ok(()),
    };
    match dir_check {
        Result::Err(_) => dir_notes,
        Result::Ok(_) => dir_notes + match m.log_file {
            Option::Some(p) => path_notes(
                Severity::Error,
                PathValidatorKind::FilePath,
                p,
                fs.status_spec(p),
            ),
            Option::None => Seq::empty(),
        },
    }
}

impl Validator<Mammoth> for FsSnapshot {
    open spec fn verdict(&self, item: &Mammoth) -> Result<(), ErrorView> {
        mammoth_verdict(self, item@)
    }

    open spec fn notes(&self, item: &Mammoth) -> Seq<(Severity, Seq<char>)> {
        mammoth_notes(self, item@)
    }

    fn validate<L: Logger>(&self, logger: &mut L, item: &Mammoth) -> (r: Result<(), Error>) {
        let ghost base = old(logger).entries();
        if let Option::Some(dir) = item.mods_dir() {
            let observed = self.observe(dir);
            let checked = PathValidator(
                Severity::Error,
                PathValidatorKind::ExistingDirectory,
            ).validate(logger, &observed);
            if let Result::Err(e) = checked {
                proof {
                    assert(logger.entries() =~= base + self.notes(item));
                }
                return Result::Err(e);
            }
        }
        if let Option::Some(file) = item.log_file() {
            let observed = self.observe(file);
            let checked = PathValidator(Severity::Error, PathValidatorKind::FilePath).validate(
                logger,
                &observed,
            );
            if let Result::Err(e) = checked {
                proof {
                    assert(logger.entries() =~= base + self.notes(item));
                }
                return Result::Err(e);
            }
        }
        proof {
            assert(logger.entries() =~= base + self.notes(item));
        }
        Result::Ok(())
    }
}

} // verus!
