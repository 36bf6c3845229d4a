//! The configuration data model: global settings, hosts, bindings and
//! module descriptors, with the top-level aggregate.

use vstd::prelude::*;

pub mod host;
pub mod mammoth;
pub mod module;
pub mod port;
pub mod value;

pub use self::host::Host;
pub use self::host::HostIdentifier;
pub use self::mammoth::Mammoth;
pub use self::module::Module;

verus! {

use crate::config::host::HostValidator;
use crate::config::host::host_id_spec;
use crate::config::host::hosts_notes;
use crate::config::host::hosts_verdict;
use crate::config::host::lemma_hosts_scan;
use crate::config::host::retain_other_hosts;
use crate::config::host::without_host;
use crate::config::mammoth::MammothView;
use crate::config::mammoth::mammoth_notes;
use crate::config::mammoth::mammoth_verdict;
use crate::config::module::ModuleProbeSet;
use crate::config::module::ModuleValidator;
use crate::config::module::lemma_modules_scan;
use crate::config::module::modules_notes;
use crate::config::module::modules_verdict;
use crate::config::module::retain_other_modules;
use crate::config::module::without_module;
use crate::config::value::ConfigValue;
use crate::diagnostics::FsSnapshot;
use crate::diagnostics::IdValidator;
use crate::diagnostics::Logger;
use crate::diagnostics::Validator;
use crate::error::Error;
use crate::error::ErrorView;
use crate::error::severity::Severity;
use crate::text::str_eq;

/// The mathematical shape of a `ConfigurationFile`.
pub struct ConfigurationFileView {
    pub mammoth: MammothView,
    pub hosts: Seq<Host>,
    pub mods: Seq<Module>,
    pub environment: Option<ConfigValue>,
}

/// Structure that contains all the configuration for the host
/// application: the global settings, the hosts, and the modules configured
/// for all hosts.
#[derive(Debug)]
pub struct ConfigurationFile {
    mammoth: Mammoth,
    hosts: Vec<Host>,
    mods: Vec<Module>,
    environment: Option<ConfigValue>,
}

impl View for ConfigurationFile {
    type V = ConfigurationFileView;

    closed spec fn view(&self) -> ConfigurationFileView {
        ConfigurationFileView {
            mammoth: self.mammoth@,
            hosts: self.hosts@,
            mods: self.mods@,
            environment: self.environment,
        }
    }
}

impl ConfigurationFile {
    /// Creates a configuration holding the given global settings and no
    /// hosts, modules or environment.
    pub fn new(mammoth: Mammoth) -> (r: ConfigurationFile)
        ensures
            r@.mammoth == mammoth@,
            r@.hosts == Seq::<Host>::empty(),
            r@.mods == Seq::<Module>::empty(),
            r@.environment is None,
    {
        let r = ConfigurationFile {
            mammoth,
            hosts: Vec::new(),
            mods: Vec::new(),
            environment: Option::None,
        };
        proof {
            assert(r@.hosts =~= Seq::<Host>::empty());
            assert(r@.mods =~= Seq::<Module>::empty());
        }
        r
    }

    /// Obtains the underlying `Mammoth` structure.
    pub fn mammoth(&self) -> (r: &Mammoth)
        ensures
            r@ == self@.mammoth,
    {
        &self.mammoth
    }

    /// Replaces the underlying `Mammoth` structure.
    pub fn set_mammoth(&mut self, mammoth: Mammoth)
        ensures
            final (self)@ == (ConfigurationFileView { mammoth: mammoth@, ..old(self)@ }),
    {
        self.mammoth = mammoth;
    }

    /// Stores the opaque environment value.
    pub fn set_environment(&mut self, environment: ConfigValue)
        ensures
            final (self)@ == (ConfigurationFileView {
                environment: Option::Some(environment),
                ..old(self)@
            }),
    {
        self.environment = Option::Some(environment);
    }

    /// Obtains the hosts of the configuration.
    pub fn hosts(&self) -> (r: &Vec<Host>)
        ensures
            r@ == self@.hosts,
    {
        &self.hosts
    }

    /// Adds a host.
    pub fn add_host(&mut self, host: Host)
        ensures
            final (self)@ == (ConfigurationFileView {
                hosts: old(self)@.hosts.push(host),
                ..old(self)@
            }),
    {
        self.hosts.push(host);
    }

    /// Removes every host with the given identifier.
    pub fn remove_host(&mut self, id: HostIdentifier)
        ensures
            final (self)@ == (ConfigurationFileView {
                hosts: without_host(old(self)@.hosts, id@),
                ..old(self)@
            }),
    {
        let kept = retain_other_hosts(&mut self.hosts, &id);
        self.hosts = kept;
    }

    /// Returns `true` if the current structure has the specified host and
    /// `false` otherwise.
    pub fn has_host(&self, id: HostIdentifier) -> (r: bool)
        ensures
            r == exists|i: int|
                0 <= i < self@.hosts.len() && host_id_spec((#[trigger] self@.hosts[i])@) == id@,
    {
        let n = self.hosts.len();
        let mut i: usize = 0;
        while i < n
            invariant
                n == self@.hosts.len(),
                0 <= i <= n,
                forall|j: int| 0 <= j < i ==> host_id_spec((#[trigger] self@.hosts[j])@) != id@,
            decreases n - i,
        {
            if self.hosts[i].is(&id) {
                return true;
            }
            i = i + 1;
        }
        false
    }

    /// Obtains the module descriptors configured for all hosts.
    pub fn mods(&self) -> (r: &Vec<Module>)
        ensures
            r@ == self@.mods,
    {
        &self.mods
    }

    /// Adds a new module to the module list for all hosts.
    pub fn add_mod(&mut self, module: Module)
        ensures
            final (self)@ == (ConfigurationFileView {
                mods: old(self)@.mods.push(module),
                ..old(self)@
            }),
    {
        self.mods.push(module);
    }

    /// Removes every global module with the given `name`.
    pub fn remove_mod(&mut self, name: &str)
        ensures
            final (self)@ == (ConfigurationFileView {
                mods: without_module(old(self)@.mods, name@),
                ..old(self)@
            }),
    {
        let kept = retain_other_modules(&mut self.mods, name);
        self.mods = kept;
    }

    /// Returns `true` if the specified module is globally defined and
    /// `false` otherwise.
    pub fn has_module(&self, name: &str) -> (r: bool)
        ensures
            r == exists|i: int|
                0 <= i < self@.mods.len() && (#[trigger] self@.mods[i])@.name == name@,
    {
        let n = self.mods.len();
        let mut i: usize = 0;
        while i < n
            invariant
                n == self@.mods.len(),
                0 <= i <= n,
                forall|j: int| 0 <= j < i ==> (#[trigger] self@.mods[j])@.name != name@,
            decreases n - i,
        {
            if str_eq(self.mods[i].name(), name) {
                return true;
            }
            i = i + 1;
        }
        false
    }
}

/// Whether the configuration declares any module, globally or for a host.
pub open spec fn modules_declared(cfg: ConfigurationFileView) -> bool {
    cfg.mods.len() > 0 || exists|i: int|
        0 <= i < cfg.hosts.len() && (#[trigger] cfg.hosts[i])@.mods.len() > 0
}

/// The record top-level validation logs when no host is configured.
pub open spec fn no_host_note() -> (Severity, Seq<char>) {
    (Severity::Critical, "No host specified."@)
}

/// The record top-level validation logs when modules are declared without
/// a modules directory.
pub open spec fn no_mods_dir_note() -> (Severity, Seq<char>) {
    (Severity::Critical, "Enabled modules without specifying modules directory."@)
}

/// The outcome of validating a whole configuration: the global settings
/// validate first; the host list must be non-empty; modules may only be
/// declared when a modules directory is configured; then the global module
/// list and the host list pass uniqueness validation. The first fatal
/// failure wins.
pub open spec fn config_verdict(
    fs: &FsSnapshot,
    probes: &ModuleProbeSet,
    cfg: ConfigurationFileView,
) -> Result<(), ErrorView> {
    match mammoth_verdict(fs, cfg.mammoth) {
        Result::Err(e) => Result::Err(e),
        Result::Ok(_) => {
            if cfg.hosts.len() == 0 {
                Result::Err(ErrorView::NoHost)
            } else if cfg.mammoth.mods_dir is None && modules_declared(cfg) {
                Result::Err(ErrorView::NoModsDir)
            } else {
                match modules_verdict(cfg.mammoth.mods_dir, probes, cfg.mods, 0) {
                    Result::Err(e) => Result::Err(e),
                    Result::Ok(_) => hosts_verdict(
                        cfg.mammoth.mods_dir,
                        fs,
                        probes,
                        cfg.hosts,
                        0,
                    ),
                }
            }
        },
    }
}

/// The records validating a whole configuration logs.
pub open spec fn config_notes(
    fs: &FsSnapshot,
    probes: &ModuleProbeSet,
    cfg: ConfigurationFileView,
) -> Seq<(Severity, Seq<char>)> {
    let m_notes = mammoth_notes(fs, cfg.mammoth);
    match mammoth_verdict(fs, cfg.mammoth) {
        Result::Err(_) => m_notes,
        Result::Ok(_) => {
            if cfg.hosts.len() == 0 {
                m_notes + seq![no_host_note()]
            } else if cfg.mammoth.mods_dir is None && modules_declared(cfg) {
                m_notes + seq![no_mods_dir_note()]
            } else {
                let mod_notes = modules_notes(
                    Severity::Critical,
                    cfg.mammoth.mods_dir,
                    probes,
                    cfg.mods,
                    0,
                );
                match modules_verdict(cfg.mammoth.mods_dir, probes, cfg.mods, 0) {
                    Result::Err(_) => m_notes + mod_notes,
                    Result::Ok(_) => m_notes + mod_notes + hosts_notes(
                        Severity::Critical,
                        cfg.mammoth.mods_dir,
                        fs,
                        probes,
                        cfg.hosts,
                        0,
                    ),
                }
            }
        },
    }
}

/// Law: in a configuration that validates, at most one host stands per
/// port/hostname pair.
pub proof fn lemma_valid_config_hosts_unique(
    fs: &FsSnapshot,
    probes: &ModuleProbeSet,
    cfg: ConfigurationFileView,
    i: int,
    j: int,
)
    requires
        config_verdict(fs, probes, cfg) is Ok,
        0 <= i < j < cfg.hosts.len(),
    ensures
        host_id_spec(cfg.hosts[i]@) != host_id_spec(cfg.hosts[j]@),
{
    crate::config::host::lemma_hosts_unique_when_valid(
        cfg.mammoth.mods_dir,
        fs,
        probes,
        cfg.hosts,
        i,
        j,
    );
}

/// Law: in a configuration that validates, the globally declared modules
/// carry pairwise distinct names.
pub proof fn lemma_valid_config_modules_unique(
    fs: &FsSnapshot,
    probes: &ModuleProbeSet,
    cfg: ConfigurationFileView,
    i: int,
    j: int,
)
    requires
        config_verdict(fs, probes, cfg) is Ok,
        0 <= i < j < cfg.mods.len(),
    ensures
        cfg.mods[i]@.name != cfg.mods[j]@.name,
{
    crate::config::module::lemma_modules_unique_when_valid(
        cfg.mammoth.mods_dir,
        probes,
        cfg.mods,
        i,
        j,
    );
}

/// Validates a `ConfigurationFile` against the observed filesystem and the
/// probe reports it holds.
#[derive(Debug)]
pub struct ConfigValidator<'a> {
    pub fs: &'a FsSnapshot,
    pub probes: &'a ModuleProbeSet,
}

impl<'a> Validator<ConfigurationFile> for ConfigValidator<'a> {
    open spec fn verdict(&self, item: &ConfigurationFile) -> Result<(), ErrorView> {
        config_verdict(self.fs, self.probes, item@)
    }

    open spec fn notes(&self, item: &ConfigurationFile) -> Seq<(Severity, Seq<char>)> {
        config_notes(self.fs, self.probes, item@)
    }

    fn validate<L: Logger>(&self, logger: &mut L, item: &ConfigurationFile) -> (r: Result<
        (),
        Error,
    >) {
        let ghost base = old(logger).entries();
        let checked = self.fs.validate(logger, &item.mammoth);
        if let Result::Err(e) = checked {
            proof {
                assert(logger.entries() =~= base + self.notes(item));
            }
            return Result::Err(e);
        }
        if item.hosts.len() == 0 {
            logger.log(Severity::Critical, "No host specified.");
            proof {
                assert(logger.entries() =~= base + self.notes(item));
            }
            return Result::Err(Error::NoHost);
        }
        let mods_dir = item.mammoth.mods_dir();
        if mods_dir.is_none() {
            let mut declared = item.mods.len() > 0;
            let n = item.hosts.len();
            let mut i: usize = 0;
            while i < n
                invariant
                    n == item@.hosts.len(),
                    0 <= i <= n,
                    declared == (item@.mods.len() > 0 || exists|j: int|
                        0 <= j < i && (#[trigger] item@.hosts[j])@.mods.len() > 0),
                decreases n - i,
            {
                if item.hosts[i].mods().len() > 0 {
                    declared = true;
                }
                i = i + 1;
            }
            if declared {
                logger.log(
                    Severity::Critical,
                    "Enabled modules without specifying modules directory.",
                );
                proof {
                    assert(logger.entries() =~= base + self.notes(item));
                }
                return Result::Err(Error::NoModsDir);
            }
        }
        let module_validator = ModuleValidator { mods_dir, probes: self.probes };
        proof {
            assert(module_validator.mods_dir_view() == item@.mammoth.mods_dir);
        }
        let uniqueness = IdValidator(Severity::Critical, module_validator);
        let checked = uniqueness.validate(logger, &item.mods);
        proof {
            lemma_modules_scan(Severity::Critical, module_validator, item@.mods, 0);
        }
        if let Result::Err(e) = checked {
            proof {
                assert(logger.entries() =~= base + self.notes(item));
            }
            return Result::Err(e);
        }
        let host_validator = HostValidator { mods_dir, fs: self.fs, probes: self.probes };
        proof {
            assert(host_validator.mods_dir_view() == item@.mammoth.mods_dir);
        }
        let uniqueness = IdValidator(Severity::Critical, host_validator);
        let checked = uniqueness.validate(logger, &item.hosts);
        proof {
            lemma_hosts_scan(Severity::Critical, host_validator, item@.hosts, 0);
            assert(logger.entries() =~= base + self.notes(item));
        }
        checked
    }
}

} // verus!
