//! The `Module` structure contains the configuration for one module: a
//! dynamic library with additional functionality for the server.
//!
//! A module declares a name, an optional explicit library location, an
//! enablement flag and an opaque configuration value. Validating a module
//! checks what probing its library reported: the declared version must
//! satisfy the host's compatibility requirement, and the module's own
//! validation hook must have accepted the configuration.

use vstd::prelude::*;

verus! {

use crate::config::value::ConfigValue;
use crate::diagnostics::Id;
use crate::diagnostics::Logger;
use crate::diagnostics::Validator;
use crate::diagnostics::duplicate_note;
use crate::diagnostics::has_earlier_duplicate;
use crate::diagnostics::scan_notes;
use crate::diagnostics::scan_verdict;
use crate::error::Error;
use crate::error::ErrorView;
use crate::error::severity::Severity;
use crate::text::joined_path;
use crate::text::join_path;
use crate::text::opt_string_view;
use crate::text::str_eq;
use crate::version::Version;
use crate::version::compatible_spec;
use crate::version::compatible;
use crate::version::requirement_spec;
use crate::version::requirement;

/// The filename extension of a dynamic library on this platform.
pub const DYLIB_EXT: &'static str = ".so";

/// The mathematical shape of a `Module` descriptor.
pub struct ModuleView {
    pub name: Seq<char>,
    pub location: Option<Seq<char>>,
    pub enabled: bool,
    pub config: Option<ConfigValue>,
}

/// Structure that defines configuration for a module library.
#[derive(Debug)]
pub struct Module {
    name: String,
    location: Option<String>,
    enabled: bool,
    config: Option<ConfigValue>,
}

impl View for Module {
    type V = ModuleView;

    closed spec fn view(&self) -> ModuleView {
        ModuleView {
            name: self.name@,
            location: opt_string_view(&self.location),
            enabled: self.enabled,
            config: self.config,
        }
    }
}

impl Module {
    /// Creates a new, enabled `Module` structure given its name.
    pub fn new(name: &str) -> (r: Module)
        ensures
            r@ == (ModuleView {
                name: name@,
                location: Option::None,
                enabled: true,
                config: Option::None,
            }),
    {
        Module {
            name: String::from_str(name),
            location: Option::None,
            enabled: true,
            config: Option::None,
        }
    }

    /// Creates a new, disabled `Module` structure given its name.
    pub fn new_disabled(name: &str) -> (r: Module)
        ensures
            r@ == (ModuleView {
                name: name@,
                location: Option::None,
                enabled: false,
                config: Option::None,
            }),
    {
        Module {
            name: String::from_str(name),
            location: Option::None,
            enabled: false,
            config: Option::None,
        }
    }

    /// Creates a new `Module` structure given its name and configuration.
    pub fn with_config(name: &str, enabled: bool, config: ConfigValue) -> (r: Module)
        ensures
            r@ == (ModuleView {
                name: name@,
                location: Option::None,
                enabled,
                config: Option::Some(config),
            }),
    {
        Module {
            name: String::from_str(name),
            location: Option::None,
            enabled,
            config: Option::Some(config),
        }
    }

    /// Obtains the name of the module.
    pub fn name(&self) -> (r: &str)
        ensures
            r@ == self@.name,
    {
        self.name.as_str()
    }

    /// Enables the module.
    pub fn enable(&mut self)
        ensures
            final (self)@ == (ModuleView { enabled: true, ..old(self)@ }),
    {
        self.enabled = true;
    }

    /// Disables the module.
    pub fn disable(&mut self)
        ensures
            final (self)@ == (ModuleView { enabled: false, ..old(self)@ }),
    {
        self.enabled = false;
    }

    /// Returns `true` if the module is enabled and `false` otherwise.
    pub fn enabled(&self) -> (r: bool)
        ensures
            r == self@.enabled,
    {
        self.enabled
    }

    /// Returns a reference to the module configuration, if any.
    pub fn config(&self) -> (r: Option<&ConfigValue>)
        ensures
            match r {
                Option::Some(c) => self@.config == Option::Some(*c),
                Option::None => self@.config is None,
            },
    {
        self.config.as_ref()
    }

    /// Transforms the current `Module` structure into its configuration,
    /// if any.
    pub fn into_config(self) -> (r: Option<ConfigValue>)
        ensures
            r == self@.config,
    {
        self.config
    }

    /// Returns the path of the library containing this module, if any.
    ///
    /// If no location is given, the host resolves the library under the
    /// default module directory instead.
    pub fn location(&self) -> (r: Option<&str>)
        ensures
            match r {
                Option::Some(p) => self@.location == Option::Some(p@),
                Option::None => self@.location is None,
            },
    {
        match &self.location {
            Option::Some(path) => Option::Some(path.as_str()),
            Option::None => Option::None,
        }
    }

    /// Sets the path of the library containing this module.
    pub fn set_location(&mut self, path: &str)
        ensures
            final (self)@ == (ModuleView { location: Option::Some(path@), ..old(self)@ }),
    {
        self.location = Option::Some(String::from_str(path));
    }

    /// Removes the given path of the library containing this module.
    pub fn clear_location(&mut self)
        ensures
            final (self)@ == (ModuleView { location: Option::None, ..old(self)@ }),
    {
        self.location = Option::None;
    }
}

impl Id for Module {
    type Identifier = Seq<char>;

    /// A module is identified by its name.
    open spec fn id_spec(&self) -> Seq<char> {
        self@.name
    }

    fn same_id(&self, other: &Module) -> (r: bool) {
        str_eq(self.name.as_str(), other.name.as_str())
    }

    open spec fn description_spec(&self) -> Seq<char> {
        "module"@
    }

    fn description(&self) -> (r: &'static str) {
        "module"
    }
}

/// The module descriptors of `s` whose name is not `name`, in order.
pub open spec fn without_module(s: Seq<Module>, name: Seq<char>) -> Seq<Module>
    decreases s.len(),
{
    if s.len() == 0 {
        Seq::empty()
    } else if s[0]@.name == name {
        without_module(s.drop_first(), name)
    } else {
        seq![s[0]] + without_module(s.drop_first(), name)
    }
}

/// Empties `mods` and returns the descriptors whose name is not `name`,
/// in their original order.
#[verifier::loop_isolation(false)]
pub fn retain_other_modules(mods: &mut Vec<Module>, name: &str) -> (kept: Vec<Module>)
    ensures
        kept@ == without_module(old(mods)@, name@),
{
    let mut kept: Vec<Module> = Vec::new();
    proof {
        assert(without_module(old(mods)@, name@) =~= kept@ + without_module(mods@, name@));
    }
    while mods.len() > 0
        invariant
            without_module(old(mods)@, name@) == kept@ + without_module(mods@, name@),
        decreases mods.len(),
    {
        let ghost before = mods@;
        let m = mods.remove(0);
        proof {
            assert(mods@ =~= before.drop_first());
        }
        if !str_eq(m.name(), name) {
            proof {
                assert(without_module(before, name@) =~= seq![m] + without_module(mods@, name@));
            }
            kept.push(m);
            proof {
                assert(kept@ + without_module(mods@, name@) =~= without_module(old(mods)@, name@));
            }
        }
    }
    proof {
        assert(without_module(mods@, name@) =~= Seq::<Module>::empty());
        assert(kept@ =~= without_module(old(mods)@, name@));
    }
    kept
}

/// The library path a module resolves to: its explicit location where one
/// is given, else the platform library name under the modules directory,
/// where one is configured.
pub open spec fn resolved_location(m: ModuleView, mods_dir: Option<Seq<char>>) -> Option<
    Seq<char>,
> {
    match m.location {
        Option::Some(l) => Option::Some(l),
        Option::None => match mods_dir {
            Option::Some(d) => Option::Some(joined_path(d, m.name + DYLIB_EXT@)),
            Option::None => Option::None,
        },
    }
}

/// What probing a module's library reported.
#[derive(Debug)]
pub struct ModuleProbe {
    /// The version the library's version entry point declared, or the
    /// failure that prevented reading it: a missing library file, or a
    /// missing exported symbol.
    pub version: Result<Version, Error>,
    /// What the constructed module's own validation hook returned.
    pub validation: Result<(), Error>,
}

/// The mathematical shape of a probe report.
pub struct ModuleProbeView {
    pub version: Result<Version, ErrorView>,
    pub validation: Result<(), ErrorView>,
}

impl View for ModuleProbe {
    type V = ModuleProbeView;

    open spec fn view(&self) -> ModuleProbeView {
        ModuleProbeView {
            version: match self.version {
                Result::Ok(v) => Result::Ok(v),
                Result::Err(ref e) => Result::Err(e@),
            },
            validation: match self.validation {
                Result::Ok(_) => Result::Ok(()),
                Result::Err(ref e) => Result::Err(e@),
            },
        }
    }
}

/// The probe reports collected for the module libraries of a
/// configuration, keyed by resolved library path.
#[derive(Debug)]
pub struct ModuleProbeSet {
    entries: Vec<(String, ModuleProbe)>,
}

/// The probe recorded for `path`: the report of the first entry for that
/// path, if any was recorded.
pub open spec fn probe_lookup(entries: Seq<(Seq<char>, ModuleProbeView)>, path: Seq<char>) -> Option<
    ModuleProbeView,
>
    decreases entries.len(),
{
    if entries.len() == 0 {
        Option::None
    } else if entries[0].0 == path {
        Option::Some(entries[0].1)
    } else {
        probe_lookup(entries.drop_first(), path)
    }
}

proof fn lemma_probe_lookup_skip(
    entries: Seq<(Seq<char>, ModuleProbeView)>,
    path: Seq<char>,
    k: int,
)
    requires
        0 <= k <= entries.len(),
        forall|j: int| 0 <= j < k ==> (#[trigger] entries[j]).0 != path,
    ensures
        probe_lookup(entries, path) == probe_lookup(
            entries.subrange(k, entries.len() as int),
            path,
        ),
    decreases k,
{
    if k > 0 {
        lemma_probe_lookup_skip(entries, path, k - 1);
        let tail = entries.subrange(k - 1, entries.len() as int);
        assert(tail.drop_first() =~= entries.subrange(k, entries.len() as int));
    } else {
        assert(entries.subrange(0, entries.len() as int) =~= entries);
    }
}

impl View for ModuleProbeSet {
    type V = Seq<(Seq<char>, ModuleProbeView)>;

    closed spec fn view(&self) -> Seq<(Seq<char>, ModuleProbeView)> {
        self.entries@.map(|i: int, e: (String, ModuleProbe)| (e.0@, e.1@))
    }
}

impl ModuleProbeSet {
    /// A report set with nothing probed.
    pub fn new() -> (r: ModuleProbeSet)
        ensures
            r@ == Seq::<(Seq<char>, ModuleProbeView)>::empty(),
    {
        let r = ModuleProbeSet { entries: Vec::new() };
        proof {
            assert(r@ =~= Seq::<(Seq<char>, ModuleProbeView)>::empty());
        }
        r
    }

    /// Records the report probing one library path produced.
    pub fn record(&mut self, path: &str, probe: ModuleProbe)
        ensures
            final (self)@ == old(self)@.push((path@, probe@)),
    {
        self.entries.push((String::from_str(path), probe));
        proof {
            assert(self@ =~= old(self)@.push((path@, probe@)));
        }
    }

    /// The report recorded for `path`.
    pub open spec fn lookup_spec(&self, path: Seq<char>) -> Option<ModuleProbeView> {
        probe_lookup(self@, path)
    }

    /// The report recorded for `path`, if one was recorded.
    pub fn lookup(&self, path: &str) -> (r: Option<&ModuleProbe>)
        ensures
            match r {
                Option::Some(p) => self.lookup_spec(path@) == Option::Some(p@),
                Option::None => self.lookup_spec(path@) is None,
            },
    {
        let n = self.entries.len();
        let mut i: usize = 0;
        while i < n
            invariant
                n == self.entries.len(),
                0 <= i <= n,
                forall|j: int| 0 <= j < i ==> (#[trigger] self@[j]).0 != path@,
            decreases n - i,
        {
            if str_eq(self.entries[i].0.as_str(), path) {
                proof {
                    lemma_probe_lookup_skip(self@, path@, i as int);
                }
                return Option::Some(&self.entries[i].1);
            }
            i = i + 1;
        }
        proof {
            lemma_probe_lookup_skip(self@, path@, n as int);
        }
        Option::None
    }
}

/// The record module validation logs when the declared version is
/// incompatible.
pub open spec fn incompatible_note() -> (Severity, Seq<char>) {
    (Severity::Critical, "Incompatible module version."@)
}

/// The outcome of validating one module against the probe reports:
/// a disabled module is exempt from every check; an enabled one must
/// resolve to a probed library whose declared version satisfies the
/// compatibility requirement and whose own validation hook accepted.
pub open spec fn module_verdict(
    m: ModuleView,
    mods_dir: Option<Seq<char>>,
    probes: &ModuleProbeSet,
) -> Result<(), ErrorView> {
    if !m.enabled {
        Result::Ok(())
    } else {
        match resolved_location(m, mods_dir) {
            Option::None => Result::Err(ErrorView::NoModsDir),
            Option::Some(path) => match probes.lookup_spec(path) {
                Option::None => Result::Err(ErrorView::FileNotFound(path)),
                Option::Some(probe) => match probe.version {
                    Result::Err(e) => Result::Err(e),
                    Result::Ok(v) => if !compatible_spec(v) {
                        Result::Err(ErrorView::InvalidModuleVersion(v, requirement_spec()))
                    } else {
                        match probe.validation {
                            Result::Err(e) => Result::Err(e),
                            Result::Ok(_) => Result::Ok(()),
                        }
                    },
                },
            },
        }
    }
}

/// The records validating one module logs: the incompatible-version note
/// exactly when an incompatible version was declared.
pub open spec fn module_notes(
    m: ModuleView,
    mods_dir: Option<Seq<char>>,
    probes: &ModuleProbeSet,
) -> Seq<(Severity, Seq<char>)> {
    if m.enabled && match resolved_location(m, mods_dir) {
        Option::Some(path) => match probes.lookup_spec(path) {
            Option::Some(probe) => match probe.version {
                Result::Ok(v) => !compatible_spec(v),
                Result::Err(_) => false,
            },
            Option::None => false,
        },
        Option::None => false,
    } {
        seq![incompatible_note()]
    } else {
        Seq::empty()
    }
}

/// Validates a `Module` against the modules directory and the probe
/// reports it holds.
#[derive(Debug)]
pub struct ModuleValidator<'a> {
    pub mods_dir: Option<&'a str>,
    pub probes: &'a ModuleProbeSet,
}

impl<'a> ModuleValidator<'a> {
    /// The modules directory as an optional character sequence.
    pub open spec fn mods_dir_view(&self) -> Option<Seq<char>> {
        match self.mods_dir {
            Option::Some(d) => Option::Some(d@),
            Option::None => Option::None,
        }
    }

    /// The library path `module` resolves to, if any.
    fn resolve(&self, module: &Module) -> (r: Option<String>)
        ensures
            opt_string_view(&r) == resolved_location(module@, self.mods_dir_view()),
    {
        match module.location() {
            Option::Some(l) => Option::Some(String::from_str(l)),
            Option::None => match self.mods_dir {
                Option::Some(d) => {
                    let mut file = String::from_str(module.name());
                    file.append(DYLIB_EXT);
                    Option::Some(join_path(d, file.as_str()))
                },
                Option::None => Option::None,
            },
        }
    }
}

impl<'a> Validator<Module> for ModuleValidator<'a> {
    open spec fn verdict(&self, item: &Module) -> Result<(), ErrorView> {
        module_verdict(item@, self.mods_dir_view(), self.probes)
    }

    open spec fn notes(&self, item: &Module) -> Seq<(Severity, Seq<char>)> {
        module_notes(item@, self.mods_dir_view(), self.probes)
    }

    fn validate<L: Logger>(&self, logger: &mut L, item: &Module) -> (r: Result<(), Error>) {
        let ghost base = old(logger).entries();
        if !item.enabled() {
            proof {
                assert(logger.entries() =~= base + self.notes(item));
            }
            return Result::Ok(());
        }
        let path = match self.resolve(item) {
            Option::Some(p) => p,
            Option::None => {
                proof {
                    assert(logger.entries() =~= base + self.notes(item));
                }
                return Result::Err(Error::NoModsDir);
            },
        };
        let probe = match self.probes.lookup(path.as_str()) {
            Option::Some(p) => p,
            Option::None => {
                proof {
                    assert(logger.entries() =~= base + self.notes(item));
                }
                return Result::Err(Error::FileNotFound(path));
            },
        };
        let found = match &probe.version {
            Result::Err(e) => {
                proof {
                    assert(logger.entries() =~= base + self.notes(item));
                }
                return Result::Err(e.duplicate());
            },
            Result::Ok(v) => *v,
        };
        if !compatible(&found) {
            logger.log(Severity::Critical, "Incompatible module version.");
            proof {
                assert(logger.entries() =~= base + self.notes(item));
            }
            return Result::Err(Error::InvalidModuleVersion(found, requirement()));
        }
        match &probe.validation {
            Result::Err(e) => {
                proof {
                    assert(logger.entries() =~= base + self.notes(item));
                }
                Result::Err(e.duplicate())
            },
            Result::Ok(_) => {
                proof {
                    assert(logger.entries() =~= base + self.notes(item));
                }
                Result::Ok(())
            },
        }
    }
}

/// The outcome of uniqueness-validating a list of modules from position
/// `i` on, stated over the modules directory and the probe reports alone:
/// exactly what the uniqueness validator wrapping a `ModuleValidator`
/// produces.
pub open spec fn modules_verdict(
    mods_dir: Option<Seq<char>>,
    probes: &ModuleProbeSet,
    items: Seq<Module>,
    i: int,
) -> Result<(), ErrorView>
    decreases items.len() - i,
{
    if i < 0 || i >= items.len() {
        Result::Ok(())
    } else if has_earlier_duplicate(items, i) {
        Result::Err(ErrorView::DuplicateItem("module"@))
    } else {
        match module_verdict(items[i]@, mods_dir, probes) {
            Result::Err(e) => Result::Err(e),
            Result::Ok(_) => modules_verdict(mods_dir, probes, items, i + 1),
        }
    }
}

/// The records uniqueness-validating a list of modules logs, stated over
/// the modules directory and the probe reports alone.
pub open spec fn modules_notes(
    severity: Severity,
    mods_dir: Option<Seq<char>>,
    probes: &ModuleProbeSet,
    items: Seq<Module>,
    i: int,
) -> Seq<(Severity, Seq<char>)>
    decreases items.len() - i,
{
    if i < 0 || i >= items.len() {
        Seq::empty()
    } else if has_earlier_duplicate(items, i) {
        seq![duplicate_note(severity)]
    } else {
        match module_verdict(items[i]@, mods_dir, probes) {
            Result::Err(_) => module_notes(items[i]@, mods_dir, probes),
            Result::Ok(_) => module_notes(items[i]@, mods_dir, probes) + modules_notes(
                severity,
                mods_dir,
                probes,
                items,
                i + 1,
            ),
        }
    }
}

proof fn lemma_modules_ok_no_duplicate(
    mods_dir: Option<Seq<char>>,
    probes: &ModuleProbeSet,
    items: Seq<Module>,
    k: int,
    m: int,
)
    requires
        modules_verdict(mods_dir, probes, items, k) is Ok,
        0 <= k <= m < items.len(),
    ensures
        !has_earlier_duplicate(items, m),
    decreases m - k,
{
    if k < m {
        lemma_modules_ok_no_duplicate(mods_dir, probes, items, k + 1, m);
    }
}

/// Law: where module validation succeeds, module names are pairwise
/// distinct.
pub proof fn lemma_modules_unique_when_valid(
    mods_dir: Option<Seq<char>>,
    probes: &ModuleProbeSet,
    items: Seq<Module>,
    i: int,
    j: int,
)
    requires
        modules_verdict(mods_dir, probes, items, 0) is Ok,
        0 <= i < j < items.len(),
    ensures
        items[i]@.name != items[j]@.name,
{
    lemma_modules_ok_no_duplicate(mods_dir, probes, items, 0, j);
    if items[i]@.name == items[j]@.name {
        assert(items[i].id_spec() == items[j].id_spec());
        assert(has_earlier_duplicate(items, j));
    }
}

/// The uniqueness scan over a `ModuleValidator` computes exactly the
/// verdict and notes stated over the validator's modules directory and
/// probe reports.
pub proof fn lemma_modules_scan(
    severity: Severity,
    v: ModuleValidator,
    items: Seq<Module>,
    i: int,
)
    ensures
        scan_verdict(v, items, i) == modules_verdict(v.mods_dir_view(), v.probes, items, i),
        scan_notes(severity, v, items, i) == modules_notes(
            severity,
            v.mods_dir_view(),
            v.probes,
            items,
            i,
        ),
    decreases items.len() - i,
{
    if 0 <= i < items.len() {
        if !has_earlier_duplicate(items, i) {
            lemma_modules_scan(severity, v, items, i + 1);
        }
    }
}

} // verus!
