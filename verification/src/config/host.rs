//! The `Host` structure contains the configuration for a host; the
//! `HostIdentifier` structure is the port/hostname pair that uniquely
//! identifies a host within the configuration file.
//!
//! Only one host is allowed per port/hostname pair.

use vstd::prelude::*;

verus! {

use crate::config::module::Module;
use crate::config::module::ModuleValidator;
use crate::config::module::ModuleProbeSet;
use crate::config::module::lemma_modules_scan;
use crate::config::module::modules_notes;
use crate::config::module::modules_verdict;
use crate::config::module::retain_other_modules;
use crate::config::module::without_module;
use crate::config::port::Binding;
use crate::config::port::BindingView;
use crate::config::port::binding_fs_notes;
use crate::config::port::binding_fs_verdict;
use crate::diagnostics::FsSnapshot;
use crate::diagnostics::Id;
use crate::diagnostics::IdValidator;
use crate::diagnostics::Logger;
use crate::diagnostics::PathValidator;
use crate::diagnostics::PathValidatorKind;
use crate::diagnostics::Validator;
use crate::diagnostics::duplicate_note;
use crate::diagnostics::has_earlier_duplicate;
use crate::diagnostics::path_notes;
use crate::diagnostics::path_verdict;
use crate::diagnostics::scan_notes;
use crate::diagnostics::scan_verdict;
use crate::error::Error;
use crate::error::ErrorView;
use crate::error::severity::Severity;
use crate::text::opt_string_eq;
use crate::text::opt_string_view;
use crate::text::str_eq;

/// The mathematical shape of a `HostIdentifier`.
pub struct HostIdentifierView {
    pub port: u16,
    pub hostname: Option<Seq<char>>,
}

/// Structure that uniquely identifies a `Host` structure within a vector
/// of hosts: the port it listens on together with its optional hostname.
#[derive(Debug)]
pub struct HostIdentifier {
    hostname: Option<String>,
    port: u16,
}

impl View for HostIdentifier {
    type V = HostIdentifierView;

    closed spec fn view(&self) -> HostIdentifierView {
        HostIdentifierView { port: self.port, hostname: opt_string_view(&self.hostname) }
    }
}

impl HostIdentifier {
    /// Creates a new `HostIdentifier` containing the port and the host
    /// name, if any.
    pub fn new(port: u16, name: Option<&str>) -> (r: HostIdentifier)
        ensures
            r@ == (HostIdentifierView {
                port,
                hostname: match name {
                    Option::Some(n) => Option::Some(n@),
                    Option::None => Option::None,
                },
            }),
    {
        HostIdentifier {
            hostname: match name {
                Option::Some(n) => Option::Some(String::from_str(n)),
                Option::None => Option::None,
            },
            port,
        }
    }

    /// Retrieves the port of the identified host.
    pub fn port(&self) -> (r: u16)
        ensures
            r == self@.port,
    {
        self.port
    }

    /// Retrieves the host name of the identified host.
    pub fn name(&self) -> (r: Option<&str>)
        ensures
            match r {
                Option::Some(n) => self@.hostname == Option::Some(n@),
                Option::None => self@.hostname is None,
            },
    {
        match &self.hostname {
            Option::Some(name) => Option::Some(name.as_str()),
            Option::None => Option::None,
        }
    }
}

impl PartialEq for HostIdentifier {
    fn eq(&self, other: &HostIdentifier) -> (r: bool) {
        self.port == other.port && opt_string_eq(&self.hostname, &other.hostname)
    }
}

impl vstd::std_specs::cmp::PartialEqSpecImpl for HostIdentifier {
    open spec fn obeys_eq_spec() -> bool {
        true
    }

    open spec fn eq_spec(&self, other: &HostIdentifier) -> bool {
        self@ == other@
    }
}

/// The mathematical shape of a `Host`: its optional hostname, its listen
/// binding, its optional serving directory, and its module descriptors.
pub struct HostView {
    pub hostname: Option<Seq<char>>,
    pub listen: BindingView,
    pub static_dir: Option<Seq<char>>,
    pub mods: Seq<Module>,
}

/// The identifier a host derives: its listen port and its hostname.
pub open spec fn host_id_spec(h: HostView) -> HostIdentifierView {
    HostIdentifierView { port: h.listen.port, hostname: h.hostname }
}

/// Structure that defines configuration for a host.
#[derive(Debug)]
pub struct Host {
    hostname: Option<String>,
    listen: Binding,
    static_dir: Option<String>,
    mods: Vec<Module>,
}

impl View for Host {
    type V = HostView;

    closed spec fn view(&self) -> HostView {
        HostView {
            hostname: opt_string_view(&self.hostname),
            listen: self.listen@,
            static_dir: opt_string_view(&self.static_dir),
            mods: self.mods@,
        }
    }
}

impl Host {
    /// Creates a new `Host` structure with a binding on the specified
    /// `port`.
    pub fn new(port: u16) -> (r: Host)
        ensures
            r@ == (HostView {
                hostname: Option::None,
                listen: BindingView::insecure(port),
                static_dir: Option::None,
                mods: Seq::empty(),
            }),
    {
        let r = Host {
            hostname: Option::None,
            listen: Binding::new(port),
            static_dir: Option::None,
            mods: Vec::new(),
        };
        proof {
            assert(r@.mods =~= Seq::<Module>::empty());
        }
        r
    }

    /// Creates a new `Host` structure with a secure binding on the
    /// specified `port` and the specified `cert`, `key`.
    pub fn with_security(port: u16, cert: &str, key: &str) -> (r: Host)
        ensures
            r@ == (HostView {
                hostname: Option::None,
                listen: BindingView::with_security(port, cert@, key@),
                static_dir: Option::None,
                mods: Seq::empty(),
            }),
    {
        let r = Host {
            hostname: Option::None,
            listen: Binding::with_security(port, cert, key),
            static_dir: Option::None,
            mods: Vec::new(),
        };
        proof {
            assert(r@.mods =~= Seq::<Module>::empty());
        }
        r
    }

    /// Obtains an identifier that uniquely identifies the host in the
    /// configuration file.
    pub fn identifier(&self) -> (r: HostIdentifier)
        ensures
            r@ == host_id_spec(self@),
    {
        HostIdentifier::new(self.listen.port(), self.name())
    }

    /// Returns `true` if the current host corresponds to the given
    /// identifier `id` and `false` otherwise.
    pub fn is(&self, id: &HostIdentifier) -> (r: bool)
        ensures
            r == (host_id_spec(self@) == id@),
    {
        self.listen.port() == id.port() && opt_string_eq(&self.hostname, &id.hostname)
    }

    /// Obtains the `hostname` of the host.
    pub fn name(&self) -> (r: Option<&str>)
        ensures
            match r {
                Option::Some(n) => self@.hostname == Option::Some(n@),
                Option::None => self@.hostname is None,
            },
    {
        match &self.hostname {
            Option::Some(name) => Option::Some(name.as_str()),
            Option::None => Option::None,
        }
    }

    /// Sets the `hostname` of the host.
    pub fn set_name(&mut self, name: &str)
        ensures
            final (self)@ == (HostView { hostname: Option::Some(name@), ..old(self)@ }),
    {
        self.hostname = Option::Some(String::from_str(name));
    }

    /// Clears the `hostname` of the host.
    pub fn clear_name(&mut self)
        ensures
            final (self)@ == (HostView { hostname: Option::None, ..old(self)@ }),
    {
        self.hostname = Option::None;
    }

    /// Obtains a reference to the underlying `Binding` structure that
    /// defines the binding for the current host.
    pub fn binding(&self) -> (r: &Binding)
        ensures
            r@ == self@.listen,
    {
        &self.listen
    }

    /// Replaces the underlying `Binding` structure with a new one
    /// specified in `binding`.
    pub fn set_binding(&mut self, binding: Binding)
        ensures
            final (self)@ == (HostView { listen: binding@, ..old(self)@ }),
    {
        self.listen = binding;
    }

    /// Obtains the current serving directory, if any.
    pub fn serving_dir(&self) -> (r: Option<&str>)
        ensures
            match r {
                Option::Some(p) => self@.static_dir == Option::Some(p@),
                Option::None => self@.static_dir is None,
            },
    {
        match &self.static_dir {
            Option::Some(path) => Option::Some(path.as_str()),
            Option::None => Option::None,
        }
    }

    /// Sets the serving directory for the host.
    pub fn set_serving_dir(&mut self, path: &str)
        ensures
            final (self)@ == (HostView { static_dir: Option::Some(path@), ..old(self)@ }),
    {
        self.static_dir = Option::Some(String::from_str(path));
    }

    /// Removes the current serving directory from the host.
    pub fn clear_serving_dir(&mut self)
        ensures
            final (self)@ == (HostView { static_dir: Option::None, ..old(self)@ }),
    {
        self.static_dir = Option::None;
    }

    /// Obtains the module descriptors configured for this host.
    pub fn mods(&self) -> (r: &Vec<Module>)
        ensures
            r@ == self@.mods,
    {
        &self.mods
    }

    /// Adds a new module to the module list for this host.
    pub fn add_mod(&mut self, module: Module)
        ensures
            final (self)@ == (HostView { mods: old(self)@.mods.push(module), ..old(self)@ }),
    {
        self.mods.push(module);
    }

    /// Removes every module with the given `name` from this host.
    pub fn remove_mod(&mut self, name: &str)
        ensures
            final (self)@ == (HostView {
                mods: without_module(old(self)@.mods, name@),
                ..old(self)@
            }),
    {
        let kept = retain_other_modules(&mut self.mods, name);
        self.mods = kept;
    }

    /// Returns `true` if the host has the specified module and `false`
    /// otherwise.
    pub fn has_module(&self, name: &str) -> (r: bool)
        ensures
            r == exists|i: int|
                0 <= i < self@.mods.len() && (#[trigger] self@.mods[i])@.name == name@,
    {
        let n = self.mods.len();
        let mut i: usize = 0;
        while i < n
            invariant
                n == self@.mods.len(),
                0 <= i <= n,
                forall|j: int| 0 <= j < i ==> (#[trigger] self@.mods[j])@.name != name@,
            decreases n - i,
        {
            if str_eq(self.mods[i].name(), name) {
                return true;
            }
            i = i + 1;
        }
        false
    }
}

impl Id for Host {
    type Identifier = HostIdentifierView;

    /// A host is identified by its listen port and hostname.
    open spec fn id_spec(&self) -> HostIdentifierView {
        host_id_spec(self@)
    }

    fn same_id(&self, other: &Host) -> (r: bool) {
        self.listen.port() == other.listen.port() && opt_string_eq(
            &self.hostname,
            &other.hostname,
        )
    }

    open spec fn description_spec(&self) -> Seq<char> {
        "host"@
    }

    fn description(&self) -> (r: &'static str) {
        "host"
    }
}

/// The hosts of `s` whose identifier is not `id`, in order.
pub open spec fn without_host(s: Seq<Host>, id: HostIdentifierView) -> Seq<Host>
    decreases s.len(),
{
    if s.len() == 0 {
        Seq::empty()
    } else if host_id_spec(s[0]@) == id {
        without_host(s.drop_first(), id)
    } else {
        seq![s[0]] + without_host(s.drop_first(), id)
    }
}

/// Empties `hosts` and returns the hosts whose identifier is not `id`, in
/// their original order.
#[verifier::loop_isolation(false)]
pub fn retain_other_hosts(hosts: &mut Vec<Host>, id: &HostIdentifier) -> (kept: Vec<Host>)
    ensures
        kept@ == without_host(old(hosts)@, id@),
{
    let mut kept: Vec<Host> = Vec::new();
    proof {
        assert(without_host(old(hosts)@, id@) =~= kept@ + without_host(hosts@, id@));
    }
    while hosts.len() > 0
        invariant
            without_host(old(hosts)@, id@) == kept@ + without_host(hosts@, id@),
        decreases hosts.len(),
    {
        let ghost before = hosts@;
        let h = hosts.remove(0);
        proof {
            assert(hosts@ =~= before.drop_first());
        }
        if !h.is(id) {
            proof {
                assert(without_host(before, id@) =~= seq![h] + without_host(hosts@, id@));
            }
            kept.push(h);
            proof {
                assert(kept@ + without_host(hosts@, id@) =~= without_host(old(hosts)@, id@));
            }
        }
    }
    proof {
        assert(without_host(hosts@, id@) =~= Seq::<Host>::empty());
        assert(kept@ =~= without_host(old(hosts)@, id@));
    }
    kept
}

/// Whether `c` is an ASCII decimal digit.
pub open spec fn is_ascii_digit(c: char) -> bool {
    48 <= c as u32 && c as u32 <= 57
}

/// Whether `c` is an ASCII letter or digit.
pub open spec fn is_alnum(c: char) -> bool {
    ||| (65 <= c as u32 && c as u32 <= 90)
    ||| (97 <= c as u32 && c as u32 <= 122)
    ||| is_ascii_digit(c)
}

/// Whether `c` is an ASCII letter or digit.
fn alnum(c: char) -> (r: bool)
    ensures
        r == is_alnum(c),
{
    let u = c as u32;
    (65 <= u && u <= 90) || (97 <= u && u <= 122) || (48 <= u && u <= 57)
}

/// The name grammar for hosts: one or more dot-separated labels, where a
/// label is letters, digits and hyphens, starts and ends with a letter or
/// digit, and is never empty. Equivalently: every character is a letter,
/// digit, hyphen or dot; the first and last characters are letters or
/// digits; and both neighbours of every dot are letters or digits.
pub open spec fn is_dns_name(s: Seq<char>) -> bool {
    &&& s.len() > 0
    &&& is_alnum(s[0])
    &&& is_alnum(s[s.len() - 1])
    &&& forall|i: int|
        0 <= i < s.len() ==> is_alnum(#[trigger] s[i]) || s[i] == '-' || s[i] == '.'
    &&& forall|i: int|
        0 < i < s.len() ==> ((#[trigger] s[i]) == '.' ==> is_alnum(s[i - 1])) && (s[i - 1] == '.'
            ==> is_alnum(s[i]))
}

/// The decimal spelling of one octet of a dotted-quad address: up to three
/// digits, no leading zero except for zero itself, value at most 255.
pub open spec fn is_octet(s: Seq<char>) -> bool {
    ||| (s.len() == 1 && is_ascii_digit(s[0]))
    ||| (s.len() == 2 && 49 <= s[0] as u32 && s[0] as u32 <= 57 && is_ascii_digit(s[1]))
    ||| (s.len() == 3 && s[0] == '1' && is_ascii_digit(s[1]) && is_ascii_digit(s[2]))
    ||| (s.len() == 3 && s[0] == '2' && 48 <= s[1] as u32 && s[1] as u32 <= 52 && is_ascii_digit(
        s[2],
    ))
    ||| (s.len() == 3 && s[0] == '2' && s[1] == '5' && 48 <= s[2] as u32 && s[2] as u32 <= 53)
}

/// The dotted-quad address grammar for hosts: four octets separated by
/// dots.
pub open spec fn is_ipv4(s: Seq<char>) -> bool {
    exists|a: int, b: int, c: int|
        #![trigger s[a], s[b], s[c]]
        {
            &&& 0 < a && a < b && b < c && c < s.len()
            &&& s[a] == '.' && s[b] == '.' && s[c] == '.'
            &&& is_octet(s.subrange(0, a))
            &&& is_octet(s.subrange(a + 1, b))
            &&& is_octet(s.subrange(b + 1, c))
            &&& is_octet(s.subrange(c + 1, s.len() as int))
        }
}

/// Every character of an octet is a digit.
proof fn lemma_octet_digits(t: Seq<char>)
    requires
        is_octet(t),
    ensures
        1 <= t.len() <= 3,
        forall|j: int| 0 <= j < t.len() ==> is_ascii_digit(#[trigger] t[j]),
{
}

/// A dotted-quad address also satisfies the host name grammar: its labels
/// are the four octets, which are nonempty strings of digits.
pub proof fn lemma_ipv4_is_dns_name(s: Seq<char>)
    requires
        is_ipv4(s),
    ensures
        is_dns_name(s),
{
    let (a, b, c): (int, int, int) = choose|a: int, b: int, c: int|
        #![trigger s[a], s[b], s[c]]
        {
            &&& 0 < a && a < b && b < c && c < s.len()
            &&& s[a] == '.' && s[b] == '.' && s[c] == '.'
            &&& is_octet(s.subrange(0, a))
            &&& is_octet(s.subrange(a + 1, b))
            &&& is_octet(s.subrange(b + 1, c))
            &&& is_octet(s.subrange(c + 1, s.len() as int))
        };
    let n = s.len() as int;
    let seg0 = s.subrange(0, a);
    let seg1 = s.subrange(a + 1, b);
    let seg2 = s.subrange(b + 1, c);
    let seg3 = s.subrange(c + 1, n);
    lemma_octet_digits(seg0);
    lemma_octet_digits(seg1);
    lemma_octet_digits(seg2);
    lemma_octet_digits(seg3);
    assert forall|i: int| 0 <= i < n implies is_ascii_digit(#[trigger] s[i]) || i == a || i == b
        || i == c by {
        if i < a {
            assert(s[i] == seg0[i]);
        } else if a < i < b {
            assert(s[i] == seg1[i - (a + 1)]);
        } else if b < i < c {
            assert(s[i] == seg2[i - (b + 1)]);
        } else if c < i {
            assert(s[i] == seg3[i - (c + 1)]);
        }
    }
    assert(is_ascii_digit(s[0]) ==> is_alnum(s[0]));
    assert(s[0] == seg0[0]);
    assert(s[n - 1] == seg3[n - 1 - (c + 1)]);
    assert forall|i: int|
        0 < i < n implies ((#[trigger] s[i]) == '.' ==> is_alnum(s[i - 1])) && (s[i - 1] == '.'
        ==> is_alnum(s[i])) by {
        if s[i] == '.' {
            assert(i == a || i == b || i == c);
            if i == a {
                assert(s[i - 1] == seg0[a - 1]);
            } else if i == b {
                assert(s[i - 1] == seg1[b - 1 - (a + 1)]);
            } else {
                assert(s[i - 1] == seg2[c - 1 - (b + 1)]);
            }
        }
        if s[i - 1] == '.' {
            assert(i - 1 == a || i - 1 == b || i - 1 == c);
            if i - 1 == a {
                assert(s[i] == seg1[0]);
            } else if i - 1 == b {
                assert(s[i] == seg2[0]);
            } else {
                assert(s[i] == seg3[0]);
            }
        }
    }
}

/// Whether `s` satisfies the host name grammar.
pub fn dns_name_valid(s: &str) -> (r: bool)
    ensures
        r == is_dns_name(s@),
{
    let n = s.unicode_len();
    if n == 0 {
        return false;
    }
    if !alnum(s.get_char(0)) {
        return false;
    }
    if !alnum(s.get_char(n - 1)) {
        return false;
    }
    let mut i: usize = 0;
    while i < n
        invariant
            n == s@.len(),
            0 <= i <= n,
            forall|j: int|
                0 <= j < i ==> is_alnum(#[trigger] s@[j]) || s@[j] == '-' || s@[j] == '.',
        decreases n - i,
    {
        let ch = s.get_char(i);
        if !(alnum(ch) || ch == '-' || ch == '.') {
            return false;
        }
        i = i + 1;
    }
    let mut i: usize = 1;
    while i < n
        invariant
            n == s@.len(),
            1 <= i <= n,
            forall|j: int|
                0 < j < i ==> ((#[trigger] s@[j]) == '.' ==> is_alnum(s@[j - 1])) && (s@[j - 1]
                    == '.' ==> is_alnum(s@[j])),
        decreases n - i,
    {
        let ch = s.get_char(i);
        let prev = s.get_char(i - 1);
        if ch == '.' && !alnum(prev) {
            return false;
        }
        if prev == '.' && !alnum(ch) {
            return false;
        }
        i = i + 1;
    }
    true
}

/// Whether `s` is a syntactically valid hostname: it satisfies the name
/// grammar or the dotted-quad address grammar. An address also satisfies
/// the name grammar, so checking the latter answers for both.
pub fn hostname_valid(s: &str) -> (r: bool)
    ensures
        r == (is_dns_name(s@) || is_ipv4(s@)),
{
    let r = dns_name_valid(s);
    proof {
        if !r && is_ipv4(s@) {
            lemma_ipv4_is_dns_name(s@);
        }
    }
    r
}

/// The record host validation logs when the hostname matches neither
/// grammar.
pub open spec fn hostname_note() -> (Severity, Seq<char>) {
    (Severity::Critical, "Invalid hostname."@)
}

/// Validates a `Host` against the modules directory, the observed
/// filesystem and the probe reports it holds.
#[derive(Debug)]
pub struct HostValidator<'a> {
    pub mods_dir: Option<&'a str>,
    pub fs: &'a FsSnapshot,
    pub probes: &'a ModuleProbeSet,
}

impl<'a> HostValidator<'a> {
    /// The modules directory as an optional character sequence.
    pub open spec fn mods_dir_view(&self) -> Option<Seq<char>> {
        match self.mods_dir {
            Option::Some(d) => Option::Some(d@),
            Option::None => Option::None,
        }
    }
}

/// The outcome of validating one host: its binding must pass the TLS-file
/// check, its hostname must satisfy one of the two grammars, its serving
/// directory must exist where one is set, and its modules must pass
/// uniqueness validation; the first fatal failure wins.
pub open spec fn host_verdict(
    mods_dir: Option<Seq<char>>,
    fs: &FsSnapshot,
    probes: &ModuleProbeSet,
    h: HostView,
) -> Result<(), ErrorView> {
    match binding_fs_verdict(fs, h.listen) {
        Result::Err(e) => Result::Err(e),
        Result::Ok(_) => {
            let name_ok = match h.hostname {
                Option::Some(name) => is_dns_name(name) || is_ipv4(name),
                Option::None => true,
            };
            if !name_ok {
                Result::Err(ErrorView::InvalidHostname(h.hostname->Some_0))
            } else {
                let dir_check = match h.static_dir {
                    Option::Some(p) => path_verdict(
                        Severity::Error,
                        PathValidatorKind::ExistingDirectory,
                        p,
                        fs.status_spec(p),
                    ),
                    Option::None => Result::Ok(()),
                };
                match dir_check {
                    Result::Err(e) => Result::Err(e),
                    Result::Ok(_) => modules_verdict(mods_dir, probes, h.mods, 0),
                }
            }
        },
    }
}

/// The records validating one host logs.
pub open spec fn host_notes(
    mods_dir: Option<Seq<char>>,
    fs: &FsSnapshot,
    probes: &ModuleProbeSet,
    h: HostView,
) -> Seq<(Severity, Seq<char>)> {
    let binding_notes = binding_fs_notes(fs, h.listen);
    match binding_fs_verdict(fs, h.listen) {
        Result::Err(_) => binding_notes,
        Result::Ok(_) => {
            let name_ok = match h.hostname {
                Option::Some(name) => is_dns_name(name) || is_ipv4(name),
                Option::None => true,
            };
            if !name_ok {
                binding_notes + seq![hostname_note()]
            } else {
                let dir_notes = match h.static_dir {
                    Option::Some(p) => path_notes(
                        Severity::Error,
                        PathValidatorKind::ExistingDirectory,
                        p,
                        fs.status_spec(p),
                    ),
                    Option::None => Seq::empty(),
                };
                let dir_check = match h.static_dir {
                    Option::Some(p) => path_verdict(
                        Severity::Error,
                        PathValidatorKind::ExistingDirectory,
                        p,
                        fs.status_spec(p),
                    ),
                    Option::None => Result::Ok(()),
                };
                match dir_check {
                    Result::Err(_) => binding_notes + dir_notes,
                    Result::Ok(_) => binding_notes + dir_notes + modules_notes(
                        Severity::Critical,
                        mods_dir,
                        probes,
                        h.mods,
                        0,
                    ),
                }
            }
        },
    }
}

impl<'a> Validator<Host> for HostValidator<'a> {
    open spec fn verdict(&self, item: &Host) -> Result<(), ErrorView> {
        host_verdict(self.mods_dir_view(), self.fs, self.probes, item@)
    }

    open spec fn notes(&self, item: &Host) -> Seq<(Severity, Seq<char>)> {
        host_notes(self.mods_dir_view(), self.fs, self.probes, item@)
    }

    fn validate<L: Logger>(&self, logger: &mut L, item: &Host) -> (r: Result<(), Error>) {
        let ghost base = old(logger).entries();
        let binding_checked = self.fs.validate(logger, item.binding());
        if let Result::Err(e) = binding_checked {
            proof {
                assert(logger.entries() =~= base + self.notes(item));
            }
            return Result::Err(e);
        }
        if let Option::Some(name) = item.name() {
            if !hostname_valid(name) {
                logger.log(Severity::Critical, "Invalid hostname.");
                proof {
                    assert(logger.entries() =~= base + self.notes(item));
                }
                return Result::Err(Error::InvalidHostname(String::from_str(name)));
            }
        }
        if let Option::Some(dir) = item.serving_dir() {
            let observed = self.fs.observe(dir);
            let checked = PathValidator(
                Severity::Error,
                PathValidatorKind::ExistingDirectory,
            ).validate(logger, &observed);
            if let Result::Err(e) = checked {
                proof {
                    assert(logger.entries() =~= base + self.notes(item));
                }
                return Result::Err(e);
            }
        }
        let module_validator = ModuleValidator { mods_dir: self.mods_dir, probes: self.probes };
        let uniqueness = IdValidator(Severity::Critical, module_validator);
        let checked = uniqueness.validate(logger, &item.mods);
        proof {
            lemma_modules_scan(Severity::Critical, module_validator, item@.mods, 0);
            assert(logger.entries() =~= base + self.notes(item));
        }
        checked
    }
}

/// The outcome of uniqueness-validating a list of hosts from position `i`
/// on, stated over the modules directory, the observed filesystem and the
/// probe reports alone: exactly what the uniqueness validator wrapping a
/// `HostValidator` produces.
pub open spec fn hosts_verdict(
    mods_dir: Option<Seq<char>>,
    fs: &FsSnapshot,
    probes: &ModuleProbeSet,
    items: Seq<Host>,
    i: int,
) -> Result<(), ErrorView>
    decreases items.len() - i,
{
    if i < 0 || i >= items.len() {
        Result::Ok(())
    } else if has_earlier_duplicate(items, i) {
        Result::Err(ErrorView::DuplicateItem("host"@))
    } else {
        match host_verdict(mods_dir, fs, probes, items[i]@) {
            Result::Err(e) => Result::Err(e),
            Result::Ok(_) => hosts_verdict(mods_dir, fs, probes, items, i + 1),
        }
    }
}

/// The records uniqueness-validating a list of hosts logs.
pub open spec fn hosts_notes(
    severity: Severity,
    mods_dir: Option<Seq<char>>,
    fs: &FsSnapshot,
    probes: &ModuleProbeSet,
    items: Seq<Host>,
    i: int,
) -> Seq<(Severity, Seq<char>)>
    decreases items.len() - i,
{
    if i < 0 || i >= items.len() {
        Seq::empty()
    } else if has_earlier_duplicate(items, i) {
        seq![duplicate_note(severity)]
    } else {
        match host_verdict(mods_dir, fs, probes, items[i]@) {
            Result::Err(_) => host_notes(mods_dir, fs, probes, items[i]@),
            Result::Ok(_) => host_notes(mods_dir, fs, probes, items[i]@) + hosts_notes(
                severity,
                mods_dir,
                fs,
                probes,
                items,
                i + 1,
            ),
        }
    }
}

/// The uniqueness scan over a `HostValidator` computes exactly the verdict
/// and notes stated over the validator's context.
pub proof fn lemma_hosts_scan(severity: Severity, v: HostValidator, items: Seq<Host>, i: int)
    ensures
        scan_verdict(v, items, i) == hosts_verdict(v.mods_dir_view(), v.fs, v.probes, items, i),
        scan_notes(severity, v, items, i) == hosts_notes(
            severity,
            v.mods_dir_view(),
            v.fs,
            v.probes,
            items,
            i,
        ),
    decreases items.len() - i,
{
    if 0 <= i < items.len() {
        if !has_earlier_duplicate(items, i) {
            lemma_hosts_scan(severity, v, items, i + 1);
        }
    }
}

proof fn lemma_hosts_ok_no_duplicate(
    mods_dir: Option<Seq<char>>,
    fs: &FsSnapshot,
    probes: &ModuleProbeSet,
    items: Seq<Host>,
    k: int,
    m: int,
)
    requires
        hosts_verdict(mods_dir, fs, probes, items, k) is Ok,
        0 <= k <= m < items.len(),
    ensures
        !has_earlier_duplicate(items, m),
    decreases m - k,
{
    if k < m {
        lemma_hosts_ok_no_duplicate(mods_dir, fs, probes, items, k + 1, m);
    }
}

/// Law: where host validation succeeds, at most one host stands per
/// port/hostname pair: the identifiers are pairwise distinct.
pub proof fn lemma_hosts_unique_when_valid(
    mods_dir: Option<Seq<char>>,
    fs: &FsSnapshot,
    probes: &ModuleProbeSet,
    items: Seq<Host>,
    i: int,
    j: int,
)
    requires
        hosts_verdict(mods_dir, fs, probes, items, 0) is Ok,
        0 <= i < j < items.len(),
    ensures
        host_id_spec(items[i]@) != host_id_spec(items[j]@),
{
    lemma_hosts_ok_no_duplicate(mods_dir, fs, probes, items, 0, j);
    if host_id_spec(items[i]@) == host_id_spec(items[j]@) {
        assert(items[i].id_spec() == items[j].id_spec());
        assert(has_earlier_duplicate(items, j));
    }
}

/// Law: the identifier a host derives is exactly the identifier built from
/// its listen port and its hostname, for every port and optional name.
pub proof fn lemma_identifier_round_trip(h: HostView, port: u16, hostname: Option<Seq<char>>)
    requires
        h.listen.port == port,
        h.hostname == hostname,
    ensures
        host_id_spec(h) == (HostIdentifierView { port, hostname }),
{
}

} // verus!
