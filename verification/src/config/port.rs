//! The `Binding` structure contains the configuration for a binding port.

use vstd::prelude::*;

verus! {

use crate::diagnostics::FsSnapshot;
use crate::diagnostics::Logger;
use crate::diagnostics::PathValidator;
use crate::diagnostics::PathValidatorKind;
use crate::diagnostics::Validator;
use crate::diagnostics::path_notes;
use crate::diagnostics::path_verdict;
use crate::error::Error;
use crate::error::ErrorView;
use crate::error::outcome_view;
use crate::error::severity::Severity;
use crate::text::dec_str;
use crate::text::opt_string_eq;
use crate::text::opt_string_view;

/// The mathematical shape of a `Binding`: the port, the security flag, and
/// the certificate and key paths read as character sequences.
pub struct BindingView {
    pub port: u16,
    pub secure: bool,
    pub cert: Option<Seq<char>>,
    pub key: Option<Seq<char>>,
}

impl BindingView {
    /// An insecure binding on `port`.
    pub open spec fn insecure(port: u16) -> BindingView {
        BindingView { port, secure: false, cert: Option::None, key: Option::None }
    }

    /// A secure binding on `port` with the given certificate material.
    pub open spec fn with_security(port: u16, cert: Seq<char>, key: Seq<char>) -> BindingView {
        BindingView { port, secure: true, cert: Option::Some(cert), key: Option::Some(key) }
    }

    /// A secure binding is well-formed only with both certificate and key
    /// present.
    pub open spec fn wf(&self) -> bool {
        self.secure ==> self.cert is Some && self.key is Some
    }
}

/// Structure that defines configuration for a binding port.
#[derive(Debug, Clone)]
pub struct Binding {
    port: u16,
    secure: bool,
    cert: Option<String>,
    key: Option<String>,
}

impl View for Binding {
    type V = BindingView;

    closed spec fn view(&self) -> BindingView {
        BindingView {
            port: self.port,
            secure: self.secure,
            cert: opt_string_view(&self.cert),
            key: opt_string_view(&self.key),
        }
    }
}

impl Binding {
    /// Creates a new `Binding` structure for a port, given the port number.
    pub fn new(port: u16) -> (r: Binding)
        ensures
            r@ == BindingView::insecure(port),
    {
        Binding { port, secure: false, cert: Option::None, key: Option::None }
    }

    /// Creates a new `Binding` structure for a secure port, given the port
    /// number and the paths to the certificate and the relative key.
    pub fn with_security(port: u16, cert: &str, key: &str) -> (r: Binding)
        ensures
            r@ == BindingView::with_security(port, cert@, key@),
    {
        Binding {
            port,
            secure: true,
            cert: Option::Some(String::from_str(cert)),
            key: Option::Some(String::from_str(key)),
        }
    }

    /// Obtains the port number.
    pub fn port(&self) -> (r: u16)
        ensures
            r == self@.port,
    {
        self.port
    }

    /// Returns a value that indicates if the binding is secure or not.
    pub fn secure(&self) -> (r: bool)
        ensures
            r == self@.secure,
    {
        self.secure
    }

    /// Obtains the path to the certificate file, if any.
    pub fn cert(&self) -> (r: Option<&str>)
        ensures
            match r {
                Option::Some(c) => self@.cert == Option::Some(c@),
                Option::None => self@.cert is None,
            },
    {
        match &self.cert {
            Option::Some(path) => Option::Some(path.as_str()),
            Option::None => Option::None,
        }
    }

    /// Obtains the path to the key file, if any.
    pub fn key(&self) -> (r: Option<&str>)
        ensures
            match r {
                Option::Some(k) => self@.key == Option::Some(k@),
                Option::None => self@.key is None,
            },
    {
        match &self.key {
            Option::Some(path) => Option::Some(path.as_str()),
            Option::None => Option::None,
        }
    }

    /// Sets the port number.
    pub fn set_port(&mut self, port: u16)
        ensures
            final (self)@ == (BindingView { port, ..old(self)@ }),
    {
        self.port = port;
    }

    /// Removes security from this binding.
    pub fn clear_security(&mut self)
        ensures
            final (self)@ == BindingView::insecure(old(self)@.port),
    {
        self.secure = false;
        self.cert = Option::None;
        self.key = Option::None;
    }

    /// Sets security for this binding, given a path to a certificate and a
    /// path to the relative key.
    pub fn set_security(&mut self, cert: &str, key: &str)
        ensures
            final (self)@ == BindingView::with_security(old(self)@.port, cert@, key@),
    {
        self.secure = true;
        self.cert = Option::Some(String::from_str(cert));
        self.key = Option::Some(String::from_str(key));
    }

    /// Obtains an address string for the binding: the wildcard address
    /// followed by the port in decimal.
    pub fn to_addr_string(&self) -> (r: String)
        ensures
            r@ == "0.0.0.0:"@ + dec_str(self@.port as int),
    {
        let mut s = String::from_str("0.0.0.0:");
        let digits = crate::text::u16_to_dec(self.port);
        s.append(digits.as_str());
        s
    }

    /// Returns whether the binding is structurally valid: a secure binding
    /// must carry both a certificate path and a key path.
    pub fn validate(&self) -> (r: Result<(), Error>)
        ensures
            outcome_view(r) == Binding::validate_spec(self@),
    {
        if self.secure && (self.cert.is_none() || self.key.is_none()) {
            Result::Err(Error::SecureBindOnInsecure)
        } else {
            Result::Ok(())
        }
    }

    /// The outcome `validate` produces: the secure-without-certificate
    /// failure exactly when the binding is secure but incomplete.
    pub open spec fn validate_spec(b: BindingView) -> Result<(), ErrorView> {
        if b.wf() {
            Result::Ok(())
        } else {
            Result::Err(ErrorView::SecureBindOnInsecure)
        }
    }
}

impl PartialEq for Binding {
    fn eq(&self, other: &Binding) -> (r: bool) {
        self.port == other.port && self.secure == other.secure && opt_string_eq(
            &self.cert,
            &other.cert,
        ) && opt_string_eq(&self.key, &other.key)
    }
}

impl vstd::std_specs::cmp::PartialEqSpecImpl for Binding {
    open spec fn obeys_eq_spec() -> bool {
        true
    }

    open spec fn eq_spec(&self, other: &Binding) -> bool {
        self@ == other@
    }
}

impl From<u16> for Binding {
    /// A plain port number converts to an insecure binding on that port.
    fn from(value: u16) -> (r: Binding) {
        Binding { port: value, secure: false, cert: Option::None, key: Option::None }
    }
}

impl vstd::std_specs::convert::FromSpecImpl<u16> for Binding {
    open spec fn obeys_from_spec() -> bool {
        true
    }

    closed spec fn from_spec(value: u16) -> Binding {
        Binding { port: value, secure: false, cert: Option::None, key: Option::None }
    }
}

/// A failure while assembling a `Binding` from the fields of a
/// configuration map: a required field is absent.
#[derive(Copy, Clone, Debug, PartialEq, Eq, Structural)]
pub enum BindingFieldError {
    /// The map carries no port.
    MissingPort,
    /// Security is requested or implied, but no certificate path is given.
    MissingCert,
    /// Security is requested or implied, but no key path is given.
    MissingKey,
}

/// The binding the fields of a configuration map describe.
///
/// Security is auto-detected: certificate material present makes the
/// binding secure, unless `secure` is explicitly `false`, which overrides
/// the detection; `secure` explicitly `true` demands the material.
pub open spec fn from_fields_spec(
    port: Option<u16>,
    secure: Option<bool>,
    cert: Option<Seq<char>>,
    key: Option<Seq<char>>,
) -> Result<BindingView, BindingFieldError> {
    match port {
        Option::None => Result::Err(BindingFieldError::MissingPort),
        Option::Some(p) => {
            if secure == Option::Some(false) {
                Result::Ok(BindingView::insecure(p))
            } else if secure == Option::Some(true) || cert is Some || key is Some {
                if cert is None {
                    Result::Err(BindingFieldError::MissingCert)
                } else if key is None {
                    Result::Err(BindingFieldError::MissingKey)
                } else {
                    Result::Ok(BindingView::with_security(p, cert->Some_0, key->Some_0))
                }
            } else {
                Result::Ok(BindingView::insecure(p))
            }
        },
    }
}

impl Binding {
    /// Assembles a binding from the fields of a configuration map, as
    /// `from_fields_spec` describes.
    pub fn from_fields(
        port: Option<u16>,
        secure: Option<bool>,
        cert: Option<String>,
        key: Option<String>,
    ) -> (r: Result<Binding, BindingFieldError>)
        ensures
            match r {
                Result::Ok(b) => from_fields_spec(
                    port,
                    secure,
                    opt_string_view(&cert),
                    opt_string_view(&key),
                ) == Result::<BindingView, BindingFieldError>::Ok(b@),
                Result::Err(e) => from_fields_spec(
                    port,
                    secure,
                    opt_string_view(&cert),
                    opt_string_view(&key),
                ) == Result::<BindingView, BindingFieldError>::Err(e),
            },
    {
        let p = match port {
            Option::None => {
                return Result::Err(BindingFieldError::MissingPort);
            },
            Option::Some(p) => p,
        };
        let explicit_false = match secure {
            Option::Some(b) => !b,
            Option::None => false,
        };
        if explicit_false {
            return Result::Ok(Binding::new(p));
        }
        let explicit_true = match secure {
            Option::Some(b) => b,
            Option::None => false,
        };
        let demanded = explicit_true || cert.is_some() || key.is_some();
        if demanded {
            match (cert, key) {
                (Option::Some(c), Option::Some(k)) => Result::Ok(
                    Binding::with_security(p, c.as_str(), k.as_str()),
                ),
                (Option::None, _) => Result::Err(BindingFieldError::MissingCert),
                (Option::Some(_), Option::None) => Result::Err(BindingFieldError::MissingKey),
            }
        } else {
            Result::Ok(Binding::new(p))
        }
    }
}

/// The outcome of checking a binding against an observed filesystem: a
/// secure binding must carry both certificate and key paths, and both must
/// name existing files; an insecure binding always passes.
pub open spec fn binding_fs_verdict(fs: &FsSnapshot, b: BindingView) -> Result<(), ErrorView> {
    if !b.wf() {
        Result::Err(ErrorView::SecureBindOnInsecure)
    } else if !b.secure {
        Result::Ok(())
    } else {
        let cert = b.cert->Some_0;
        let key = b.key->Some_0;
        match path_verdict(
            Severity::Error,
            PathValidatorKind::ExistingFile,
            cert,
            fs.status_spec(cert),
        ) {
            Result::Err(e) => Result::Err(e),
            Result::Ok(_) => path_verdict(
                Severity::Error,
                PathValidatorKind::ExistingFile,
                key,
                fs.status_spec(key),
            ),
        }
    }
}

/// The records checking a binding against an observed filesystem logs.
pub open spec fn binding_fs_notes(fs: &FsSnapshot, b: BindingView) -> Seq<(Severity, Seq<char>)> {
    if !b.wf() || !b.secure {
        Seq::empty()
    } else {
        let cert = b.cert->Some_0;
        let key = b.key->Some_0;
        let cert_notes = path_notes(
            Severity::Error,
            PathValidatorKind::ExistingFile,
            cert,
            fs.status_spec(cert),
        );
        match path_verdict(
            Severity::Error,
            PathValidatorKind::ExistingFile,
            cert,
            fs.status_spec(cert),
        ) {
            Result::Err(_) => cert_notes,
            Result::Ok(_) => cert_notes + path_notes(
                Severity::Error,
                PathValidatorKind::ExistingFile,
                key,
                fs.status_spec(key),
            ),
        }
    }
}

impl Validator<Binding> for FsSnapshot {
    open spec fn verdict(&self, item: &Binding) -> Result<(), ErrorView> {
        binding_fs_verdict(self, item@)
    }

    open spec fn notes(&self, item: &Binding) -> Seq<(Severity, Seq<char>)> {
        binding_fs_notes(self, item@)
    }

    fn validate<L: Logger>(&self, logger: &mut L, item: &Binding) -> (r: Result<(), Error>) {
        let ghost base = old(logger).entries();
        if !item.secure() {
            proof {
                assert(logger.entries() =~= base + self.notes(item));
            }
            return Result::Ok(());
        }
        let cert = match item.cert() {
            Option::Some(c) => c,
            Option::None => {
                proof {
                    assert(logger.entries() =~= base + self.notes(item));
                }
                return Result::Err(Error::SecureBindOnInsecure);
            },
        };
        let key = match item.key() {
            Option::Some(k) => k,
            Option::None => {
                proof {
                    assert(logger.entries() =~= base + self.notes(item));
                }
                return Result::Err(Error::SecureBindOnInsecure);
            },
        };
        let observed_cert = self.observe(cert);
        let checked = PathValidator(Severity::Error, PathValidatorKind::ExistingFile).validate(
            logger,
            &observed_cert,
        );
        if let Result::Err(e) = checked {
            proof {
                assert(logger.entries() =~= base + self.notes(item));
            }
            return Result::Err(e);
        }
        let observed_key = self.observe(key);
        let checked = PathValidator(Severity::Error, PathValidatorKind::ExistingFile).validate(
            logger,
            &observed_key,
        );
        if let Result::Err(e) = checked {
            proof {
                assert(logger.entries() =~= base + self.notes(item));
            }
            return Result::Err(e);
        }
        proof {
            assert(logger.entries() =~= base + self.notes(item));
        }
        Result::Ok(())
    }
}

/// Law: a configuration map carrying both certificate and key but no
/// explicit `secure` flag describes the secure binding `with_security`
/// builds.
pub proof fn lemma_security_autodetected(port: u16, cert: Seq<char>, key: Seq<char>)
    ensures
        from_fields_spec(
            Option::Some(port),
            Option::None,
            Option::Some(cert),
            Option::Some(key),
        ) == Result::<BindingView, BindingFieldError>::Ok(
            BindingView::with_security(port, cert, key),
        ),
{
}

/// Law: `secure` explicitly set to `false` describes the insecure binding
/// on that port, whatever certificate material stands beside it.
pub proof fn lemma_explicit_insecure_overrides(
    port: u16,
    cert: Option<Seq<char>>,
    key: Option<Seq<char>>,
)
    ensures
        from_fields_spec(Option::Some(port), Option::Some(false), cert, key) == Result::<
            BindingView,
            BindingFieldError,
        >::Ok(BindingView::insecure(port)),
{
}

} // verus!
