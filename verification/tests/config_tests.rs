use mammoth_setup::config::ConfigValidator;
use mammoth_setup::config::port::Binding;
use mammoth_setup::config::ConfigurationFile;
use mammoth_setup::config::host::Host;
use mammoth_setup::config::host::HostIdentifier;
use mammoth_setup::config::host::HostValidator;
use mammoth_setup::config::host::hostname_valid;
use mammoth_setup::config::mammoth::Mammoth;
use mammoth_setup::config::module::Module;
use mammoth_setup::config::module::ModuleProbe;
use mammoth_setup::config::module::ModuleProbeSet;
use mammoth_setup::config::module::ModuleValidator;
use mammoth_setup::config::value::ConfigValue;
use mammoth_setup::diagnostics::FsSnapshot;
use mammoth_setup::diagnostics::Validator;
use mammoth_setup::error::Error;
use mammoth_setup::error::event::Event;
use mammoth_setup::error::severity::Severity;
use mammoth_setup::version::Requirement;
use mammoth_setup::version::Version;

#[test]
/// Generic property test.
fn test_generic() {
    let mut mammoth = Mammoth::new();

    assert!(mammoth.mods_dir().is_none());
    assert!(mammoth.log_file().is_none());
    assert!(mammoth.log_severity().is_none());

    mammoth.set_mods_dir("./mods/");

    assert_eq!(mammoth.mods_dir().unwrap(), "./mods/");
    assert!(mammoth.log_file().is_none());
    assert!(mammoth.log_severity().is_none());

    mammoth.set_log_file("mammoth.log");

    assert_eq!(mammoth.mods_dir().unwrap(), "./mods/");
    assert_eq!(mammoth.log_file().unwrap(), "mammoth.log");
    assert!(mammoth.log_severity().is_none());

    mammoth.set_log_severity(Severity::Warning);

    assert_eq!(mammoth.mods_dir().unwrap(), "./mods/");
    assert_eq!(mammoth.log_file().unwrap(), "mammoth.log");
    assert_eq!(mammoth.log_severity().unwrap(), Severity::Warning);
}

#[test]
/// Tests `Module` properties.
fn test_generic_properties() {
    let mut module = Module::new("mod_test");
    let module_disabled = Module::new_disabled("mod_disabled");
    let module_with_config = Module::with_config("mod_configured", true, ConfigValue::Integer(42));

    assert_eq!(module.name(), "mod_test");
    assert!(module.location().is_none());
    assert_eq!(module.enabled(), true);
    assert!(module.config().is_none());

    assert_eq!(module_disabled.name(), "mod_disabled");
    assert!(module_disabled.location().is_none());
    assert_eq!(module_disabled.enabled(), false);
    assert!(module_disabled.config().is_none());

    assert_eq!(module_with_config.name(), "mod_configured");
    assert!(module_with_config.location().is_none());
    assert_eq!(module_with_config.enabled(), true);
    assert!(matches!(module_with_config.config(), Some(ConfigValue::Integer(42))));

    module.set_location("./target/debug/mod_test.dll");
    assert_eq!(module.location().unwrap(), "./target/debug/mod_test.dll");
    module.clear_location();
    assert!(module.location().is_none());

    module.disable();
    assert_eq!(module.enabled(), false);
    module.enable();
    assert_eq!(module.enabled(), true);
}

#[test]
/// Tests binding.
fn test_binding() {
    let mut host = Host::new(80);
    let binding = Binding::new(80);
    let binding_ssl = Binding::with_security(443, "./cert.pem", "./key.pem");
    assert_eq!(host.binding(), &binding);

    host.set_binding(binding_ssl.clone());
    assert_eq!(host.binding(), &binding_ssl);
}

#[test]
/// Tests hostname.
fn test_host_name() {
    let mut host = Host::new(80);
    assert!(host.name().is_none());

    host.set_name("localhost");
    assert_eq!(host.name().unwrap(), "localhost");

    host.clear_name();
    assert!(host.name().is_none());
}

#[test]
/// Tests serving dir.
fn test_serving_dir() {
    let mut host = Host::new(80);
    assert!(host.serving_dir().is_none());

    host.set_serving_dir("./www/");
    assert_eq!(host.serving_dir().unwrap(), "./www/");

    host.clear_serving_dir();
    assert!(host.serving_dir().is_none());
}

#[test]
/// Tests the `has_module` function.
fn test_has_module() {
    let mut host = Host::new(80);
    let module = Module::new("mod_test");
    assert_eq!(host.has_module("mod_test"), false);

    host.add_mod(module);
    assert_eq!(host.has_module("mod_test"), true);
}

#[test]
/// Tests the `remove` function for removing modules.
fn test_remove_mod() {
    let mut host = Host::new(80);

    host.add_mod(Module::new("mod_dummy"));
    host.add_mod(Module::new("mod_test"));

    assert_eq!(host.has_module("mod_dummy"), true);
    assert_eq!(host.has_module("mod_test"), true);

    host.remove_mod("mod_dummy");

    assert_eq!(host.has_module("mod_dummy"), false);
    assert_eq!(host.has_module("mod_test"), true);
}

#[test]
/// Tests the `validate` function.
fn test_validate() {
    let host = Host::new(80);
    let host_ssl = Host::with_security(443, "./tests/test_cert.pem", "./tests/test_key.pem");
    let host_err = Host::with_security(443, "./err_cert.pem", "./err_key.pem");
    let mut host_named = Host::new(80);
    let mut host_named_err = Host::new(80);
    host_named.set_name("localhost");
    host_named_err.set_name("invalid@name");

    let mut fs = FsSnapshot::new();
    fs.record("./tests/test_cert.pem", mammoth_setup::diagnostics::PathStatus::File);
    fs.record("./tests/test_key.pem", mammoth_setup::diagnostics::PathStatus::File);
    let probes = ModuleProbeSet::new();
    let validator = HostValidator { mods_dir: Some("./mods/"), fs: &fs, probes: &probes };

    let mut events: Vec<Event> = Vec::new();

    assert!(validator.validate(&mut events, &host).is_ok());
    assert!(validator.validate(&mut events, &host_ssl).is_ok());
    assert!(validator.validate(&mut events, &host_err).is_err());
    assert!(validator.validate(&mut events, &host_named).is_ok());
    assert!(validator.validate(&mut events, &host_named_err).is_err());
}

#[test]
/// A hostname failing both grammars yields the invalid-hostname error.
fn test_invalid_hostname_error() {
    let mut host = Host::new(80);
    host.set_name("invalid@name");

    let fs = FsSnapshot::new();
    let probes = ModuleProbeSet::new();
    let validator = HostValidator { mods_dir: None, fs: &fs, probes: &probes };
    let mut events: Vec<Event> = Vec::new();

    let err = validator.validate(&mut events, &host).unwrap_err();
    assert!(matches!(err, Error::InvalidHostname(name) if name == "invalid@name"));
    assert_eq!(events.len(), 1);
    assert_eq!(events[0].severity(), Severity::Critical);
    assert_eq!(events[0].description(), "Invalid hostname.");
}

#[test]
/// Hostname grammar: names and dotted-quad addresses.
fn test_hostname_grammar() {
    assert!(hostname_valid("localhost"));
    assert!(hostname_valid("example.com"));
    assert!(hostname_valid("a-b.c-d.e"));
    assert!(hostname_valid("127.0.0.1"));
    assert!(hostname_valid("0.0.0.0"));
    assert!(hostname_valid("255.255.255.255"));
    assert!(hostname_valid("xn--42.y"));

    assert!(!hostname_valid(""));
    assert!(!hostname_valid("invalid@name"));
    assert!(!hostname_valid("-leading.dash"));
    assert!(!hostname_valid("trailing-.dash"));
    assert!(!hostname_valid("double..dot"));
    assert!(!hostname_valid(".leading.dot"));
    assert!(!hostname_valid("trailing.dot."));
    assert!(!hostname_valid("under_score"));
}

#[test]
/// Tests a minimal viable configuration: default global settings and one
/// host listening on a port.
fn test_config_minimal() {
    let mut configuration = ConfigurationFile::new(Mammoth::new());
    configuration.add_host(Host::new(8080));

    let fs = FsSnapshot::new();
    let probes = ModuleProbeSet::new();
    let validator = ConfigValidator { fs: &fs, probes: &probes };
    let mut events: Vec<Event> = Vec::new();

    validator.validate(&mut events, &configuration).unwrap();
}

#[test]
/// Tests for the `NoModsDir` error when a module is specified without
/// specifying the modules directory.
fn test_config_no_mod_error() {
    let mut configuration = ConfigurationFile::new(Mammoth::new());
    configuration.add_host(Host::new(8080));
    configuration.add_mod(Module::new("mod_test"));

    let fs = FsSnapshot::new();
    let probes = ModuleProbeSet::new();
    let validator = ConfigValidator { fs: &fs, probes: &probes };
    let mut events: Vec<Event> = Vec::new();

    let err = validator.validate(&mut events, &configuration).unwrap_err();

    match err {
        Error::NoModsDir => {},
        _ => {
            panic!("Should be 'NoModsDir' error.");
        },
    }
}

#[test]
/// A configuration without any host fails with the missing-host error.
fn test_config_no_host_error() {
    let configuration = ConfigurationFile::new(Mammoth::new());

    let fs = FsSnapshot::new();
    let probes = ModuleProbeSet::new();
    let validator = ConfigValidator { fs: &fs, probes: &probes };
    let mut events: Vec<Event> = Vec::new();

    let err = validator.validate(&mut events, &configuration).unwrap_err();
    assert!(matches!(err, Error::NoHost));
    assert_eq!(events.len(), 1);
    assert_eq!(events[0].description(), "No host specified.");
}

#[test]
/// Tests the `has_host` and `remove_host` functions.
fn test_hosts() {
    let mut configuration = ConfigurationFile::new(Mammoth::new());
    let mut host_a = Host::new(8080);
    host_a.set_name("localhost");
    let mut host_b = Host::new(8080);
    host_b.set_name("127.0.0.1");
    configuration.add_host(host_a);
    configuration.add_host(host_b);
    configuration.add_host(Host::new(8080));
    configuration.add_host(Host::new(8088));

    assert!(configuration.has_host(HostIdentifier::new(8080, Some("localhost"))));
    assert!(configuration.has_host(HostIdentifier::new(8080, Some("127.0.0.1"))));
    assert!(configuration.has_host(HostIdentifier::new(8080, None)));

    assert!(!configuration.has_host(HostIdentifier::new(8443, Some("localhost"))));
    assert!(!configuration.has_host(HostIdentifier::new(8443, None)));
    assert!(!configuration.has_host(HostIdentifier::new(8080, Some("0.0.0.0"))));

    assert!(configuration.has_host(HostIdentifier::new(8088, None)));
    configuration.remove_host(HostIdentifier::new(8088, None));
    assert!(!configuration.has_host(HostIdentifier::new(8088, None)));
}

#[test]
/// Tests the `has_module` and `remove_mod` functions.
fn test_mods() {
    let mut mammoth = Mammoth::new();
    mammoth.set_mods_dir("./mods/");
    let mut configuration = ConfigurationFile::new(mammoth);
    configuration.add_host(Host::new(8080));
    configuration.add_mod(Module::new("mod_test"));
    configuration.add_mod(Module::new("mod_dummy"));

    assert!(configuration.has_module("mod_test"));
    assert!(!configuration.has_module("mod_nope"));

    assert!(configuration.has_module("mod_dummy"));
    configuration.remove_mod("mod_dummy");
    assert!(!configuration.has_module("mod_dummy"));
}

#[test]
/// Two hosts listening on one port with no hostname are duplicates, and
/// validation fails with the duplicate-item error.
fn test_duplicate_hosts() {
    let mut configuration = ConfigurationFile::new(Mammoth::new());
    configuration.add_host(Host::new(8080));
    configuration.add_host(Host::new(8080));

    let fs = FsSnapshot::new();
    let probes = ModuleProbeSet::new();
    let validator = ConfigValidator { fs: &fs, probes: &probes };
    let mut events: Vec<Event> = Vec::new();

    let err = validator.validate(&mut events, &configuration).unwrap_err();
    assert!(matches!(err, Error::DuplicateItem(_)));
    assert_eq!(events.len(), 1);
    assert_eq!(events[0].severity(), Severity::Critical);
    assert_eq!(events[0].description(), "Unique item declared twice.");
}

#[test]
/// Duplicate module names are found in declared order: the earlier unique
/// modules are validated first, then the repetition fails.
fn test_duplicate_modules_in_order() {
    let mut mammoth = Mammoth::new();
    mammoth.set_mods_dir("./mods/");
    let mut configuration = ConfigurationFile::new(mammoth);
    configuration.add_host(Host::new(8080));
    configuration.add_mod(Module::new("alpha"));
    configuration.add_mod(Module::new("beta"));
    configuration.add_mod(Module::new("alpha"));

    let mut fs = FsSnapshot::new();
    fs.record("./mods/", mammoth_setup::diagnostics::PathStatus::Directory);
    let mut probes = ModuleProbeSet::new();
    probes.record(
        "./mods/alpha.so",
        ModuleProbe { version: Ok(Version::new(0, 0, 1)), validation: Ok(()) },
    );
    probes.record(
        "./mods/beta.so",
        ModuleProbe { version: Ok(Version::new(0, 0, 1)), validation: Ok(()) },
    );

    let validator = ConfigValidator { fs: &fs, probes: &probes };
    let mut events: Vec<Event> = Vec::new();

    let err = validator.validate(&mut events, &configuration).unwrap_err();
    assert!(matches!(err, Error::DuplicateItem(kind) if kind == "module"));
    assert_eq!(events.last().unwrap().description(), "Unique item declared twice.");
}

#[test]
/// Tests module validation against a healthy probe report.
fn test_module_validation() {
    let module = Module::new("mod_test");
    let mut probes = ModuleProbeSet::new();
    probes.record(
        "./target/debug/mod_test.so",
        ModuleProbe { version: Ok(Version::new(0, 0, 1)), validation: Ok(()) },
    );
    let validator = ModuleValidator { mods_dir: Some("./target/debug/"), probes: &probes };
    let mut events: Vec<Event> = Vec::new();

    validator.validate(&mut events, &module).unwrap();
}

#[test]
/// Tests module validation resulting in error: the module's own
/// validation hook rejected its configuration.
fn test_err_module_validation() {
    let module = Module::with_config("mod_test", true, ConfigValue::Text(String::from("test_error")));
    let mut probes = ModuleProbeSet::new();
    probes.record(
        "./target/debug/mod_test.so",
        ModuleProbe { version: Ok(Version::new(0, 0, 1)), validation: Err(Error::Unknown) },
    );
    let validator = ModuleValidator { mods_dir: Some("./target/debug/"), probes: &probes };
    let mut events: Vec<Event> = Vec::new();

    let err = validator.validate(&mut events, &module).unwrap_err();
    assert!(matches!(err, Error::Unknown));
}

#[test]
/// A module whose declared version does not satisfy the compatibility
/// requirement fails with the invalid-version error, carrying both the
/// found version and the requirement.
fn test_incompatible_module_version() {
    let module = Module::new("mod_new");
    let mut probes = ModuleProbeSet::new();
    probes.record(
        "./mods/mod_new.so",
        ModuleProbe { version: Ok(Version::new(1, 2, 3)), validation: Ok(()) },
    );
    let validator = ModuleValidator { mods_dir: Some("./mods/"), probes: &probes };
    let mut events: Vec<Event> = Vec::new();

    let err = validator.validate(&mut events, &module).unwrap_err();
    match err {
        Error::InvalidModuleVersion(found, required) => {
            assert_eq!(found, Version::new(1, 2, 3));
            assert_eq!(required, Requirement { major: 0, minor: 0, patch: 0 });
        },
        _ => panic!("Should be 'InvalidModuleVersion' error."),
    }
    assert_eq!(events.len(), 1);
    assert_eq!(events[0].severity(), Severity::Critical);
    assert_eq!(events[0].description(), "Incompatible module version.");
}

#[test]
/// A disabled module is exempt from library and version checks.
fn test_disabled_module_exempt() {
    let module = Module::new_disabled("mod_gone");
    let probes = ModuleProbeSet::new();
    let validator = ModuleValidator { mods_dir: Some("./mods/"), probes: &probes };
    let mut events: Vec<Event> = Vec::new();

    validator.validate(&mut events, &module).unwrap();
    assert!(events.is_empty());
}

#[test]
/// An enabled module whose library was never found fails with the
/// file-not-found error carrying the resolved path.
fn test_module_library_missing() {
    let module = Module::new("mod_lost");
    let probes = ModuleProbeSet::new();
    let validator = ModuleValidator { mods_dir: Some("./mods/"), probes: &probes };
    let mut events: Vec<Event> = Vec::new();

    let err = validator.validate(&mut events, &module).unwrap_err();
    assert!(matches!(err, Error::FileNotFound(path) if path == "./mods/mod_lost.so"));
}

#[test]
/// Two modules of one host sharing a name are duplicates.
fn test_duplicate_host_modules() {
    let mut host = Host::new(8080);
    host.add_mod(Module::new("twice"));
    host.add_mod(Module::new("twice"));

    let fs = FsSnapshot::new();
    let mut probes = ModuleProbeSet::new();
    probes.record(
        "./mods/twice.so",
        ModuleProbe { version: Ok(Version::new(0, 0, 1)), validation: Ok(()) },
    );
    let validator = HostValidator { mods_dir: Some("./mods/"), fs: &fs, probes: &probes };
    let mut events: Vec<Event> = Vec::new();

    let err = validator.validate(&mut events, &host).unwrap_err();
    assert!(matches!(err, Error::DuplicateItem(kind) if kind == "module"));
}

#[test]
/// A serving directory that does not exist fails host validation.
fn test_missing_serving_dir() {
    let mut host = Host::new(8080);
    host.set_serving_dir("./www/");

    let fs = FsSnapshot::new();
    let probes = ModuleProbeSet::new();
    let validator = HostValidator { mods_dir: None, fs: &fs, probes: &probes };
    let mut events: Vec<Event> = Vec::new();

    let err = validator.validate(&mut events, &host).unwrap_err();
    assert!(matches!(err, Error::FileNotFound(p) if p == "./www/"));
    assert_eq!(events.len(), 1);
    assert_eq!(events[0].description(), "Directory does not exist.");
}

#[test]
/// A secure binding whose certificate file is missing fails host
/// validation with the file-not-found error.
fn test_missing_certificate_file() {
    let host = Host::with_security(443, "./cert.pem", "./key.pem");

    let mut fs = FsSnapshot::new();
    fs.record("./key.pem", mammoth_setup::diagnostics::PathStatus::File);
    let probes = ModuleProbeSet::new();
    let validator = HostValidator { mods_dir: None, fs: &fs, probes: &probes };
    let mut events: Vec<Event> = Vec::new();

    let err = validator.validate(&mut events, &host).unwrap_err();
    assert!(matches!(err, Error::FileNotFound(p) if p == "./cert.pem"));
}

#[test]
/// An identifier built from a host's port and name equals the identifier
/// the host derives, with and without a hostname.
fn test_identifier_round_trip() {
    let mut host = Host::new(80);
    host.set_name("localhost");
    assert_eq!(host.identifier(), HostIdentifier::new(80, Some("localhost")));

    let bare = Host::new(8443);
    assert_eq!(bare.identifier(), HostIdentifier::new(8443, None));
    assert!(bare.is(&HostIdentifier::new(8443, None)));
    assert!(!bare.is(&HostIdentifier::new(8443, Some("localhost"))));
}
