use mammoth_setup::config::mammoth::Mammoth;
use mammoth_setup::diagnostics::FsSnapshot;
use mammoth_setup::diagnostics::Logger;
use mammoth_setup::diagnostics::ObservedPath;
use mammoth_setup::diagnostics::PathStatus;
use mammoth_setup::diagnostics::PathValidator;
use mammoth_setup::diagnostics::PathValidatorKind;
use mammoth_setup::diagnostics::Validator;
use mammoth_setup::error::Error;
use mammoth_setup::error::event::Event;
use mammoth_setup::error::event;
use mammoth_setup::error::severity::Severity;
use mammoth_setup::version::Requirement;
use mammoth_setup::version::Version;

fn observed_sample(path: &str) -> ObservedPath {
    // The statuses a probe of the working directory of the original
    // project would have shown.
    let status = match path {
        "Cargo.toml" => PathStatus::File,
        "tests" | "tests/" => PathStatus::Directory,
        _ => PathStatus::Missing,
    };
    ObservedPath { path: String::from(path), status }
}

#[test]
/// Tests the `PathValidator` of kind `ExistingFile`.
fn test_file_exists_validator() {
    let validator = PathValidator(Severity::Error, PathValidatorKind::ExistingFile);
    let mut events: Vec<Event> = Vec::new();

    assert!(validator.validate(&mut events, &observed_sample("i_do_not_exist.txt")).is_err());
    assert!(validator.validate(&mut events, &observed_sample("i_do_not_exist.txt/")).is_err());
    assert!(validator.validate(&mut events, &observed_sample("Cargo.toml")).is_ok());
    assert!(validator.validate(&mut events, &observed_sample("Cargo.toml/")).is_err());
    assert!(validator.validate(&mut events, &observed_sample("i_do_not_exist/")).is_err());
    assert!(validator.validate(&mut events, &observed_sample("i_do_not_exist")).is_err());
    assert!(validator.validate(&mut events, &observed_sample("tests/")).is_err());
    assert!(validator.validate(&mut events, &observed_sample("tests")).is_err());
}

#[test]
/// Tests the `PathValidator` of kind `ExistingDirectory`.
fn test_dir_exists_validator() {
    let validator = PathValidator(Severity::Error, PathValidatorKind::ExistingDirectory);
    let mut events: Vec<Event> = Vec::new();

    assert!(validator.validate(&mut events, &observed_sample("i_do_not_exist.txt")).is_err());
    assert!(validator.validate(&mut events, &observed_sample("i_do_not_exist.txt/")).is_err());
    assert!(validator.validate(&mut events, &observed_sample("Cargo.toml")).is_err());
    assert!(validator.validate(&mut events, &observed_sample("Cargo.toml/")).is_err());
    assert!(validator.validate(&mut events, &observed_sample("i_do_not_exist/")).is_err());
    assert!(validator.validate(&mut events, &observed_sample("i_do_not_exist")).is_err());
    assert!(validator.validate(&mut events, &observed_sample("tests/")).is_ok());
    assert!(validator.validate(&mut events, &observed_sample("tests")).is_ok());
}

#[test]
/// Tests the `PathValidator` of kind `FilePath`.
fn test_file_path_validator() {
    let validator = PathValidator(Severity::Error, PathValidatorKind::FilePath);
    let mut events: Vec<Event> = Vec::new();

    assert!(validator.validate(&mut events, &observed_sample("i_do_not_exist.txt")).is_ok());
    assert!(validator.validate(&mut events, &observed_sample("i_do_not_exist.txt/")).is_err());
    assert!(validator.validate(&mut events, &observed_sample("Cargo.toml")).is_ok());
    assert!(validator.validate(&mut events, &observed_sample("Cargo.toml/")).is_err());
    assert!(validator.validate(&mut events, &observed_sample("i_do_not_exist/")).is_err());
    assert!(validator.validate(&mut events, &observed_sample("i_do_not_exist")).is_ok());
    assert!(validator.validate(&mut events, &observed_sample("tests/")).is_err());
    assert!(validator.validate(&mut events, &observed_sample("tests")).is_ok());
}

#[test]
/// Validating the same unchanged path twice yields the same result both
/// times.
fn test_path_validation_idempotent() {
    let validator = PathValidator(Severity::Error, PathValidatorKind::ExistingDirectory);
    let mut events: Vec<Event> = Vec::new();

    let first = validator.validate(&mut events, &observed_sample("tests"));
    let second = validator.validate(&mut events, &observed_sample("tests"));
    assert!(first.is_ok() && second.is_ok());

    let first = validator.validate(&mut events, &observed_sample("nowhere"));
    let second = validator.validate(&mut events, &observed_sample("nowhere"));
    assert!(matches!(first, Err(Error::FileNotFound(ref p)) if p == "nowhere"));
    assert!(matches!(second, Err(Error::FileNotFound(ref p)) if p == "nowhere"));
}

#[test]
/// The error a failing path check carries matches its kind.
fn test_path_error_kinds() {
    let mut events: Vec<Event> = Vec::new();

    let missing_dir = PathValidator(Severity::Error, PathValidatorKind::ExistingDirectory)
        .validate(&mut events, &observed_sample("gone"));
    assert!(matches!(missing_dir, Err(Error::FileNotFound(p)) if p == "gone"));

    let missing_file = PathValidator(Severity::Error, PathValidatorKind::ExistingFile)
        .validate(&mut events, &observed_sample("gone"));
    assert!(matches!(missing_file, Err(Error::FileNotFound(p)) if p == "gone"));

    let bad_name = PathValidator(Severity::Error, PathValidatorKind::FilePath)
        .validate(&mut events, &observed_sample("gone/"));
    assert!(matches!(bad_name, Err(Error::InvalidFilePath(p)) if p == "gone/"));
}

#[test]
/// A condition below the fatal threshold is logged but does not abort.
fn test_severity_gating() {
    let validator = PathValidator(Severity::Warning, PathValidatorKind::ExistingFile);
    let mut events: Vec<Event> = Vec::new();

    let checked = validator.validate(&mut events, &observed_sample("gone"));
    assert!(checked.is_ok());
    assert_eq!(events.len(), 1);
    assert_eq!(events[0].severity(), Severity::Warning);
    assert_eq!(events[0].description(), "File does not exist.");
}

#[test]
/// The in-memory collector stores one event per `log` call, in order.
fn test_event_collector() {
    let mut events: Vec<Event> = Vec::new();
    events.log(Severity::Warning, "Test string.");
    events.log(Severity::Error, "Another test string.");

    assert_eq!(events.len(), 2);
    assert_eq!(events[0].severity(), Severity::Warning);
    assert_eq!(events[0].description(), "Test string.");
    assert_eq!(events[1].severity(), Severity::Error);
    assert_eq!(events[1].description(), "Another test string.");
}

#[test]
/// Event constructors stamp the requested severity and description.
fn test_event_constructors() {
    let plain = Event::new(Severity::Information, "plain");
    assert_eq!(plain.severity(), Severity::Information);
    assert_eq!(plain.description(), "plain");
    assert!(plain.error().is_none());

    let carrying = Event::with_error(Severity::Critical, "carrying", Error::NoHost);
    assert_eq!(carrying.severity(), Severity::Critical);
    assert_eq!(carrying.description(), "carrying");
    assert!(matches!(carrying.error(), Some(Error::NoHost)));

    assert_eq!(event::debug("d").severity(), Severity::Debug);
    assert_eq!(event::info("i").severity(), Severity::Information);
    assert_eq!(event::warn("w").severity(), Severity::Warning);
    assert_eq!(event::err("e").severity(), Severity::Error);
    assert_eq!(event::critical("c").severity(), Severity::Critical);
    assert!(matches!(event::warn_error("w", Error::Unknown).error(), Some(Error::Unknown)));
    assert!(matches!(event::debug_error("d", Error::NoHost).error(), Some(Error::NoHost)));
    assert!(matches!(event::info_error("i", Error::NoHost).error(), Some(Error::NoHost)));
    assert!(matches!(event::err_error("e", Error::NoHost).error(), Some(Error::NoHost)));
    assert!(matches!(event::critical_error("c", Error::NoHost).error(), Some(Error::NoHost)));
}

#[test]
/// The filesystem snapshot answers with the first recorded status and
/// treats unknown paths as missing.
fn test_fs_snapshot_lookup() {
    let mut fs = FsSnapshot::new();
    assert_eq!(fs.status("anything"), PathStatus::Missing);

    fs.record("./mods/", PathStatus::Directory);
    fs.record("a.txt", PathStatus::File);
    fs.record("a.txt", PathStatus::Missing);

    assert_eq!(fs.status("./mods/"), PathStatus::Directory);
    assert_eq!(fs.status("a.txt"), PathStatus::File);
    assert_eq!(fs.status("b.txt"), PathStatus::Missing);
}

#[test]
/// The global settings validate against the observed filesystem: the
/// modules directory must exist, the log file path must not be
/// directory-like.
fn test_mammoth_validation() {
    let mut fs = FsSnapshot::new();
    fs.record("./mods/", PathStatus::Directory);

    let mut events: Vec<Event> = Vec::new();

    let mut ok = Mammoth::new();
    ok.set_mods_dir("./mods/");
    ok.set_log_file("mammoth.log");
    assert!(fs.validate(&mut events, &ok).is_ok());

    let mut gone = Mammoth::new();
    gone.set_mods_dir("./absent/");
    let err = fs.validate(&mut events, &gone).unwrap_err();
    assert!(matches!(err, Error::FileNotFound(p) if p == "./absent/"));

    let mut bad_log = Mammoth::new();
    bad_log.set_mods_dir("./mods/");
    bad_log.set_log_file("logs/");
    let err = fs.validate(&mut events, &bad_log).unwrap_err();
    assert!(matches!(err, Error::InvalidFilePath(p) if p == "logs/"));
}

#[test]
/// Each failure renders as the text it is reported with.
fn test_error_messages() {
    assert_eq!(
        Error::DuplicateItem(String::from("host")).message(),
        "Duplicate item: 'host'"
    );
    assert_eq!(
        Error::FileNotFound(String::from("./mods/")).message(),
        "File not found: './mods/'"
    );
    assert_eq!(Error::Generic(String::from("g")).message(), "Generic error: g");
    assert_eq!(
        Error::InvalidDirectory(String::from("./d")).message(),
        "Invalid directory: './d'"
    );
    assert_eq!(Error::InvalidFilePath(String::from("p/")).message(), "Invalid path: 'p/'");
    assert_eq!(
        Error::InvalidHostname(String::from("bad@name")).message(),
        "Invalid hostname: 'bad@name'"
    );
    assert_eq!(
        Error::InvalidModuleVersion(
            Version::new(1, 2, 3),
            Requirement { major: 0, minor: 0, patch: 0 },
        )
        .message(),
        "Invalid module version: 1.2.3; expected: ~0.0.0."
    );
    assert_eq!(Error::Io(String::from("broken pipe")).message(), "I/O error: broken pipe");
    assert_eq!(Error::NoHost.message(), "No host specified; one required.");
    assert_eq!(
        Error::NoModsDir.message(),
        "No directory specified for modules; required if modules are enabled."
    );
    assert_eq!(
        Error::SecureBindOnInsecure.message(),
        "Tried to bind to a secure port without a certificate"
    );
    assert_eq!(Error::Ssl(String::from("handshake")).message(), "SSL error: handshake");
    assert_eq!(Error::Unknown.message(), "Unknown");
}

#[test]
/// Version values render dotted, requirements with a leading tilde.
fn test_version_rendering() {
    assert_eq!(Version::new(0, 0, 1).to_text(), "0.0.1");
    assert_eq!(Version::new(12, 345, 6789).to_text(), "12.345.6789");
    assert_eq!(Requirement { major: 1, minor: 2, patch: 3 }.to_text(), "~1.2.3");
}

#[test]
/// Each failure kind carries its fixed description.
fn test_error_descriptions() {
    assert_eq!(Error::NoHost.description(), "no host");
    assert_eq!(Error::NoModsDir.description(), "no mods_dir");
    assert_eq!(Error::Unknown.description(), "unknown");
    assert_eq!(Error::DuplicateItem(String::from("host")).description(), "duplicate item");
    assert_eq!(Error::FileNotFound(String::from("x")).description(), "file not found");
    assert_eq!(Error::Generic(String::from("g")).description(), "generic error");
    assert_eq!(Error::InvalidDirectory(String::from("d")).description(), "invalid directory");
    assert_eq!(Error::InvalidFilePath(String::from("p")).description(), "invalid file path");
    assert_eq!(Error::InvalidHostname(String::from("h")).description(), "invalid hostname");
    assert_eq!(Error::Io(String::from("io")).description(), "i/o error");
    assert_eq!(Error::Ssl(String::from("s")).description(), "ssl error");
    assert_eq!(
        Error::SecureBindOnInsecure.description(),
        "secure binding without certificate"
    );
}
