use mammoth_setup::config::port::Binding;
use mammoth_setup::config::port::BindingFieldError;

#[test]
/// Tests parameters handling.
fn test_parameters() {
    let mut param = Binding::new(80);

    param.set_port(8080);

    assert_eq!(param.port(), 8080);
    assert_eq!(param.secure(), false);
    assert!(param.cert().is_none());
    assert!(param.key().is_none());

    param.set_security("./cert.pem", "./key.pem");

    assert_eq!(param.port(), 8080);
    assert_eq!(param.secure(), true);
    assert_eq!(param.cert().unwrap(), "./cert.pem");
    assert_eq!(param.key().unwrap(), "./key.pem");

    param.set_port(8443);

    assert_eq!(param.port(), 8443);
    assert_eq!(param.secure(), true);
    assert_eq!(param.cert().unwrap(), "./cert.pem");
    assert_eq!(param.key().unwrap(), "./key.pem");

    param.clear_security();

    assert_eq!(param.port(), 8443);
    assert_eq!(param.secure(), false);
    assert!(param.cert().is_none());
    assert!(param.key().is_none());
}

#[test]
/// Tests `Binding` creation.
fn test_creation() {
    let param = Binding::new(80);

    assert_eq!(param.port(), 80);
    assert_eq!(param.secure(), false);
    assert!(param.cert().is_none());
    assert!(param.key().is_none());

    let param_sec = Binding::with_security(443, "./cert.pem", "./key.pem");

    assert_eq!(param_sec.port(), 443);
    assert_eq!(param_sec.secure(), true);
    assert_eq!(param_sec.cert().unwrap(), "./cert.pem");
    assert_eq!(param_sec.key().unwrap(), "./key.pem");
}

#[test]
/// Tests the `From<u16>` trait implementation.
fn test_from() {
    assert_eq!(Binding::from(80), Binding::new(80));
}

#[test]
/// Tests assembling a binding from a bare port number.
fn test_deserialize_u16() {
    let param = Binding::from_fields(Some(80), None, None, None).unwrap();
    let test = Binding::new(80);

    assert_eq!(param, test);
}

#[test]
/// Tests assembling a binding from a full set of fields.
fn test_deserialize_map() {
    let param = Binding::from_fields(
        Some(443),
        Some(true),
        Some(String::from("./cert.pem")),
        Some(String::from("./key.pem")),
    )
    .unwrap();
    let test = Binding::with_security(443, "./cert.pem", "./key.pem");

    assert_eq!(param, test);
}

#[test]
/// Tests assembling a binding from fields holding only the port number.
fn test_deserialize_map_autodetect_secure_false() {
    let param = Binding::from_fields(Some(80), None, None, None).unwrap();
    let test = Binding::new(80);

    assert_eq!(param, test);
}

#[test]
/// Tests assembling a binding from fields holding the certificate and key
/// paths but no explicit `secure` flag.
fn test_deserialize_map_autodetect_secure_true() {
    let param = Binding::from_fields(
        Some(443),
        None,
        Some(String::from("./cert.pem")),
        Some(String::from("./key.pem")),
    )
    .unwrap();
    let test = Binding::with_security(443, "./cert.pem", "./key.pem");

    assert_eq!(param, test);
}

#[test]
/// Tests assembling a binding from fields holding the certificate and key
/// paths with the `secure` flag explicitly `false`.
fn test_deserialize_map_force_secure_false() {
    let param = Binding::from_fields(
        Some(443),
        Some(false),
        Some(String::from("./cert.pem")),
        Some(String::from("./key.pem")),
    )
    .unwrap();
    let test = Binding::new(443);

    assert_eq!(param, test);
}

#[test]
/// Tests assembling errors, i.e. when some field is missing.
fn test_deserialize_map_error() {
    let missing_cert =
        Binding::from_fields(Some(443), None, None, Some(String::from("./key.pem")));
    assert_eq!(missing_cert.unwrap_err(), BindingFieldError::MissingCert);

    let missing_key =
        Binding::from_fields(Some(443), None, Some(String::from("./cert.pem")), None);
    assert_eq!(missing_key.unwrap_err(), BindingFieldError::MissingKey);

    let missing_material = Binding::from_fields(Some(443), Some(true), None, None);
    assert_eq!(missing_material.unwrap_err(), BindingFieldError::MissingCert);

    let missing_port = Binding::from_fields(None, None, None, None);
    assert_eq!(missing_port.unwrap_err(), BindingFieldError::MissingPort);
}

#[test]
/// Tests binding string creation.
fn test_to_addr_string() {
    let param = Binding::new(80);
    let param_sec = Binding::with_security(443, "./cert.pem", "./key.pem");

    assert_eq!(param.to_addr_string(), "0.0.0.0:80");
    assert_eq!(param_sec.to_addr_string(), "0.0.0.0:443");
}

#[test]
/// Address strings for the edges of the port range.
fn test_to_addr_string_edges() {
    assert_eq!(Binding::new(0).to_addr_string(), "0.0.0.0:0");
    assert_eq!(Binding::new(7).to_addr_string(), "0.0.0.0:7");
    assert_eq!(Binding::new(65535).to_addr_string(), "0.0.0.0:65535");
}

#[test]
/// A structurally complete binding validates; security is only ever set
/// together with its certificate material.
fn test_binding_validate() {
    assert!(Binding::new(80).validate().is_ok());
    assert!(Binding::with_security(443, "./cert.pem", "./key.pem").validate().is_ok());
    let mut param = Binding::with_security(443, "./cert.pem", "./key.pem");
    param.clear_security();
    assert!(param.validate().is_ok());
}
