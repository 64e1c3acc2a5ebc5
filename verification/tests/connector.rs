use openssl::asn1::Asn1Time;
use openssl::bn::{BigNum, MsbOption};
use openssl::ec::{EcGroup, EcKey};
use openssl::hash::MessageDigest;
use openssl::nid::Nid;
use openssl::pkey::{PKey, Private};
use openssl::x509::extension::SubjectAlternativeName;
use openssl::x509::{X509NameBuilder, X509};

use tls_connector::connector::{
    bundle_from_parsed, configuration_error, has_encryption_header, has_nul, AllDomainConnector, Certificate, ConnectPlan, TlsAnonymousConnector,
    TlsConnector, TlsConnectorBuilder, TlsDomainConnector,
};
use tls_connector::error::Error;

fn make_identity(name: &str) -> (X509, PKey<Private>) {
    let group = EcGroup::from_curve_name(Nid::X9_62_PRIME256V1).unwrap();
    let key = PKey::from_ec_key(EcKey::generate(&group).unwrap()).unwrap();
    let mut subject = X509NameBuilder::new().unwrap();
    subject.append_entry_by_text("CN", name).unwrap();
    let subject = subject.build();
    let mut builder = X509::builder().unwrap();
    builder.set_version(2).unwrap();
    let mut serial = BigNum::new().unwrap();
    serial.rand(64, MsbOption::MAYBE_ZERO, false).unwrap();
    builder.set_serial_number(&serial.to_asn1_integer().unwrap()).unwrap();
    builder.set_subject_name(&subject).unwrap();
    builder.set_issuer_name(&subject).unwrap();
    builder.set_pubkey(&key).unwrap();
    builder.set_not_before(&Asn1Time::days_from_now(0).unwrap()).unwrap();
    builder.set_not_after(&Asn1Time::days_from_now(30).unwrap()).unwrap();
    let alternative = SubjectAlternativeName::new()
        .dns(name)
        .build(&builder.x509v3_context(None, None))
        .unwrap();
    builder.append_extension(alternative).unwrap();
    builder.sign(&key, MessageDigest::sha256()).unwrap();
    (builder.build(), key)
}

fn plain_connector() -> TlsConnector {
    TlsConnector::builder().unwrap().build()
}

fn expect_configuration_error<T>(result: Result<T, Error>) {
    match result {
        Err(Error::Configuration(text)) => assert!(!text.is_empty()),
        Err(other) => panic!("unexpected error: {:?}", other),
        Ok(_) => panic!("expected an error"),
    }
}

#[test]
fn builder_checks_the_peer_name_by_default() {
    let connector = TlsConnector::builder().unwrap().build();
    assert!(connector.verify_hostname);
}

#[test]
fn hostname_verification_can_be_disabled() {
    let connector = TlsConnector::builder()
        .unwrap()
        .with_hostname_vertification_disabled()
        .unwrap()
        .build();
    assert!(!connector.verify_hostname);
}

#[test]
fn disabling_certificate_verification_keeps_the_hostname_setting() {
    let connector = TlsConnector::builder()
        .unwrap()
        .with_certificate_vertification_disabled()
        .unwrap()
        .build();
    assert!(connector.verify_hostname);
    let connector = TlsConnector::builder()
        .unwrap()
        .with_hostname_vertification_disabled()
        .unwrap()
        .with_certificate_vertification_disabled()
        .unwrap()
        .build();
    assert!(!connector.verify_hostname);
}

#[test]
fn from_engine_wraps_what_the_engine_gave() {
    let made = openssl::ssl::SslConnector::builder(openssl::ssl::SslMethod::tls());
    let connector = TlsConnectorBuilder::from_engine(made).unwrap().build();
    assert!(connector.verify_hostname);
}

#[test]
fn accepted_keeps_the_builder_or_gives_the_error() {
    let builder = TlsConnector::builder().unwrap().with_hostname_vertification_disabled().unwrap();
    let kept = builder.accepted(Ok(())).unwrap();
    assert!(!kept.build().verify_hostname);
    let refused = X509::from_pem(b"not a certificate").unwrap_err();
    expect_configuration_error(TlsConnector::builder().unwrap().accepted(Err(refused)));
}

#[test]
fn certificate_is_read_from_pem() {
    let (certificate, _) = make_identity("peer.example");
    let parsed = Certificate::from_pem(&certificate.to_pem().unwrap()).unwrap();
    assert_eq!(parsed.0.to_der().unwrap(), certificate.to_der().unwrap());
}

#[test]
fn text_that_is_no_certificate_is_refused() {
    expect_configuration_error(Certificate::from_pem(b"not a certificate"));
    expect_configuration_error(Certificate::from_pem(b""));
}

#[test]
fn root_certificate_is_added() {
    let (certificate, _) = make_identity("root.example");
    let builder = TlsConnector::builder()
        .unwrap()
        .with_hostname_vertification_disabled()
        .unwrap()
        .add_root_certificate(Certificate(certificate))
        .unwrap();
    assert!(!builder.build().verify_hostname);
}

#[test]
fn ca_file_with_one_certificate_is_loaded() {
    let (certificate, _) = make_identity("root.example");
    let connector = TlsConnector::builder()
        .unwrap()
        .with_ca_from_pem_file(&certificate.to_pem().unwrap())
        .unwrap()
        .build();
    assert!(connector.verify_hostname);
}

#[test]
fn ca_file_with_several_certificates_is_loaded() {
    let (first, _) = make_identity("first.example");
    let (second, _) = make_identity("second.example");
    let mut bundle = first.to_pem().unwrap();
    bundle.extend_from_slice(&second.to_pem().unwrap());
    let connector = TlsConnector::builder()
        .unwrap()
        .with_hostname_vertification_disabled()
        .unwrap()
        .with_ca_from_pem_file(&bundle)
        .unwrap()
        .build();
    assert!(!connector.verify_hostname);
}

#[test]
fn ca_file_without_a_certificate_is_refused() {
    match TlsConnector::builder().unwrap().with_ca_from_pem_file(b"") {
        Err(Error::Configuration(text)) => assert_eq!(text, "no certificate in PEM text"),
        Err(other) => panic!("unexpected error: {:?}", other),
        Ok(_) => panic!("expected an error"),
    }
    expect_configuration_error(
        TlsConnector::builder().unwrap().with_ca_from_pem_file(b"no certificate here"),
    );
}

#[test]
fn ca_file_with_a_damaged_certificate_is_refused() {
    let damaged = b"-----BEGIN CERTIFICATE-----\nAAAA\n-----END CERTIFICATE-----\n";
    expect_configuration_error(TlsConnector::builder().unwrap().with_ca_from_pem_file(damaged));
}

#[test]
fn bundle_must_hold_a_certificate() {
    let (certificate, _) = make_identity("root.example");
    let bundle = bundle_from_parsed(Ok(vec![certificate.clone(), certificate])).unwrap();
    assert_eq!(bundle.len(), 2);
    expect_configuration_error(bundle_from_parsed(Ok(Vec::new())));
    let refused = X509::stack_from_pem(
        b"-----BEGIN CERTIFICATE-----\nAAAA\n-----END CERTIFICATE-----\n",
    )
    .unwrap_err();
    expect_configuration_error(bundle_from_parsed(Err(refused)));
}

#[test]
fn client_certificate_and_key_are_loaded() {
    let (certificate, key) = make_identity("client.example");
    let builder = TlsConnector::builder()
        .unwrap()
        .with_certifiate_and_key_from_pem_files(
            &certificate.to_pem().unwrap(),
            &key.private_key_to_pem_pkcs8().unwrap(),
        )
        .unwrap();
    assert!(builder.build().verify_hostname);
}

#[test]
fn client_certificate_that_cannot_be_read_is_refused() {
    let (certificate, key) = make_identity("client.example");
    expect_configuration_error(
        TlsConnector::builder().unwrap().with_certifiate_and_key_from_pem_files(
            b"not a certificate",
            &key.private_key_to_pem_pkcs8().unwrap(),
        ),
    );
    expect_configuration_error(
        TlsConnector::builder()
            .unwrap()
            .with_certifiate_and_key_from_pem_files(&certificate.to_pem().unwrap(), b"not a key"),
    );
}

#[test]
fn encrypted_key_is_refused_without_asking_for_a_passphrase() {
    let (certificate, key) = make_identity("client.example");
    let encrypted = key
        .private_key_to_pem_pkcs8_passphrase(openssl::symm::Cipher::aes_128_cbc(), b"secret")
        .unwrap();
    expect_configuration_error(
        TlsConnector::builder()
            .unwrap()
            .with_certifiate_and_key_from_pem_files(&certificate.to_pem().unwrap(), &encrypted),
    );
}

#[test]
fn session_is_made_for_a_name() {
    let connector = plain_connector();
    assert!(connector.session("peer.example").is_ok());
    assert!(connector.session("127.0.0.1").is_ok());
    assert!(connector.client_configuration().is_ok());
}

#[test]
fn name_with_nul_is_refused() {
    let connector = plain_connector();
    match connector.session("peer\0.example") {
        Err(Error::Configuration(text)) => assert_eq!(text, "NUL character in the peer's name"),
        Err(other) => panic!("unexpected error: {:?}", other),
        Ok(_) => panic!("expected an error"),
    }
}

#[test]
fn nul_is_found_wherever_it_stands() {
    assert!(!has_nul(""));
    assert!(!has_nul("peer.example"));
    assert!(has_nul("\0"));
    assert!(has_nul("\0peer"));
    assert!(has_nul("peer\0"));
    assert!(has_nul("p\u{e9}\0er"));
    assert!(!has_nul("p\u{e9}er0"));
}

#[test]
fn default_strategy_is_plain() {
    let connector = AllDomainConnector::default();
    assert!(matches!(connector, AllDomainConnector::Tcp(_)));
    assert!(!connector.is_encrypted());
    assert!(matches!(connector.plan("host:9003"), ConnectPlan::Plain));
    assert!(matches!(AllDomainConnector::default_tcp(), AllDomainConnector::Tcp(_)));
}

#[test]
fn domain_strategy_handshakes_under_the_fixed_name() {
    let connector = TlsConnector::builder()
        .unwrap()
        .with_hostname_vertification_disabled()
        .unwrap()
        .build();
    let domain = TlsDomainConnector::new(connector, String::from("peer.example"));
    match domain.plan("10.0.0.1:9003") {
        ConnectPlan::Tls { connector, server_name } => {
            assert_eq!(server_name, "peer.example");
            assert!(!connector.verify_hostname);
        }
        ConnectPlan::Plain => panic!("expected a TLS plan"),
    }
    let all = AllDomainConnector::new_tls_domain(domain);
    assert!(all.is_encrypted());
    match all.plan("10.0.0.1:9003") {
        ConnectPlan::Tls { connector, server_name } => {
            assert_eq!(server_name, "peer.example");
            assert!(!connector.verify_hostname);
        }
        ConnectPlan::Plain => panic!("expected a TLS plan"),
    }
}

#[test]
fn anonymous_strategy_handshakes_under_the_address() {
    let anonymous = TlsAnonymousConnector::from(plain_connector());
    match anonymous.plan("peer.example:9003") {
        ConnectPlan::Tls { connector, server_name } => {
            assert_eq!(server_name, "peer.example:9003");
            assert!(connector.verify_hostname);
        }
        ConnectPlan::Plain => panic!("expected a TLS plan"),
    }
    let all = AllDomainConnector::new_tls_anonymous(anonymous);
    assert!(all.is_encrypted());
    match all.plan("other.example:1") {
        ConnectPlan::Tls { server_name, .. } => assert_eq!(server_name, "other.example:1"),
        ConnectPlan::Plain => panic!("expected a TLS plan"),
    }
}

#[test]
fn connectors_can_be_cloned() {
    let all = AllDomainConnector::new_tls_domain(TlsDomainConnector::new(
        plain_connector(),
        String::from("peer.example"),
    ));
    let copy = all.clone();
    match copy.plan("addr") {
        ConnectPlan::Tls { server_name, .. } => assert_eq!(server_name, "peer.example"),
        ConnectPlan::Plain => panic!("expected a TLS plan"),
    }
}

#[test]
fn configuration_error_carries_the_engines_text() {
    let refused = X509::from_pem(b"not a certificate").unwrap_err();
    let expected = refused.to_string();
    assert!(expected.starts_with("error:"));
    match configuration_error(refused) {
        Error::Configuration(text) => assert_eq!(text, expected),
        other => panic!("unexpected error: {:?}", other),
    }
}

#[test]
fn configuration_error_of_an_empty_stack_is_the_fixed_phrase() {
    let _ = openssl::error::ErrorStack::get();
    let empty = openssl::error::ErrorStack::get();
    assert!(empty.errors().is_empty());
    match configuration_error(empty) {
        Error::Configuration(text) => assert_eq!(text, "OpenSSL error"),
        other => panic!("unexpected error: {:?}", other),
    }
}

#[test]
fn configuration_error_joins_several_errors() {
    let first = X509::from_pem(b"not a certificate").unwrap_err();
    let second = PKey::private_key_from_pem(b"not a key").unwrap_err();
    first.put();
    second.put();
    let both = openssl::error::ErrorStack::get();
    assert!(both.errors().len() >= 2);
    let texts: Vec<String> = both.errors().iter().map(|error| error.to_string()).collect();
    let expected = texts.join(", ");
    match configuration_error(both) {
        Error::Configuration(text) => assert_eq!(text, expected),
        other => panic!("unexpected error: {:?}", other),
    }
}

#[test]
fn refusals_are_reported_with_the_engines_text() {
    let refused = X509::from_pem(b"not a certificate").unwrap_err();
    let expected = refused.to_string();
    match TlsConnector::builder().unwrap().accepted(Err(refused.clone())) {
        Err(Error::Configuration(text)) => assert_eq!(text, expected),
        Err(other) => panic!("unexpected error: {:?}", other),
        Ok(_) => panic!("expected an error"),
    }
    match TlsConnectorBuilder::from_engine(Err(refused.clone())) {
        Err(Error::Configuration(text)) => assert_eq!(text, expected),
        Err(other) => panic!("unexpected error: {:?}", other),
        Ok(_) => panic!("expected an error"),
    }
    match plain_connector().configuration_from_engine(Err(refused.clone())) {
        Err(Error::Configuration(text)) => assert_eq!(text, expected),
        Err(other) => panic!("unexpected error: {:?}", other),
        Ok(_) => panic!("expected an error"),
    }
    match TlsConnector::session_from_engine(Err(refused.clone())) {
        Err(Error::Configuration(text)) => assert_eq!(text, expected),
        Err(other) => panic!("unexpected error: {:?}", other),
        Ok(_) => panic!("expected an error"),
    }
    match Certificate::from_parsed(Err(refused)) {
        Err(Error::Configuration(text)) => assert_eq!(text, expected),
        Err(other) => panic!("unexpected error: {:?}", other),
        Ok(_) => panic!("expected an error"),
    }
}

#[test]
fn configuration_from_engine_keeps_what_the_engine_made() {
    let connector = plain_connector();
    let made = connector.inner.configure();
    assert!(connector.configuration_from_engine(made).is_ok());
}

const WITH_HEADER: &[u8] = b"-----BEGIN CERTIFICATE-----\nProc-Type: 4,ENCRYPTED\nDEK-Info: AES-128-CBC,00000000000000000000000000000000\n\nAAAA\n-----END CERTIFICATE-----\n";

fn expect_text<T>(result: Result<T, Error>, expected: &str) {
    match result {
        Err(Error::Configuration(text)) => assert_eq!(text, expected),
        Err(other) => panic!("unexpected error: {:?}", other),
        Ok(_) => panic!("expected an error"),
    }
}

#[test]
fn encryption_header_is_found_wherever_it_stands() {
    assert!(!has_encryption_header(b""));
    assert!(!has_encryption_header(b"Proc-Type"));
    assert!(has_encryption_header(b"Proc-Type:"));
    assert!(has_encryption_header(b"xProc-Type:"));
    assert!(has_encryption_header(b"Proc-Type:x"));
    assert!(has_encryption_header(WITH_HEADER));
    assert!(!has_encryption_header(b"Proc-Typ:e Proc_Type: proc-type: Proc-Type :"));
    assert!(!has_encryption_header(b"Proc-TypeProc-Type"));
    let (certificate, _) = make_identity("peer.example");
    assert!(!has_encryption_header(&certificate.to_pem().unwrap()));
}

#[test]
fn certificate_text_with_an_encryption_header_is_refused() {
    expect_text(Certificate::from_pem(WITH_HEADER), "PEM text has an encryption header");
    expect_text(
        TlsConnector::builder().unwrap().with_ca_from_pem_file(WITH_HEADER),
        "PEM text has an encryption header",
    );
    expect_text(
        TlsConnector::builder().unwrap().with_certificate_from_pem(WITH_HEADER),
        "PEM text has an encryption header",
    );
    let (_, key) = make_identity("client.example");
    expect_text(
        TlsConnector::builder().unwrap().with_certifiate_and_key_from_pem_files(
            WITH_HEADER,
            &key.private_key_to_pem_pkcs8().unwrap(),
        ),
        "PEM text has an encryption header",
    );
}

#[test]
fn certificate_is_looked_at_before_the_key() {
    let certificate_refused = X509::from_pem(b"not a certificate").unwrap_err().to_string();
    let key_refused =
        PKey::private_key_from_pem_passphrase(b"not a key", b"").unwrap_err().to_string();
    assert_ne!(certificate_refused, key_refused);
    expect_text(
        TlsConnector::builder()
            .unwrap()
            .with_certifiate_and_key_from_pem_files(b"not a certificate", b"not a key"),
        &certificate_refused,
    );
    let (certificate, _) = make_identity("client.example");
    expect_text(
        TlsConnector::builder()
            .unwrap()
            .with_certifiate_and_key_from_pem_files(&certificate.to_pem().unwrap(), b"not a key"),
        &key_refused,
    );
}

#[test]
fn certificate_and_key_can_be_set_one_after_the_other() {
    let (certificate, key) = make_identity("client.example");
    let builder = TlsConnector::builder()
        .unwrap()
        .with_hostname_vertification_disabled()
        .unwrap()
        .with_certificate_from_pem(&certificate.to_pem().unwrap())
        .unwrap()
        .with_private_key_from_pem(&key.private_key_to_pem_pkcs8().unwrap())
        .unwrap();
    assert!(!builder.build().verify_hostname);
    let refused =
        PKey::private_key_from_pem_passphrase(b"not a key", b"").unwrap_err().to_string();
    expect_text(TlsConnector::builder().unwrap().with_private_key_from_pem(b"not a key"), &refused);
}

#[test]
fn certificate_that_cannot_be_read_is_reported_with_the_engines_text() {
    let refused = X509::from_pem(b"not a certificate").unwrap_err().to_string();
    expect_text(Certificate::from_pem(b"not a certificate"), &refused);
    expect_text(
        TlsConnector::builder().unwrap().with_certificate_from_pem(b"not a certificate"),
        &refused,
    );
}

#[test]
fn session_with_passes_on_the_engines_refusal_first() {
    let connector = plain_connector();
    let refused = X509::from_pem(b"not a certificate").unwrap_err();
    let expected = refused.to_string();
    expect_text(connector.session_with(Err(refused.clone()), "peer.example"), &expected);
    expect_text(connector.session_with(Err(refused), "peer\0.example"), &expected);
}

#[test]
fn session_with_refuses_a_name_with_nul() {
    let connector = plain_connector();
    let made = connector.inner.configure();
    expect_text(connector.session_with(made, "peer\0.example"), "NUL character in the peer's name");
}

#[test]
fn session_with_makes_the_session_for_the_name() {
    let connector = plain_connector();
    let made = connector.inner.configure();
    let session = connector.session_with(made, "peer.example").unwrap();
    assert_eq!(
        session.servername(openssl::ssl::NameType::HOST_NAME),
        Some("peer.example")
    );
    let session = connector.session("other.example").unwrap();
    assert_eq!(
        session.servername(openssl::ssl::NameType::HOST_NAME),
        Some("other.example")
    );
}

#[test]
fn errors_left_in_the_queue_are_part_of_the_account_and_change_no_verdict() {
    let fresh = X509::from_pem(b"not a certificate").unwrap_err().to_string();
    let stale = PKey::private_key_from_pem_passphrase(b"not a key", b"").unwrap_err();
    stale.put();
    match Certificate::from_pem(b"not a certificate") {
        Err(Error::Configuration(text)) => {
            assert_ne!(text, fresh);
            assert!(text.contains(", "));
        }
        Err(other) => panic!("unexpected error: {:?}", other),
        Ok(_) => panic!("expected an error"),
    }
    let (certificate, _) = make_identity("peer.example");
    stale.put();
    let parsed = Certificate::from_pem(&certificate.to_pem().unwrap()).unwrap();
    assert_eq!(parsed.0.to_der().unwrap(), certificate.to_der().unwrap());
    let _ = openssl::error::ErrorStack::get();
}

#[test]
fn builder_wraps_what_the_engine_gives() {
    let builder = TlsConnector::builder().unwrap();
    let connector = builder.build();
    assert!(connector.verify_hostname);
    assert!(connector.session("peer.example").is_ok());
}
