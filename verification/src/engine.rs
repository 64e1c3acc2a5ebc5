//! The calls into the OpenSSL bindings that the connector is built on.
//!
//! Nothing in this file is proved. Each type is opaque to the verifier. Each
//! function that calls the bindings has its contract on trust from their
//! source; where what a call makes follows from its arguments alone, the
//! contract gives that a name, so that callers can say what they handed to
//! the engine and what they did with its answer.
//!
//! A call that fails returns the errors that OpenSSL had queued on the
//! thread, which may hold what earlier calls left there. So the names say
//! whether a call succeeds and what it then gives, and nothing of the errors
//! of a failure.

use vstd::prelude::*;
use openssl::error::ErrorStack;
use openssl::pkey::{PKey, Private};
use openssl::ssl::{
    ConnectConfiguration, Ssl, SslConnector, SslConnectorBuilder, SslMethod, SslVerifyMode,
};
use openssl::x509::X509;

verus! {

/// `openssl::ssl::SslConnector`: a finished client-side TLS configuration.
#[verifier::external_type_specification]
#[verifier::external_body]
pub struct ExSslConnector(SslConnector);

/// `openssl::ssl::SslConnectorBuilder`: a client-side TLS configuration that
/// can still be changed.
#[verifier::external_type_specification]
#[verifier::external_body]
pub struct ExSslConnectorBuilder(SslConnectorBuilder);

/// `openssl::ssl::ConnectConfiguration`: the configuration of one session
/// that has not connected yet.
#[verifier::external_type_specification]
#[verifier::external_body]
pub struct ExConnectConfiguration(ConnectConfiguration);

/// `openssl::ssl::Ssl`: the state of one session that has not connected yet.
#[verifier::external_type_specification]
#[verifier::external_body]
pub struct ExSsl(Ssl);

/// `openssl::error::ErrorStack`: the errors that OpenSSL queued for a failed call.
#[verifier::external_type_specification]
#[verifier::external_body]
pub struct ExErrorStack(ErrorStack);

/// `openssl::x509::X509`: a parsed certificate.
#[verifier::external_type_specification]
#[verifier::external_body]
pub struct ExX509(X509);

/// `openssl::pkey::PKey`: a parsed key.
#[verifier::external_type_specification]
#[verifier::external_body]
#[verifier::reject_recursive_types(T)]
pub struct ExPKey<T>(PKey<T>);

/// `openssl::pkey::Private`: the marker of a key that has its private part.
#[verifier::external_type_specification]
#[verifier::external_body]
pub struct ExPrivate(Private);

/// `SslConnector`'s `Clone`: another handle to the same configuration.
/// Nothing is claimed of the result.
pub assume_specification[ <SslConnector as Clone>::clone ](connector: &SslConnector) -> (r:
    SslConnector);

/// The longest input that the bindings' PEM readers take: they stop the
/// process on a longer one.
pub const MAX_PEM_LEN: usize = 0x7fff_ffff;

/// `SslConnector::builder` with `SslMethod::tls()`: a builder with the
/// bindings' defaults for a client. Whether it succeeds is up to OpenSSL and
/// the machine's trust store; nothing is claimed of the result.
#[verifier::external_body]
pub(crate) fn new_connector_builder() -> (r: Result<SslConnectorBuilder, ErrorStack>) {
    SslConnector::builder(SslMethod::tls())
}

/// The builder as `SslContextBuilder::set_verify` with `SslVerifyMode::NONE`
/// leaves it: the handshake goes on whatever the check of the peer's
/// certificate finds.
pub uninterp spec fn peer_verification_off(builder: SslConnectorBuilder) -> SslConnectorBuilder;

/// `SslContextBuilder::set_verify` with `SslVerifyMode::NONE`, on the context
/// inside the builder.
#[verifier::external_body]
pub(crate) fn disable_peer_verification(builder: &mut SslConnectorBuilder)
    ensures
        *final(builder) == peer_verification_off(*old(builder)),
{
    builder.set_verify(SslVerifyMode::NONE);
}

/// The bytes `Proc-Type:`, with which the encryption header of a PEM block begins.
pub open spec fn proc_type_marker() -> Seq<u8> {
    seq![80u8, 114u8, 111u8, 99u8, 45u8, 84u8, 121u8, 112u8, 101u8, 58u8]
}

/// Whether the bytes `Proc-Type:` stand in the text at the given place.
pub open spec fn proc_type_at(pem: Seq<u8>, at: int) -> bool {
    0 <= at && at + 10 <= pem.len() && pem.subrange(at, at + 10) == proc_type_marker()
}

/// Whether the bytes `Proc-Type:` stand anywhere in the text. A PEM block
/// can only be encrypted if they do.
pub open spec fn has_proc_type(pem: Seq<u8>) -> bool {
    exists|at: int| proc_type_at(pem, at)
}

/// The certificate that `X509::from_pem` reads in PEM text, if it reads one.
pub uninterp spec fn certificate_read(pem: Seq<u8>) -> Option<X509>;

/// `X509::from_pem`: the first certificate in PEM text. The bindings stop the
/// process on an input longer than `MAX_PEM_LEN`, and OpenSSL asks for a
/// passphrase on the terminal when it meets an encrypted block, which no text
/// without `Proc-Type:` can hold: both are ruled out.
#[verifier::external_body]
pub(crate) fn certificate_from_pem(pem: &[u8]) -> (r: Result<X509, ErrorStack>)
    requires
        pem@.len() <= MAX_PEM_LEN,
        !has_proc_type(pem@),
    ensures
        match r {
            Ok(certificate) => certificate_read(pem@) == Some(certificate),
            Err(_) => certificate_read(pem@) is None,
        },
{
    X509::from_pem(pem)
}

/// The certificates that `X509::stack_from_pem` reads in PEM text, in order,
/// if it can read them all.
pub uninterp spec fn certificates_read(pem: Seq<u8>) -> Option<Seq<X509>>;

/// `X509::stack_from_pem`: all certificates in PEM text, in order; an error
/// if one of them cannot be read. The same inputs are ruled out as for
/// `certificate_from_pem`.
#[verifier::external_body]
pub(crate) fn certificates_from_pem(pem: &[u8]) -> (r: Result<Vec<X509>, ErrorStack>)
    requires
        pem@.len() <= MAX_PEM_LEN,
        !has_proc_type(pem@),
    ensures
        match r {
            Ok(certificates) => certificates_read(pem@) == Some(certificates@),
            Err(_) => certificates_read(pem@) is None,
        },
{
    X509::stack_from_pem(pem)
}

/// The private key that `PKey::private_key_from_pem_passphrase` reads in PEM
/// text with an empty passphrase, if it reads one.
pub uninterp spec fn private_key_read(pem: Seq<u8>) -> Option<PKey<Private>>;

/// `PKey::private_key_from_pem_passphrase` with an empty passphrase: the
/// private key in PEM text. With a passphrase given, OpenSSL never asks for
/// one on the terminal. Inputs longer than `MAX_PEM_LEN` are ruled out as for
/// `certificate_from_pem`.
#[verifier::external_body]
pub(crate) fn private_key_from_pem(pem: &[u8]) -> (r: Result<PKey<Private>, ErrorStack>)
    requires
        pem@.len() <= MAX_PEM_LEN,
    ensures
        match r {
            Ok(key) => private_key_read(pem@) == Some(key),
            Err(_) => private_key_read(pem@) is None,
        },
{
    PKey::private_key_from_pem_passphrase(pem, b"")
}

/// What `SslContextBuilder::set_certificate` does on the context inside the
/// builder: the builder as the call leaves it, and whether the call succeeds.
pub uninterp spec fn certificate_set(builder: SslConnectorBuilder, certificate: X509) -> (
    SslConnectorBuilder,
    bool,
);

/// `SslContextBuilder::set_certificate`, on the context inside the builder:
/// makes the certificate the one that the client presents.
#[verifier::external_body]
pub(crate) fn use_certificate(builder: &mut SslConnectorBuilder, certificate: &X509) -> (r: Result<
    (),
    ErrorStack,
>)
    ensures
        *final(builder) == certificate_set(*old(builder), *certificate).0,
        r is Ok == certificate_set(*old(builder), *certificate).1,
{
    builder.set_certificate(certificate)
}

/// What `SslContextBuilder::set_private_key` does on the context inside the
/// builder: the builder as the call leaves it, and whether the call succeeds.
pub uninterp spec fn private_key_set(builder: SslConnectorBuilder, key: PKey<Private>) -> (
    SslConnectorBuilder,
    bool,
);

/// `SslContextBuilder::set_private_key`, on the context inside the builder:
/// makes the key the one that goes with the client's certificate.
#[verifier::external_body]
pub(crate) fn use_private_key(builder: &mut SslConnectorBuilder, key: &PKey<Private>) -> (r: Result<
    (),
    ErrorStack,
>)
    ensures
        *final(builder) == private_key_set(*old(builder), *key).0,
        r is Ok == private_key_set(*old(builder), *key).1,
{
    builder.set_private_key(key)
}

/// What `X509StoreBuilderRef::add_cert` does on the store of the context
/// inside the builder: the builder as the call leaves it, and whether the
/// call succeeds.
pub uninterp spec fn root_added(builder: SslConnectorBuilder, certificate: X509) -> (
    SslConnectorBuilder,
    bool,
);

/// `X509StoreBuilderRef::add_cert`, on the store that
/// `SslContextBuilder::cert_store_mut` gives for the context inside the
/// builder: adds the certificate to the trusted roots.
#[verifier::external_body]
pub(crate) fn trust_certificate(builder: &mut SslConnectorBuilder, certificate: &X509) -> (r: Result<
    (),
    ErrorStack,
>)
    ensures
        *final(builder) == root_added(*old(builder), *certificate).0,
        r is Ok == root_added(*old(builder), *certificate).1,
{
    builder.cert_store_mut().add_cert(certificate.to_owned())
}

/// What `SslConnectorBuilder::build` makes of a builder.
pub uninterp spec fn connector_built(builder: SslConnectorBuilder) -> SslConnector;

/// `SslConnectorBuilder::build`: the finished configuration.
#[verifier::external_body]
pub(crate) fn finish_connector(builder: SslConnectorBuilder) -> (r: SslConnector)
    ensures
        r == connector_built(builder),
{
    builder.build()
}

/// `SslConnector::configure`: the configuration of one new session. Whether
/// it succeeds is up to OpenSSL; nothing is claimed of the result.
#[verifier::external_body]
pub(crate) fn new_session_configuration(connector: &SslConnector) -> (r: Result<
    ConnectConfiguration,
    ErrorStack,
>) {
    connector.configure()
}

/// What `ConnectConfiguration::verify_hostname` makes of a configuration:
/// the same, with the check of the peer's name against its certificate
/// switched on or off.
pub uninterp spec fn hostname_check_set(
    configuration: ConnectConfiguration,
    check: bool,
) -> ConnectConfiguration;

/// `ConnectConfiguration::verify_hostname`.
#[verifier::external_body]
pub(crate) fn with_hostname_check(configuration: ConnectConfiguration, check: bool) -> (r:
    ConnectConfiguration)
    ensures
        r == hostname_check_set(configuration, check),
{
    configuration.verify_hostname(check)
}

/// What `ConnectConfiguration::into_ssl` makes of a configuration and the
/// peer's name, if it succeeds: the session state for a connection to the
/// peer of that name, which is the name sent to the peer and checked against
/// its certificate.
pub uninterp spec fn session_made(configuration: ConnectConfiguration, domain: Seq<char>) -> Option<
    Ssl,
>;

/// `ConnectConfiguration::into_ssl`. The bindings stop the process on a name
/// with a NUL character in it, so that is ruled out.
#[verifier::external_body]
pub(crate) fn session_for_domain(configuration: ConnectConfiguration, domain: &str) -> (r: Result<
    Ssl,
    ErrorStack,
>)
    requires
        !domain@.contains('\0'),
    ensures
        match r {
            Ok(session) => session_made(configuration, domain@) == Some(session),
            Err(_) => session_made(configuration, domain@) is None,
        },
{
    configuration.into_ssl(domain)
}

/// The errors that an `ErrorStack` holds, in the order in which it holds
/// them, each as the text that `openssl::error::Error`'s `Display` writes for it.
pub uninterp spec fn queued_errors(errors: ErrorStack) -> Seq<Seq<char>>;

/// The texts, in order, with ", " between one and the next.
pub open spec fn joined(texts: Seq<Seq<char>>) -> Seq<char>
    decreases texts.len(),
{
    if texts.len() == 0 {
        Seq::empty()
    } else if texts.len() == 1 {
        texts[0]
    } else {
        joined(texts.drop_last()) + ", "@ + texts.last()
    }
}

/// What `ErrorStack`'s `Display` writes for a stack that holds the errors
/// with these texts: a fixed phrase for an empty stack, and otherwise the
/// texts joined.
pub open spec fn rendered(texts: Seq<Seq<char>>) -> Seq<char> {
    if texts.len() == 0 {
        "OpenSSL error"@
    } else {
        joined(texts)
    }
}

/// `ErrorStack`'s `Display`, through `to_string`: the text of the queued
/// errors, as `rendered` puts it together from the text of each.
#[verifier::external_body]
pub(crate) fn error_text(errors: &ErrorStack) -> (r: String)
    ensures
        r@ == rendered(queued_errors(*errors)),
{
    errors.to_string()
}

} // verus!
