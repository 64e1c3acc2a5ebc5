//! The connectors: the configuration with which a transport is wrapped in a
//! TLS session, and the choice between a plain and an encrypted connection.

use vstd::prelude::*;
use openssl::error::ErrorStack;
use openssl::ssl::{ConnectConfiguration, Ssl, SslConnector, SslConnectorBuilder};
use openssl::x509::X509;
use crate::engine::{
    certificate_from_pem, certificate_read, certificate_set, certificates_from_pem,
    certificates_read, connector_built, disable_peer_verification, error_text, finish_connector,
    has_proc_type, hostname_check_set, new_connector_builder, new_session_configuration,
    peer_verification_off, private_key_from_pem, private_key_read, private_key_set,
    proc_type_at, proc_type_marker, queued_errors, rendered, root_added, session_for_domain,
    session_made, trust_certificate, use_certificate, use_private_key, with_hostname_check,
    MAX_PEM_LEN,
};
use crate::error::Error;

verus! {

/// A certificate, as the engine holds it once parsed.
pub struct Certificate(pub X509);

/// A client-side TLS configuration, ready to wrap transports.
#[derive(Clone, Debug)]
pub struct TlsConnector {
    pub inner: SslConnector,
    pub verify_hostname: bool,
}

/// A client-side TLS configuration under construction.
pub struct TlsConnectorBuilder {
    inner: SslConnectorBuilder,
    verify_hostname: bool,
}

/// Connects with TLS, taking the address that is dialled for the peer's name.
#[derive(Clone)]
pub struct TlsAnonymousConnector(TlsConnector);

/// Connects with TLS to a peer that is known by a fixed name, whatever
/// address is dialled.
#[derive(Clone)]
pub struct TlsDomainConnector {
    domain: String,
    connector: TlsConnector,
}

/// Connects without encryption.
#[derive(Clone, Copy, Debug)]
pub struct DefaultTcpDomainConnector;

/// The connection strategies, chosen by configuration.
#[derive(Clone)]
pub enum AllDomainConnector {
    Tcp(DefaultTcpDomainConnector),
    TlsDomain(TlsDomainConnector),
    TlsAnonymous(TlsAnonymousConnector),
}

/// How to connect to an address: what to do with the transport once it is open.
pub enum ConnectPlan<'a> {
    /// Use the transport as it is.
    Plain,
    /// Run a TLS handshake over the transport with `connector`, as a client
    /// of the peer called `server_name`.
    Tls { connector: &'a TlsConnector, server_name: &'a str },
}

/// The engine's own account of `errors`, as text.
pub open spec fn engine_text(errors: ErrorStack) -> Seq<char> {
    rendered(queued_errors(errors))
}

/// Whether `error` is the configuration error with this text.
pub open spec fn refused_with(error: Error, text: Seq<char>) -> bool {
    error matches Error::Configuration(given) && given@ == text
}

/// Whether `error` is the configuration error that carries the engine's
/// account of `errors`.
pub open spec fn reports(error: Error, errors: ErrorStack) -> bool {
    refused_with(error, engine_text(errors))
}

/// Why a configuration is refused.
pub enum Refusal {
    /// For the reason that the text gives.
    Because(Seq<char>),
    /// By the engine, for reasons of its own. Its account is the errors
    /// that it had queued, which is more than verified code can foretell.
    ByEngine,
}

/// Whether `error` is the configuration error for this refusal: the one
/// with the text, or one that carries the engine's account of some errors.
pub open spec fn refused(error: Error, refusal: Refusal) -> bool {
    match refusal {
        Refusal::Because(text) => refused_with(error, text),
        Refusal::ByEngine => exists|errors: ErrorStack| reports(error, errors),
    }
}

/// Whether `r` is what `expected` asks for: the value, or else the
/// configuration error for the refusal.
pub open spec fn gives<T>(r: Result<T, Error>, expected: Result<T, Refusal>) -> bool {
    match expected {
        Ok(value) => r == Ok::<T, Error>(value),
        Err(refusal) => r matches Err(error) && refused(error, refusal),
    }
}

/// The error for a change that the engine refused: a configuration error
/// whose text is the engine's own account of `errors`.
pub fn configuration_error(errors: ErrorStack) -> (r: Error)
    ensures
        reports(r, errors),
{
    Error::Configuration(error_text(&errors))
}

/// Whether PEM text of this length can be handed to the engine.
pub open spec fn pem_fits(len: nat) -> bool {
    len <= MAX_PEM_LEN
}

/// The text of the error for PEM text that is too long for the engine.
pub open spec fn too_long_text() -> Seq<char> {
    "PEM text is too long"@
}

/// The text of the error for PEM text that may hold an encrypted block.
pub open spec fn encrypted_text() -> Seq<char> {
    "PEM text has an encryption header"@
}

/// The text of the error for a bundle without a certificate.
pub open spec fn empty_bundle_text() -> Seq<char> {
    "no certificate in PEM text"@
}

/// The text of the error for a peer's name that no C string can hold.
pub open spec fn nul_in_name_text() -> Seq<char> {
    "NUL character in the peer's name"@
}

/// Why PEM text of certificates is not handed to the engine, if it is not:
/// it is too long, or it has `Proc-Type:` in it and may thus hold an
/// encrypted block, for which OpenSSL would ask on the terminal.
pub open spec fn certificate_text_refusal(pem: Seq<u8>) -> Option<Seq<char>> {
    if !pem_fits(pem.len()) {
        Some(too_long_text())
    } else if has_proc_type(pem) {
        Some(encrypted_text())
    } else {
        None
    }
}

/// The certificate that PEM text gives: the first one that the engine reads
/// in it, unless the text is refused before the engine sees it.
pub open spec fn certificate_parsed(pem: Seq<u8>) -> Result<X509, Refusal> {
    match certificate_text_refusal(pem) {
        Some(text) => Err(Refusal::Because(text)),
        None => match certificate_read(pem) {
            Some(certificate) => Ok(certificate),
            None => Err(Refusal::ByEngine),
        },
    }
}

/// What a change to the engine's builder comes to: the builder as the
/// change left it if the engine accepted it, and the engine's refusal otherwise.
pub open spec fn change(done: (SslConnectorBuilder, bool)) -> Result<SslConnectorBuilder, Refusal> {
    if done.1 {
        Ok(done.0)
    } else {
        Err(Refusal::ByEngine)
    }
}

/// The engine's builder after the certificate in `pem` was made the one
/// that the client presents.
pub open spec fn certificate_taken(engine: SslConnectorBuilder, pem: Seq<u8>) -> Result<
    SslConnectorBuilder,
    Refusal,
> {
    match certificate_parsed(pem) {
        Ok(certificate) => change(certificate_set(engine, certificate)),
        Err(refusal) => Err(refusal),
    }
}

/// The engine's builder after the key in `pem` was made the client's
/// private key.
pub open spec fn private_key_taken(engine: SslConnectorBuilder, pem: Seq<u8>) -> Result<
    SslConnectorBuilder,
    Refusal,
> {
    if !pem_fits(pem.len()) {
        Err(Refusal::Because(too_long_text()))
    } else {
        match private_key_read(pem) {
            Some(key) => change(private_key_set(engine, key)),
            None => Err(Refusal::ByEngine),
        }
    }
}

/// The engine's builder after the client's certificate was taken from
/// `certificate_pem` and then its key from `key_pem`. The key is not looked
/// at unless the certificate was accepted.
pub open spec fn identity_taken(
    engine: SslConnectorBuilder,
    certificate_pem: Seq<u8>,
    key_pem: Seq<u8>,
) -> Result<SslConnectorBuilder, Refusal> {
    match certificate_taken(engine, certificate_pem) {
        Ok(next) => private_key_taken(next, key_pem),
        Err(refusal) => Err(refusal),
    }
}

/// The engine's builder after the certificates were added to the trusted
/// roots, one after the other, up to the first that the engine refused.
pub open spec fn roots_added(engine: SslConnectorBuilder, certificates: Seq<X509>) -> Result<
    SslConnectorBuilder,
    Refusal,
>
    decreases certificates.len(),
{
    if certificates.len() == 0 {
        Ok(engine)
    } else {
        match change(root_added(engine, certificates[0])) {
            Ok(next) => roots_added(next, certificates.drop_first()),
            Err(refusal) => Err(refusal),
        }
    }
}

/// The certificates that PEM text gives as a bundle: all that the engine
/// reads in it, which must be one at least.
pub open spec fn bundle_parsed(pem: Seq<u8>) -> Result<Seq<X509>, Refusal> {
    match certificate_text_refusal(pem) {
        Some(text) => Err(Refusal::Because(text)),
        None => match certificates_read(pem) {
            Some(certificates) => if certificates.len() > 0 {
                Ok(certificates)
            } else {
                Err(Refusal::Because(empty_bundle_text()))
            },
            None => Err(Refusal::ByEngine),
        },
    }
}

/// The engine's builder after the certificates in `pem` were added to the
/// trusted roots.
pub open spec fn roots_taken(engine: SslConnectorBuilder, pem: Seq<u8>) -> Result<
    SslConnectorBuilder,
    Refusal,
> {
    match bundle_parsed(pem) {
        Ok(certificates) => roots_added(engine, certificates),
        Err(refusal) => Err(refusal),
    }
}

/// The configuration of a session, given what the engine made of a
/// connector: the engine's, with the check of the peer's name set as asked.
pub open spec fn configuration_outcome(
    verify_hostname: bool,
    made: Result<ConnectConfiguration, ErrorStack>,
) -> Result<ConnectConfiguration, Refusal> {
    match made {
        Ok(configuration) => Ok(hostname_check_set(configuration, verify_hostname)),
        Err(errors) => Err(Refusal::Because(engine_text(errors))),
    }
}

/// The state of a session with the peer called `domain`, given what the
/// engine made of a connector. The engine's refusal of a configuration comes
/// first; then a name with a NUL character in it is refused; then the engine
/// makes the session from the configuration, with the check of the peer's
/// name set as asked, and the name.
pub open spec fn session_outcome(
    verify_hostname: bool,
    made: Result<ConnectConfiguration, ErrorStack>,
    domain: Seq<char>,
) -> Result<Ssl, Refusal> {
    match configuration_outcome(verify_hostname, made) {
        Err(refusal) => Err(refusal),
        Ok(configuration) => if domain.contains('\0') {
            Err(Refusal::Because(nul_in_name_text()))
        } else {
            match session_made(configuration, domain) {
                Some(session) => Ok(session),
                None => Err(Refusal::ByEngine),
            }
        },
    }
}

fn oversized_pem_message() -> (r: String)
    ensures
        r@ == too_long_text(),
{
    String::from_str("PEM text is too long")
}

fn encrypted_pem_message() -> (r: String)
    ensures
        r@ == encrypted_text(),
{
    String::from_str("PEM text has an encryption header")
}

fn nul_in_name_message() -> (r: String)
    ensures
        r@ == nul_in_name_text(),
{
    String::from_str("NUL character in the peer's name")
}

fn empty_bundle_message() -> (r: String)
    ensures
        r@ == empty_bundle_text(),
{
    String::from_str("no certificate in PEM text")
}

/// Whether the text has a NUL character in it. The engine takes names as C
/// strings, which cannot hold one.
pub fn has_nul(text: &str) -> (r: bool)
    ensures
        r == text@.contains('\0'),
{
    let len: usize = text.unicode_len();
    let mut at: usize = 0;
    while at < len
        invariant
            len == text@.len(),
            at <= len,
            forall|i: int| 0 <= i < at ==> text@[i] != '\0',
        decreases len - at,
    {
        if text.get_char(at) == '\0' {
            return true;
        }
        at = at + 1;
    }
    false
}

/// Whether the bytes `Proc-Type:` stand anywhere in the text. They begin the
/// header that marks a PEM block as encrypted.
pub fn has_encryption_header(pem: &[u8]) -> (r: bool)
    ensures
        r == has_proc_type(pem@),
{
    let len: usize = pem.len();
    if len < 10 {
        return false;
    }
    let last: usize = len - 10;
    let mut at: usize = 0;
    while at <= last
        invariant
            len == pem@.len(),
            last == len - 10,
            at <= last + 1,
            forall|i: int| 0 <= i < at ==> !proc_type_at(pem@, i),
        decreases last + 1 - at,
    {
        if pem[at] == 80 && pem[at + 1] == 114 && pem[at + 2] == 111 && pem[at + 3] == 99 && pem[at
            + 4] == 45 && pem[at + 5] == 84 && pem[at + 6] == 121 && pem[at + 7] == 112 && pem[at
            + 8] == 101 && pem[at + 9] == 58 {
            proof {
                assert(pem@.subrange(at as int, at + 10) =~= proc_type_marker());
                assert(proc_type_at(pem@, at as int));
            }
            return true;
        }
        proof {
            if proc_type_at(pem@, at as int) {
                let window = pem@.subrange(at as int, at + 10);
                assert(window[0] == pem@[at + 0] && window[1] == pem@[at + 1] && window[2]
                    == pem@[at + 2] && window[3] == pem@[at + 3] && window[4] == pem@[at + 4]);
                assert(window[5] == pem@[at + 5] && window[6] == pem@[at + 6] && window[7]
                    == pem@[at + 7] && window[8] == pem@[at + 8] && window[9] == pem@[at + 9]);
                assert(false);
            }
        }
        at = at + 1;
    }
    proof {
        assert forall|i: int| !proc_type_at(pem@, i) by {
            if proc_type_at(pem@, i) {
                assert(i < at);
            }
        }
    }
    false
}

/// Refuses PEM text of certificates that must not reach the engine.
fn refuse_certificate_text(pem: &[u8]) -> (r: Option<Error>)
    ensures
        match certificate_text_refusal(pem@) {
            Some(text) => r matches Some(error) && refused_with(error, text),
            None => r is None,
        },
{
    if pem.len() > MAX_PEM_LEN {
        Some(Error::Configuration(oversized_pem_message()))
    } else if has_encryption_header(pem) {
        Some(Error::Configuration(encrypted_pem_message()))
    } else {
        None
    }
}

impl Certificate {
    /// Takes a certificate from what the engine made of PEM text.
    pub fn from_parsed(parsed: Result<X509, ErrorStack>) -> (r: Result<Certificate, Error>)
        ensures
            match parsed {
                Ok(certificate) => r == Ok::<Certificate, Error>(Certificate(certificate)),
                Err(errors) => r matches Err(error) && reports(error, errors),
            },
    {
        match parsed {
            Ok(certificate) => Ok(Certificate(certificate)),
            Err(errors) => Err(configuration_error(errors)),
        }
    }

    /// Reads the first certificate in PEM text.
    ///
    /// Text that is too long for the engine is refused, and so is text with
    /// `Proc-Type:` in it, which may hold an encrypted block; whether other
    /// text holds a certificate is for the engine to say.
    pub fn from_pem(pem: &[u8]) -> (r: Result<Certificate, Error>)
        ensures
            match certificate_parsed(pem@) {
                Ok(certificate) => r == Ok::<Certificate, Error>(Certificate(certificate)),
                Err(refusal) => r matches Err(error) && refused(error, refusal),
            },
    {
        match refuse_certificate_text(pem) {
            Some(error) => Err(error),
            None => Certificate::from_parsed(certificate_from_pem(pem)),
        }
    }
}

/// Takes a bundle of certificates from what the engine made of PEM text. A
/// bundle must hold at least one certificate.
pub fn bundle_from_parsed(parsed: Result<Vec<X509>, ErrorStack>) -> (r: Result<Vec<X509>, Error>)
    ensures
        match parsed {
            Ok(certificates) => if certificates@.len() > 0 {
                r == Ok::<Vec<X509>, Error>(certificates)
            } else {
                r matches Err(error) && refused_with(error, empty_bundle_text())
            },
            Err(errors) => r matches Err(error) && reports(error, errors),
        },
{
    match parsed {
        Ok(certificates) => {
            if certificates.len() > 0 {
                Ok(certificates)
            } else {
                Err(Error::Configuration(empty_bundle_message()))
            }
        },
        Err(errors) => Err(configuration_error(errors)),
    }
}

impl TlsConnector {
    /// Starts a configuration with the engine's defaults for a client, and
    /// with the check of the peer's name switched on.
    ///
    /// Whether the engine gives a builder depends on the machine. Whatever
    /// it gives is wrapped as `from_engine` says: a builder is held as it is,
    /// and a refusal is passed on with the engine's account.
    pub fn builder() -> (r: Result<TlsConnectorBuilder, Error>)
        ensures
            exists|made: Result<SslConnectorBuilder, ErrorStack>|
                #[trigger] TlsConnectorBuilder::wraps(r, made),
            r matches Ok(builder) ==> builder.verifies_hostname(),
            r matches Err(error) ==> error is Configuration,
    {
        let made = new_connector_builder();
        let ghost asked = made;
        let r = TlsConnectorBuilder::from_engine(made);
        proof {
            assert(TlsConnectorBuilder::wraps(r, asked));
        }
        r
    }

    /// The state of one new session with the peer called `domain`: what the
    /// handshake entry point is called on.
    ///
    /// The engine is asked for a configuration, and what follows is as
    /// `session_with` has it: the session is made for `domain`, with the
    /// check of the peer's name as the connector has it.
    pub fn session(&self, domain: &str) -> (r: Result<Ssl, Error>)
        ensures
            exists|made: Result<ConnectConfiguration, ErrorStack>|
                gives(r, #[trigger] session_outcome(self.verify_hostname, made, domain@)),
            domain@.contains('\0') ==> (r matches Err(error) && error is Configuration),
    {
        let made = new_session_configuration(&self.inner);
        let ghost asked = made;
        let r = self.session_with(made, domain);
        proof {
            assert(gives(r, session_outcome(self.verify_hostname, asked, domain@)));
        }
        r
    }

    /// The state of one new session with the peer called `domain`, given
    /// what the engine made of the connector.
    ///
    /// The engine's refusal of a configuration is passed on. A name with a
    /// NUL character in it is refused. Otherwise the check of the peer's name
    /// is set on the configuration as the connector has it, and the engine
    /// makes the session from that and `domain`.
    pub fn session_with(&self, made: Result<ConnectConfiguration, ErrorStack>, domain: &str) -> (r:
        Result<Ssl, Error>)
        ensures
            gives(r, session_outcome(self.verify_hostname, made, domain@)),
    {
        let configuration = match self.configuration_from_engine(made) {
            Ok(configuration) => configuration,
            Err(error) => {
                return Err(error);
            },
        };
        if has_nul(domain) {
            return Err(Error::Configuration(nul_in_name_message()));
        }
        TlsConnector::session_from_engine(session_for_domain(configuration, domain))
    }

    /// Takes the session state from what the engine made of a configuration
    /// and a name.
    pub fn session_from_engine(made: Result<Ssl, ErrorStack>) -> (r: Result<Ssl, Error>)
        ensures
            match made {
                Ok(session) => r == Ok::<Ssl, Error>(session),
                Err(errors) => r matches Err(error) && reports(error, errors),
            },
    {
        match made {
            Ok(session) => Ok(session),
            Err(errors) => Err(configuration_error(errors)),
        }
    }

    /// The configuration of one new session: the engine's for this
    /// connector, with the check of the peer's name as the connector has it.
    pub fn client_configuration(&self) -> (r: Result<ConnectConfiguration, Error>)
        ensures
            exists|made: Result<ConnectConfiguration, ErrorStack>|
                gives(r, #[trigger] configuration_outcome(self.verify_hostname, made)),
    {
        let made = new_session_configuration(&self.inner);
        let ghost asked = made;
        let r = self.configuration_from_engine(made);
        proof {
            assert(gives(r, configuration_outcome(self.verify_hostname, asked)));
        }
        r
    }

    /// Takes the configuration of a session from what the engine made of the
    /// connector, and sets the check of the peer's name on it as the
    /// connector has it. The engine's refusal becomes the error.
    pub fn configuration_from_engine(&self, made: Result<ConnectConfiguration, ErrorStack>) -> (r:
        Result<ConnectConfiguration, Error>)
        ensures
            gives(r, configuration_outcome(self.verify_hostname, made)),
    {
        match made {
            Ok(configuration) => Ok(with_hostname_check(configuration, self.verify_hostname)),
            Err(errors) => Err(configuration_error(errors)),
        }
    }
}

impl TlsConnectorBuilder {
    /// The engine's builder that this builder holds.
    pub closed spec fn engine(self) -> SslConnectorBuilder {
        self.inner
    }

    /// Whether the connector will check the peer's name against its certificate.
    pub closed spec fn verifies_hostname(self) -> bool {
        self.verify_hostname
    }

    /// Whether `r` is what `expected` asks for: a builder that holds the
    /// engine's builder and has the given setting for the check of the
    /// peer's name, or else the configuration error with the text.
    pub open spec fn follows(
        r: Result<TlsConnectorBuilder, Error>,
        expected: Result<SslConnectorBuilder, Refusal>,
        verify_hostname: bool,
    ) -> bool {
        match expected {
            Ok(engine) => r matches Ok(builder) && builder.engine() == engine
                && builder.verifies_hostname() == verify_hostname,
            Err(refusal) => r matches Err(error) && refused(error, refusal),
        }
    }

    /// Whether `r` wraps what the engine gave for a new builder: the
    /// engine's builder with the check of the peer's name switched on, or
    /// else the configuration error with the engine's account.
    pub open spec fn wraps(
        r: Result<TlsConnectorBuilder, Error>,
        made: Result<SslConnectorBuilder, ErrorStack>,
    ) -> bool {
        match made {
            Ok(inner) => r matches Ok(builder) && builder.engine() == inner
                && builder.verifies_hostname(),
            Err(errors) => r matches Err(error) && reports(error, errors),
        }
    }

    /// Wraps what the engine gave for a new builder. The check of the peer's
    /// name starts switched on.
    pub fn from_engine(made: Result<SslConnectorBuilder, ErrorStack>) -> (r: Result<
        TlsConnectorBuilder,
        Error,
    >)
        ensures
            TlsConnectorBuilder::wraps(r, made),
    {
        match made {
            Ok(inner) => Ok(TlsConnectorBuilder { inner, verify_hostname: true }),
            Err(errors) => Err(configuration_error(errors)),
        }
    }

    /// Keeps the builder if the engine accepted a change to it, and gives
    /// the engine's error otherwise.
    pub fn accepted(self, change: Result<(), ErrorStack>) -> (r: Result<TlsConnectorBuilder, Error>)
        ensures
            match change {
                Ok(_) => r == Ok::<TlsConnectorBuilder, Error>(self),
                Err(errors) => r matches Err(error) && reports(error, errors),
            },
    {
        match change {
            Ok(_) => Ok(self),
            Err(errors) => Err(configuration_error(errors)),
        }
    }

    /// Switches off the check of the peer's name against its certificate.
    pub fn with_hostname_vertification_disabled(self) -> (r: Result<TlsConnectorBuilder, Error>)
        ensures
            r matches Ok(builder) && builder.engine() == self.engine()
                && !builder.verifies_hostname(),
    {
        let mut builder = self;
        builder.verify_hostname = false;
        Ok(builder)
    }

    /// Lets the handshake go on whatever the check of the peer's certificate
    /// finds: the engine's builder is the old one with that check switched off.
    pub fn with_certificate_vertification_disabled(self) -> (r: Result<TlsConnectorBuilder, Error>)
        ensures
            r matches Ok(builder) && builder.engine() == peer_verification_off(self.engine())
                && builder.verifies_hostname() == self.verifies_hostname(),
    {
        let mut builder = self;
        disable_peer_verification(&mut builder.inner);
        Ok(builder)
    }

    /// Sets the certificate that the client presents, from PEM text: the
    /// first certificate in it.
    ///
    /// Text that is too long for the engine is refused, and so is text with
    /// `Proc-Type:` in it, which may hold an encrypted block; beyond that the
    /// engine decides.
    pub fn with_certificate_from_pem(self, certificate_pem: &[u8]) -> (r: Result<
        TlsConnectorBuilder,
        Error,
    >)
        ensures
            TlsConnectorBuilder::follows(
                r,
                certificate_taken(self.engine(), certificate_pem@),
                self.verifies_hostname(),
            ),
    {
        let certificate = match Certificate::from_pem(certificate_pem) {
            Ok(certificate) => certificate,
            Err(error) => {
                return Err(error);
            },
        };
        let mut builder = self;
        let set = use_certificate(&mut builder.inner, &certificate.0);
        builder.accepted(set)
    }

    /// Sets the client's private key, from PEM text.
    ///
    /// The key is read with an empty passphrase, so that an encrypted key
    /// is refused and OpenSSL never asks for a passphrase on the terminal.
    /// Text that is too long for the engine is refused; beyond that the
    /// engine decides.
    pub fn with_private_key_from_pem(self, key_pem: &[u8]) -> (r: Result<TlsConnectorBuilder, Error>)
        ensures
            TlsConnectorBuilder::follows(
                r,
                private_key_taken(self.engine(), key_pem@),
                self.verifies_hostname(),
            ),
    {
        if key_pem.len() > MAX_PEM_LEN {
            return Err(Error::Configuration(oversized_pem_message()));
        }
        let key = match private_key_from_pem(key_pem) {
            Ok(key) => key,
            Err(errors) => {
                return Err(configuration_error(errors));
            },
        };
        let mut builder = self;
        let set = use_private_key(&mut builder.inner, &key);
        builder.accepted(set)
    }

    /// Sets the certificate that the client presents, and its private key.
    /// Both are given as the PEM text of their files: the certificate is
    /// taken from `cert_file` as `with_certificate_from_pem` takes it, and
    /// then the key from `key_file` as `with_private_key_from_pem` takes it.
    /// The key is not looked at unless the certificate was accepted.
    ///
    /// This differs from OpenSSL's own loaders of such files in that text
    /// with `Proc-Type:` in it and encrypted keys are refused rather than
    /// asked about on the terminal.
    pub fn with_certifiate_and_key_from_pem_files(self, cert_file: &[u8], key_file: &[u8]) -> (r:
        Result<TlsConnectorBuilder, Error>)
        ensures
            TlsConnectorBuilder::follows(
                r,
                identity_taken(self.engine(), cert_file@, key_file@),
                self.verifies_hostname(),
            ),
    {
        match self.with_certificate_from_pem(cert_file) {
            Ok(builder) => builder.with_private_key_from_pem(key_file),
            Err(error) => Err(error),
        }
    }

    /// Adds the certificates of a CA file, given as its PEM text, to the
    /// roots that the connector trusts: each of them, in the order of the
    /// text, up to the first that the engine refuses.
    ///
    /// Text that is too long for the engine is refused, and so is text with
    /// `Proc-Type:` in it, and text without a certificate; beyond that the
    /// engine decides. This differs from OpenSSL's own loader of CA files in
    /// that only the certificates are taken: revocation lists in the text
    /// are passed over.
    pub fn with_ca_from_pem_file(self, ca_file: &[u8]) -> (r: Result<TlsConnectorBuilder, Error>)
        ensures
            TlsConnectorBuilder::follows(
                r,
                roots_taken(self.engine(), ca_file@),
                self.verifies_hostname(),
            ),
    {
        match refuse_certificate_text(ca_file) {
            Some(error) => {
                return Err(error);
            },
            None => {},
        }
        let certificates = match bundle_from_parsed(certificates_from_pem(ca_file)) {
            Ok(certificates) => certificates,
            Err(error) => {
                return Err(error);
            },
        };
        assert(roots_taken(self.engine(), ca_file@) == roots_added(self.engine(), certificates@));
        assert(certificates@.skip(0) =~= certificates@);
        let mut builder = self;
        let count: usize = certificates.len();
        let mut next: usize = 0;
        while next < count
            invariant
                count == certificates@.len(),
                next <= count,
                builder.verifies_hostname() == self.verifies_hostname(),
                roots_taken(self.engine(), ca_file@) == roots_added(
                    builder.engine(),
                    certificates@.skip(next as int),
                ),
            decreases count - next,
        {
            proof {
                let rest = certificates@.skip(next as int);
                assert(rest[0] == certificates@[next as int]);
                assert(rest.drop_first() =~= certificates@.skip(next + 1));
            }
            let added = trust_certificate(&mut builder.inner, &certificates[next]);
            builder = match builder.accepted(added) {
                Ok(builder) => builder,
                Err(error) => {
                    return Err(error);
                },
            };
            next = next + 1;
        }
        Ok(builder)
    }

    /// Adds a certificate to the roots that the connector trusts.
    pub fn add_root_certificate(self, cert: Certificate) -> (r: Result<TlsConnectorBuilder, Error>)
        ensures
            TlsConnectorBuilder::follows(
                r,
                change(root_added(self.engine(), cert.0)),
                self.verifies_hostname(),
            ),
    {
        let mut builder = self;
        let added = trust_certificate(&mut builder.inner, &cert.0);
        builder.accepted(added)
    }

    /// Finishes the configuration: the connector holds what the engine
    /// makes of its builder, and checks the peer's name as the builder says.
    pub fn build(self) -> (r: TlsConnector)
        ensures
            r.inner == connector_built(self.engine()),
            r.verify_hostname == self.verifies_hostname(),
    {
        TlsConnector { inner: finish_connector(self.inner), verify_hostname: self.verify_hostname }
    }
}

impl TlsAnonymousConnector {
    /// The configuration that the handshake runs with.
    pub closed spec fn connector(self) -> TlsConnector {
        self.0
    }

    /// The conversion from a configuration wraps it as it is.
    pub proof fn lemma_from_wraps(connector: TlsConnector)
        ensures
            <TlsAnonymousConnector as vstd::std_specs::convert::FromSpec<TlsConnector>>::from_spec(
                connector,
            ).connector() == connector,
    {
    }

    /// The plan for connecting to `addr`: a handshake under the name `addr`.
    pub fn plan<'a>(&'a self, addr: &'a str) -> (r: ConnectPlan<'a>)
        ensures
            r matches ConnectPlan::Tls { connector, server_name } && *connector == self.connector()
                && server_name@ == addr@,
    {
        ConnectPlan::Tls { connector: &self.0, server_name: addr }
    }
}

impl From<TlsConnector> for TlsAnonymousConnector {
    fn from(connector: TlsConnector) -> (r: Self) {
        TlsAnonymousConnector(connector)
    }
}

impl vstd::std_specs::convert::FromSpecImpl<TlsConnector> for TlsAnonymousConnector {
    open spec fn obeys_from_spec() -> bool {
        true
    }

    closed spec fn from_spec(connector: TlsConnector) -> Self {
        TlsAnonymousConnector(connector)
    }
}

impl TlsDomainConnector {
    /// The configuration that the handshake runs with.
    pub closed spec fn connector(self) -> TlsConnector {
        self.connector
    }

    /// The name under which the peer is known.
    pub closed spec fn domain(self) -> Seq<char> {
        self.domain@
    }

    /// A connector to the peer that is known as `domain`.
    pub fn new(connector: TlsConnector, domain: String) -> (r: TlsDomainConnector)
        ensures
            r.connector() == connector,
            r.domain() == domain@,
    {
        TlsDomainConnector { domain, connector }
    }

    /// The plan for connecting to `addr`: a handshake under the connector's
    /// own name for the peer, not under `addr`.
    pub fn plan<'a>(&'a self, addr: &'a str) -> (r: ConnectPlan<'a>)
        ensures
            r matches ConnectPlan::Tls { connector, server_name } && *connector == self.connector()
                && server_name@ == self.domain(),
    {
        ConnectPlan::Tls { connector: &self.connector, server_name: self.domain.as_str() }
    }
}

impl AllDomainConnector {
    /// The strategy without encryption.
    pub fn default_tcp() -> (r: AllDomainConnector)
        ensures
            r is Tcp,
    {
        AllDomainConnector::Tcp(DefaultTcpDomainConnector)
    }

    /// The strategy with TLS to a peer of a fixed name.
    pub fn new_tls_domain(connector: TlsDomainConnector) -> (r: AllDomainConnector)
        ensures
            r == AllDomainConnector::TlsDomain(connector),
    {
        AllDomainConnector::TlsDomain(connector)
    }

    /// The strategy with TLS to a peer that is named by its address.
    pub fn new_tls_anonymous(connector: TlsAnonymousConnector) -> (r: AllDomainConnector)
        ensures
            r == AllDomainConnector::TlsAnonymous(connector),
    {
        AllDomainConnector::TlsAnonymous(connector)
    }

    /// Whether connections of this strategy are encrypted.
    pub fn is_encrypted(&self) -> (r: bool)
        ensures
            r == !(*self is Tcp),
    {
        match self {
            AllDomainConnector::Tcp(_) => false,
            _ => true,
        }
    }

    /// The plan for connecting to `addr`. It follows from the configuration
    /// alone: a plain connection for `Tcp`, a handshake under the fixed name
    /// for `TlsDomain`, and a handshake under `addr` for `TlsAnonymous`.
    pub fn plan<'a>(&'a self, addr: &'a str) -> (r: ConnectPlan<'a>)
        ensures
            match *self {
                AllDomainConnector::Tcp(_) => r is Plain,
                AllDomainConnector::TlsDomain(inner) => r matches ConnectPlan::Tls {
                    connector,
                    server_name,
                } && *connector == inner.connector() && server_name@ == inner.domain(),
                AllDomainConnector::TlsAnonymous(inner) => r matches ConnectPlan::Tls {
                    connector,
                    server_name,
                } && *connector == inner.connector() && server_name@ == addr@,
            },
    {
        match self {
            AllDomainConnector::Tcp(_) => ConnectPlan::Plain,
            AllDomainConnector::TlsDomain(inner) => inner.plan(addr),
            AllDomainConnector::TlsAnonymous(inner) => inner.plan(addr),
        }
    }
}

impl Default for AllDomainConnector {
    fn default() -> (r: AllDomainConnector)
        ensures
            r is Tcp,
    {
        AllDomainConnector::default_tcp()
    }
}

} // verus!
