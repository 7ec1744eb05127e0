//! DTLS contexts: the server's, with a certificate and its private key, and the test client's
//! session.

use openssl::error::ErrorStack;
use openssl::pkey::{PKey, Private};
use openssl::ssl::{
    ConnectConfiguration, Ssl, SslAcceptor, SslAcceptorBuilder, SslConnector, SslConnectorBuilder,
    SslContext, SslMethod, SslVerifyMode,
};
use openssl::x509::X509;
use vstd::prelude::*;

verus! {

/// What OpenSSL reports about a failure.
#[verifier::external_type_specification]
#[verifier::external_body]
pub struct ExErrorStack(openssl::error::ErrorStack);

/// A certificate.
#[verifier::external_type_specification]
#[verifier::external_body]
pub struct ExX509(openssl::x509::X509);

/// A key.
#[verifier::external_type_specification]
#[verifier::external_body]
#[verifier::reject_recursive_types(T)]
pub struct ExPKey<T>(openssl::pkey::PKey<T>);

/// The tag of keys with a private part.
#[verifier::external_type_specification]
#[verifier::external_body]
pub struct ExPrivate(openssl::pkey::Private);

/// A server context that is being set up.
#[verifier::external_type_specification]
#[verifier::external_body]
pub struct ExSslAcceptorBuilder(openssl::ssl::SslAcceptorBuilder);

/// A context for sessions.
#[verifier::external_type_specification]
#[verifier::external_body]
pub struct ExSslContext(openssl::ssl::SslContext);

/// The PEM text that a certificate was read from.
pub uninterp spec fn certificate_source(certificate: X509) -> Seq<u8>;

/// The PEM text that a private key was read from.
pub uninterp spec fn key_source(key: PKey<Private>) -> Seq<u8>;

/// The PEM texts of the certificate and of the private key that were put into a builder, which
/// takes at most one of each here.
pub uninterp spec fn builder_credentials(builder: SslAcceptorBuilder) -> (
    Option<Seq<u8>>,
    Option<Seq<u8>>,
);

/// The PEM texts of the certificate and of the private key that a context presents.
pub uninterp spec fn context_credentials(context: SslContext) -> (
    Option<Seq<u8>>,
    Option<Seq<u8>>,
);

/// Whether the handshakes of a builder's context are DTLS.
pub uninterp spec fn builder_is_dtls(builder: SslAcceptorBuilder) -> bool;

/// Whether the handshakes of a context are DTLS.
pub uninterp spec fn context_is_dtls(context: SslContext) -> bool;

/// Whether OpenSSL finds a private key consistent with a certificate, both as PEM texts.
pub uninterp spec fn is_key_pair(certificate: Seq<u8>, private_key: Seq<u8>) -> bool;

/// Whether `cause` is a report that `SslAcceptor::mozilla_intermediate` can fail with, for DTLS.
pub uninterp spec fn new_acceptor_reports(cause: ErrorStack) -> bool;

/// Whether `cause` is a report that `X509::from_pem` can fail with on a text.
pub uninterp spec fn read_certificate_reports(pem: Seq<u8>, cause: ErrorStack) -> bool;

/// Whether `cause` is a report that `PKey::private_key_from_pem` can fail with on a text.
pub uninterp spec fn read_key_reports(pem: Seq<u8>, cause: ErrorStack) -> bool;

/// Whether `cause` is a report that `set_certificate` can fail with, on a builder that holds the
/// first credentials, for a certificate that was read from `certificate`.
pub uninterp spec fn set_certificate_reports(
    held: (Option<Seq<u8>>, Option<Seq<u8>>),
    certificate: Seq<u8>,
    cause: ErrorStack,
) -> bool;

/// Whether `cause` is a report that `set_private_key` can fail with, on a builder that holds the
/// first credentials, for a key that was read from `key`.
pub uninterp spec fn set_key_reports(
    held: (Option<Seq<u8>>, Option<Seq<u8>>),
    key: Seq<u8>,
    cause: ErrorStack,
) -> bool;

/// Whether `cause` is a report that `check_private_key` can fail with, on a builder that holds
/// these credentials.
pub uninterp spec fn check_key_reports(
    held: (Option<Seq<u8>>, Option<Seq<u8>>),
    cause: ErrorStack,
) -> bool;

/// Calls `SslAcceptor::mozilla_intermediate` for DTLS. A new builder is one for DTLS and holds no
/// credentials. Whether there is one rests on the OpenSSL that is installed; a failure is its
/// report.
#[verifier::external_body]
fn dtls_builder() -> (r: Result<SslAcceptorBuilder, ErrorStack>)
    ensures
        r matches Ok(builder) ==> builder_credentials(builder) == (
            None::<Seq<u8>>,
            None::<Seq<u8>>,
        ),
        r matches Ok(builder) ==> builder_is_dtls(builder),
        r matches Err(cause) ==> new_acceptor_reports(cause),
{
    SslAcceptor::mozilla_intermediate(SslMethod::dtls())
}

/// Calls `X509::from_pem`, which panics on more bytes than a C `int` can count. The certificate
/// is the one that the text holds; which texts hold one is left to OpenSSL, whose report on the
/// text a failure is.
#[verifier::external_body]
fn certificate_from_pem(pem: &[u8]) -> (r: Result<X509, ErrorStack>)
    requires
        pem@.len() <= i32::MAX,
    ensures
        r matches Ok(certificate) ==> certificate_source(certificate) == pem@,
        r matches Err(cause) ==> read_certificate_reports(pem@, cause),
{
    X509::from_pem(pem)
}

/// Calls `PKey::private_key_from_pem`, which panics on more bytes than a C `int` can count. The
/// key is the one that the text holds; which texts hold one is left to OpenSSL, which asks at the
/// terminal for the passphrase of an encrypted one. A failure is its report on the text.
#[verifier::external_body]
fn key_from_pem(pem: &[u8]) -> (r: Result<PKey<Private>, ErrorStack>)
    requires
        pem@.len() <= i32::MAX,
    ensures
        r matches Ok(key) ==> key_source(key) == pem@,
        r matches Err(cause) ==> read_key_reports(pem@, cause),
{
    PKey::private_key_from_pem(pem)
}

/// Calls `SslContextBuilder::set_certificate`, on a builder without credentials: OpenSSL keeps one
/// certificate for each type of key and looks at the one that was put in last. After success the
/// builder holds this certificate and still no key, for the same protocol. When it fails is left
/// to OpenSSL, whose report a failure is.
#[verifier::external_body]
fn set_certificate(builder: &mut SslAcceptorBuilder, certificate: &X509) -> (r: Result<
    (),
    ErrorStack,
>)
    requires
        builder_credentials(*old(builder)) == (None::<Seq<u8>>, None::<Seq<u8>>),
    ensures
        r is Ok ==> builder_credentials(*final(builder)) == (
            Some(certificate_source(*certificate)),
            None::<Seq<u8>>,
        ),
        builder_is_dtls(*final(builder)) == builder_is_dtls(*old(builder)),
        r matches Err(cause) ==> set_certificate_reports(
            builder_credentials(*old(builder)),
            certificate_source(*certificate),
            cause,
        ),
{
    builder.set_certificate(certificate)
}

/// Calls `SslContextBuilder::set_private_key`, on a builder without a key. After success the
/// builder holds this key besides the certificate that it held before, for the same protocol. When
/// it fails is left to OpenSSL, whose report a failure is.
#[verifier::external_body]
fn set_private_key(builder: &mut SslAcceptorBuilder, key: &PKey<Private>) -> (r: Result<
    (),
    ErrorStack,
>)
    requires
        builder_credentials(*old(builder)).1 is None,
    ensures
        r is Ok ==> builder_credentials(*final(builder)) == (
            builder_credentials(*old(builder)).0,
            Some(key_source(*key)),
        ),
        builder_is_dtls(*final(builder)) == builder_is_dtls(*old(builder)),
        r matches Err(cause) ==> set_key_reports(
            builder_credentials(*old(builder)),
            key_source(*key),
            cause,
        ),
{
    builder.set_private_key(key)
}

/// Calls `SslContextBuilder::check_private_key`. Success means that the key that the builder
/// holds is consistent with its certificate; a failure is OpenSSL's report on the two.
#[verifier::external_body]
fn check_private_key(builder: &SslAcceptorBuilder) -> (r: Result<(), ErrorStack>)
    ensures
        r is Ok ==> (builder_credentials(*builder) matches (Some(certificate), Some(key))
            ==> is_key_pair(certificate, key)),
        r matches Err(cause) ==> check_key_reports(builder_credentials(*builder), cause),
{
    builder.check_private_key()
}

/// Calls `SslAcceptorBuilder::build` and takes the context out of its result with
/// `SslAcceptor::into_context`. The context is the one that was set up.
#[verifier::external_body]
fn into_context(builder: SslAcceptorBuilder) -> (r: SslContext)
    ensures
        context_credentials(r) == builder_credentials(builder),
        context_is_dtls(r) == builder_is_dtls(builder),
{
    builder.build().into_context()
}

/// A client context that is being set up.
#[verifier::external_type_specification]
#[verifier::external_body]
pub struct ExSslConnectorBuilder(openssl::ssl::SslConnectorBuilder);

/// A client session that is being set up.
#[verifier::external_type_specification]
#[verifier::external_body]
pub struct ExConnectConfiguration(openssl::ssl::ConnectConfiguration);

/// A session.
#[verifier::external_type_specification]
#[verifier::external_body]
pub struct ExSsl(openssl::ssl::Ssl);

/// Whether the sessions of a client context turn down a server whose certificate does not check.
pub uninterp spec fn connector_verifies(builder: SslConnectorBuilder) -> bool;

/// Whether a session that is being set up will turn down a server whose certificate does not
/// check.
pub uninterp spec fn configuration_verifies(configuration: ConnectConfiguration) -> bool;

/// Whether a session turns down a server whose certificate does not check.
pub uninterp spec fn session_verifies(session: Ssl) -> bool;

/// The server name that a session was made for.
pub uninterp spec fn session_domain(session: Ssl) -> Seq<char>;

/// Whether the handshakes of a client context are DTLS.
pub uninterp spec fn connector_is_dtls(builder: SslConnectorBuilder) -> bool;

/// Whether the handshake of a session that is being set up will be DTLS.
pub uninterp spec fn configuration_is_dtls(configuration: ConnectConfiguration) -> bool;

/// Whether the handshake of a session is DTLS.
pub uninterp spec fn session_is_dtls(session: Ssl) -> bool;

/// The PEM texts of the certificate and of the private key that a session presents.
pub uninterp spec fn session_credentials(session: Ssl) -> (Option<Seq<u8>>, Option<Seq<u8>>);

/// Whether `cause` is a report that `Ssl::new` can fail with, on a context with these credentials.
pub uninterp spec fn new_session_reports(
    credentials: (Option<Seq<u8>>, Option<Seq<u8>>),
    cause: ErrorStack,
) -> bool;

/// Calls `Ssl::new`. The session speaks the protocol of its context and presents its credentials.
/// When it fails is left to OpenSSL, whose report a failure is.
#[verifier::external_body]
fn new_session(context: &SslContext) -> (r: Result<Ssl, ErrorStack>)
    ensures
        r matches Ok(session) ==> session_is_dtls(session) == context_is_dtls(*context),
        r matches Ok(session) ==> session_credentials(session) == context_credentials(*context),
        r matches Err(cause) ==> new_session_reports(context_credentials(*context), cause),
{
    Ssl::new(context)
}

/// Whether `cause` is a report that `SslConnector::builder` can fail with, for DTLS.
pub uninterp spec fn new_connector_reports(cause: ErrorStack) -> bool;

/// Whether `cause` is a report that `SslConnector::configure` can fail with, on a context that
/// asks for verification or does not.
pub uninterp spec fn configure_reports(verifies: bool, cause: ErrorStack) -> bool;

/// Whether `cause` is a report that `ConnectConfiguration::into_ssl` can fail with for a domain,
/// on a session that asks for verification or does not.
pub uninterp spec fn into_ssl_reports(
    verifies: bool,
    domain: Seq<char>,
    cause: ErrorStack,
) -> bool;

/// Calls `SslConnector::builder` for DTLS. A new builder is one for DTLS and asks for verification.
/// Whether there is one rests on the OpenSSL that is installed and on the trust store that it
/// reads; a failure is its report.
#[verifier::external_body]
fn dtls_connector() -> (r: Result<SslConnectorBuilder, ErrorStack>)
    ensures
        r matches Ok(builder) ==> connector_verifies(builder),
        r matches Ok(builder) ==> connector_is_dtls(builder),
        r matches Err(cause) ==> new_connector_reports(cause),
{
    SslConnector::builder(SslMethod::dtls())
}

/// Calls `SslContextBuilder::set_verify` with `SslVerifyMode::NONE`, after which the context does
/// not ask for verification. The protocol stays.
#[verifier::external_body]
fn set_verify_none(builder: &mut SslConnectorBuilder)
    ensures
        !connector_verifies(*final(builder)),
        connector_is_dtls(*final(builder)) == connector_is_dtls(*old(builder)),
{
    builder.set_verify(SslVerifyMode::NONE)
}

/// Calls `SslConnectorBuilder::build`, then `SslConnector::configure` on its result. The session
/// takes the settings of its context. When it fails is left to OpenSSL, whose report a failure is.
#[verifier::external_body]
fn configure(builder: SslConnectorBuilder) -> (r: Result<ConnectConfiguration, ErrorStack>)
    ensures
        r matches Ok(configuration) ==> configuration_verifies(configuration)
            == connector_verifies(builder),
        r matches Ok(configuration) ==> configuration_is_dtls(configuration) == connector_is_dtls(
            builder,
        ),
        r matches Err(cause) ==> configure_reports(connector_verifies(builder), cause),
{
    builder.build().configure()
}

/// Calls `ConnectConfiguration::into_ssl`, which panics on a domain with a NUL in it. The session
/// is made for the domain and keeps its settings. When it fails is left to OpenSSL, whose report a
/// failure is.
#[verifier::external_body]
fn into_ssl(configuration: ConnectConfiguration, domain: &str) -> (r: Result<Ssl, ErrorStack>)
    requires
        !domain@.contains('\0'),
    ensures
        r matches Ok(session) ==> session_domain(session) == domain@,
        r matches Ok(session) ==> session_verifies(session) == configuration_verifies(
            configuration,
        ),
        r matches Ok(session) ==> session_is_dtls(session) == configuration_is_dtls(configuration),
        r matches Err(cause) ==> into_ssl_reports(
            configuration_verifies(configuration),
            domain@,
            cause,
        ),
{
    configuration.into_ssl(domain)
}

/// A step of setting up a server context.
#[derive(Debug, Clone, Copy, PartialEq, Eq, Structural)]
pub enum AcceptorStage {
    Builder,
    ReadCertificate,
    SetCertificate,
    ReadPrivateKey,
    SetPrivateKey,
    CheckPrivateKey,
}

/// The step of setting up a server session.
#[derive(Debug, Clone, Copy, PartialEq, Eq, Structural)]
pub enum SessionStage {
    Session,
}

/// A step of setting up a client session.
#[derive(Debug, Clone, Copy, PartialEq, Eq, Structural)]
pub enum ConnectorStage {
    Builder,
    Configure,
    Session,
}

/// The step that failed, and what OpenSSL reported.
#[derive(Debug)]
pub struct StageError<G> {
    pub stage: G,
    pub cause: ErrorStack,
}

/// Marks the failure of a step with the step.
pub fn at_stage<G, T>(stage: G, outcome: Result<T, ErrorStack>) -> (r: Result<T, StageError<G>>)
    ensures
        outcome matches Ok(value) ==> r == Ok::<T, StageError<G>>(value),
        outcome matches Err(cause) ==> r == Err::<T, StageError<G>>(StageError { stage, cause }),
{
    match outcome {
        Ok(value) => Ok(value),
        Err(cause) => Err(StageError { stage, cause }),
    }
}

/// Whether a certificate was read from a text.
pub open spec fn certificate_was_read(pem: Seq<u8>) -> bool {
    exists|certificate: X509| #[trigger] certificate_source(certificate) == pem
}

/// Whether a private key was read from a text.
pub open spec fn key_was_read(pem: Seq<u8>) -> bool {
    exists|key: PKey<Private>| #[trigger] key_source(key) == pem
}

/// Whether a builder came to hold these credentials.
pub open spec fn were_held(credentials: (Option<Seq<u8>>, Option<Seq<u8>>)) -> bool {
    exists|builder: SslAcceptorBuilder| #[trigger] builder_credentials(builder) == credentials
}

/// Whether setting up a server context for these PEM texts can end with this error: the steps
/// before the one that is named were taken, and the cause is what OpenSSL reported about that
/// step.
pub open spec fn acceptor_fails(
    certificate: Seq<u8>,
    private_key: Seq<u8>,
    error: StageError<AcceptorStage>,
) -> bool {
    let nothing = (None::<Seq<u8>>, None::<Seq<u8>>);
    let first = (Some(certificate), None::<Seq<u8>>);
    let both = (Some(certificate), Some(private_key));
    match error.stage {
        AcceptorStage::Builder => new_acceptor_reports(error.cause),
        AcceptorStage::ReadCertificate => {
            &&& were_held(nothing)
            &&& read_certificate_reports(certificate, error.cause)
        },
        AcceptorStage::SetCertificate => {
            &&& were_held(nothing)
            &&& certificate_was_read(certificate)
            &&& set_certificate_reports(nothing, certificate, error.cause)
        },
        AcceptorStage::ReadPrivateKey => {
            &&& were_held(first)
            &&& read_key_reports(private_key, error.cause)
        },
        AcceptorStage::SetPrivateKey => {
            &&& were_held(first)
            &&& key_was_read(private_key)
            &&& set_key_reports(first, private_key, error.cause)
        },
        AcceptorStage::CheckPrivateKey => {
            &&& were_held(both)
            &&& check_key_reports(both, error.cause)
        },
    }
}

/// Whether setting up a client session with a server can end with this error: the cause is what
/// OpenSSL reported about the step that is named, on a context that does not ask for
/// verification once there is one.
pub open spec fn connector_fails(domain: Seq<char>, error: StageError<ConnectorStage>) -> bool {
    match error.stage {
        ConnectorStage::Builder => new_connector_reports(error.cause),
        ConnectorStage::Configure => configure_reports(false, error.cause),
        ConnectorStage::Session => into_ssl_reports(false, domain, error.cause),
    }
}

/// Sets up the DTLS server context for a certificate and its private key, both as PEM text. Both
/// were read, the context presents exactly these, and they belong together; the first step that
/// OpenSSL refuses is the error, with what it reported.
pub fn ssl_acceptor(certificate: &[u8], private_key: &[u8]) -> (r: Result<
    SslContext,
    StageError<AcceptorStage>,
>)
    requires
        certificate@.len() <= i32::MAX,
        private_key@.len() <= i32::MAX,
    ensures
        r matches Ok(context) ==> context_credentials(context) == (
            Some(certificate@),
            Some(private_key@),
        ),
        r matches Ok(context) ==> context_is_dtls(context),
        r is Ok ==> certificate_was_read(certificate@) && key_was_read(private_key@),
        r is Ok ==> is_key_pair(certificate@, private_key@),
        r matches Err(error) ==> acceptor_fails(certificate@, private_key@, error),
{
    let mut builder = match at_stage(AcceptorStage::Builder, dtls_builder()) {
        Ok(builder) => builder,
        Err(e) => return Err(e),
    };
    let certificate = match at_stage(
        AcceptorStage::ReadCertificate,
        certificate_from_pem(certificate),
    ) {
        Ok(certificate) => certificate,
        Err(e) => return Err(e),
    };
    match at_stage(AcceptorStage::SetCertificate, set_certificate(&mut builder, &certificate)) {
        Ok(_) => {},
        Err(e) => return Err(e),
    }
    let key = match at_stage(AcceptorStage::ReadPrivateKey, key_from_pem(private_key)) {
        Ok(key) => key,
        Err(e) => return Err(e),
    };
    match at_stage(AcceptorStage::SetPrivateKey, set_private_key(&mut builder, &key)) {
        Ok(_) => {},
        Err(e) => return Err(e),
    }
    match at_stage(AcceptorStage::CheckPrivateKey, check_private_key(&builder)) {
        Ok(_) => Ok(into_context(builder)),
        Err(e) => Err(e),
    }
}

/// Sets up a server session of a context: it speaks the protocol of the context and presents its
/// credentials.
pub fn server_session(context: &SslContext) -> (r: Result<Ssl, StageError<SessionStage>>)
    ensures
        r matches Ok(session) ==> session_is_dtls(session) == context_is_dtls(*context),
        r matches Ok(session) ==> session_credentials(session) == context_credentials(*context),
        r matches Err(error) ==> new_session_reports(context_credentials(*context), error.cause),
{
    at_stage(SessionStage::Session, new_session(context))
}

/// Sets up the test client's DTLS session with the server `domain`. It does not ask the server for
/// a certificate that checks; the first step that OpenSSL refuses is the error, with what it
/// reported.
pub fn client_session(domain: &str) -> (r: Result<Ssl, StageError<ConnectorStage>>)
    requires
        !domain@.contains('\0'),
    ensures
        r matches Ok(session) ==> session_domain(session) == domain@ && !session_verifies(session),
        r matches Ok(session) ==> session_is_dtls(session),
        r matches Err(error) ==> connector_fails(domain@, error),
{
    let mut builder = match at_stage(ConnectorStage::Builder, dtls_connector()) {
        Ok(builder) => builder,
        Err(e) => return Err(e),
    };
    set_verify_none(&mut builder);
    let configuration = match at_stage(ConnectorStage::Configure, configure(builder)) {
        Ok(configuration) => configuration,
        Err(e) => return Err(e),
    };
    at_stage(ConnectorStage::Session, into_ssl(configuration, domain))
}

/// An error of setting up a server context is OpenSSL's own report on the step that it names, for
/// the texts that were given: on reading the certificate or the key it is about that text alone, on
/// putting one in it is about what was put in before, and on the check it is about both.
pub proof fn law_acceptor_error_is_about_its_step(
    certificate: Seq<u8>,
    private_key: Seq<u8>,
    error: StageError<AcceptorStage>,
)
    requires
        acceptor_fails(certificate, private_key, error),
    ensures
        error.stage is Builder ==> new_acceptor_reports(error.cause),
        error.stage is ReadCertificate ==> read_certificate_reports(certificate, error.cause),
        error.stage is SetCertificate ==> set_certificate_reports(
            (None, None),
            certificate,
            error.cause,
        ) && exists|read: X509| #[trigger] certificate_source(read) == certificate,
        error.stage is ReadPrivateKey ==> read_key_reports(private_key, error.cause),
        error.stage is SetPrivateKey ==> set_key_reports(
            (Some(certificate), None),
            private_key,
            error.cause,
        ) && exists|read: PKey<Private>| #[trigger] key_source(read) == private_key,
        error.stage is CheckPrivateKey ==> check_key_reports(
            (Some(certificate), Some(private_key)),
            error.cause,
        ),
        error.stage is ReadPrivateKey || error.stage is SetPrivateKey ==> exists|
            builder: SslAcceptorBuilder,
        | #[trigger] builder_credentials(builder) == (Some(certificate), None::<Seq<u8>>),
        error.stage is CheckPrivateKey ==> exists|builder: SslAcceptorBuilder| #[trigger]
            builder_credentials(builder) == (Some(certificate), Some(private_key)),
{
}

/// An error of setting up a client session is OpenSSL's own report on the step that it names, on a
/// session that takes any certificate and for the domain that was given.
pub proof fn law_connector_error_is_about_its_step(
    domain: Seq<char>,
    error: StageError<ConnectorStage>,
)
    requires
        connector_fails(domain, error),
    ensures
        error.stage is Builder ==> new_connector_reports(error.cause),
        error.stage is Configure ==> configure_reports(false, error.cause),
        error.stage is Session ==> into_ssl_reports(false, domain, error.cause),
{
}

} // verus!
