use openssl::asn1::Asn1Time;
use openssl::ec::{EcGroup, EcKey};
use openssl::error::ErrorStack;
use openssl::hash::MessageDigest;
use openssl::nid::Nid;
use openssl::pkey::{PKey, Private};
use openssl::rsa::Rsa;
use openssl::ssl::{NameType, SslVerifyMode};
use openssl::x509::{X509NameBuilder, X509};

use sgc_services::dtls::{
    dtls_listener, dtls_test_client, show, show_reply, EchoEvent, SessionStep, CLIENT_BUFFER_SIZE,
    CONNECT_ADDRESS, LISTEN_ADDRESS, SERVER_DOMAIN, UDP_BUFFER_SIZE, UDP_TIMEOUT,
};
use sgc_services::tls::{at_stage, client_session, server_session, ssl_acceptor, AcceptorStage};

fn key() -> PKey<Private> {
    PKey::from_rsa(Rsa::generate(2048).unwrap()).unwrap()
}

fn certificate(key: &PKey<Private>) -> X509 {
    let mut name = X509NameBuilder::new().unwrap();
    name.append_entry_by_text("CN", "pourali.com").unwrap();
    let name = name.build();
    let mut builder = X509::builder().unwrap();
    builder.set_subject_name(&name).unwrap();
    builder.set_issuer_name(&name).unwrap();
    builder.set_pubkey(key).unwrap();
    builder.set_not_before(&Asn1Time::days_from_now(0).unwrap()).unwrap();
    builder.set_not_after(&Asn1Time::days_from_now(1).unwrap()).unwrap();
    builder.sign(key, MessageDigest::sha256()).unwrap();
    builder.build()
}

#[test]
fn a_key_pair_makes_a_context() {
    let key = key();
    let certificate = certificate(&key);
    let context = ssl_acceptor(
        &certificate.to_pem().unwrap(),
        &key.private_key_to_pem_pkcs8().unwrap(),
    )
    .unwrap();
    let session = server_session(&context).unwrap();
    assert_eq!(
        session.certificate().unwrap().to_der().unwrap(),
        certificate.to_der().unwrap()
    );
    assert!(session.private_key().unwrap().public_eq(&key));
}

#[test]
fn the_stage_that_fails_is_reported() {
    let pair = key();
    let certificate = certificate(&pair).to_pem().unwrap();
    let pair_pem = pair.private_key_to_pem_pkcs8().unwrap();
    let stage = |certificate: &[u8], key: &[u8]| ssl_acceptor(certificate, key).err().unwrap().stage;
    assert_eq!(stage(b"no certificate", &pair_pem), AcceptorStage::ReadCertificate);
    assert_eq!(stage(b"", b""), AcceptorStage::ReadCertificate);
    assert_eq!(stage(&certificate, b"no key"), AcceptorStage::ReadPrivateKey);
    let foreign = key().private_key_to_pem_pkcs8().unwrap();
    assert_eq!(stage(&certificate, &foreign), AcceptorStage::SetPrivateKey);
    let group = EcGroup::from_curve_name(Nid::X9_62_PRIME256V1).unwrap();
    let other_kind = PKey::from_ec_key(EcKey::generate(&group).unwrap()).unwrap();
    assert_eq!(
        stage(&certificate, &other_kind.private_key_to_pem_pkcs8().unwrap()),
        AcceptorStage::CheckPrivateKey
    );
}

#[test]
fn the_error_holds_what_openssl_reported() {
    let reported = X509::from_pem(b"no certificate").err().unwrap();
    let error = ssl_acceptor(b"no certificate", b"no key").err().unwrap();
    assert_eq!(error.stage, AcceptorStage::ReadCertificate);
    assert!(!error.cause.errors().is_empty());
    assert_eq!(error.cause.errors()[0].code(), reported.errors()[0].code());
}

#[test]
fn the_client_asks_for_its_server_and_takes_any_certificate() {
    let session = client_session(SERVER_DOMAIN).unwrap();
    assert_eq!(session.servername(NameType::HOST_NAME), Some("pourali.com"));
    assert_eq!(session.verify_mode(), SslVerifyMode::NONE);
}

#[test]
fn outcomes_are_marked_with_their_stage() {
    assert_eq!(at_stage(AcceptorStage::Builder, Ok::<u8, ErrorStack>(3)).unwrap(), 3);
    let failure: Result<u8, ErrorStack> = Err(ErrorStack::get());
    assert_eq!(
        at_stage(AcceptorStage::CheckPrivateKey, failure).err().unwrap().stage,
        AcceptorStage::CheckPrivateKey
    );
}

#[test]
fn both_sides_speak_dtls() {
    let key = key();
    let context = ssl_acceptor(
        &certificate(&key).to_pem().unwrap(),
        &key.private_key_to_pem_pkcs8().unwrap(),
    )
    .unwrap();
    let server = server_session(&context).unwrap();
    let client = client_session(SERVER_DOMAIN).unwrap();
    assert!(server.version_str().starts_with("DTLS"));
    assert!(client.version_str().starts_with("DTLS"));
}

#[test]
fn the_server_writes_back_what_it_read() {
    let mut buffer = vec![0u8; UDP_BUFFER_SIZE];
    buffer[..5].copy_from_slice(b"hello");
    assert_eq!(
        dtls_listener(&buffer, EchoEvent::Read(5)),
        SessionStep::Echo(b"hello".to_vec())
    );
    assert_eq!(dtls_listener(&buffer, EchoEvent::Read(0)), SessionStep::Echo(vec![]));
    assert_eq!(
        dtls_listener(&buffer, EchoEvent::Read(UDP_BUFFER_SIZE)),
        SessionStep::Echo(buffer.clone())
    );
}

#[test]
fn the_server_reads_when_it_has_written() {
    let buffer = vec![0u8; UDP_BUFFER_SIZE];
    assert_eq!(dtls_listener(&buffer, EchoEvent::Accepted), SessionStep::Read(10000));
    assert_eq!(dtls_listener(&buffer, EchoEvent::Written), SessionStep::Read(10000));
}

#[test]
fn a_silent_or_broken_connection_is_given_up() {
    let buffer = vec![0u8; UDP_BUFFER_SIZE];
    assert_eq!(dtls_listener(&buffer, EchoEvent::TimedOut), SessionStep::Close);
    assert_eq!(dtls_listener(&buffer, EchoEvent::Failed), SessionStep::Close);
}

#[test]
fn a_session_writes_what_it_reads() {
    let mut buffer = vec![0u8; UDP_BUFFER_SIZE];
    let mut written = vec![];
    let mut step = dtls_listener(&buffer, EchoEvent::Accepted);
    for datagram in ["one ", "two", ""] {
        assert_eq!(step, SessionStep::Read(UDP_TIMEOUT));
        buffer[..datagram.len()].copy_from_slice(datagram.as_bytes());
        match dtls_listener(&buffer, EchoEvent::Read(datagram.len())) {
            SessionStep::Echo(bytes) => written.extend(bytes),
            other => panic!("{:?}", other),
        }
        step = dtls_listener(&buffer, EchoEvent::Written);
    }
    assert_eq!(written, b"one two".to_vec());
}

#[test]
fn the_client_sends_all_that_was_typed() {
    let mut client = dtls_test_client();
    assert_eq!(client.enter_line("one\n"), b"one\n".to_vec());
    assert_eq!(client.enter_line("zwö\n"), "one\nzwö\n".as_bytes().to_vec());
    assert_eq!(client.enter_line(""), "one\nzwö\n".as_bytes().to_vec());
}

#[test]
fn the_client_shows_the_reply() {
    assert_eq!(show("text"), "-> text");
    assert_eq!(show_reply(b"hello world", 5), "-> hello");
    assert_eq!(show_reply(b"", 0), "-> ");
    assert_eq!(show_reply(&[b'a', 0xff, b'b'], 3), "-> a\u{FFFD}b");
}

#[test]
fn an_echo_shows_what_was_typed() {
    let mut client = dtls_test_client();
    let mut server = vec![0u8; UDP_BUFFER_SIZE];
    let mut received = vec![0u8; CLIENT_BUFFER_SIZE];
    let mut shown = String::new();
    for line in ["grüße\n", "again\n"] {
        let message = client.enter_line(line);
        server[..message.len()].copy_from_slice(&message);
        match dtls_listener(&server, EchoEvent::Read(message.len())) {
            SessionStep::Echo(bytes) => {
                received[..bytes.len()].copy_from_slice(&bytes);
                shown = show_reply(&received, bytes.len());
            }
            other => panic!("{:?}", other),
        }
    }
    assert_eq!(shown, "-> grüße\nagain\n");
}

#[test]
fn the_settings_are_fixed() {
    assert_eq!(UDP_BUFFER_SIZE, 17480);
    assert_eq!(UDP_TIMEOUT, 10000);
    assert_eq!(CLIENT_BUFFER_SIZE, 1024);
    assert_eq!(LISTEN_ADDRESS, "127.0.0.1:8989");
    assert_eq!(CONNECT_ADDRESS, "127.0.0.1:8080");
    assert_eq!(SERVER_DOMAIN, "pourali.com");
}
