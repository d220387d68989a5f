use crypto::mac::Mac;
use rustc_hex::ToHex;
use sonmhub::secure::{check_code, verify, Forbidden};
use sonmhub::server::{check_headers, Admission, ErrorKind, Event, Server};

fn hmac_hex(key: &[u8], data: &[u8]) -> String {
    let mut hmac = crypto::hmac::Hmac::new(crypto::sha1::Sha1::new(), key);
    hmac.input(data);
    hmac.result().code().to_hex()
}

fn hex_bytes(s: &str) -> Vec<u8> {
    (0..s.len() / 2)
        .map(|i| u8::from_str_radix(&s[2 * i..2 * i + 2], 16).unwrap())
        .collect()
}

#[test]
fn verify_accepts_known_hmac_sha1_vectors() {
    let key = [0x0bu8; 20];
    let code = hex_bytes("b617318655057264e28bc0b6fb378c8ef146be00");
    assert_eq!(verify(b"Hi There", &key, &code), Ok(()));
    let code = hex_bytes("effcdf6ae5eb2fa2d27416d5f184df9c259a7c79");
    assert_eq!(verify(b"what do ya want for nothing?", b"Jefe", &code), Ok(()));
}

#[test]
fn verify_rejects_single_bit_flips() {
    let key = b"Jefe";
    let data = b"what do ya want for nothing?";
    let code = hex_bytes("effcdf6ae5eb2fa2d27416d5f184df9c259a7c79");
    let mut flipped = code.clone();
    flipped[7] ^= 0x10;
    assert_eq!(verify(data, key, &flipped), Err(Forbidden));
    let mut data2 = data.to_vec();
    data2[0] ^= 0x01;
    assert_eq!(verify(&data2, key, &code), Err(Forbidden));
    assert_eq!(verify(data, b"Jeff", &code), Err(Forbidden));
}

#[test]
fn verify_rejects_signature_of_other_length() {
    let code = hex_bytes("effcdf6ae5eb2fa2d27416d5f184df9c259a7c79");
    assert_eq!(verify(b"what do ya want for nothing?", b"Jefe", &code[..19]), Err(Forbidden));
    assert_eq!(verify(b"what do ya want for nothing?", b"Jefe", &[]), Err(Forbidden));
}

#[test]
fn ping_without_signature_is_accepted() {
    assert!(matches!(check_headers(Some(b"ping"), None), Admission::Ping));
}

#[test]
fn missing_event_header_is_not_found() {
    match check_headers(None, Some(b"sha1=0000000000000000000000000000000000000000")) {
        Admission::Reject(k) => {
            assert_eq!(k, ErrorKind::GitHubEventHeaderRequired);
            assert_eq!(k.status_code(), 404);
            assert_eq!(k.message(), "header `X-GitHub-Event` is required");
        }
        _ => panic!("expected a rejection"),
    }
}

#[test]
fn signature_header_of_wrong_length_counts_as_missing() {
    for header in [
        &b"sha1=000000000000000000000000000000000000000"[..],
        &b"sha1=00000000000000000000000000000000000000000"[..],
        &b"sha1="[..],
        &b""[..],
    ] {
        match check_headers(Some(b"push"), Some(header)) {
            Admission::Reject(k) => {
                assert_eq!(k, ErrorKind::GitHubSignatureHeaderRequired);
                assert_eq!(k.status_code(), 401);
                assert_eq!(k.message(), "header `X-Hub-Signature` is required");
            }
            _ => panic!("expected a rejection"),
        }
    }
    assert!(matches!(
        check_headers(Some(b"push"), None),
        Admission::Reject(ErrorKind::GitHubSignatureHeaderRequired)
    ));
}

#[test]
fn signature_header_with_other_algorithm_is_unsupported() {
    match check_headers(Some(b"push"), Some(b"sha2=0000000000000000000000000000000000000000")) {
        Admission::Reject(k) => {
            assert_eq!(k, ErrorKind::UnsupportedHMACMethod);
            assert_eq!(k.status_code(), 401);
            assert_eq!(k.message(), "unsupported HMAC method");
        }
        _ => panic!("expected a rejection"),
    }
}

#[test]
fn signature_header_with_bad_hex_is_invalid() {
    match check_headers(Some(b"push"), Some(b"sha1=zz00000000000000000000000000000000000000")) {
        Admission::Reject(k) => {
            assert_eq!(k, ErrorKind::InvalidSignatureHeader);
            assert_eq!(k.status_code(), 401);
            assert_eq!(k.message(), "invalid `X-Hub-Signature` header");
        }
        _ => panic!("expected a rejection"),
    }
}

#[test]
fn signature_header_is_decoded() {
    match check_headers(Some(b"push"), Some(b"sha1=EFFCDF6AE5EB2FA2d27416d5f184df9c259a7c79")) {
        Admission::ReadBody(code) => {
            assert_eq!(code, hex_bytes("effcdf6ae5eb2fa2d27416d5f184df9c259a7c79"))
        }
        _ => panic!("expected a decoded signature"),
    }
}

#[test]
fn signed_json_body_is_accepted_and_serialized_as_one_line() {
    let server = Server::with_secret((), b"topsecret".to_vec());
    let body = br#"{"zen":"x"}"#;
    let header = format!("sha1={}", hmac_hex(b"topsecret", body));
    let code = match check_headers(Some(b"push"), Some(header.as_bytes())) {
        Admission::ReadBody(code) => code,
        _ => panic!("expected a decoded signature"),
    };
    match server.accept(body, &code) {
        Ok(event) => {
            assert_eq!(event, Event::Log(r#"{"zen":"x"}"#.to_string()));
            assert_eq!(event.log_line(), "{\"zen\":\"x\"}\n");
        }
        Err(k) => panic!("refused: {:?}", k),
    }
}

#[test]
fn body_with_wrong_signature_is_forbidden() {
    let server = Server::with_secret((), b"topsecret".to_vec());
    let body = br#"{"zen":"x"}"#;
    let code = hex_bytes(&hmac_hex(b"othersecret", body));
    match server.accept(body, &code) {
        Err(k) => {
            assert_eq!(k, ErrorKind::Forbidden);
            assert_eq!(k.status_code(), 401);
        }
        Ok(_) => panic!("expected a refusal"),
    }
}

#[test]
fn signed_body_that_is_not_json_is_refused() {
    let server = Server::with_secret((), b"topsecret".to_vec());
    let body = b"{zen";
    let code = hex_bytes(&hmac_hex(b"topsecret", body));
    match server.accept(body, &code) {
        Err(k) => {
            assert_eq!(k, ErrorKind::InvalidPayload);
            assert_eq!(k.status_code(), 400);
        }
        Ok(_) => panic!("expected a refusal"),
    }
}

#[test]
fn default_server_uses_built_in_secret() {
    let server = Server::new(());
    assert_eq!(server.secret, b"<secret>".to_vec());
    let body = b"{}";
    let code = hex_bytes(&hmac_hex(b"<secret>", body));
    assert_eq!(server.verify(body, &code), Ok(()));
}

#[test]
fn shutting_down_is_a_server_error() {
    assert_eq!(ErrorKind::ShuttingDown.status_code(), 500);
    assert_eq!(ErrorKind::ShuttingDown.message(), "shutting down");
}

#[test]
fn codes_are_compared_whole() {
    assert_eq!(check_code(&[1, 2, 3], &[1, 2, 3]), Ok(()));
    assert_eq!(check_code(&[1, 2, 3], &[1, 2, 4]), Err(Forbidden));
    assert_eq!(check_code(&[1, 2, 3], &[1, 2]), Err(Forbidden));
    assert_eq!(check_code(&[], &[]), Ok(()));
}

#[test]
fn verify_handles_empty_key_and_data() {
    let code = hex_bytes("fbdb1d1b18aa6c08324b7d64b71fb76370690e1d");
    assert_eq!(verify(b"", b"", &code), Ok(()));
    assert_eq!(verify(b"", b"", &[]), Err(Forbidden));
}

#[test]
fn accepted_events_keep_their_order_in_the_log() {
    let runtime = tokio::runtime::Builder::new_current_thread().build().unwrap();
    let lines = runtime.block_on(async {
        let (tx, mut rx) = tokio::sync::mpsc::channel::<Event>(1024);
        let server = Server::with_secret(tx, b"topsecret".to_vec());
        for body in [&br#"{"zen":"x"}"#[..], &br#"{"zen":"y"}"#[..]] {
            let code = hex_bytes(&hmac_hex(b"topsecret", body));
            let event = server.accept(body, &code).unwrap();
            server.tx.send(event).await.unwrap();
        }
        drop(server);
        let mut log = String::new();
        while let Some(event) = rx.recv().await {
            log.push_str(&event.log_line());
        }
        log
    });
    assert_eq!(lines, "{\"zen\":\"x\"}\n{\"zen\":\"y\"}\n");
}

#[test]
fn signature_with_spaces_among_digits_is_invalid() {
    let header = b"sha1=effcdf6ae5eb2fa2d27416d5f184df9c259a7c  ";
    assert_eq!(header.len(), 45);
    assert!(matches!(
        check_headers(Some(b"push"), Some(header)),
        Admission::Reject(ErrorKind::InvalidSignatureHeader)
    ));
    let header = b"sha1=effcdf6ae5eb2fa2 27416d5f184df9c259a7c79";
    assert!(matches!(
        check_headers(Some(b"push"), Some(header)),
        Admission::Reject(ErrorKind::InvalidSignatureHeader)
    ));
}

#[test]
fn body_is_logged_in_canonical_form() {
    let server = Server::with_secret((), b"k".to_vec());
    let body = b"{ \"zen\" :  \"x\" }";
    let code = hex_bytes(&hmac_hex(b"k", body));
    let event = server.accept(body, &code).unwrap();
    assert_eq!(event.log_line(), "{\"zen\":\"x\"}\n");
}
