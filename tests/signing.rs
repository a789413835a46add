use hmac::Mac;
use sha2::Digest;
use zenlayercloud_sdk::client::Client;
use zenlayercloud_sdk::credentials::AccessKeyCredential;
use zenlayercloud_sdk::digest::{hex_hmac_sha256, hex_sha256};
use zenlayercloud_sdk::encoding::{is_readable_header, is_valid_header, to_decimal, to_hex};
use zenlayercloud_sdk::errors::{Error, OtherError};
use zenlayercloud_sdk::http::HttpRequest;
use zenlayercloud_sdk::signer::{Zc2HS256Signer, ALGORITHM};

fn credential() -> AccessKeyCredential {
    AccessKeyCredential::new("AKID123".to_string(), "s3cr3t".to_string())
}

fn sample_request(body: Option<Vec<u8>>) -> HttpRequest {
    let mut r = HttpRequest {
        method: "POST".to_string(),
        url: "https://console.zenlayer.com/api/v2/cdn".to_string(),
        headers: Vec::new(),
        body,
    };
    r.set_header("host", "console.zenlayer.com".to_string());
    r.set_header("x-zc-timestamp", "1700000000".to_string());
    r.set_header("content-type", "application/json".to_string());
    r
}

fn sha256_hex(data: &[u8]) -> String {
    sha2::Sha256::digest(data).iter().map(|b| format!("{:02x}", b)).collect()
}

fn expected_authorization(key_id: &str, password: &str, ct: &str, host: &str, ts: &str, body: &[u8]) -> String {
    let canonical = format!(
        "POST\n/\n\ncontent-type:{}\nhost:{}\n\ncontent-type;host\n{}",
        ct,
        host,
        sha256_hex(body)
    );
    let to_sign = format!("ZC2-HMAC-SHA256\n{}\n{}", ts, sha256_hex(canonical.as_bytes()));
    let mut mac = hmac::Hmac::<sha2::Sha256>::new_from_slice(password.as_bytes()).unwrap();
    mac.update(to_sign.as_bytes());
    let sig: String = mac.finalize().into_bytes().iter().map(|b| format!("{:02x}", b)).collect();
    format!(
        "ZC2-HMAC-SHA256 Credential={}, SignedHeaders=content-type;host, Signature={}",
        key_id, sig
    )
}

fn authorization(req: &HttpRequest) -> Option<String> {
    req.header("authorization").cloned()
}

#[test]
fn hex_encodes_two_lowercase_digits_per_byte() {
    assert_eq!(to_hex(&[0x00, 0x0f, 0xab, 0xff]), "000fabff");
    assert_eq!(to_hex(&[]), "");
}

#[test]
fn decimal_text_of_integers() {
    assert_eq!(to_decimal(0), "0");
    assert_eq!(to_decimal(1700000000), "1700000000");
    assert_eq!(to_decimal(-42), "-42");
    assert_eq!(to_decimal(i64::MIN), "-9223372036854775808");
    assert_eq!(to_decimal(i64::MAX), "9223372036854775807");
}

#[test]
fn sha256_hex_of_known_inputs() {
    assert_eq!(hex_sha256(b""), "e3b0c44298fc1c149afbf4c8996fb92427ae41e4649b934ca495991b7852b855");
    assert_eq!(hex_sha256(b"abc"), "ba7816bf8f01cfea414140de5dae2223b00361a396177a9cb410ff61f20015ad");
}

#[test]
fn hmac_sha256_hex_of_known_inputs() {
    assert_eq!(
        hex_hmac_sha256(b"Jefe", b"what do ya want for nothing?"),
        "5bdcc146bf60754e6a042426089575c75a003f089d2739839dec58b964ec3843"
    );
}

#[test]
fn header_text_rules() {
    assert!(is_readable_header("application/json\t1"));
    assert!(!is_readable_header("h\u{e9}"));
    assert!(!is_readable_header("a\nb"));
    assert!(is_valid_header("h\u{e9}"));
    assert!(!is_valid_header("a\nb"));
    assert!(!is_valid_header("a\u{7f}"));
}

#[test]
fn later_header_value_overrides_earlier() {
    let mut r = sample_request(None);
    r.set_header("host", "example.com".to_string());
    assert_eq!(r.header("host").map(|s| s.as_str()), Some("example.com"));
    assert_eq!(r.headers.len(), 3);
    assert_eq!(r.headers[2].0, "host");
    assert_eq!(r.header("x-zc-action"), None);
}

#[test]
fn signature_matches_independent_computation() {
    let body = b"{\"pageSize\":10}".to_vec();
    let mut req = sample_request(Some(body.clone()));
    let signer = Zc2HS256Signer::new(credential());
    assert!(signer.sign_request(&mut req).is_ok());
    let expected = expected_authorization(
        "AKID123",
        "s3cr3t",
        "application/json",
        "console.zenlayer.com",
        "1700000000",
        &body,
    );
    assert_eq!(authorization(&req), Some(expected));
    assert_eq!(req.header("x-zc-signature-method").map(|s| s.as_str()), Some(ALGORITHM));
    assert_eq!(req.body, Some(body));
}

#[test]
fn signing_twice_gives_identical_signatures() {
    let signer = Zc2HS256Signer::new(credential());
    let mut a = sample_request(Some(b"{}".to_vec()));
    let mut b = sample_request(Some(b"{}".to_vec()));
    assert!(signer.sign_request(&mut a).is_ok());
    assert!(signer.sign_request(&mut b).is_ok());
    assert_eq!(authorization(&a), authorization(&b));
    let first = authorization(&a);
    assert!(signer.sign_request(&mut a).is_ok());
    assert_eq!(authorization(&a), first);
}

#[test]
fn payload_hash_changes_with_body() {
    assert_ne!(hex_sha256(b"{}"), hex_sha256(b"{ }"));
    assert_eq!(hex_sha256(b"{}"), hex_sha256(b"{}"));
}

#[test]
fn tampering_with_signed_fields_changes_signature() {
    let signer = Zc2HS256Signer::new(credential());
    let mut base = sample_request(Some(b"{}".to_vec()));
    assert!(signer.sign_request(&mut base).is_ok());
    let original = authorization(&base);

    let mut body = sample_request(Some(b"{\"a\":1}".to_vec()));
    assert!(signer.sign_request(&mut body).is_ok());
    assert_ne!(authorization(&body), original);

    for (name, value) in [
        ("content-type", "text/plain"),
        ("host", "evil.example.com"),
        ("x-zc-timestamp", "1700000001"),
    ] {
        let mut t = sample_request(Some(b"{}".to_vec()));
        t.set_header(name, value.to_string());
        assert!(signer.sign_request(&mut t).is_ok());
        assert_ne!(authorization(&t), original, "{}", name);
    }

    let mut unsigned = sample_request(Some(b"{}".to_vec()));
    unsigned.set_header("x-zc-action", "Other".to_string());
    assert!(signer.sign_request(&mut unsigned).is_ok());
    assert_eq!(authorization(&unsigned), original);
}

#[test]
fn signing_without_body_fails_and_adds_no_header() {
    let signer = Zc2HS256Signer::new(credential());
    let mut req = sample_request(None);
    let before = req.headers.clone();
    let r = signer.sign_request(&mut req);
    assert!(matches!(r, Err(Error::OtherErrors(OtherError::MissingBody))));
    assert_eq!(authorization(&req), None);
    assert_eq!(req.headers, before);
}

#[test]
fn signing_without_content_type_fails() {
    let signer = Zc2HS256Signer::new(credential());
    let mut req = HttpRequest {
        method: "POST".to_string(),
        url: String::new(),
        headers: vec![("host".to_string(), "console.zenlayer.com".to_string())],
        body: Some(Vec::new()),
    };
    match signer.sign_request(&mut req) {
        Err(Error::OtherErrors(OtherError::MissingHeader(n))) => assert_eq!(n, "content-type"),
        other => panic!("unexpected {:?}", other),
    }
}

#[test]
fn signing_without_timestamp_fails() {
    let signer = Zc2HS256Signer::new(credential());
    let mut req = HttpRequest {
        method: "POST".to_string(),
        url: String::new(),
        headers: vec![
            ("host".to_string(), "console.zenlayer.com".to_string()),
            ("content-type".to_string(), "application/json".to_string()),
        ],
        body: Some(Vec::new()),
    };
    match signer.sign_request(&mut req) {
        Err(Error::OtherErrors(OtherError::MissingHeader(n))) => assert_eq!(n, "x-zc-timestamp"),
        other => panic!("unexpected {:?}", other),
    }
}

#[test]
fn signing_with_unreadable_host_fails() {
    let signer = Zc2HS256Signer::new(credential());
    let mut req = sample_request(Some(Vec::new()));
    req.set_header("host", "h\u{e9}te".to_string());
    match signer.sign_request(&mut req) {
        Err(Error::OtherErrors(OtherError::UnreadableHeader(n))) => assert_eq!(n, "host"),
        other => panic!("unexpected {:?}", other),
    }
}

#[test]
fn signing_with_unsendable_key_id_fails() {
    let signer = Zc2HS256Signer::new(AccessKeyCredential::new("bad\nid".to_string(), "pw".to_string()));
    let mut req = sample_request(Some(Vec::new()));
    match signer.sign_request(&mut req) {
        Err(Error::OtherErrors(OtherError::InvalidHeaderValue(n))) => assert_eq!(n, "authorization"),
        other => panic!("unexpected {:?}", other),
    }
    assert_eq!(authorization(&req), None);
}

#[test]
fn prepared_request_is_built_and_signed() {
    let client = Client::new(credential());
    let body = b"{}".to_vec();
    let req = client.create_request_at("cdn", "2024-02-29", "DescribeCertificates", body.clone(), 1700000000);
    let http = client.prepare_request(req).unwrap();
    assert_eq!(http.method, "POST");
    assert_eq!(http.url, "https://console.zenlayer.com/api/v2/cdn");
    assert_eq!(http.header("x-zc-action").map(|s| s.as_str()), Some("DescribeCertificates"));
    assert_eq!(http.header("x-zc-version").map(|s| s.as_str()), Some("2024-02-29"));
    assert_eq!(http.header("x-zc-timestamp").map(|s| s.as_str()), Some("1700000000"));
    assert_eq!(http.header("x-zc-sdk-lang").map(|s| s.as_str()), Some("rust"));
    let expected = expected_authorization(
        "AKID123",
        "s3cr3t",
        "application/json",
        "console.zenlayer.com",
        "1700000000",
        &body,
    );
    assert_eq!(authorization(&http), Some(expected));
}
