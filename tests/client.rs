use zenlayercloud_sdk::cdn::{self, CertificateInfo, DescribeCertificatesRequest, DescribeCertificatesResponse};
use zenlayercloud_sdk::client::{into_result, Client, Response};
use zenlayercloud_sdk::credentials::AccessKeyCredential;
use zenlayercloud_sdk::errors::{Error, OtherError};
use zenlayercloud_sdk::{API_DOMAIN, SDK_VERSION};

fn credential() -> AccessKeyCredential {
    AccessKeyCredential::new("id".to_string(), "pw".to_string())
}

#[test]
fn built_request_carries_fixed_headers_and_body() {
    let client = Client::new(credential());
    let req = client.create_request_at("cdn", "2024-02-29", "CreateCertificate", b"{\"x\":1}".to_vec(), 42);
    let http = req.build().unwrap();
    let names: Vec<&str> = http.headers.iter().map(|h| h.0.as_str()).collect();
    assert_eq!(
        names,
        vec![
            "host",
            "x-zc-version",
            "x-zc-action",
            "x-zc-timestamp",
            "x-zc-sdk-version",
            "x-zc-sdk-lang",
            "content-type"
        ]
    );
    assert_eq!(http.header("host").map(|s| s.as_str()), Some(API_DOMAIN));
    assert_eq!(http.header("x-zc-sdk-version").map(|s| s.as_str()), Some(SDK_VERSION));
    assert_eq!(http.header("content-type").map(|s| s.as_str()), Some("application/json"));
    assert_eq!(http.header("x-zc-timestamp").map(|s| s.as_str()), Some("42"));
    assert_eq!(http.body, Some(b"{\"x\":1}".to_vec()));
}

#[test]
fn build_rejects_header_value_with_line_break() {
    let client = Client::new(credential());
    let req = client.create_request_at("cdn", "2024-02-29", "Bad\nAction", Vec::new(), 1);
    match req.build() {
        Err(Error::OtherErrors(OtherError::InvalidHeaderValue(n))) => assert_eq!(n, "x-zc-action"),
        other => panic!("unexpected {:?}", other),
    }
}

#[test]
fn current_time_request_has_decimal_timestamp() {
    let client = Client::new(credential());
    let http = client.create_request("cdn", "2024-02-29", "DescribeCertificates", b"{}".to_vec()).build().unwrap();
    let ts = http.header("x-zc-timestamp").unwrap();
    assert!(!ts.is_empty());
    assert!(ts.chars().all(|c| c.is_ascii_digit()));
    assert!(ts.parse::<i64>().unwrap() > 1_600_000_000);
}

#[test]
fn cdn_client_targets_cdn_service() {
    let c = cdn::Client::new(credential());
    let http = c.create_request(cdn::DESCRIBE_CERTIFICATES, b"{}".to_vec()).build().unwrap();
    assert_eq!(http.url, "https://console.zenlayer.com/api/v2/cdn");
    assert_eq!(http.header("x-zc-version").map(|s| s.as_str()), Some(cdn::API_VERSION));
    assert_eq!(http.header("x-zc-action").map(|s| s.as_str()), Some("DescribeCertificates"));
    assert!(c.sdk_client().prepare_request(c.create_request(cdn::DELETE_CERTIFICATE, b"{}".to_vec())).is_ok());
}

#[test]
fn success_status_returns_envelope() {
    let envelope = Response {
        request_id: "r1".to_string(),
        response: Some(DescribeCertificatesResponse { total_count: 0, data_set: Vec::new() }),
        code: None,
        message: None,
    };
    let r = into_result(200, envelope).unwrap();
    assert_eq!(r.request_id, "r1");
    assert_eq!(r.response.unwrap().total_count, 0);
}

#[test]
fn success_status_without_response_is_still_success() {
    let envelope: Response<DescribeCertificatesResponse> = Response {
        request_id: "r3".to_string(),
        response: None,
        code: Some("Ignored".to_string()),
        message: None,
    };
    let r = into_result(204, envelope).unwrap();
    assert!(r.response.is_none());
}

#[test]
fn failure_status_returns_api_error() {
    let envelope: Response<DescribeCertificatesResponse> = Response {
        request_id: "r2".to_string(),
        response: None,
        code: Some("InvalidParam".to_string()),
        message: Some("bad field".to_string()),
    };
    match into_result(400, envelope) {
        Err(Error::APIError { request_id, http_status, code, message }) => {
            assert_eq!(request_id, "r2");
            assert_eq!(http_status, 400);
            assert_eq!(code, "InvalidParam");
            assert_eq!(message, "bad field");
        }
        other => panic!("unexpected {:?}", other),
    }
}

#[test]
fn failure_without_code_defaults_to_empty() {
    let envelope: Response<DescribeCertificatesResponse> = Response {
        request_id: "r4".to_string(),
        response: None,
        code: None,
        message: None,
    };
    match into_result(500, envelope) {
        Err(Error::APIError { http_status, code, message, .. }) => {
            assert_eq!(http_status, 500);
            assert_eq!(code, "");
            assert_eq!(message, "");
        }
        other => panic!("unexpected {:?}", other),
    }
    let redirect: Response<DescribeCertificatesResponse> =
        Response { request_id: "r5".to_string(), response: None, code: None, message: None };
    assert!(matches!(into_result(300, redirect), Err(Error::APIError { http_status: 300, .. })));
}

#[test]
fn missing_credentials_fail_before_any_request() {
    match AccessKeyCredential::from_values(None, None) {
        Err(Error::OtherErrors(OtherError::MissingCredential(n))) => {
            assert_eq!(n, "ZENLAYER_CLOUD_ACCESS_KEY_ID")
        }
        other => panic!("unexpected {:?}", other),
    }
    match AccessKeyCredential::from_values(Some("id".to_string()), None) {
        Err(Error::OtherErrors(OtherError::MissingCredential(n))) => {
            assert_eq!(n, "ZENLAYER_CLOUD_ACCESS_KEY_PASSWORD")
        }
        other => panic!("unexpected {:?}", other),
    }
    let c = AccessKeyCredential::from_values(Some("id".to_string()), Some("pw".to_string())).unwrap();
    assert_eq!(c.access_key_id, "id");
    assert_eq!(c.access_key_password, "pw");
}

#[test]
fn describe_request_defaults_to_no_filter() {
    let r = DescribeCertificatesRequest::new();
    assert!(r.certificate_ids.is_none() && r.page_size.is_none() && r.expired.is_none());
    let info = CertificateInfo {
        certificate_id: None,
        certificate_label: "l".to_string(),
        common: "c".to_string(),
        fingerprint: "f".to_string(),
        issuer: "i".to_string(),
        sans: vec!["a.example.com".to_string()],
        algorithm: "RSA".to_string(),
        create_time: 1,
        start_time: 2,
        end_time: 3,
        expired: false,
        resource_group_id: None,
    };
    let page = DescribeCertificatesResponse { total_count: 1, data_set: vec![info] };
    assert_eq!(page.data_set.len(), 1);
}
