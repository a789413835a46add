//! The content delivery network service: its client and the certificate
//! actions' request and result types.
use vstd::prelude::*;

use crate::client::{unsigned_request, Request};
use crate::credentials::AccessKeyCredential;

verus! {

/// The API version of the service.
pub const API_VERSION: &'static str = "2024-02-29";

/// The service name, the last segment of its URL.
pub const SERVICE: &'static str = "cdn";

pub const DESCRIBE_CERTIFICATES: &'static str = "DescribeCertificates";
pub const CREATE_CERTIFICATE: &'static str = "CreateCertificate";
pub const MODIFY_CERTIFICATE: &'static str = "ModifyCertificate";
pub const DELETE_CERTIFICATE: &'static str = "DeleteCertificate";

/// A client of the service, over the shared signing core.
pub struct Client {
    client: crate::client::Client,
}

impl Client {
    /// A client that signs with `credential`.
    pub fn new(credential: AccessKeyCredential) -> (r: Self)
        ensures
            r.sdk().signer().key_id() == credential.access_key_id@,
            r.sdk().signer().password() == credential.access_key_password@,
    {
        Client { client: crate::client::Client::new(credential) }
    }

    pub closed spec fn sdk(&self) -> crate::client::Client {
        self.client
    }

    /// The signing core that requests of this service go through.
    pub fn sdk_client(&self) -> (r: &crate::client::Client)
        ensures
            *r == self.sdk(),
    {
        &self.client
    }

    /// Builds the request for `action` of this service with the JSON `body`,
    /// stamped with the current time.
    pub fn create_request(&self, action: &str, body: Vec<u8>) -> (r: Request)
        ensures
            exists|t: int| r@ == #[trigger] unsigned_request(SERVICE@, API_VERSION@, action@, t, body@),
    {
        self.client.create_request(SERVICE, API_VERSION, action, body)
    }
}

/// A certificate as the service describes it. Times are Unix seconds.
#[derive(Debug, Clone)]
pub struct CertificateInfo {
    pub certificate_id: Option<String>,
    pub certificate_label: String,
    pub common: String,
    pub fingerprint: String,
    pub issuer: String,
    pub sans: Vec<String>,
    pub algorithm: String,
    pub create_time: i64,
    pub start_time: i64,
    pub end_time: i64,
    pub expired: bool,
    pub resource_group_id: Option<String>,
}

/// Filters and paging of a certificate listing; every field is optional.
#[derive(Debug, Clone)]
pub struct DescribeCertificatesRequest {
    pub certificate_ids: Option<Vec<String>>,
    pub certificate_label: Option<String>,
    pub san: Option<String>,
    pub resource_group_id: Option<String>,
    pub expired: Option<bool>,
    pub page_size: Option<u16>,
    pub page_num: Option<u16>,
}

impl DescribeCertificatesRequest {
    /// A listing with no filter and the default paging.
    pub fn new() -> (r: Self)
        ensures
            r.certificate_ids is None,
            r.certificate_label is None,
            r.san is None,
            r.resource_group_id is None,
            r.expired is None,
            r.page_size is None,
            r.page_num is None,
    {
        DescribeCertificatesRequest {
            certificate_ids: None,
            certificate_label: None,
            san: None,
            resource_group_id: None,
            expired: None,
            page_size: None,
            page_num: None,
        }
    }
}

/// One page of a certificate listing.
#[derive(Debug, Clone)]
pub struct DescribeCertificatesResponse {
    pub total_count: u16,
    pub data_set: Vec<CertificateInfo>,
}

#[derive(Debug, Clone)]
pub struct CreateCertificateRequest {
    pub certificate_content: String,
    pub certificate_key: String,
    pub certificate_label: Option<String>,
    pub san: Option<String>,
    pub resource_group_id: Option<String>,
}

#[derive(Debug, Clone)]
pub struct CreateCertificateResponse {
    pub certificate_id: String,
}

#[derive(Debug, Clone)]
pub struct ModifyCertificateRequest {
    pub certificate_id: String,
    pub certificate_content: String,
    pub certificate_key: String,
}

#[derive(Debug, Clone)]
pub struct ModifyCertificateResponse {
    pub certificate_id: String,
}

#[derive(Debug, Clone)]
pub struct DeleteCertificateRequest {
    pub certificate_id: String,
}

#[derive(Debug, Clone)]
pub struct DeleteCertificateResponse {
    pub request_id: String,
}

} // verus!
