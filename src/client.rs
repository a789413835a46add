//! Building requests, preparing them for dispatch, and reading the outcome
//! of a call from its status and envelope.
use vstd::prelude::*;
use vstd::string::*;

use crate::credentials::AccessKeyCredential;
use crate::encoding::{is_valid_header, is_valid_header_text, signed_decimal_of, to_decimal};
use crate::errors::{Error, OtherError, OtherErrorView};
use crate::http::{headers_view, HttpRequest, HttpRequestView};
use crate::signer::Zc2HS256Signer;
use crate::{API_DOMAIN, SDK_VERSION};

verus! {

/// The request that [`Client::create_request`] describes for the given values.
pub open spec fn unsigned_request(
    service: Seq<char>,
    api_version: Seq<char>,
    action: Seq<char>,
    timestamp: int,
    body: Seq<u8>,
) -> HttpRequestView {
    HttpRequestView {
        method: "POST"@,
        url: "https://"@ + API_DOMAIN@ + "/api/v2/"@ + service,
        headers: seq![
            ("host"@, API_DOMAIN@),
            ("x-zc-version"@, api_version),
            ("x-zc-action"@, action),
            ("x-zc-timestamp"@, signed_decimal_of(timestamp)),
            ("x-zc-sdk-version"@, SDK_VERSION@),
            ("x-zc-sdk-lang"@, "rust"@),
            ("content-type"@, "application/json"@),
        ],
        body: Some(body),
    }
}

/// The name of the first header, in order, whose value cannot be stored.
pub open spec fn first_invalid_header(hs: Seq<(Seq<char>, Seq<char>)>) -> Option<Seq<char>>
    decreases hs.len(),
{
    if hs.len() == 0 {
        None
    } else if !is_valid_header_text(hs[0].1) {
        Some(hs[0].0)
    } else {
        first_invalid_header(hs.drop_first())
    }
}

/// What finalizing a built request gives: the request, or the header whose
/// value cannot be sent.
pub open spec fn build_outcome(req: HttpRequestView) -> Result<HttpRequestView, OtherErrorView> {
    match first_invalid_header(req.headers) {
        Some(name) => Err(OtherErrorView::InvalidHeaderValue(name)),
        None => Ok(req),
    }
}

/// The outcome of a call whose response had HTTP status `status` and
/// decoded to `envelope`: the status alone decides success.


/// Relies on `chrono::Local::now` and `DateTime::timestamp`: the current
/// time in whole seconds since the Unix epoch.
#[verifier::external_body]
fn unix_now() -> (r: i64) {
    chrono::Local::now().timestamp()
}

/// A request built by [`Client::create_request`], not yet finalized.
#[derive(Debug)]
pub struct Request {
    http: HttpRequest,
}

impl View for Request {
    type V = HttpRequestView;

    closed spec fn view(&self) -> HttpRequestView {
        self.http@
    }
}

impl Request {
    /// Finalizes the request for dispatch; fails on the first header whose
    /// value holds a control byte or DEL.
    pub fn build(self) -> (r: Result<HttpRequest, Error>)
        ensures
            match build_outcome(self@) {
                Ok(h) => r matches Ok(x) && x@ == h,
                Err(f) => r matches Err(Error::OtherErrors(e)) && e@ == f,
            },
    {
        let ghost hs = self.http@.headers;
        let mut i: usize = 0;
        assert(hs.subrange(0, hs.len() as int) =~= hs);
        while i < self.http.headers.len()
            invariant
                hs == headers_view(self.http.headers@),
                i <= hs.len(),
                first_invalid_header(hs) == first_invalid_header(hs.subrange(i as int, hs.len() as int)),
            decreases hs.len() - i,
        {
            let ghost rest = hs.subrange(i as int, hs.len() as int);
            assert(rest.drop_first() =~= hs.subrange(i + 1, hs.len() as int));
            if !is_valid_header(self.http.headers[i].1.as_str()) {
                return Err(Error::OtherErrors(OtherError::InvalidHeaderValue(self.http.headers[i].0.clone())));
            }
            i = i + 1;
        }
        Ok(self.http)
    }
}

/// The envelope of every response: a request id, and either the action's
/// result or an error code and message.
#[derive(Debug)]
pub struct Response<T> {
    pub request_id: String,
    /// The action's result, on success.
    pub response: Option<T>,
    /// The error code, on failure.
    pub code: Option<String>,
    /// The error message, on failure.
    pub message: Option<String>,
}

/// The text that `s` holds, empty where it is absent.
pub open spec fn text_or_empty(s: Option<String>) -> Seq<char> {
    match s {
        Some(t) => t@,
        None => Seq::empty(),
    }
}

fn or_empty(s: Option<String>) -> (r: String)
    ensures
        r@ == text_or_empty(s),
{
    match s {
        Some(t) => t,
        None => String::new(),
    }
}

/// Reads the outcome of a call from the response's status and envelope:
/// `Ok` with the envelope on a 2xx status, else an API error that carries
/// the request id, the status, and the code and message (empty where absent).
pub fn into_result<R>(status: u16, envelope: Response<R>) -> (r: Result<Response<R>, Error>)
    ensures
        if 200 <= status < 300 {
            r == Ok::<Response<R>, Error>(envelope)
        } else {
            r matches Err(Error::APIError { request_id, http_status, code, message })
                && request_id == envelope.request_id && http_status == status
                && code@ == text_or_empty(envelope.code) && message@ == text_or_empty(envelope.message)
        },
{
    if 200 <= status && status < 300 {
        Ok(envelope)
    } else {
        Err(Error::APIError {
            request_id: envelope.request_id,
            http_status: status,
            code: or_empty(envelope.code),
            message: or_empty(envelope.message),
        })
    }
}

/// The core of every service client: one signer, built once and reused.
pub struct Client {
    signer: Zc2HS256Signer,
}

impl Client {
    pub closed spec fn signer(&self) -> Zc2HS256Signer {
        self.signer
    }

    /// A client that signs with `credential`.
    pub fn new(credential: AccessKeyCredential) -> (r: Self)
        ensures
            r.signer().algorithm() == crate::signer::ALGORITHM@,
            r.signer().key_id() == credential.access_key_id@,
            r.signer().password() == credential.access_key_password@,
    {
        Client { signer: Zc2HS256Signer::new(credential) }
    }

    /// Builds the request for `action` of `service` at `api_version`, with the
    /// JSON `body` and the given Unix `timestamp` in seconds.
    pub fn create_request_at(
        &self,
        service: &str,
        api_version: &str,
        action: &str,
        body: Vec<u8>,
        timestamp: i64,
    ) -> (r: Request)
        ensures
            r@ == unsigned_request(service@, api_version@, action@, timestamp as int, body@),
    {
        let mut url = String::from_str("https://");
        url.append(API_DOMAIN);
        url.append("/api/v2/");
        url.append(service);
        let headers = vec![
            (String::from_str("host"), String::from_str(API_DOMAIN)),
            (String::from_str("x-zc-version"), String::from_str(api_version)),
            (String::from_str("x-zc-action"), String::from_str(action)),
            (String::from_str("x-zc-timestamp"), to_decimal(timestamp)),
            (String::from_str("x-zc-sdk-version"), String::from_str(SDK_VERSION)),
            (String::from_str("x-zc-sdk-lang"), String::from_str("rust")),
            (String::from_str("content-type"), String::from_str("application/json")),
        ];
        let http = HttpRequest { method: String::from_str("POST"), url, headers, body: Some(body) };
        let r = Request { http };
        assert(r@.headers =~= unsigned_request(service@, api_version@, action@, timestamp as int, body@).headers);
        assert(r@.url =~= unsigned_request(service@, api_version@, action@, timestamp as int, body@).url);
        r
    }

    /// Builds the request for `action` of `service` at `api_version`, with the
    /// JSON `body`, stamped with the current time.
    pub fn create_request(&self, service: &str, api_version: &str, action: &str, body: Vec<u8>) -> (r: Request)
        ensures
            exists|t: int| r@ == #[trigger] unsigned_request(service@, api_version@, action@, t, body@),
    {
        let timestamp = unix_now();
        self.create_request_at(service, api_version, action, body, timestamp)
    }

    /// Finalizes and signs `req`, ready for dispatch.
    pub fn prepare_request(&self, req: Request) -> (r: Result<HttpRequest, Error>)
        ensures
            match build_outcome(req@) {
                Err(f) => r matches Err(Error::OtherErrors(e)) && e@ == f,
                Ok(h) => match self.signer().outcome(h) {
                    Ok(auth) => r matches Ok(x) && x@ == h.with_header("authorization"@, auth)
                        .with_header("x-zc-signature-method"@, self.signer().algorithm()),
                    Err(f) => r matches Err(Error::OtherErrors(e)) && e@ == f,
                },
            },
    {
        let mut http = req.build()?;
        self.signer.sign_request(&mut http)?;
        Ok(http)
    }
}

} // verus!
