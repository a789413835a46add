//! The ZC2-HMAC-SHA256 request signature.
//!
//! The signature binds the method, the `content-type` and `host` headers,
//! the `x-zc-timestamp` header and the body. It is the HMAC-SHA256, keyed by
//! the access key password, of a string to sign that holds the algorithm,
//! the timestamp and the hash of a canonical request.
use vstd::prelude::*;
use vstd::string::*;

use crate::credentials::AccessKeyCredential;
use crate::digest::{hex_hmac_sha256, hex_hmac_sha256_of, hex_sha256, hex_sha256_of};
use crate::encoding::{
    is_readable_header, is_readable_header_text, is_valid_header, is_valid_header_text, utf8_of,
};
use crate::errors::{Error, OtherError, OtherErrorView};
use crate::http::{HttpRequest, HttpRequestView};

verus! {

/// The name of the signature algorithm.
pub const ALGORITHM: &'static str = "ZC2-HMAC-SHA256";

/// The headers that the signature covers, in canonical order.
pub open spec fn signed_headers() -> Seq<char> {
    "content-type;host"@
}

/// The canonical header block: each signed header as `name:value` and a newline.
pub open spec fn canonical_headers(content_type: Seq<char>, host: Seq<char>) -> Seq<char> {
    "content-type:"@ + content_type + "\nhost:"@ + host + "\n"@
}

/// The canonical request: method, path `/`, an empty query, the canonical
/// header block, the signed header list and the payload hash, one per line.
pub open spec fn canonical_request(
    method: Seq<char>,
    content_type: Seq<char>,
    host: Seq<char>,
    payload_hash: Seq<char>,
) -> Seq<char> {
    method + "\n/\n\n"@ + canonical_headers(content_type, host) + "\n"@ + signed_headers() + "\n"@
        + payload_hash
}

/// The string to sign: algorithm, timestamp and the hash of the canonical
/// request, one per line.
pub open spec fn string_to_sign(algorithm: Seq<char>, timestamp: Seq<char>, canonical: Seq<char>) -> Seq<char> {
    algorithm + "\n"@ + timestamp + "\n"@ + hex_sha256_of(utf8_of(canonical))
}

/// The signature: hex HMAC-SHA256 of the string to sign under the password.
pub open spec fn signature_of(password: Seq<char>, to_sign: Seq<char>) -> Seq<char> {
    hex_hmac_sha256_of(utf8_of(password), utf8_of(to_sign))
}

/// The value of the `authorization` header.
pub open spec fn authorization_of(algorithm: Seq<char>, key_id: Seq<char>, signature: Seq<char>) -> Seq<char> {
    algorithm + " Credential="@ + key_id + ", SignedHeaders="@ + signed_headers() + ", Signature="@
        + signature
}

/// The `authorization` value for a request whose signed fields are given.
pub open spec fn authorization_for(
    algorithm: Seq<char>,
    key_id: Seq<char>,
    password: Seq<char>,
    method: Seq<char>,
    content_type: Seq<char>,
    host: Seq<char>,
    timestamp: Seq<char>,
    body: Seq<u8>,
) -> Seq<char> {
    let canonical = canonical_request(method, content_type, host, hex_sha256_of(body));
    authorization_of(algorithm, key_id, signature_of(password, string_to_sign(algorithm, timestamp, canonical)))
}

/// What signing `req` gives: the `authorization` value, or the failure.
/// Headers are read in the order content-type, host, then the body, then
/// the timestamp.
pub open spec fn sign_outcome(
    algorithm: Seq<char>,
    key_id: Seq<char>,
    password: Seq<char>,
    req: HttpRequestView,
) -> Result<Seq<char>, OtherErrorView> {
    match req.header("content-type"@) {
        None => Err(OtherErrorView::MissingHeader("content-type"@)),
        Some(ct) => if !is_readable_header_text(ct) {
            Err(OtherErrorView::UnreadableHeader("content-type"@))
        } else {
            match req.header("host"@) {
                None => Err(OtherErrorView::MissingHeader("host"@)),
                Some(host) => if !is_readable_header_text(host) {
                    Err(OtherErrorView::UnreadableHeader("host"@))
                } else {
                    match req.body {
                        None => Err(OtherErrorView::MissingBody),
                        Some(body) => match req.header("x-zc-timestamp"@) {
                            None => Err(OtherErrorView::MissingHeader("x-zc-timestamp"@)),
                            Some(ts) => if !is_readable_header_text(ts) {
                                Err(OtherErrorView::UnreadableHeader("x-zc-timestamp"@))
                            } else {
                                let auth = authorization_for(
                                    algorithm, key_id, password, req.method, ct, host, ts, body);
                                if !is_valid_header_text(auth) {
                                    Err(OtherErrorView::InvalidHeaderValue("authorization"@))
                                } else {
                                    Ok(auth)
                                }
                            },
                        },
                    }
                },
            }
        },
    }
}

/// Something that can sign a request in place.
pub trait Signer {
    /// Whether signing `before` may end in `after` with result `r`.
    spec fn signs(&self, before: HttpRequestView, after: HttpRequestView, r: Result<(), Error>) -> bool;

    fn sign_request(&self, req: &mut HttpRequest) -> (r: Result<(), Error>)
        ensures
            self.signs(old(req)@, final(req)@, r),
    ;
}

/// Signs requests with ZC2-HMAC-SHA256 under one access key.
pub struct Zc2HS256Signer {
    algorithm: &'static str,
    credential: AccessKeyCredential,
}

impl Zc2HS256Signer {
    pub closed spec fn algorithm(&self) -> Seq<char> {
        self.algorithm@
    }

    pub closed spec fn key_id(&self) -> Seq<char> {
        self.credential.access_key_id@
    }

    pub closed spec fn password(&self) -> Seq<char> {
        self.credential.access_key_password@
    }

    /// What signing `req` with this signer gives.
    pub open spec fn outcome(&self, req: HttpRequestView) -> Result<Seq<char>, OtherErrorView> {
        sign_outcome(self.algorithm(), self.key_id(), self.password(), req)
    }

    /// A signer for `credential`.
    pub fn new(credential: AccessKeyCredential) -> (r: Self)
        ensures
            r.algorithm() == ALGORITHM@,
            r.key_id() == credential.access_key_id@,
            r.password() == credential.access_key_password@,
    {
        Zc2HS256Signer { algorithm: ALGORITHM, credential }
    }

    /// Whether signing `before` ends in `after` with result `r`: on success
    /// `authorization` and `x-zc-signature-method` are set, on failure the
    /// request is left as it was.
    pub open spec fn signed(&self, before: HttpRequestView, after: HttpRequestView, r: Result<(), Error>) -> bool {
        match self.outcome(before) {
            Ok(auth) => r is Ok && after == before.with_header("authorization"@, auth).with_header(
                "x-zc-signature-method"@,
                self.algorithm(),
            ),
            Err(f) => r matches Err(Error::OtherErrors(e)) && e@ == f && after == before,
        }
    }

    /// Signs `req` in place: sets `authorization` and `x-zc-signature-method`.
    /// On failure `req` is left as it was.
    pub fn sign_request(&self, req: &mut HttpRequest) -> (r: Result<(), Error>)
        ensures
            self.signed(old(req)@, final(req)@, r),
    {
        let ct = match req.header("content-type") {
            None => return Err(Error::OtherErrors(OtherError::MissingHeader(String::from_str("content-type")))),
            Some(v) => v.clone(),
        };
        if !is_readable_header(ct.as_str()) {
            return Err(Error::OtherErrors(OtherError::UnreadableHeader(String::from_str("content-type"))));
        }
        let host = match req.header("host") {
            None => return Err(Error::OtherErrors(OtherError::MissingHeader(String::from_str("host")))),
            Some(v) => v.clone(),
        };
        if !is_readable_header(host.as_str()) {
            return Err(Error::OtherErrors(OtherError::UnreadableHeader(String::from_str("host"))));
        }
        let hashed_payload = match &req.body {
            None => return Err(Error::OtherErrors(OtherError::MissingBody)),
            Some(b) => hex_sha256(b.as_slice()),
        };

        let mut canonical = req.method.clone();
        canonical.append("\n/\n\n");
        canonical.append("content-type:");
        canonical.append(ct.as_str());
        canonical.append("\nhost:");
        canonical.append(host.as_str());
        canonical.append("\n");
        canonical.append("\n");
        canonical.append("content-type;host");
        canonical.append("\n");
        canonical.append(hashed_payload.as_str());

        let timestamp = match req.header("x-zc-timestamp") {
            None => return Err(Error::OtherErrors(OtherError::MissingHeader(String::from_str("x-zc-timestamp")))),
            Some(v) => v.clone(),
        };
        if !is_readable_header(timestamp.as_str()) {
            return Err(Error::OtherErrors(OtherError::UnreadableHeader(String::from_str("x-zc-timestamp"))));
        }

        let mut to_sign = String::from_str(self.algorithm);
        to_sign.append("\n");
        to_sign.append(timestamp.as_str());
        to_sign.append("\n");
        let canonical_hash = hex_sha256(canonical.as_str().as_bytes());
        to_sign.append(canonical_hash.as_str());

        let signature = hex_hmac_sha256(
            self.credential.access_key_password.as_str().as_bytes(),
            to_sign.as_str().as_bytes(),
        );

        let mut authorization = String::from_str(self.algorithm);
        authorization.append(" Credential=");
        authorization.append(self.credential.access_key_id.as_str());
        authorization.append(", SignedHeaders=");
        authorization.append("content-type;host");
        authorization.append(", Signature=");
        authorization.append(signature.as_str());

        proof {
            assert(canonical@ =~= canonical_request(req.method@, ct@, host@, hashed_payload@));
            assert(to_sign@ =~= string_to_sign(self.algorithm@, timestamp@, canonical@));
            assert(authorization@ =~= authorization_of(self.algorithm@, self.credential.access_key_id@, signature@));
        }

        if !is_valid_header(authorization.as_str()) {
            return Err(Error::OtherErrors(OtherError::InvalidHeaderValue(String::from_str("authorization"))));
        }
        req.set_header("authorization", authorization);
        req.set_header("x-zc-signature-method", String::from_str(self.algorithm));
        Ok(())
    }
}

impl Signer for Zc2HS256Signer {
    open spec fn signs(&self, before: HttpRequestView, after: HttpRequestView, r: Result<(), Error>) -> bool {
        self.signed(before, after, r)
    }

    fn sign_request(&self, req: &mut HttpRequest) -> (r: Result<(), Error>) {
        Zc2HS256Signer::sign_request(self, req)
    }
}

} // verus!

verus! {

/// Signing is deterministic, and reads nothing of a request but its method,
/// its `content-type`, `host` and `x-zc-timestamp` headers and its body: two
/// requests that agree on those, signed under the same algorithm and
/// credential, get the same outcome, whatever other headers they carry.
pub proof fn lemma_signature_depends_only_on_signed_fields(
    s1: Zc2HS256Signer,
    s2: Zc2HS256Signer,
    r1: HttpRequestView,
    r2: HttpRequestView,
)
    requires
        s1.algorithm() == s2.algorithm(),
        s1.key_id() == s2.key_id(),
        s1.password() == s2.password(),
        r1.method == r2.method,
        r1.header("content-type"@) == r2.header("content-type"@),
        r1.header("host"@) == r2.header("host"@),
        r1.header("x-zc-timestamp"@) == r2.header("x-zc-timestamp"@),
        r1.body == r2.body,
    ensures
        s1.outcome(r1) == s2.outcome(r2),
{
}

/// Signing a request that was just signed gives the same signature again:
/// the headers that signing adds are not among those it reads.
pub proof fn lemma_resigning_gives_same_signature(s: Zc2HS256Signer, r: HttpRequestView)
    requires
        s.outcome(r) is Ok,
    ensures
        s.outcome(
            r.with_header("authorization"@, s.outcome(r)->Ok_0).with_header(
                "x-zc-signature-method"@,
                s.algorithm(),
            ),
        ) == s.outcome(r),
{
    let auth = s.outcome(r)->Ok_0;
    let r1 = r.with_header("authorization"@, auth);
    let r2 = r1.with_header("x-zc-signature-method"@, s.algorithm());
    reveal_strlit("authorization");
    reveal_strlit("x-zc-signature-method");
    reveal_strlit("content-type");
    reveal_strlit("host");
    reveal_strlit("x-zc-timestamp");
    assert("authorization"@[0] != "content-type"@[0]);
    assert("authorization"@[0] != "host"@[0]);
    assert("authorization"@[0] != "x-zc-timestamp"@[0]);
    assert("x-zc-signature-method"@[0] != "content-type"@[0]);
    assert("x-zc-signature-method"@[0] != "host"@[0]);
    assert("x-zc-signature-method"@[5] != "x-zc-timestamp"@[5]);
    crate::http::lemma_with_header(r, "authorization"@, auth, "content-type"@);
    crate::http::lemma_with_header(r, "authorization"@, auth, "host"@);
    crate::http::lemma_with_header(r, "authorization"@, auth, "x-zc-timestamp"@);
    crate::http::lemma_with_header(r1, "x-zc-signature-method"@, s.algorithm(), "content-type"@);
    crate::http::lemma_with_header(r1, "x-zc-signature-method"@, s.algorithm(), "host"@);
    crate::http::lemma_with_header(r1, "x-zc-signature-method"@, s.algorithm(), "x-zc-timestamp"@);
    lemma_signature_depends_only_on_signed_fields(s, s, r2, r);
}

/// The timestamp is bound into the string to sign: for timestamps without a
/// line break, two strings to sign of one algorithm are equal only where
/// their timestamps are.
pub proof fn lemma_string_to_sign_binds_timestamp(
    algorithm: Seq<char>,
    t1: Seq<char>,
    t2: Seq<char>,
    c1: Seq<char>,
    c2: Seq<char>,
)
    requires
        !t1.contains('\n'),
        !t2.contains('\n'),
        string_to_sign(algorithm, t1, c1) == string_to_sign(algorithm, t2, c2),
    ensures
        t1 == t2,
{
    reveal_strlit("\n");
    let h1 = hex_sha256_of(utf8_of(c1));
    let h2 = hex_sha256_of(utf8_of(c2));
    let p = algorithm + "\n"@;
    let s1 = string_to_sign(algorithm, t1, c1);
    let x1 = t1 + "\n"@ + h1;
    let x2 = t2 + "\n"@ + h2;
    assert(s1 =~= p + x1);
    assert(string_to_sign(algorithm, t2, c2) =~= p + x2);
    assert(x1 =~= s1.subrange(p.len() as int, s1.len() as int));
    assert(x2 =~= s1.subrange(p.len() as int, s1.len() as int));
    if t1.len() < t2.len() {
        assert(x1[t1.len() as int] == '\n');
        assert(x2[t1.len() as int] == t2[t1.len() as int]);
    } else if t2.len() < t1.len() {
        assert(x2[t2.len() as int] == '\n');
        assert(x1[t2.len() as int] == t1[t2.len() as int]);
    }
    assert(t1 =~= x1.subrange(0, t1.len() as int));
    assert(t2 =~= x2.subrange(0, t2.len() as int));
}

/// The `content-type` and `host` values and the payload hash are bound into
/// the canonical request: for header values without a line break, two
/// canonical requests of one method are equal only where all three are.
pub proof fn lemma_canonical_request_binds_fields(
    method: Seq<char>,
    ct1: Seq<char>,
    ct2: Seq<char>,
    host1: Seq<char>,
    host2: Seq<char>,
    hash1: Seq<char>,
    hash2: Seq<char>,
)
    requires
        !ct1.contains('\n'),
        !ct2.contains('\n'),
        hash1.len() == hash2.len(),
        canonical_request(method, ct1, host1, hash1) == canonical_request(method, ct2, host2, hash2),
    ensures
        ct1 == ct2,
        host1 == host2,
        hash1 == hash2,
{
    reveal_strlit("\n/\n\n");
    reveal_strlit("content-type:");
    reveal_strlit("\nhost:");
    reveal_strlit("\n");
    reveal_strlit("content-type;host");
    let pre = method + "\n/\n\n"@ + "content-type:"@;
    let mid = "\nhost:"@;
    let post = "\n"@ + "\n"@ + signed_headers() + "\n"@;
    let c1 = canonical_request(method, ct1, host1, hash1);
    let c2 = canonical_request(method, ct2, host2, hash2);
    assert(c1 =~= pre + (ct1 + mid + host1 + post) + hash1);
    assert(c2 =~= pre + (ct2 + mid + host2 + post) + hash2);
    let x1 = ct1 + mid + host1;
    let x2 = ct2 + mid + host2;
    assert(x1.len() == x2.len());
    assert(hash1 =~= c1.subrange((c1.len() - hash1.len()) as int, c1.len() as int));
    assert(hash2 =~= c1.subrange((c1.len() - hash1.len()) as int, c1.len() as int));
    assert(x1 =~= c1.subrange(pre.len() as int, (pre.len() + x1.len()) as int));
    assert(x2 =~= c1.subrange(pre.len() as int, (pre.len() + x2.len()) as int));
    if ct1.len() < ct2.len() {
        assert(x1[ct1.len() as int] == '\n');
        assert(x2[ct1.len() as int] == ct2[ct1.len() as int]);
    } else if ct2.len() < ct1.len() {
        assert(x2[ct2.len() as int] == '\n');
        assert(x1[ct2.len() as int] == ct1[ct2.len() as int]);
    }
    assert(ct1 =~= x1.subrange(0, ct1.len() as int));
    assert(ct2 =~= x2.subrange(0, ct2.len() as int));
    assert(host1 =~= x1.subrange((ct1.len() + mid.len()) as int, x1.len() as int));
    assert(host2 =~= x2.subrange((ct2.len() + mid.len()) as int, x2.len() as int));
}

} // verus!
