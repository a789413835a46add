//! A client for the Zenlayer Cloud HTTP API: builds versioned JSON requests,
//! signs them with ZC2-HMAC-SHA256, and reads the outcome of a call from its
//! status and response envelope. Dispatch over the network is left to the caller.
use vstd::prelude::*;

pub mod cdn;
pub mod client;
pub mod credentials;
pub mod digest;
pub mod encoding;
pub mod errors;
pub mod http;
pub mod signer;

verus! {

/// The host that serves the API.
pub const API_DOMAIN: &'static str = "console.zenlayer.com";

/// The version of this library, sent with every request.
pub const SDK_VERSION: &'static str = "0.1.0";

/// Settings shared by the service clients; none are defined yet.
pub struct Config {}

} // verus!
