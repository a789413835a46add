//! The access key pair that requests are signed with.
use vstd::prelude::*;
use vstd::string::*;

use crate::errors::{Error, OtherError};

verus! {

/// Name of the environment variable that holds the access key id.
pub const ACCESS_KEY_ID_VAR: &'static str = "ZENLAYER_CLOUD_ACCESS_KEY_ID";

/// Name of the environment variable that holds the access key password.
pub const ACCESS_KEY_PASSWORD_VAR: &'static str = "ZENLAYER_CLOUD_ACCESS_KEY_PASSWORD";

/// An access key id and its secret password.
#[derive(Debug, Clone)]
pub struct AccessKeyCredential {
    pub access_key_id: String,
    pub access_key_password: String,
}

impl AccessKeyCredential {
    /// A credential from an id and a password.
    pub fn new(access_key_id: String, access_key_password: String) -> (r: Self)
        ensures
            r.access_key_id@ == access_key_id@,
            r.access_key_password@ == access_key_password@,
    {
        AccessKeyCredential { access_key_id, access_key_password }
    }

    /// A credential from the two values as they were looked up, `None` where
    /// one is absent. The id is looked at first.
    pub fn from_values(id: Option<String>, password: Option<String>) -> (r: Result<Self, Error>)
        ensures
            match (id, password) {
                (Some(i), Some(p)) => r matches Ok(c) && c.access_key_id@ == i@
                    && c.access_key_password@ == p@,
                (None, _) => r matches Err(Error::OtherErrors(OtherError::MissingCredential(n)))
                    && n@ == ACCESS_KEY_ID_VAR@,
                (Some(_), None) => r matches Err(Error::OtherErrors(OtherError::MissingCredential(n)))
                    && n@ == ACCESS_KEY_PASSWORD_VAR@,
            },
    {
        match id {
            None => Err(Error::OtherErrors(OtherError::MissingCredential(String::from_str(ACCESS_KEY_ID_VAR)))),
            Some(i) => match password {
                None => Err(Error::OtherErrors(OtherError::MissingCredential(String::from_str(ACCESS_KEY_PASSWORD_VAR)))),
                Some(p) => Ok(AccessKeyCredential { access_key_id: i, access_key_password: p }),
            },
        }
    }
}

} // verus!
