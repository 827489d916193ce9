//! Records that pass through as the upstream service sends them.

use vstd::prelude::*;

verus! {

/// What the upstream service answers in place of a record when it refuses
/// a request.
#[derive(Debug)]
pub struct KretaErrorResponse {
    pub error: String,
    pub error_code: String,
    pub error_description: String,
}

/// The tokens of a session.
#[derive(Debug)]
pub struct Authentication {
    pub access_token: String,
    pub token_type: String,
    pub expires_in: u16,
    pub refresh_token: String,
}

/// A school of the upstream service.
#[derive(Debug)]
pub struct School {
    pub institute_id: u32,
    pub institute_code: String,
    pub name: String,
    pub url: String,
    pub city: String,
}

} // verus!
