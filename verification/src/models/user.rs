//! The signed-in account and its credentials.
use vstd::prelude::*;

verus! {

#[derive(Debug)]
pub struct User {
    pub user_id: String,
    pub display_name: Option<String>,
    pub avatar_url: Option<String>,
    pub device_id: String,
    pub access_token: String,
    pub refresh_token: Option<String>,
    /// Seconds until the access token expires, when it does.
    pub expires_in: Option<u64>,
}

} // verus!
