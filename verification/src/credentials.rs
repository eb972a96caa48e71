//! Plain values that the flows exchange with the token store.
use vstd::prelude::*;

verus! {

/// What a decoded token says of its user.
#[derive(Debug, Clone)]
pub struct UserInfo {
    pub id: String,
    pub name: String,
    pub preferred_username: String,
    pub token: String,
    pub is_service_account: bool,
    pub expires: u64,
}

/// A token to be put into the token store.
#[derive(Debug, Clone)]
pub struct StoreToken {
    /// The auth URL that the token belongs to.
    pub auth_url: String,
    /// The user that the token identifies.
    pub user_id: String,
    /// The token itself.
    pub token: String,
    /// The domains that the token may be sent to.
    pub domains: Vec<String>,
    /// A refresh token to store beside it; failing to store this one fails nothing else.
    pub refresh_token: Option<String>,
}

} // verus!
