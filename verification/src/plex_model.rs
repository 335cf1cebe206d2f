//! The data carried by the media server's API responses. The XML bodies
//! are decoded by the calling layer into these plain structures.
use vstd::prelude::*;

verus! {

/// The devices listed in a resources response.
#[derive(Debug)]
pub struct GetResources {
    pub devices: Vec<Device>,
}

/// One device of the media server account.
#[derive(Debug)]
pub struct Device {
    pub name: String,
    pub product: String,
    pub provides: String,
    pub client_identifier: String,
}

/// The users listed in a shared-servers response.
#[derive(Debug)]
pub struct GetUserInfo {
    pub users: Vec<User>,
}

/// One user the server is shared with.
#[derive(Debug)]
pub struct User {
    pub username: String,
    pub user_id: String,
    pub access_token: String,
}

} // verus!
