//! Core of a music-upload server: a chunked-upload subsystem in which a
//! client first declares an upload (content hash, total size, part size),
//! then streams individual parts, and the server tracks received parts,
//! reassembles them in order, verifies the result against the declared
//! hash and commits it to storage exactly once.
use vstd::prelude::*;

pub mod authenticated;
pub mod data_validation;
pub mod declare_upload;
pub mod finalize_part_upload;
pub mod metrics;
pub mod model;
pub mod operational_data;
pub mod path_utils;
pub mod plex_db;
pub mod plex_model;
pub mod search;
pub mod secrets_config;
pub mod server_config;
pub mod storage;
pub mod sync_public_playlists;
pub mod text;
pub mod time_utils;
pub mod upload;
pub mod upload_part;

verus! {

/// Connectivity probe: the fixed body served on the connection-check route.
pub fn check_conn() -> (r: &'static str)
    ensures
        r@ == "hello"@,
{
    "hello"
}

/// Authentication probe: the fixed body served once a request has been
/// authenticated.
pub fn check_auth(_auth: authenticated::Authenticated) -> (r: &'static str)
    ensures
        r@ == "hello"@,
{
    "hello"
}

} // verus!
