//! The server's configuration, loaded by the calling layer from its
//! configuration file.
use vstd::prelude::*;

verus! {

/// Everything the routes need to know about their environment: where
/// uploads land, which file types are accepted, size limits, the media
/// server's address and token, and the paths of the local databases and
/// the temporary part directory.
#[derive(Debug)]
pub struct ServerConfig {
    pub upload_dir: String,
    pub valid_extensions: Vec<String>,
    pub max_mb: u32,
    pub plex_server_token: String,
    pub plex_url: String,
    pub plex_music_library_id: u16,
    pub plex_db_dir: String,
    pub server_db_dir: String,
    pub server_operational_db_dir: String,
    pub temp_file_dir: String,
}

} // verus!
