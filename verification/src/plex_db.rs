//! Result rows of queries against the media server's own database, and
//! the errors those queries can report. The queries themselves run in
//! the calling layer; the library works on the rows.
use vstd::prelude::*;
use vstd::string::StringExecFns;

verus! {

/// A database-layer failure.
#[derive(Debug)]
pub enum DbErr {
    PrepSqlFailure(String),
    HandleQueryResultFailure(String),
    ParseIssue(String),
    NoResults,
}

impl DbErr {
    /// The message reported for this failure.
    pub open spec fn spec_message(&self) -> Seq<char> {
        match self {
            DbErr::PrepSqlFailure(s) => "failed to prepare sql statement: "@ + s@,
            DbErr::HandleQueryResultFailure(s) => "Failed to handle results: "@ + s@,
            DbErr::ParseIssue(s) => "Failed to parse result: "@ + s@,
            DbErr::NoResults => "no results"@,
        }
    }

    /// Renders the failure.
    pub fn message(&self) -> (r: String)
        ensures
            r@ == self.spec_message(),
    {
        match self {
            DbErr::PrepSqlFailure(s) => "failed to prepare sql statement: ".to_owned().concat(
                s.as_str(),
            ),
            DbErr::HandleQueryResultFailure(s) => "Failed to handle results: ".to_owned().concat(
                s.as_str(),
            ),
            DbErr::ParseIssue(s) => "Failed to parse result: ".to_owned().concat(s.as_str()),
            DbErr::NoResults => "no results".to_owned(),
        }
    }
}

/// The identifier type of the media server's metadata rows.
pub type MetadataId = i32;

/// One album row: its title and metadata identifier.
#[derive(Debug)]
pub struct AlbumResult {
    album_title: String,
    id: MetadataId,
}

impl AlbumResult {
    /// The album's title.
    pub closed spec fn spec_title(&self) -> Seq<char> {
        self.album_title@
    }

    /// The album's metadata identifier.
    pub closed spec fn spec_id(&self) -> MetadataId {
        self.id
    }

    /// Builds an album row.
    pub fn new(album_title: String, id: MetadataId) -> (r: Self)
        ensures
            r.spec_title() == album_title@,
            r.spec_id() == id,
    {
        AlbumResult { album_title, id }
    }

    /// The album's title.
    pub fn get_title(&self) -> (r: &String)
        ensures
            r@ == self.spec_title(),
    {
        &self.album_title
    }

    /// The album's metadata identifier.
    pub fn get_id(&self) -> (r: MetadataId)
        ensures
            r == self.spec_id(),
    {
        self.id
    }
}

impl Clone for AlbumResult {
    /// A clone carries exactly the same row.
    fn clone(&self) -> (r: Self)
        ensures
            r == *self,
    {
        AlbumResult { album_title: self.album_title.clone(), id: self.id }
    }
}

/// One song row: its title, the path of its media file, and its
/// metadata identifier.
#[derive(Debug)]
pub struct SongResult {
    song_title: String,
    path: String,
    id: MetadataId,
}

impl SongResult {
    /// The path of the song's media file.
    pub closed spec fn spec_path(&self) -> Seq<char> {
        self.path@
    }

    /// Builds a song row.
    pub fn new(song_title: String, path: String, id: MetadataId) -> (r: Self)
        ensures
            r.spec_path() == path@,
    {
        SongResult { song_title, path, id }
    }

    /// The path of the song's media file.
    pub fn get_path(&self) -> (r: &String)
        ensures
            r@ == self.spec_path(),
    {
        &self.path
    }
}

/// One public playlist row.
#[derive(Debug)]
pub struct PlaylistResult {
    pub id: String,
    pub owner_id: String,
    pub owner_name: String,
    pub title: String,
}

} // verus!
