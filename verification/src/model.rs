//! Shared wire model of the server: the error taxonomy returned to
//! clients and the response bodies of the search and declare routes.
use vstd::prelude::*;
use vstd::string::StringExecFns;
use crate::path_utils::ValidateDirectoryError;
use crate::text::{spec_decimal, u32_decimal};

verus! {

/// Failure to extract a typed value from a request's headers.
#[derive(Debug)]
pub enum HeaderError {
    ParsingIssue,
}

/// Every failure a route can report. The first group is attributable to
/// the client (constraint violations); the rest are server faults.
#[derive(Debug)]
pub enum MusicUploaderError {
    ValidateDirectoryError(Box<ValidateDirectoryError>),
    SongAlreadyExists,
    ConstraintViolation(String),
    SerdeIssue(String),
    PlexComplaint(u16),
    InternalServerError(String),
    UploaderDataIncomplete,
}

impl MusicUploaderError {
    /// The message reported to the client for this error.
    pub open spec fn spec_message(&self) -> Seq<char> {
        match self {
            MusicUploaderError::ValidateDirectoryError(e) => "issue parsing the directory: "@
                + e.spec_message(),
            MusicUploaderError::SongAlreadyExists => "Song already exists"@,
            MusicUploaderError::ConstraintViolation(s) => "Constraint violation: "@ + s@,
            MusicUploaderError::SerdeIssue(s) => "serde issue: "@ + s@,
            MusicUploaderError::PlexComplaint(status) => "plex is complaining with status: ("@
                + spec_decimal(*status as nat) + ")"@,
            MusicUploaderError::InternalServerError(s) =>
                "There was an internal server that was not a customer issue. Reason: "@ + s@,
            MusicUploaderError::UploaderDataIncomplete => "Could not find value in uploader db"@,
        }
    }

    /// Renders the error as the client sees it.
    pub fn message(&self) -> (r: String)
        ensures
            r@ == self.spec_message(),
    {
        match self {
            MusicUploaderError::ValidateDirectoryError(e) => {
                let inner = e.message();
                "issue parsing the directory: ".to_owned().concat(inner.as_str())
            },
            MusicUploaderError::SongAlreadyExists => "Song already exists".to_owned(),
            MusicUploaderError::ConstraintViolation(s) => "Constraint violation: ".to_owned()
                .concat(s.as_str()),
            MusicUploaderError::SerdeIssue(s) => "serde issue: ".to_owned().concat(s.as_str()),
            MusicUploaderError::PlexComplaint(status) => {
                let digits = u32_decimal(*status as u32);
                "plex is complaining with status: (".to_owned().concat(digits.as_str()).concat(
                    ")",
                )
            },
            MusicUploaderError::InternalServerError(s) =>
                "There was an internal server that was not a customer issue. Reason: ".to_owned()
                .concat(s.as_str()),
            MusicUploaderError::UploaderDataIncomplete =>
                "Could not find value in uploader db".to_owned(),
        }
    }
}

/// Maps a failure of destination-path validation to the route-level
/// error: an already existing file is the distinct, recoverable outcome
/// `SongAlreadyExists`; everything else stays a path-validation error.
pub fn map_validate_directory_error(e: ValidateDirectoryError) -> (r: MusicUploaderError)
    ensures
        e is FileAlreadyExists ==> r is SongAlreadyExists,
        !(e is FileAlreadyExists) ==> (r matches MusicUploaderError::ValidateDirectoryError(b)
            && *b == e),
{
    match e {
        ValidateDirectoryError::FileAlreadyExists => MusicUploaderError::SongAlreadyExists,
        other => MusicUploaderError::ValidateDirectoryError(Box::new(other)),
    }
}

/// One match of the album search: the album found and who uploaded it.
pub struct AlbumSearchResponse {
    pub album: String,
    pub uploader: String,
}

/// Answer to a declare call: either the upload is finished, or the client
/// is told which parts have already arrived so it can resume.
#[derive(Debug)]
pub enum DeclareUploadResponse {
    Complete,
    Incomplete { key: String, declared_size: u32, part_size: u32, received_parts: Vec<u8> },
}

} // verus!
