//! The whole-file upload route's core: the received bytes are checked
//! against the declared content hash and committed to the destination
//! with a create-only write. Path resolution and reading the body are
//! the calling layer's work.
use vstd::prelude::*;
use crate::data_validation::{check_hash, sha256_of};
use crate::model::MusicUploaderError;
use crate::storage::FileStore;
use vstd::string::StringExecFns;

verus! {

/// The typed headers of a whole-file upload request.
#[derive(Debug)]
pub struct UploadHeaders {
    pub hash: String,
    pub file_name: String,
    pub album: String,
    pub artist: String,
}

/// Verifies the received bytes against the declared hash and commits
/// them to the resolved destination path, exactly once.
pub fn upload_inner(
    dest: &mut FileStore,
    headers: &UploadHeaders,
    dir: &String,
    bytes: Vec<u8>,
) -> (r: Result<String, MusicUploaderError>)
    requires
        old(dest).wf(),
    ensures
        final(dest).wf(),
        headers.hash@ != sha256_of(bytes@) ==> (r matches Err(
            MusicUploaderError::ConstraintViolation(m),
        ) && m@ == "Hash check failed"@ && final(dest).rows() == old(dest).rows()),
        headers.hash@ == sha256_of(bytes@) && old(dest).spec_has_file(dir@) ==> (r matches Err(
            MusicUploaderError::InternalServerError(m),
        ) && m@ == "file already exists"@ && final(dest).rows() == old(dest).rows()),
        headers.hash@ == sha256_of(bytes@) && !old(dest).spec_has_file(dir@) ==> (r matches Ok(v)
            && v@ == "uploaded file: "@ + headers.file_name@ && final(dest).spec_has_file(dir@)
            && final(dest).spec_file_bytes(dir@) == bytes@ && (forall|n: Seq<char>|
            n != dir@ ==> final(dest).spec_has_file(n) == old(dest).spec_has_file(n)) && (forall|
            n: Seq<char>,
        |
            n != dir@ && old(dest).spec_has_file(n) ==> final(dest).spec_file_bytes(n) == old(
                dest,
            ).spec_file_bytes(n))),
{
    match check_hash(&headers.hash, bytes.as_slice()) {
        Ok(()) => (),
        Err(e) => {
            return Err(e);
        },
    }
    match dest.write_new(dir, bytes) {
        Ok(()) => (),
        Err(_) => {
            return Err(MusicUploaderError::InternalServerError("file already exists".to_owned()));
        },
    }
    Ok("uploaded file: ".to_owned().concat(headers.file_name.as_str()))
}

/// The whole-file route reports a duplicate song as a success: the file
/// is already in the library, so the client's goal is met. Every other
/// outcome passes through unchanged.
pub fn soften_already_exists(result: Result<String, MusicUploaderError>) -> (r: Result<
    String,
    MusicUploaderError,
>)
    ensures
        result matches Ok(v) ==> (r matches Ok(w) && w == v),
        result matches Err(e) ==> (if e is SongAlreadyExists {
            r matches Ok(w) && w@ == "Song already exists"@
        } else {
            r matches Err(e2) && e2 == e
        }),
{
    match result {
        Ok(v) => Ok(v),
        Err(MusicUploaderError::SongAlreadyExists) => Ok(
            MusicUploaderError::SongAlreadyExists.message(),
        ),
        Err(e) => Err(e),
    }
}

} // verus!
