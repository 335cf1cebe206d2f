//! Integrity checking of uploaded bytes: a content digest over a byte
//! buffer, and the check that a buffer matches a client-declared digest.
use vstd::prelude::*;
use crate::model::MusicUploaderError;

verus! {

/// The SHA-256 digest of a byte sequence, rendered as 64 hexadecimal
/// characters. It is a function of the bytes alone; its value on given
/// bytes is only ever produced by the digest routine itself.
pub uninterp spec fn sha256_of(bytes: Seq<u8>) -> Seq<char>;

/// Relies on sha256::digest: hex-encodes the SHA-256 digest of the bytes,
/// always 64 characters, a function of the bytes alone.
#[verifier::external_body]
pub fn sha256_hex(data: &[u8]) -> (r: String)
    ensures
        r@ == sha256_of(data@),
        r@.len() == 64,
{
    sha256::digest(data)
}

/// Checks the received bytes against the digest the client declared for
/// them; accepts exactly when they agree.
pub fn check_hash(expected_hash: &String, data: &[u8]) -> (r: Result<(), MusicUploaderError>)
    ensures
        r is Ok <==> expected_hash@ == sha256_of(data@),
        r matches Err(e) ==> e matches MusicUploaderError::ConstraintViolation(m)
            && m@ == "Hash check failed"@,
{
    let computed_hash = sha256_hex(data);
    if *expected_hash == computed_hash {
        Ok(())
    } else {
        Err(MusicUploaderError::ConstraintViolation("Hash check failed".to_owned()))
    }
}

} // verus!
