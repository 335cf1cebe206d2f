//! Part ingestion: accepts one chunk of a declared upload. Five checks
//! guard the ledger, in order: the declaration must exist, the index
//! must be in range, the chunk must be new, the byte length must match
//! the expected size of that index, and the digest of the bytes must
//! match the declared part hash. Only then is the part row inserted and
//! the chunk written to temporary storage.
use vstd::prelude::*;
use crate::data_validation::{check_hash, sha256_of};
use crate::model::MusicUploaderError;
use crate::operational_data::{
    spec_expected_size, spec_num_parts, UploadLedger, UploadPartItem,
};
use crate::storage::FileStore;
use crate::text::spec_decimal;
use crate::time_utils::get_now_timestamp;

verus! {

/// The typed headers of a part-upload request.
#[derive(Debug)]
pub struct UploadPartHeaders {
    pub key: String,
    pub part_hash: String,
    pub index: u8,
}

/// Name of the temporary blob for part `index` of upload `key`:
/// `{key}-{index}`.
pub open spec fn spec_part_blob_name(key: Seq<char>, index: u32) -> Seq<char> {
    key + seq!['-'] + spec_decimal(index as nat)
}

/// The index is inside the declared range.
pub open spec fn index_in_range(d: crate::operational_data::UploadDeclarationItem, index: u32) -> bool {
    (index as int) < spec_num_parts(d.declared_size as int, d.part_size as int)
}

/// Ingests one chunk. The five rejections, in order, leave ledger and
/// temporary storage untouched; acceptance inserts exactly one part row
/// and one temporary blob. (A leftover blob under the part's name makes
/// the write fail after the row insert, as a create-only write must; the
/// row then remains, and the contract says so.)
pub fn upload_part_inner(
    ledger: &mut UploadLedger,
    temp: &mut FileStore,
    headers: &UploadPartHeaders,
    bytes: &Vec<u8>,
) -> (r: Result<(), MusicUploaderError>)
    requires
        old(ledger).wf(),
        old(temp).wf(),
    ensures
        final(ledger).wf(),
        final(temp).wf(),
        ({
            let key = headers.key@;
            let idx = headers.index as u32;
            let dcl = old(ledger).spec_declaration_for(key);
            let blob = spec_part_blob_name(key, idx);
            let unchanged = final(ledger).decls() == old(ledger).decls() && final(ledger).part_rows() == old(ledger).part_rows() && final(temp).rows() == old(temp).rows();
            let row_added = final(ledger).decls() == old(ledger).decls() && (exists|ts: i64|
                final(ledger).part_rows() == old(ledger).part_rows().push(
                    UploadPartItem {
                        parent_key: headers.key,
                        index: idx,
                        part_hash: headers.part_hash,
                        timestamp: ts,
                    },
                ));
            if !old(ledger).spec_has_declaration(key) {
                r matches Err(MusicUploaderError::ConstraintViolation(m)) && m@
                    == "No upload declaration for file part"@ && unchanged
            } else if !index_in_range(dcl, idx) {
                r matches Err(MusicUploaderError::ConstraintViolation(m)) && m@
                    == "invalid part index"@ && unchanged
            } else if old(ledger).spec_has_part(key, idx) {
                r matches Err(MusicUploaderError::ConstraintViolation(m)) && m@
                    == "part has already been uploaded"@ && unchanged
            } else if bytes@.len() != spec_expected_size(
                dcl.declared_size as int,
                dcl.part_size as int,
                idx as int,
            ) {
                r matches Err(MusicUploaderError::ConstraintViolation(m)) && m@
                    == "uploaded part is not expected size"@ && unchanged
            } else if headers.part_hash@ != sha256_of(bytes@) {
                r matches Err(MusicUploaderError::ConstraintViolation(m)) && m@
                    == "Hash check failed"@ && unchanged
            } else if old(temp).spec_has_file(blob) {
                r matches Err(MusicUploaderError::InternalServerError(m)) && m@
                    == "file already exists"@ && row_added && final(temp).rows() == old(temp).rows()
            } else {
                r is Ok && row_added && final(temp).spec_has_file(blob) && final(temp).spec_file_bytes(blob) == bytes@ && (forall|n: Seq<char>|
                    n != blob ==> final(temp).spec_has_file(n) == old(temp).spec_has_file(n))
                    && (forall|n: Seq<char>|
                    n != blob && old(temp).spec_has_file(n) ==> final(temp).spec_file_bytes(n)
                        == old(temp).spec_file_bytes(n))
            }
        }),
{
    let upload_declaration = match ledger.get_upload_declaration(&headers.key) {
        Some(d) => d,
        None => {
            return Err(
                MusicUploaderError::ConstraintViolation(
                    "No upload declaration for file part".to_owned(),
                ),
            );
        },
    };
    let idx = headers.index as u32;
    if upload_declaration.get_expected_num_parts() <= idx {
        return Err(MusicUploaderError::ConstraintViolation("invalid part index".to_owned()));
    }
    if ledger.is_part_present(&headers.key, idx) {
        return Err(
            MusicUploaderError::ConstraintViolation("part has already been uploaded".to_owned()),
        );
    }
    let expected = upload_declaration.get_expected_index_size(idx);
    if bytes.len() != expected as usize {
        return Err(
            MusicUploaderError::ConstraintViolation("uploaded part is not expected size".to_owned()),
        );
    }
    match check_hash(&headers.part_hash, bytes.as_slice()) {
        Ok(()) => (),
        Err(e) => {
            return Err(e);
        },
    }
    let timestamp = get_now_timestamp();
    let part = match ledger.add_part(&headers.key, idx, &headers.part_hash, timestamp) {
        Some(p) => p,
        None => {
            return Err(
                MusicUploaderError::InternalServerError("Failed to add part to db".to_owned()),
            );
        },
    };
    let file_name = part.part_file_name();
    let body = bytes.clone();
    proof {
        assert(body@ =~= bytes@);
        assert(file_name@ =~= spec_part_blob_name(headers.key@, idx));
        assert(ledger.part_rows() == old(ledger).part_rows().push(
            UploadPartItem {
                parent_key: headers.key,
                index: idx,
                part_hash: headers.part_hash,
                timestamp: timestamp,
            },
        ));
    }
    match temp.write_new(&file_name, body) {
        Ok(()) => Ok(()),
        Err(_) => Err(MusicUploaderError::InternalServerError("file already exists".to_owned())),
    }
}

} // verus!
