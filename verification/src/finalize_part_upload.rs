//! Finalization: once every expected part of an upload has arrived, its
//! chunks are read back from temporary storage in ascending index order,
//! concatenated, checked against the declared total size and content
//! hash, committed to the destination with a create-only write, and only
//! then are the ledger rows and temporary blobs deleted. An integrity
//! failure aborts before anything is written or deleted, so the upload
//! stays resumable.
use vstd::prelude::*;
use crate::data_validation::{check_hash, sha256_of};
use crate::model::MusicUploaderError;
use crate::operational_data::{
    sort_parts_by_index, spec_sort_parts, UploadDeclarationItem, UploadLedger, UploadPartItem,
};
use crate::storage::FileStore;
use crate::upload_part::spec_part_blob_name;

verus! {

/// The bytes temporary storage holds for one part (none if its blob is
/// missing; a missing blob contributes nothing, and the total length
/// check catches it).
pub open spec fn spec_blob_bytes_for(temp: FileStore, p: UploadPartItem) -> Seq<u8> {
    let n = spec_part_blob_name(p.parent_key@, p.index);
    if temp.spec_has_file(n) {
        temp.spec_file_bytes(n)
    } else {
        Seq::empty()
    }
}

/// Concatenation of the stored bytes of the given parts, in order.
pub open spec fn spec_concat_blobs(temp: FileStore, ps: Seq<UploadPartItem>) -> Seq<u8>
    decreases ps.len(),
{
    if ps.len() == 0 {
        Seq::empty()
    } else {
        spec_concat_blobs(temp, ps.drop_last()) + spec_blob_bytes_for(temp, ps.last())
    }
}

/// The byte stream reassembled for the upload `key`: its parts sorted by
/// index, their temporary blobs concatenated.
pub open spec fn spec_assembled_bytes(ledger: UploadLedger, temp: FileStore, key: Seq<char>)
    -> Seq<u8> {
    spec_concat_blobs(temp, spec_sort_parts(ledger.spec_parts_for(key)))
}

/// Whether `n` names the temporary blob of one of the parts `ps`.
pub open spec fn is_blob_name_of(ps: Seq<UploadPartItem>, n: Seq<char>) -> bool {
    exists|j: int| 0 <= j < ps.len() && n == spec_part_blob_name(
        (#[trigger] ps[j]).parent_key@,
        ps[j].index,
    )
}

/// Reads each part's temporary blob and concatenates them in the given
/// order.
fn assemble_parts(temp: &FileStore, sorted: &Vec<UploadPartItem>) -> (r: Vec<u8>)
    requires
        temp.wf(),
    ensures
        r@ == spec_concat_blobs(*temp, sorted@),
{
    let mut assembled: Vec<u8> = Vec::new();
    let mut k: usize = 0;
    proof {
        assert(sorted@.take(0) =~= Seq::<UploadPartItem>::empty());
        assert(assembled@ =~= spec_concat_blobs(*temp, sorted@.take(0)));
    }
    while k < sorted.len()
        invariant
            temp.wf(),
            0 <= k <= sorted@.len(),
            assembled@ == spec_concat_blobs(*temp, sorted@.take(k as int)),
        decreases sorted@.len() - k,
    {
        let name = sorted[k].part_file_name();
        proof {
            let t = k as int;
            assert(name@ =~= spec_part_blob_name(sorted@[t].parent_key@, sorted@[t].index));
            assert(sorted@.take(t + 1).drop_last() =~= sorted@.take(t));
            assert(sorted@.take(t + 1).last() == sorted@[t]);
        }
        match temp.read_file(&name) {
            Some(mut b) => {
                assembled.append(&mut b);
            },
            None => (),
        }
        proof {
            let t = k as int;
            assert(assembled@ =~= spec_concat_blobs(*temp, sorted@.take(t + 1)));
        }
        k = k + 1;
    }
    proof {
        assert(sorted@.take(sorted@.len() as int) =~= sorted@);
    }
    assembled
}

/// Reassembles, verifies and commits the upload, then deletes its ledger
/// rows and temporary blobs. Integrity failures (wrong total length,
/// wrong content hash) abort with nothing changed; an already-existing
/// destination file aborts the same way, so a finalize retried after a
/// partial earlier run cannot overwrite what was committed.
pub fn finalize_part_upload(
    upload_declaration: &UploadDeclarationItem,
    ledger: &mut UploadLedger,
    temp: &mut FileStore,
    dest: &mut FileStore,
) -> (r: Result<(), MusicUploaderError>)
    requires
        old(ledger).wf(),
        old(temp).wf(),
        old(dest).wf(),
    ensures
        final(ledger).wf(),
        final(temp).wf(),
        final(dest).wf(),
        ({
            let key = upload_declaration.key@;
            let path = upload_declaration.path@;
            let assembled = spec_assembled_bytes(*old(ledger), *old(temp), key);
            let ps = spec_sort_parts(old(ledger).spec_parts_for(key));
            let unchanged = final(ledger).decls() == old(ledger).decls() && final(ledger).part_rows() == old(ledger).part_rows() && final(temp).rows() == old(temp).rows()
                && final(dest).rows() == old(dest).rows();
            if assembled.len() != upload_declaration.declared_size {
                r matches Err(MusicUploaderError::ConstraintViolation(m)) && m@
                    == "total file is not the expected size"@ && unchanged
            } else if upload_declaration.hash@ != sha256_of(assembled) {
                r matches Err(MusicUploaderError::ConstraintViolation(m)) && m@
                    == "Hash check failed"@ && unchanged
            } else if old(dest).spec_has_file(path) {
                r matches Err(MusicUploaderError::InternalServerError(m)) && m@
                    == "file already exists"@ && unchanged
            } else {
                r is Ok && final(dest).spec_has_file(path) && final(dest).spec_file_bytes(path)
                    == assembled && (forall|n: Seq<char>|
                    n != path ==> final(dest).spec_has_file(n) == old(dest).spec_has_file(n)) && (
                forall|n: Seq<char>|
                    n != path && old(dest).spec_has_file(n) ==> final(dest).spec_file_bytes(n)
                        == old(dest).spec_file_bytes(n)) && final(ledger).decls() == crate::operational_data::decls_without(old(ledger).decls(), key) && final(ledger).part_rows() == crate::operational_data::parts_without(old(ledger).part_rows(), key) && (forall|n: Seq<char>| #![trigger final(temp).spec_has_file(n)]
                    final(temp).spec_has_file(n) <==> (old(temp).spec_has_file(n)
                        && !is_blob_name_of(ps, n))) && (forall|n: Seq<char>|
                    #![trigger final(temp).spec_file_bytes(n)]
                    final(temp).spec_has_file(n) ==> final(temp).spec_file_bytes(n) == old(temp).spec_file_bytes(n))
            }
        }),
{
    let parts_unsorted = match ledger.get_parts(&upload_declaration.key) {
        Some(p) => p,
        None => {
            return Err(
                MusicUploaderError::InternalServerError(
                    "failed to get the parts for upload".to_owned(),
                ),
            );
        },
    };
    let parts = sort_parts_by_index(&parts_unsorted);
    let assembled = assemble_parts(temp, &parts);
    let ghost assembled_view = assembled@;
    if assembled.len() != upload_declaration.declared_size as usize {
        return Err(
            MusicUploaderError::ConstraintViolation(
                "total file is not the expected size".to_owned(),
            ),
        );
    }
    match check_hash(&upload_declaration.hash, assembled.as_slice()) {
        Ok(()) => (),
        Err(e) => {
            return Err(e);
        },
    }
    match dest.write_new(&upload_declaration.path, assembled) {
        Ok(()) => (),
        Err(_) => {
            return Err(MusicUploaderError::InternalServerError("file already exists".to_owned()));
        },
    }
    let _removed_rows = ledger.cleanup_upload(&upload_declaration.key);
    let ghost temp_before = *temp;
    let ghost ps = parts@;
    let mut k: usize = 0;
    while k < parts.len()
        invariant
            temp.wf(),
            0 <= k <= ps.len(),
            ps == parts@,
            forall|n: Seq<char>| #[trigger]
                temp.spec_has_file(n) <==> (temp_before.spec_has_file(n) && !(exists|j: int|
                    0 <= j < k && n == spec_part_blob_name(
                        (#[trigger] ps[j]).parent_key@,
                        ps[j].index,
                    ))),
            forall|n: Seq<char>| #[trigger]
                temp.spec_has_file(n) ==> temp.spec_file_bytes(n) == temp_before.spec_file_bytes(
                    n,
                ),
        decreases parts.len() - k,
    {
        let name = parts[k].part_file_name();
        proof {
            let t = k as int;
            assert(name@ =~= spec_part_blob_name(ps[t].parent_key@, ps[t].index));
        }
        let ghost pre = *temp;
        let _ = temp.remove_file(&name);
        proof {
            let t = k as int;
            assert forall|n: Seq<char>| #[trigger]
                temp.spec_has_file(n) <==> (temp_before.spec_has_file(n) && !(exists|j: int|
                    0 <= j < t + 1 && n == spec_part_blob_name(
                        (#[trigger] ps[j]).parent_key@,
                        ps[j].index,
                    ))) by {
                if n == name@ {
                    assert(!temp.spec_has_file(n));
                    assert(n == spec_part_blob_name(ps[t].parent_key@, ps[t].index));
                } else {
                    assert(temp.spec_has_file(n) == pre.spec_has_file(n));
                    if pre.spec_has_file(n) {
                        assert(!(exists|j: int|
                            0 <= j < t && n == spec_part_blob_name(
                                (#[trigger] ps[j]).parent_key@,
                                ps[j].index,
                            )));
                        assert(forall|j: int|
                            0 <= j < t + 1 ==> n != spec_part_blob_name(
                                (#[trigger] ps[j]).parent_key@,
                                ps[j].index,
                            ));
                    }
                }
            }
        }
        k = k + 1;
    }
    proof {
        assert(ps.take(ps.len() as int) =~= ps);
        assert(forall|n: Seq<char>| #[trigger] temp.spec_has_file(n) <==> (temp_before.spec_has_file(n)
            && !is_blob_name_of(ps, n)));
    }
    Ok(())
}

} // verus!
