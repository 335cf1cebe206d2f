//! Declaration: the first call of a chunked upload. Inputs are checked
//! (total size at least one part, well-formed hash), the ledger returns
//! the existing declaration for this content hash or inserts a fresh one
//! (the first declaration wins), and the caller learns either which
//! parts are still missing or — once every part has arrived — the result
//! of finalization.
use vstd::prelude::*;
use crate::data_validation::sha256_of;
use crate::finalize_part_upload::{
    finalize_part_upload, is_blob_name_of, spec_assembled_bytes,
};
use crate::model::{DeclareUploadResponse, MusicUploaderError};
use crate::operational_data::{
    decls_without, parts_without, spec_build_key, spec_num_parts, spec_sort_parts, UploadLedger,
    UploadPartItem,
};
use crate::storage::FileStore;
use crate::time_utils::get_now_timestamp;

verus! {

/// The typed headers of a declare request.
#[derive(Debug)]
pub struct DeclareUploadHeaders {
    pub hash: String,
    pub file_name: String,
    pub album: String,
    pub artist: String,
    pub declared_size_bytes: u32,
    pub part_size_bytes: u32,
}

/// The message with which a declare request is rejected before touching
/// the ledger, if any: the declared total must hold at least one part,
/// the content hash must have the digest's canonical length, and the
/// part size must be positive.
pub open spec fn spec_declare_rejection(h: DeclareUploadHeaders) -> Option<Seq<char>> {
    if h.declared_size_bytes < h.part_size_bytes {
        Option::Some("declared file size is smaller than part size"@)
    } else if h.hash@.len() != 64 {
        Option::Some("malformed hash"@)
    } else if h.part_size_bytes == 0 {
        Option::Some("part size must be positive"@)
    } else {
        Option::None
    }
}

/// Checks the declare request's inputs.
pub fn validate_inputs(headers: &DeclareUploadHeaders) -> (r: Result<(), MusicUploaderError>)
    ensures
        spec_declare_rejection(*headers) matches Some(msg) ==> (r matches Err(
            MusicUploaderError::ConstraintViolation(m),
        ) && m@ == msg),
        spec_declare_rejection(*headers) is None ==> r is Ok,
{
    if headers.declared_size_bytes < headers.part_size_bytes {
        return Err(
            MusicUploaderError::ConstraintViolation(
                "declared file size is smaller than part size".to_owned(),
            ),
        );
    }
    if headers.hash.as_str().unicode_len() != 64 {
        return Err(MusicUploaderError::ConstraintViolation("malformed hash".to_owned()));
    }
    if headers.part_size_bytes == 0 {
        return Err(MusicUploaderError::ConstraintViolation("part size must be positive".to_owned()));
    }
    Ok(())
}

/// Why the received part indices could not be rendered in the response's
/// narrow index encoding.
#[derive(Debug)]
pub enum GetReceivedPartsError {
    TooLargeOfIndices,
    QueryError,
}

/// The indices of the parts received so far for `key`, in storage order,
/// narrowed to the wire encoding; fails if any index does not fit.
pub fn get_received_parts(ledger: &UploadLedger, key: &String) -> (r: Result<
    Vec<u8>,
    GetReceivedPartsError,
>)
    ensures
        r is Ok <==> (forall|j: int|
            0 <= j < ledger.spec_parts_for(key@).len() ==> (#[trigger] ledger.spec_parts_for(
                key@,
            )[j]).index <= 255),
        r matches Ok(v) ==> v@ == ledger.spec_parts_for(key@).map_values(
            (|p: UploadPartItem| p.index as u8),
        ),
        r matches Err(e) ==> e is TooLargeOfIndices,
{
    let parts = match ledger.get_parts(key) {
        Some(p) => p,
        None => {
            return Err(GetReceivedPartsError::QueryError);
        },
    };
    let ghost all = ledger.spec_parts_for(key@);
    let mut out: Vec<u8> = Vec::new();
    let mut i: usize = 0;
    while i < parts.len()
        invariant
            all == ledger.spec_parts_for(key@),
            parts@ == all,
            0 <= i <= all.len(),
            forall|j: int| 0 <= j < i ==> (#[trigger] all[j]).index <= 255,
            out@ == all.take(i as int).map_values((|p: UploadPartItem| p.index as u8)),
        decreases parts.len() - i,
    {
        let idx = parts[i].index;
        if idx > 255 {
            proof {
                assert((i as int) < ledger.spec_parts_for(key@).len());
                assert(ledger.spec_parts_for(key@)[i as int].index > 255);
            }
            return Err(GetReceivedPartsError::TooLargeOfIndices);
        }
        out.push(idx as u8);
        proof {
            let t = i as int;
            assert(out@ =~= all.take(t + 1).map_values((|p: UploadPartItem| p.index as u8)));
        }
        i = i + 1;
    }
    proof {
        assert(all.take(all.len() as int) =~= all);
    }
    Ok(out)
}

/// The effect a declare call has on the ledger before any finalization:
/// part rows untouched; the declaration relation untouched when the key
/// was already declared, extended by exactly the new row otherwise (its
/// timestamp is whatever the clock gave).
pub open spec fn declare_applied(
    before: UploadLedger,
    after: UploadLedger,
    h: DeclareUploadHeaders,
    dir: Seq<char>,
) -> bool {
    let key = spec_build_key(h.hash@);
    after.part_rows() == before.part_rows() && if before.spec_has_declaration(key) {
        after.decls() == before.decls()
    } else {
        after.decls().len() == before.decls().len() + 1 && after.decls().drop_last()
            == before.decls() && after.decls().last().key@ == key && after.decls().last().hash@
            == h.hash@ && after.decls().last().declared_size == h.declared_size_bytes
            && after.decls().last().part_size == h.part_size_bytes && after.decls().last().path@
            == dir
    }
}

/// Law: declaring is idempotent. After any declare of a hash, a second
/// declare of the same hash — whatever sizes or path it supplies —
/// finds the stored declaration and leaves the ledger's rows exactly as
/// they were: the key is the same and no second row appears.
pub proof fn lemma_declare_is_idempotent(
    s0: UploadLedger,
    s1: UploadLedger,
    s2: UploadLedger,
    h1: DeclareUploadHeaders,
    h2: DeclareUploadHeaders,
    dir1: Seq<char>,
    dir2: Seq<char>,
)
    requires
        h1.hash@ == h2.hash@,
        declare_applied(s0, s1, h1, dir1),
        declare_applied(s1, s2, h2, dir2),
    ensures
        s2.decls() == s1.decls(),
        s2.part_rows() == s1.part_rows(),
{
    let key = spec_build_key(h1.hash@);
    if s0.spec_has_declaration(key) {
        let w = choose|i: int|
            0 <= i < s0.decls().len() && (#[trigger] s0.decls()[i]).key@ == key;
        assert(s1.decls()[w].key@ == key);
    } else {
        let last = s1.decls().len() - 1;
        assert(s1.decls()[last].key@ == key);
    }
    assert(s1.spec_has_declaration(key));
}

/// Handles one declare call against the given ledger and stores. `dir`
/// is the destination path already resolved for the request's artist,
/// album and file name. On a repeated declare the stored declaration's
/// own size, part size and path govern, not the freshly supplied ones.
pub fn declare_upload_inner(
    ledger: &mut UploadLedger,
    temp: &mut FileStore,
    dest: &mut FileStore,
    headers: DeclareUploadHeaders,
    dir: String,
) -> (r: Result<DeclareUploadResponse, MusicUploaderError>)
    requires
        old(ledger).wf(),
        old(temp).wf(),
        old(dest).wf(),
    ensures
        final(ledger).wf(),
        final(temp).wf(),
        final(dest).wf(),
        ({
            let key = spec_build_key(headers.hash@);
            let had = old(ledger).spec_has_declaration(key);
            let d0 = old(ledger).spec_declaration_for(key);
            let dsz = if had { d0.declared_size } else { headers.declared_size_bytes };
            let psz = if had { d0.part_size } else { headers.part_size_bytes };
            let dhash = if had { d0.hash@ } else { headers.hash@ };
            let dpath = if had { d0.path@ } else { dir@ };
            let received = old(ledger).spec_parts_for(key);
            let assembled = spec_assembled_bytes(*old(ledger), *old(temp), key);
            let ps = spec_sort_parts(received);
            let all_unchanged = final(ledger).decls() == old(ledger).decls() && final(ledger).part_rows() == old(ledger).part_rows() && final(temp).rows() == old(temp).rows()
                && final(dest).rows() == old(dest).rows();
            let declared_only = declare_applied(*old(ledger), *final(ledger), headers, dir@)
                && final(temp).rows() == old(temp).rows() && final(dest).rows() == old(dest).rows();
            if spec_declare_rejection(headers) is Some {
                r matches Err(MusicUploaderError::ConstraintViolation(m)) && Option::Some(m@)
                    == spec_declare_rejection(headers) && all_unchanged
            } else if exists|j: int|
                0 <= j < received.len() && (#[trigger] received[j]).index > 255 {
                r matches Err(MusicUploaderError::InternalServerError(m)) && m@
                    == "Failed to parse received parts: TooLargeOfIndices"@ && declared_only
            } else if received.len() < spec_num_parts(dsz as int, psz as int) {
                r matches Ok(resp) && (resp matches DeclareUploadResponse::Incomplete{
                    key: k,
                    declared_size: ds,
                    part_size: ps2,
                    received_parts: rp,
                } && k@ == key && ds == dsz && ps2 == psz && rp@ == received.map_values(
                    (|p: UploadPartItem| p.index as u8),
                )) && declared_only
            } else if assembled.len() != dsz {
                r matches Err(MusicUploaderError::ConstraintViolation(m)) && m@
                    == "total file is not the expected size"@ && declared_only
            } else if dhash != sha256_of(assembled) {
                r matches Err(MusicUploaderError::ConstraintViolation(m)) && m@
                    == "Hash check failed"@ && declared_only
            } else if old(dest).spec_has_file(dpath) {
                r matches Err(MusicUploaderError::InternalServerError(m)) && m@
                    == "file already exists"@ && declared_only
            } else {
                r matches Ok(resp) && resp is Complete && final(dest).spec_has_file(dpath)
                    && final(dest).spec_file_bytes(dpath) == assembled && (forall|n: Seq<char>|
                    n != dpath ==> final(dest).spec_has_file(n) == old(dest).spec_has_file(n)) && (
                forall|n: Seq<char>|
                    n != dpath && old(dest).spec_has_file(n) ==> final(dest).spec_file_bytes(n)
                        == old(dest).spec_file_bytes(n)) && final(ledger).decls() == decls_without(
                    old(ledger).decls(),
                    key,
                ) && final(ledger).part_rows() == parts_without(old(ledger).part_rows(), key) && (
                forall|n: Seq<char>|
                    final(temp).spec_has_file(n) <==> (old(temp).spec_has_file(n)
                        && !is_blob_name_of(ps, n))) && (forall|n: Seq<char>|
                    final(temp).spec_has_file(n) ==> final(temp).spec_file_bytes(n) == old(temp).spec_file_bytes(n))
            }
        }),
{
    match validate_inputs(&headers) {
        Ok(()) => (),
        Err(e) => {
            return Err(e);
        },
    }
    let ghost key = spec_build_key(headers.hash@);
    let ghost before = *ledger;
    let timestamp = get_now_timestamp();
    let upload_declaration = match ledger.declare_or_get_previous_upload(
        headers.hash,
        headers.declared_size_bytes,
        headers.part_size_bytes,
        dir,
        timestamp,
    ) {
        Some(d) => d,
        None => {
            return Err(
                MusicUploaderError::InternalServerError("Failed to declare upload in db".to_owned()),
            );
        },
    };
    proof {
        if !before.spec_has_declaration(key) {
            assert(ledger.decls().drop_last() =~= before.decls());
        }
        assert(upload_declaration.key@ == key);
        assert(ledger.spec_parts_for(key) == before.spec_parts_for(key));
        assert(declare_applied(before, *ledger, headers, dir@));
    }
    let expected_num_parts = upload_declaration.get_expected_num_parts();
    let received_parts = match get_received_parts(ledger, &upload_declaration.key) {
        Ok(v) => v,
        Err(_) => {
            return Err(
                MusicUploaderError::InternalServerError(
                    "Failed to parse received parts: TooLargeOfIndices".to_owned(),
                ),
            );
        },
    };
    if received_parts.len() >= expected_num_parts as usize {
        let ghost mid = *ledger;
        match finalize_part_upload(&upload_declaration, ledger, temp, dest) {
            Ok(()) => {
                proof {
                    assert(mid.spec_parts_for(upload_declaration.key@)
                        == before.spec_parts_for(key));
                    if !before.spec_has_declaration(key) {
                        // the fresh declaration row itself carries `key`,
                        // so deleting the key gives the same relation as
                        // filtering the pre-declare rows
                        assert(decls_without(mid.decls(), key) =~= decls_without(
                            before.decls(),
                            key,
                        )) by {
                            reveal(Seq::filter);
                            assert(mid.decls().drop_last() =~= before.decls());
                        }
                    }
                }
                Ok(DeclareUploadResponse::Complete)
            },
            Err(e) => Err(e),
        }
    } else {
        Ok(
            DeclareUploadResponse::Incomplete {
                key: upload_declaration.key,
                declared_size: upload_declaration.declared_size,
                part_size: upload_declaration.part_size,
                received_parts,
            },
        )
    }
}

} // verus!
