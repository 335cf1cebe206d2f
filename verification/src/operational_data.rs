//! The upload ledger: the operational record of in-flight uploads. One
//! `UploadDeclarationItem` per declared upload, one `UploadPartItem` per
//! accepted chunk, and the derived per-part arithmetic (how many parts an
//! upload has, and how long each part must be). `UploadLedger` keeps both
//! relations with their uniqueness invariants; the calling layer is
//! responsible for persisting it.
use vstd::prelude::*;
use crate::text::{push_char, spec_decimal, u32_decimal};
use vstd::string::{StrSliceExecFns, StringExecFns};

verus! {

/// Number of parts a file of `declared_size` split into `part_size`
/// chunks has: the division rounded up.
pub open spec fn spec_num_parts(declared_size: int, part_size: int) -> int {
    (declared_size + part_size - 1) / part_size
}

/// Length owed by the part at `index`: what remains of `declared_size`
/// past the preceding parts, clamped between 0 and `part_size`.
pub open spec fn spec_expected_size(declared_size: int, part_size: int, index: int) -> int {
    let start = index * part_size;
    if start >= declared_size {
        0
    } else if start + part_size <= declared_size {
        part_size
    } else {
        declared_size - start
    }
}

/// Sum of the expected sizes of parts `0 .. n`.
pub open spec fn spec_sum_of_expected_sizes(declared_size: int, part_size: int, n: int) -> int
    decreases n,
{
    if n <= 0 {
        0
    } else {
        spec_sum_of_expected_sizes(declared_size, part_size, n - 1) + spec_expected_size(
            declared_size,
            part_size,
            n - 1,
        )
    }
}

/// The part count is exactly the ceiling of `declared_size / part_size`:
/// its parts cover the declared size, and one part fewer would not.
pub proof fn lemma_num_parts_is_ceil(declared_size: int, part_size: int)
    requires
        0 < part_size <= declared_size,
    ensures
        spec_num_parts(declared_size, part_size) * part_size >= declared_size,
        (spec_num_parts(declared_size, part_size) - 1) * part_size < declared_size,
        1 <= spec_num_parts(declared_size, part_size) <= declared_size,
{
    let n = spec_num_parts(declared_size, part_size);
    vstd::arithmetic::div_mod::lemma_fundamental_div_mod(
        declared_size + part_size - 1,
        part_size,
    );
    let r = (declared_size + part_size - 1) % part_size;
    vstd::arithmetic::div_mod::lemma_mod_bound(declared_size + part_size - 1, part_size);
    assert(declared_size + part_size - 1 == part_size * n + r);
    assert(n * part_size >= declared_size) by (nonlinear_arith)
        requires
            declared_size + part_size - 1 == part_size * n + r,
            0 <= r < part_size,
    ;
    assert((n - 1) * part_size < declared_size) by (nonlinear_arith)
        requires
            declared_size + part_size - 1 == part_size * n + r,
            0 <= r < part_size,
            0 < part_size,
    ;
    assert(1 <= n <= declared_size) by (nonlinear_arith)
        requires
            declared_size + part_size - 1 == part_size * n + r,
            0 <= r < part_size,
            0 < part_size <= declared_size,
    ;
}

/// Helper for the sum law: the first `k` parts cover exactly the first
/// `min(k * part_size, declared_size)` bytes.
proof fn lemma_sum_of_expected_sizes_prefix(declared_size: int, part_size: int, k: int)
    requires
        0 < part_size,
        0 <= declared_size,
        0 <= k,
    ensures
        spec_sum_of_expected_sizes(declared_size, part_size, k) == if k * part_size
            <= declared_size {
            k * part_size
        } else {
            declared_size
        },
    decreases k,
{
    if k == 0 {
        assert(k * part_size == 0) by (nonlinear_arith)
            requires
                k == 0,
        ;
    } else {
        lemma_sum_of_expected_sizes_prefix(declared_size, part_size, k - 1);
        assert((k - 1) * part_size == k * part_size - part_size) by (nonlinear_arith);
    }
}

/// The expected sizes of all parts sum to exactly the declared size.
pub proof fn lemma_expected_sizes_sum_to_declared(declared_size: int, part_size: int)
    requires
        0 < part_size <= declared_size,
    ensures
        spec_sum_of_expected_sizes(
            declared_size,
            part_size,
            spec_num_parts(declared_size, part_size),
        ) == declared_size,
{
    let n = spec_num_parts(declared_size, part_size);
    lemma_num_parts_is_ceil(declared_size, part_size);
    lemma_sum_of_expected_sizes_prefix(declared_size, part_size, n);
    if n * part_size <= declared_size {
        assert(n * part_size >= declared_size);
    }
}

/// The last state of one public playlist the reconciliation job saw:
/// who subscribed to it and which songs it held. The job's store keeps
/// one such record per playlist title.
#[derive(Debug)]
pub struct LastKnownPlaylistState {
    pub title: String,
    pub subscriber_ids: Vec<String>,
    pub song_ids: Vec<String>,
}

/// One row of the declaration relation: a declared upload, keyed by a
/// prefix of its content hash.
#[derive(Debug)]
pub struct UploadDeclarationItem {
    pub key: String,
    pub hash: String,
    pub declared_size: u32,
    pub part_size: u32,
    pub path: String,
    pub timestamp: i64,
}

impl UploadDeclarationItem {
    /// Row invariant: a declared upload has at least one part's worth of
    /// bytes, cut into parts of positive size.
    pub open spec fn valid(&self) -> bool {
        0 < self.part_size <= self.declared_size
    }

    /// How many parts this upload is expected to have.
    pub fn get_expected_num_parts(&self) -> (r: u32)
        requires
            self.valid(),
        ensures
            r == spec_num_parts(self.declared_size as int, self.part_size as int),
    {
        proof {
            lemma_num_parts_is_ceil(self.declared_size as int, self.part_size as int);
        }
        let d = self.declared_size as u64;
        let p = self.part_size as u64;
        ((d + p - 1) / p) as u32
    }

    /// The byte length the part at `index` must have.
    pub fn get_expected_index_size(&self, index: u32) -> (r: u32)
        requires
            self.valid(),
        ensures
            r == spec_expected_size(self.declared_size as int, self.part_size as int, index as int),
    {
        let d = self.declared_size as u64;
        let p = self.part_size as u64;
        assert((index as u64) * p == (index as int) * (self.part_size as int)
            && (index as u64) * p <= 0xffff_ffff_0000_0000u64) by (nonlinear_arith)
            requires
                index <= 0xffff_ffffu32,
                p == self.part_size,
                p <= 0xffff_ffffu64,
        ;
        let start = (index as u64) * p;
        if start >= d {
            0
        } else if start + p <= d {
            self.part_size
        } else {
            (d - start) as u32
        }
    }
}

impl Clone for UploadDeclarationItem {
    /// A clone carries exactly the same row.
    fn clone(&self) -> (r: Self)
        ensures
            r == *self,
    {
        UploadDeclarationItem {
            key: self.key.clone(),
            hash: self.hash.clone(),
            declared_size: self.declared_size,
            part_size: self.part_size,
            path: self.path.clone(),
            timestamp: self.timestamp,
        }
    }
}

/// One row of the part relation: an accepted chunk of a declared upload.
#[derive(Debug)]
pub struct UploadPartItem {
    pub parent_key: String,
    pub index: u32,
    pub part_hash: String,
    pub timestamp: i64,
}

impl UploadPartItem {
    /// Name of the temporary blob holding this part's bytes:
    /// `{parent_key}-{index}`.
    pub fn part_file_name(&self) -> (r: String)
        ensures
            r@ == self.parent_key@ + seq!['-'] + spec_decimal(self.index as nat),
    {
        let mut s = self.parent_key.clone();
        push_char(&mut s, '-');
        let digits = u32_decimal(self.index);
        let r = s.concat(digits.as_str());
        assert(r@ =~= self.parent_key@ + seq!['-'] + spec_decimal(self.index as nat));
        r
    }
}

impl Clone for UploadPartItem {
    /// A clone carries exactly the same row.
    fn clone(&self) -> (r: Self)
        ensures
            r == *self,
    {
        UploadPartItem {
            parent_key: self.parent_key.clone(),
            index: self.index,
            part_hash: self.part_hash.clone(),
            timestamp: self.timestamp,
        }
    }
}

/// Ascending order of parts by their index.
pub open spec fn sorted_by_index(s: Seq<UploadPartItem>) -> bool {
    forall|i: int, j: int| 0 <= i < j < s.len() ==> s[i].index <= s[j].index
}

/// Insertion of a part into an index-sorted sequence, before the first
/// entry with a strictly larger index.
pub open spec fn spec_insert_part(s: Seq<UploadPartItem>, x: UploadPartItem) -> Seq<UploadPartItem>
    decreases s.len(),
{
    if s.len() == 0 {
        seq![x]
    } else if x.index < s[0].index {
        seq![x] + s
    } else {
        seq![s[0]] + spec_insert_part(s.drop_first(), x)
    }
}

/// Index-sorted permutation of `s`, by repeated insertion; insertion
/// after equal indices keeps the original order of ties.
pub open spec fn spec_sort_parts(s: Seq<UploadPartItem>) -> Seq<UploadPartItem>
    decreases s.len(),
{
    if s.len() == 0 {
        Seq::empty()
    } else {
        spec_insert_part(spec_sort_parts(s.drop_last()), s.last())
    }
}

/// Inserting before the first strictly-larger index is insertion at that
/// position.
proof fn lemma_insert_part_at(s: Seq<UploadPartItem>, x: UploadPartItem, pos: int)
    requires
        sorted_by_index(s),
        0 <= pos <= s.len(),
        forall|j: int| 0 <= j < pos ==> s[j].index <= x.index,
        pos < s.len() ==> s[pos].index > x.index,
    ensures
        spec_insert_part(s, x) == s.insert(pos, x),
    decreases s.len(),
{
    if s.len() == 0 {
        assert(spec_insert_part(s, x) =~= s.insert(0, x));
    } else if x.index < s[0].index {
        assert(pos == 0);
        assert(spec_insert_part(s, x) =~= s.insert(0, x));
    } else {
        assert(pos >= 1);
        lemma_insert_part_at(s.drop_first(), x, pos - 1);
        assert(seq![s[0]] + s.drop_first().insert(pos - 1, x) =~= s.insert(pos, x));
    }
}

/// Sorts the given parts by ascending index; the result is the sorted
/// permutation `spec_sort_parts` of the input.
pub fn sort_parts_by_index(parts: &Vec<UploadPartItem>) -> (r: Vec<UploadPartItem>)
    ensures
        r@ == spec_sort_parts(parts@),
        sorted_by_index(r@),
        r@.to_multiset() == parts@.to_multiset(),
{
    let mut out: Vec<UploadPartItem> = Vec::new();
    let ghost all = parts@;
    let mut i: usize = 0;
    proof {
        assert(all.take(0) =~= Seq::<UploadPartItem>::empty());
        assert(out@.to_multiset() =~= all.take(0).to_multiset());
    }
    while i < parts.len()
        invariant
            0 <= i <= parts.len(),
            all == parts@,
            out@ == spec_sort_parts(all.take(i as int)),
            sorted_by_index(out@),
            out@.to_multiset() == all.take(i as int).to_multiset(),
        decreases parts.len() - i,
    {
        let x = parts[i].clone();
        let mut pos: usize = 0;
        while pos < out.len() && out[pos].index <= x.index
            invariant
                0 <= pos <= out.len(),
                forall|j: int| 0 <= j < pos ==> out@[j].index <= x.index,
            decreases out.len() - pos,
        {
            pos = pos + 1;
        }
        let ghost before = out@;
        proof {
            lemma_insert_part_at(before, x, pos as int);
        }
        out.insert(pos, x);
        proof {
            let t = i as int;
            assert(all.take(t + 1).drop_last() =~= all.take(t));
            assert(all.take(t + 1).last() == all[t]);
            assert(out@ == spec_sort_parts(all.take(t + 1)));
            // the insertion keeps the order
            assert forall|a: int, b: int| 0 <= a < b < out@.len() implies out@[a].index
                <= out@[b].index by {
                before.insert_ensures(pos as int, x);
            }
            // and adds exactly one row to the contents
            before.to_multiset_ensures();
            all.take(t).to_multiset_ensures();
            vstd::seq_lib::lemma_multiset_commutative(
                before.subrange(0, pos as int).push(x),
                before.subrange(pos as int, before.len() as int),
            );
            vstd::seq_lib::lemma_multiset_commutative(
                before.subrange(0, pos as int),
                before.subrange(pos as int, before.len() as int),
            );
            before.subrange(0, pos as int).to_multiset_ensures();
            assert(before.subrange(0, pos as int) + before.subrange(
                pos as int,
                before.len() as int,
            ) =~= before);
            assert(out@.to_multiset() =~= before.to_multiset().insert(x));
            assert(all.take(t + 1).to_multiset() =~= all.take(t).to_multiset().insert(x)) by {
                assert(all.take(t + 1) =~= all.take(t).push(all[t]));
            }
        }
        i = i + 1;
    }
    proof {
        assert(all.take(parts.len() as int) =~= all);
    }
    out
}

/// The declaration rows that do not carry `key`.
pub open spec fn decls_without(s: Seq<UploadDeclarationItem>, key: Seq<char>) -> Seq<
    UploadDeclarationItem,
> {
    s.filter(|d: UploadDeclarationItem| d.key@ != key)
}

/// The part rows that do not belong to `key`.
pub open spec fn parts_without(s: Seq<UploadPartItem>, key: Seq<char>) -> Seq<UploadPartItem> {
    s.filter(|p: UploadPartItem| p.parent_key@ != key)
}

/// The part rows that belong to `key`.
pub open spec fn parts_of(s: Seq<UploadPartItem>, key: Seq<char>) -> Seq<UploadPartItem> {
    s.filter(|p: UploadPartItem| p.parent_key@ == key)
}

/// Pairwise-distinct declaration keys.
pub open spec fn distinct_decl_keys(s: Seq<UploadDeclarationItem>) -> bool {
    forall|i: int, j: int| #![trigger s[i], s[j]] 0 <= i < j < s.len() ==> s[i].key@ != s[j].key@
}

/// Pairwise-distinct `(parent_key, index)` pairs.
pub open spec fn distinct_part_ids(s: Seq<UploadPartItem>) -> bool {
    forall|i: int, j: int| #![trigger s[i], s[j]] 0 <= i < j < s.len() ==> !(s[i].parent_key@
        == s[j].parent_key@ && s[i].index == s[j].index)
}

/// Deleting one key keeps the remaining declaration keys pairwise
/// distinct.
proof fn lemma_decls_without_distinct(s: Seq<UploadDeclarationItem>, key: Seq<char>)
    requires
        distinct_decl_keys(s),
    ensures
        distinct_decl_keys(decls_without(s, key)),
        forall|i: int| 0 <= i < decls_without(s, key).len() ==> s.contains(
            #[trigger] decls_without(s, key)[i],
        ),
    decreases s.len(),
{
    reveal(Seq::filter);
    if s.len() > 0 {
        let sub = s.drop_last();
        lemma_decls_without_distinct(sub, key);
        assert(forall|i: int| 0 <= i < sub.len() ==> sub[i] == s[i]);
        assert(forall|e: UploadDeclarationItem| sub.contains(e) ==> s.contains(e));
        if s.last().key@ != key {
            let f = decls_without(s, key);
            let fsub = decls_without(sub, key);
            assert(f == fsub.push(s.last()));
            assert forall|i: int, j: int| 0 <= i < j < f.len() implies f[i].key@ != f[j].key@ by {
                if j < f.len() - 1 {
                    assert(f[i] == fsub[i] && f[j] == fsub[j]);
                } else {
                    assert(f[i] == fsub[i]);
                    assert(sub.contains(fsub[i]));
                    let w = choose|w: int| 0 <= w < sub.len() && sub[w] == fsub[i];
                    assert(s[w] == fsub[i]);
                    assert(s[w].key@ != s[s.len() - 1].key@);
                }
            }
        }
    }
}

/// Deleting one upload's parts keeps the remaining part identities
/// pairwise distinct.
proof fn lemma_parts_without_distinct(s: Seq<UploadPartItem>, key: Seq<char>)
    requires
        distinct_part_ids(s),
    ensures
        distinct_part_ids(parts_without(s, key)),
        forall|i: int| 0 <= i < parts_without(s, key).len() ==> s.contains(
            #[trigger] parts_without(s, key)[i],
        ),
    decreases s.len(),
{
    reveal(Seq::filter);
    if s.len() > 0 {
        let sub = s.drop_last();
        lemma_parts_without_distinct(sub, key);
        assert(forall|i: int| 0 <= i < sub.len() ==> sub[i] == s[i]);
        assert(forall|e: UploadPartItem| sub.contains(e) ==> s.contains(e));
        if s.last().parent_key@ != key {
            let f = parts_without(s, key);
            let fsub = parts_without(sub, key);
            assert(f == fsub.push(s.last()));
            assert forall|i: int, j: int| 0 <= i < j < f.len() implies !(f[i].parent_key@
                == f[j].parent_key@ && f[i].index == f[j].index) by {
                if j < f.len() - 1 {
                    assert(f[i] == fsub[i] && f[j] == fsub[j]);
                } else {
                    assert(f[i] == fsub[i]);
                    assert(sub.contains(fsub[i]));
                    let w = choose|w: int| 0 <= w < sub.len() && sub[w] == fsub[i];
                    assert(s[w] == fsub[i]);
                    assert(!(s[w].parent_key@ == s[s.len() - 1].parent_key@ && s[w].index
                        == s[s.len() - 1].index));
                }
            }
        }
    }
}

/// A declaration's key: a fixed-length prefix of its content hash (the
/// whole hash where it is shorter).
pub open spec fn spec_build_key(hash: Seq<char>) -> Seq<char> {
    if hash.len() <= 30 {
        hash
    } else {
        hash.take(30)
    }
}

/// The operational record of in-flight uploads: one declaration row per
/// distinct upload and one part row per accepted chunk. Keys are unique
/// among declarations, `(parent_key, index)` pairs unique among parts,
/// and every stored declaration satisfies its row invariant.
pub struct UploadLedger {
    declarations: Vec<UploadDeclarationItem>,
    parts: Vec<UploadPartItem>,
}

impl UploadLedger {
    /// The declaration relation, in insertion order.
    pub closed spec fn decls(&self) -> Seq<UploadDeclarationItem> {
        self.declarations@
    }

    /// The part relation, in insertion order.
    pub closed spec fn part_rows(&self) -> Seq<UploadPartItem> {
        self.parts@
    }

    /// Store invariant: key uniqueness, part-identity uniqueness, row
    /// validity.
    pub open spec fn wf(&self) -> bool {
        &&& distinct_decl_keys(self.decls())
        &&& distinct_part_ids(self.part_rows())
        &&& forall|i: int| 0 <= i < self.decls().len() ==> (#[trigger] self.decls()[i]).valid()
    }

    /// Whether a declaration with this key is stored.
    pub open spec fn spec_has_declaration(&self, key: Seq<char>) -> bool {
        exists|i: int| 0 <= i < self.decls().len() && (#[trigger] self.decls()[i]).key@ == key
    }

    /// The stored declaration with this key (meaningful when one exists;
    /// under `wf` it is unique).
    pub open spec fn spec_declaration_for(&self, key: Seq<char>) -> UploadDeclarationItem {
        self.decls()[choose|i: int|
            0 <= i < self.decls().len() && (#[trigger] self.decls()[i]).key@ == key]
    }

    /// Whether the part `(key, index)` is stored.
    pub open spec fn spec_has_part(&self, key: Seq<char>, index: u32) -> bool {
        exists|i: int|
            0 <= i < self.part_rows().len() && (#[trigger] self.part_rows()[i]).parent_key@ == key
                && self.part_rows()[i].index == index
    }

    /// All stored parts of the upload `key`, in insertion order.
    pub open spec fn spec_parts_for(&self, key: Seq<char>) -> Seq<UploadPartItem> {
        parts_of(self.part_rows(), key)
    }

    /// An empty ledger.
    pub fn new() -> (r: Self)
        ensures
            r.wf(),
            r.decls().len() == 0,
            r.part_rows().len() == 0,
    {
        UploadLedger { declarations: Vec::new(), parts: Vec::new() }
    }

    /// How many declaration rows the ledger holds.
    pub fn num_declarations(&self) -> (r: usize)
        ensures
            r == self.decls().len(),
    {
        self.declarations.len()
    }

    /// How many part rows the ledger holds, over all uploads.
    pub fn num_parts(&self) -> (r: usize)
        ensures
            r == self.part_rows().len(),
    {
        self.parts.len()
    }

    /// The key under which an upload with this content hash is tracked.
    pub fn build_key(hash: &String) -> (r: String)
        ensures
            r@ == spec_build_key(hash@),
    {
        let n = hash.as_str().unicode_len();
        if n <= 30 {
            hash.clone()
        } else {
            hash.as_str().substring_char(0, 30).to_owned()
        }
    }

    /// Looks up the declaration stored under `key`.
    pub fn get_upload_declaration(&self, key: &String) -> (r: Option<UploadDeclarationItem>)
        requires
            self.wf(),
        ensures
            r is Some <==> self.spec_has_declaration(key@),
            r matches Some(d) ==> d == self.spec_declaration_for(key@),
    {
        let mut i: usize = 0;
        while i < self.declarations.len()
            invariant
                self.wf(),
                0 <= i <= self.decls().len(),
                forall|j: int| 0 <= j < i ==> (#[trigger] self.decls()[j]).key@ != key@,
            decreases self.declarations.len() - i,
        {
            if self.declarations[i].key == *key {
                let d = self.declarations[i].clone();
                proof {
                    let t = i as int;
                    assert(self.decls()[t].key@ == key@);
                    let w = choose|w: int|
                        0 <= w < self.decls().len() && (#[trigger] self.decls()[w]).key@ == key@;
                    if w != t {
                        assert(self.decls()[w].key@ != self.decls()[t].key@);
                    }
                }
                return Some(d);
            }
            i = i + 1;
        }
        None
    }

    /// Returns the declaration already stored under the hash's key, or
    /// inserts a fresh one with the given fields and returns it. The
    /// first declaration wins: an existing row is returned unchanged.
    pub fn declare_or_get_previous_upload(
        &mut self,
        hash: String,
        declared_size_bytes: u32,
        part_size_bytes: u32,
        path: String,
        timestamp: i64,
    ) -> (r: Option<UploadDeclarationItem>)
        requires
            old(self).wf(),
            0 < part_size_bytes <= declared_size_bytes,
        ensures
            final(self).wf(),
            r is Some,
            old(self).spec_has_declaration(spec_build_key(hash@)) ==> (r matches Some(d)
                && d == old(self).spec_declaration_for(spec_build_key(hash@))
                && final(self).decls() == old(self).decls()
                && final(self).part_rows() == old(self).part_rows()),
            !old(self).spec_has_declaration(spec_build_key(hash@)) ==> (r matches Some(d)
                && d.key@ == spec_build_key(hash@)
                && d.hash@ == hash@
                && d.declared_size == declared_size_bytes
                && d.part_size == part_size_bytes
                && d.path@ == path@
                && d.timestamp == timestamp
                && final(self).decls() == old(self).decls().push(d)
                && final(self).part_rows() == old(self).part_rows()),
    {
        let key = Self::build_key(&hash);
        if let Some(previous_item) = self.get_upload_declaration(&key) {
            return Some(previous_item);
        }
        let item = UploadDeclarationItem {
            key,
            hash,
            declared_size: declared_size_bytes,
            part_size: part_size_bytes,
            path,
            timestamp,
        };
        let r = item.clone();
        self.declarations.push(item);
        Some(r)
    }

    /// Whether the chunk `(parent_key, index)` has already been accepted.
    pub fn is_part_present(&self, parent_key: &String, index: u32) -> (r: bool)
        ensures
            r == self.spec_has_part(parent_key@, index),
    {
        let mut i: usize = 0;
        while i < self.parts.len()
            invariant
                0 <= i <= self.part_rows().len(),
                forall|j: int| 0 <= j < i ==> !((#[trigger] self.part_rows()[j]).parent_key@
                    == parent_key@ && self.part_rows()[j].index == index),
            decreases self.parts.len() - i,
        {
            if self.parts[i].parent_key == *parent_key && self.parts[i].index == index {
                return true;
            }
            i = i + 1;
        }
        false
    }

    /// Records the chunk `(parent_key, index)` and returns the new row;
    /// refuses (returning nothing, with the ledger unchanged) when that
    /// identity is already present.
    pub fn add_part(
        &mut self,
        parent_key: &String,
        index: u32,
        part_hash: &String,
        timestamp: i64,
    ) -> (r: Option<UploadPartItem>)
        requires
            old(self).wf(),
        ensures
            final(self).wf(),
            old(self).spec_has_part(parent_key@, index) ==> (r is None
                && final(self).decls() == old(self).decls()
                && final(self).part_rows() == old(self).part_rows()),
            !old(self).spec_has_part(parent_key@, index) ==> (r matches Some(p)
                && p.parent_key == *parent_key
                && p.index == index
                && p.part_hash == *part_hash
                && p.timestamp == timestamp
                && final(self).decls() == old(self).decls()
                && final(self).part_rows() == old(self).part_rows().push(p)),
    {
        if self.is_part_present(parent_key, index) {
            return None;
        }
        let item = UploadPartItem {
            parent_key: parent_key.clone(),
            index,
            part_hash: part_hash.clone(),
            timestamp,
        };
        let r = item.clone();
        self.parts.push(item);
        Some(r)
    }

    /// All parts stored for the upload `key`, in insertion order.
    pub fn get_parts(&self, key: &String) -> (r: Option<Vec<UploadPartItem>>)
        ensures
            r matches Some(v) && v@ == self.spec_parts_for(key@),
    {
        let mut v: Vec<UploadPartItem> = Vec::new();
        let mut i: usize = 0;
        proof {
            reveal(Seq::filter);
            assert(self.part_rows().take(0) =~= Seq::<UploadPartItem>::empty());
        }
        while i < self.parts.len()
            invariant
                0 <= i <= self.part_rows().len(),
                v@ == parts_of(self.part_rows().take(i as int), key@),
            decreases self.parts.len() - i,
        {
            proof {
                reveal(Seq::filter);
                let t = i as int;
                assert(self.part_rows().take(t + 1).drop_last() =~= self.part_rows().take(t));
                assert(self.part_rows().take(t + 1).last() == self.part_rows()[t]);
            }
            if self.parts[i].parent_key == *key {
                v.push(self.parts[i].clone());
            }
            i = i + 1;
        }
        proof {
            assert(self.part_rows().take(self.part_rows().len() as int) =~= self.part_rows());
        }
        Some(v)
    }

    /// Deletes the declaration stored under `key` and every part of it;
    /// returns how many part rows were removed.
    pub fn cleanup_upload(&mut self, key: &String) -> (r: usize)
        requires
            old(self).wf(),
        ensures
            final(self).wf(),
            final(self).decls() == decls_without(old(self).decls(), key@),
            final(self).part_rows() == parts_without(old(self).part_rows(), key@),
            r == old(self).spec_parts_for(key@).len(),
    {
        let ghost old_decls = self.declarations@;
        let ghost old_parts = self.parts@;
        proof {
            reveal(Seq::filter);
            assert(old_decls.take(0) =~= Seq::<UploadDeclarationItem>::empty());
            assert(old_parts.take(0) =~= Seq::<UploadPartItem>::empty());
        }
        let mut kept_decls: Vec<UploadDeclarationItem> = Vec::new();
        let mut i: usize = 0;
        while i < self.declarations.len()
            invariant
                0 <= i <= old_decls.len(),
                old_decls == self.declarations@,
                kept_decls@ == decls_without(old_decls.take(i as int), key@),
            decreases self.declarations.len() - i,
        {
            proof {
                reveal(Seq::filter);
                let t = i as int;
                assert(old_decls.take(t + 1).drop_last() =~= old_decls.take(t));
                assert(old_decls.take(t + 1).last() == old_decls[t]);
            }
            if !(self.declarations[i].key == *key) {
                kept_decls.push(self.declarations[i].clone());
            }
            i = i + 1;
        }
        let mut kept_parts: Vec<UploadPartItem> = Vec::new();
        let mut removed: usize = 0;
        let mut j: usize = 0;
        while j < self.parts.len()
            invariant
                0 <= j <= old_parts.len(),
                old_parts == self.parts@,
                kept_parts@ == parts_without(old_parts.take(j as int), key@),
                removed == parts_of(old_parts.take(j as int), key@).len(),
                removed <= j,
            decreases self.parts.len() - j,
        {
            proof {
                reveal(Seq::filter);
                let t = j as int;
                assert(old_parts.take(t + 1).drop_last() =~= old_parts.take(t));
                assert(old_parts.take(t + 1).last() == old_parts[t]);
            }
            if self.parts[j].parent_key == *key {
                removed = removed + 1;
            } else {
                kept_parts.push(self.parts[j].clone());
            }
            j = j + 1;
        }
        proof {
            assert(old_decls.take(old_decls.len() as int) =~= old_decls);
            assert(old_parts.take(old_parts.len() as int) =~= old_parts);
            lemma_decls_without_distinct(old_decls, key@);
            lemma_parts_without_distinct(old_parts, key@);
        }
        self.declarations = kept_decls;
        self.parts = kept_parts;
        removed
    }
}

} // verus!
