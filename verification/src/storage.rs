//! Model of the byte stores the upload flows touch: a store of named
//! blobs with create-only writes (writing an existing name fails, which
//! is what makes the final commit of an upload happen exactly once).
//! One instance stands for the temporary part directory, another for the
//! destination library. The calling layer mirrors each operation onto
//! the real filesystem.
use vstd::prelude::*;

verus! {

/// One stored blob.
#[derive(Debug)]
pub struct StoredFile {
    pub name: String,
    pub bytes: Vec<u8>,
}

/// A set of named byte blobs with unique names.
pub struct FileStore {
    files: Vec<StoredFile>,
}

impl FileStore {
    /// The stored blobs, in creation order.
    pub closed spec fn rows(&self) -> Seq<StoredFile> {
        self.files@
    }

    /// Store invariant: names are unique.
    pub open spec fn wf(&self) -> bool {
        forall|i: int, j: int| #![trigger self.rows()[i], self.rows()[j]] 0 <= i < j
            < self.rows().len() ==> self.rows()[i].name@ != self.rows()[j].name@
    }

    /// Whether a blob of this name is stored.
    pub open spec fn spec_has_file(&self, name: Seq<char>) -> bool {
        exists|i: int| 0 <= i < self.rows().len() && (#[trigger] self.rows()[i]).name@ == name
    }

    /// The bytes stored under `name` (meaningful when the blob exists;
    /// under `wf` it is unique).
    pub open spec fn spec_file_bytes(&self, name: Seq<char>) -> Seq<u8> {
        self.rows()[choose|i: int|
            0 <= i < self.rows().len() && (#[trigger] self.rows()[i]).name@ == name].bytes@
    }

    /// An empty store.
    pub fn new() -> (r: Self)
        ensures
            r.wf(),
            forall|n: Seq<char>| !r.spec_has_file(n),
    {
        FileStore { files: Vec::new() }
    }

    /// Whether a blob of this name is stored.
    pub fn exists_file(&self, name: &String) -> (r: bool)
        ensures
            r == self.spec_has_file(name@),
    {
        let mut i: usize = 0;
        while i < self.files.len()
            invariant
                0 <= i <= self.rows().len(),
                forall|j: int| 0 <= j < i ==> (#[trigger] self.rows()[j]).name@ != name@,
            decreases self.files.len() - i,
        {
            if self.files[i].name == *name {
                return true;
            }
            i = i + 1;
        }
        false
    }

    /// The bytes stored under `name`, when present.
    pub fn read_file(&self, name: &String) -> (r: Option<Vec<u8>>)
        requires
            self.wf(),
        ensures
            r is Some <==> self.spec_has_file(name@),
            r matches Some(b) ==> b@ == self.spec_file_bytes(name@),
    {
        let mut i: usize = 0;
        while i < self.files.len()
            invariant
                self.wf(),
                0 <= i <= self.rows().len(),
                forall|j: int| 0 <= j < i ==> (#[trigger] self.rows()[j]).name@ != name@,
            decreases self.files.len() - i,
        {
            if self.files[i].name == *name {
                let b = self.files[i].bytes.clone();
                proof {
                    let t = i as int;
                    let w = choose|w: int|
                        0 <= w < self.rows().len() && (#[trigger] self.rows()[w]).name@ == name@;
                    if w != t {
                        assert(self.rows()[w].name@ != self.rows()[t].name@);
                    }
                    assert(b@ =~= self.rows()[t].bytes@);
                }
                return Some(b);
            }
            i = i + 1;
        }
        None
    }

    /// Stores `bytes` under `name` if no blob of that name exists yet;
    /// refuses (leaving the store unchanged) otherwise. This is the
    /// create-only write: of two concurrent commits to one name, exactly
    /// one can succeed.
    pub fn write_new(&mut self, name: &String, bytes: Vec<u8>) -> (r: Result<(), ()>)
        requires
            old(self).wf(),
        ensures
            final(self).wf(),
            r is Ok <==> !old(self).spec_has_file(name@),
            r is Err ==> final(self).rows() == old(self).rows(),
            r is Ok ==> final(self).spec_file_bytes(name@) == bytes@,
            final(self).spec_has_file(name@) == (old(self).spec_has_file(name@) || r is Ok),
            forall|n: Seq<char>| n != name@ ==> final(self).spec_has_file(n) == old(self).spec_has_file(n),
            forall|n: Seq<char>| n != name@ && old(self).spec_has_file(n) ==> final(self).spec_file_bytes(n) == old(self).spec_file_bytes(n),
    {
        if self.exists_file(name) {
            return Err(());
        }
        self.files.push(StoredFile { name: name.clone(), bytes });
        proof {
            let last = self.rows().len() - 1;
            assert(self.rows()[last].name@ == name@);
            assert(forall|j: int| 0 <= j < last ==> self.rows()[j] == old(self).rows()[j]);
            assert forall|n: Seq<char>| n != name@ implies self.spec_has_file(n) == old(self).spec_has_file(n) by {
                if self.spec_has_file(n) {
                    let w = choose|w: int|
                        0 <= w < self.rows().len() && (#[trigger] self.rows()[w]).name@ == n;
                    assert(w < last);
                    assert(old(self).rows()[w].name@ == n);
                }
                if old(self).spec_has_file(n) {
                    let w = choose|w: int|
                        0 <= w < old(self).rows().len() && (#[trigger] old(self).rows()[w]).name@
                            == n;
                    assert(self.rows()[w].name@ == n);
                }
            }
            assert forall|n: Seq<char>| n != name@ && old(self).spec_has_file(n) implies self
                .spec_file_bytes(n) == old(self).spec_file_bytes(n) by {
                let w1 = choose|w: int|
                    0 <= w < self.rows().len() && (#[trigger] self.rows()[w]).name@ == n;
                let w2 = choose|w: int|
                    0 <= w < old(self).rows().len() && (#[trigger] old(self).rows()[w]).name@
                        == n;
                assert(self.rows()[w2].name@ == n);
                assert(w1 < last);
                if w1 != w2 {
                    assert(self.rows()[w1].name@ != self.rows()[w2].name@);
                }
            }
            let w0 = choose|w: int|
                0 <= w < self.rows().len() && (#[trigger] self.rows()[w]).name@ == name@;
            if w0 != last {
                assert(self.rows()[w0].name@ != self.rows()[last].name@);
            }
            assert(self.spec_file_bytes(name@) == self.rows()[last].bytes@);
        }
        Ok(())
    }

    /// Deletes the blob of this name if present; reports whether one was
    /// deleted.
    pub fn remove_file(&mut self, name: &String) -> (r: bool)
        requires
            old(self).wf(),
        ensures
            final(self).wf(),
            r == old(self).spec_has_file(name@),
            !final(self).spec_has_file(name@),
            forall|n: Seq<char>| n != name@ ==> final(self).spec_has_file(n) == old(self).spec_has_file(n),
            forall|n: Seq<char>| n != name@ && old(self).spec_has_file(n) ==> final(self).spec_file_bytes(n) == old(self).spec_file_bytes(n),
    {
        let mut i: usize = 0;
        while i < self.files.len()
            invariant
                *self == *old(self),
                old(self).wf(),
                0 <= i <= old(self).rows().len(),
                forall|j: int| 0 <= j < i ==> (#[trigger] old(self).rows()[j]).name@ != name@,
            decreases self.files.len() - i,
        {
            if self.files[i].name == *name {
                let t = i;
                self.files.remove(t);
                proof {
                    let ti = t as int;
                    let before = old(self).rows();
                    before.remove_ensures(ti);
                    assert(self.rows() == before.remove(ti));
                    assert(forall|j: int| 0 <= j < ti ==> self.rows()[j] == before[j]);
                    assert(forall|j: int| ti <= j < self.rows().len() ==> self.rows()[j]
                        == before[j + 1]);
                    assert forall|n: Seq<char>| n != name@ implies self.spec_has_file(n) == old(self).spec_has_file(n) by {
                        if self.spec_has_file(n) {
                            let w = choose|w: int|
                                0 <= w < self.rows().len() && (#[trigger] self.rows()[w]).name@
                                    == n;
                            if w < ti {
                                assert(before[w].name@ == n);
                            } else {
                                assert(before[w + 1].name@ == n);
                            }
                        }
                        if old(self).spec_has_file(n) {
                            let w = choose|w: int|
                                0 <= w < before.len() && (#[trigger] before[w]).name@ == n;
                            assert(w != ti);
                            if w < ti {
                                assert(self.rows()[w].name@ == n);
                            } else {
                                assert(self.rows()[w - 1].name@ == n);
                            }
                        }
                    }
                    assert forall|n: Seq<char>| n != name@ && old(self).spec_has_file(n) implies
                        self.spec_file_bytes(n) == old(self).spec_file_bytes(n) by {
                        let w1 = choose|w: int|
                            0 <= w < self.rows().len() && (#[trigger] self.rows()[w]).name@ == n;
                        let w2 = choose|w: int|
                            0 <= w < before.len() && (#[trigger] before[w]).name@ == n;
                        assert(w2 != ti);
                        if w2 < ti {
                            assert(self.rows()[w2].name@ == n);
                        } else {
                            assert(self.rows()[w2 - 1].name@ == n);
                        }
                        let orig = if w1 < ti {
                            w1
                        } else {
                            w1 + 1
                        };
                        assert(before[orig].name@ == n);
                        if orig != w2 {
                            assert(before[orig].name@ != before[w2].name@);
                        }
                        assert(self.rows()[w1].bytes@ == before[w2].bytes@);
                    }
                    assert(!self.spec_has_file(name@)) by {
                        if self.spec_has_file(name@) {
                            let w = choose|w: int|
                                0 <= w < self.rows().len() && (#[trigger] self.rows()[w]).name@
                                    == name@;
                            let orig = if w < ti {
                                w
                            } else {
                                w + 1
                            };
                            assert(before[orig].name@ == name@);
                            assert(orig != ti);
                            assert(before[orig].name@ != before[ti].name@);
                        }
                    }
                }
                return true;
            }
            i = i + 1;
        }
        false
    }
}

} // verus!
