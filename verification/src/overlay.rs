//! The in-memory files of an HTTP server: a mapping from request path to
//! payload that is looked up before the static directory.

use vstd::prelude::*;

verus! {

/// One served file: the request path and the payload.
struct VirtualFile {
    name: String,
    data: Vec<u8>,
}

/// The overlay of one HTTP server. No path occurs twice in it.
pub struct VirtualFiles {
    entries: Vec<VirtualFile>,
}

impl View for VirtualFiles {
    type V = Map<Seq<char>, Seq<u8>>;

    closed spec fn view(&self) -> Map<Seq<char>, Seq<u8>> {
        Map::new(|name: Seq<char>| self.holds(name), |name: Seq<char>| self.data_at(name))
    }
}

impl VirtualFiles {
    spec fn names(&self) -> Seq<Seq<char>> {
        Seq::new(self.entries@.len(), |i: int| self.entries@[i].name@)
    }

    spec fn holds(&self, name: Seq<char>) -> bool {
        self.names().contains(name)
    }

    spec fn data_at(&self, name: Seq<char>) -> Seq<u8> {
        self.entries@[self.names().index_of(name)].data@
    }

    /// The validity of an overlay: every path stands in it once.
    pub closed spec fn wf(&self) -> bool {
        self.names().no_duplicates()
    }

    /// An overlay without files.
    pub fn new() -> (files: VirtualFiles)
        ensures
            files.wf(),
            files@ == Map::<Seq<char>, Seq<u8>>::empty(),
    {
        let files = VirtualFiles { entries: Vec::new() };
        assert(files@ =~= Map::<Seq<char>, Seq<u8>>::empty());
        files
    }

    /// Where `name` stands, if it does.
    fn find(&self, name: &String) -> (at: Option<usize>)
        requires
            self.wf(),
        ensures
            match at {
                Some(i) => i < self.entries@.len() && self.names()[i as int] == name@
                    && self.names().index_of(name@) == i,
                None => !self.holds(name@),
            },
    {
        let mut i: usize = 0;
        while i < self.entries.len()
            invariant
                i <= self.entries@.len(),
                self.wf(),
                forall|j: int| 0 <= j < i ==> self.names()[j] != name@,
            decreases self.entries@.len() - i,
        {
            if self.entries[i].name.eq(name) {
                proof {
                    let k = self.names().index_of(name@);
                    assert(self.names()[i as int] == name@);
                    assert(self.names().contains(name@));
                    assert(0 <= k < self.names().len() && self.names()[k] == name@);
                }
                return Some(i);
            }
            i += 1;
        }
        None
    }

    /// Serves `data` under `name` from now on, in place of what was served
    /// under that path before.
    pub fn insert(&mut self, name: String, data: Vec<u8>)
        requires
            old(self).wf(),
        ensures
            final(self).wf(),
            final(self)@ == old(self)@.insert(name@, data@),
    {
        match self.find(&name) {
            Some(i) => {
                self.entries.remove(i);
                proof {
                    lemma_names_after_remove(*old(self), *self, i as int);
                    assert(!self@.contains_key(name@));
                    assert(!self.holds(name@));
                }
            },
            None => {},
        }
        let ghost mid = *self;
        self.entries.push(VirtualFile { name, data });
        proof {
            assert(self.entries@.drop_last() =~= mid.entries@);
            lemma_names_after_push(mid, *self, name@, data@);
            assert(self@ =~= old(self)@.insert(name@, data@));
        }
    }

    /// Stops serving `name`.
    pub fn remove(&mut self, name: &String)
        requires
            old(self).wf(),
        ensures
            final(self).wf(),
            final(self)@ == old(self)@.remove(name@),
    {
        match self.find(name) {
            Some(i) => {
                self.entries.remove(i);
                proof {
                    lemma_names_after_remove(*old(self), *self, i as int);
                    assert(self@ =~= old(self)@.remove(name@));
                }
            },
            None => {
                assert(self@ =~= old(self)@.remove(name@));
            },
        }
    }

    /// The payload served under `name`, if there is one.
    pub fn get(&self, name: &String) -> (data: Option<&Vec<u8>>)
        requires
            self.wf(),
        ensures
            match data {
                Some(bytes) => self@.contains_key(name@) && bytes@ == self@[name@],
                None => !self@.contains_key(name@),
            },
    {
        match self.find(name) {
            Some(i) => Some(&self.entries[i].data),
            None => None,
        }
    }
}

/// Taking the entry at `at` out of an overlay removes its path from the
/// mapping and leaves every other path with its payload.
proof fn lemma_names_after_remove(before: VirtualFiles, after: VirtualFiles, at: int)
    requires
        before.wf(),
        0 <= at < before.entries@.len(),
        after.entries@ == before.entries@.remove(at),
    ensures
        after.wf(),
        after@ == before@.remove(before.names()[at]),
{
    let gone = before.names()[at];
    assert(after.names() =~= before.names().remove(at));
    assert forall|name: Seq<char>| after.holds(name) <==> (before.holds(name) && name != gone) by {
        if after.holds(name) {
            let k = after.names().index_of(name);
            let k0 = if k < at {
                k
            } else {
                k + 1
            };
            assert(before.names()[k0] == name);
        }
        if before.holds(name) && name != gone {
            let k0 = before.names().index_of(name);
            let k = if k0 < at {
                k0
            } else {
                k0 - 1
            };
            assert(after.names()[k] == name);
        }
    }
    assert forall|name: Seq<char>| after.holds(name) implies after.data_at(name)
        == before.data_at(name) by {
        let k = after.names().index_of(name);
        let k0 = if k < at {
            k
        } else {
            k + 1
        };
        assert(before.names()[k0] == name);
        assert(before.names().index_of(name) == k0);
    }
    assert(after@ =~= before@.remove(gone));
}

/// Adding an entry for a path that an overlay does not hold puts the path
/// into the mapping with its payload and leaves every other path as it was.
proof fn lemma_names_after_push(
    before: VirtualFiles,
    after: VirtualFiles,
    name: Seq<char>,
    data: Seq<u8>,
)
    requires
        before.wf(),
        !before.holds(name),
        after.entries@.len() == before.entries@.len() + 1,
        after.entries@.drop_last() == before.entries@,
        after.entries@.last().name@ == name,
        after.entries@.last().data@ == data,
    ensures
        after.wf(),
        after@ == before@.insert(name, data),
{
    let n = before.entries@.len() as int;
    assert(after.names() =~= before.names().push(name));
    assert forall|i: int| 0 <= i < n implies after.entries@[i] == before.entries@[i] by {
        assert(after.entries@.drop_last()[i] == after.entries@[i]);
    }
    assert forall|other: Seq<char>| after.holds(other) <==> (before.holds(other) || other
        == name) by {
        if after.holds(other) {
            let k = after.names().index_of(other);
            if k < n {
                assert(before.names()[k] == other);
            }
        }
        if before.holds(other) {
            let k = before.names().index_of(other);
            assert(after.names()[k] == other);
        }
        if other == name {
            assert(after.names()[n] == other);
        }
    }
    assert forall|other: Seq<char>| after.holds(other) implies after.data_at(other) == (if other
        == name {
        data
    } else {
        before.data_at(other)
    }) by {
        let k = after.names().index_of(other);
        if other == name {
            assert(after.names()[n] == name);
            assert(k == n);
        } else {
            assert(k < n);
            assert(before.names()[k] == other);
            assert(before.names().index_of(other) == k);
        }
    }
    assert(after@ =~= before@.insert(name, data));
}

} // verus!
