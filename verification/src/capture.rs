//! The capture table for dispatch events whose names the schema layer does
//! not recognize: an insertion-ordered mapping from event name to the raw
//! frame last seen under that name. The table is diagnostic; callers persist
//! it after every update.

use vstd::pervasive::VecAdditionalExecFns;
use vstd::prelude::*;

verus! {

/// One captured event: its name and the raw frame text last seen under it.
#[derive(Debug)]
pub struct CaptureEntry {
    pub name: String,
    pub payload: String,
}

/// Insertion-ordered table mapping an unrecognized dispatch event name to the
/// raw frame last seen under it. A repeated name overwrites its entry in
/// place; a new name is appended.
#[derive(Debug)]
pub struct CaptureTable {
    pub entries: Vec<CaptureEntry>,
}

impl View for CaptureTable {
    type V = Seq<(Seq<char>, Seq<char>)>;

    open spec fn view(&self) -> Seq<(Seq<char>, Seq<char>)> {
        self.entries@.map_values(|e: CaptureEntry| (e.name@, e.payload@))
    }
}

/// Index of the first entry of `s` named `name`, if any.
pub open spec fn spec_find(s: Seq<(Seq<char>, Seq<char>)>, name: Seq<char>) -> Option<int>
    decreases s.len(),
{
    if s.len() == 0 {
        None
    } else if s[0].0 == name {
        Some(0int)
    } else {
        match spec_find(s.drop_first(), name) {
            Some(i) => Some(i + 1),
            None => None,
        }
    }
}

/// The payload stored under `name`, if any.
pub open spec fn spec_lookup(s: Seq<(Seq<char>, Seq<char>)>, name: Seq<char>) -> Option<
    Seq<char>,
> {
    match spec_find(s, name) {
        Some(i) => Some(s[i].1),
        None => None,
    }
}

/// The table after storing `payload` under `name`: the first entry of that
/// name is overwritten in place, or a new entry is appended.
pub open spec fn spec_insert(
    s: Seq<(Seq<char>, Seq<char>)>,
    name: Seq<char>,
    payload: Seq<char>,
) -> Seq<(Seq<char>, Seq<char>)> {
    match spec_find(s, name) {
        Some(i) => s.update(i, (name, payload)),
        None => s.push((name, payload)),
    }
}

/// What `spec_find` returns: the index of a matching entry preceded by no
/// other match, or nothing when no entry matches.
pub proof fn lemma_spec_find_properties(s: Seq<(Seq<char>, Seq<char>)>, name: Seq<char>)
    ensures
        match spec_find(s, name) {
            Some(i) => {
                &&& 0 <= i < s.len()
                &&& s[i].0 == name
                &&& forall|j: int| 0 <= j < i ==> s[j].0 != name
            },
            None => forall|j: int| 0 <= j < s.len() ==> s[j].0 != name,
        },
    decreases s.len(),
{
    if s.len() != 0 && s[0].0 != name {
        let tail = s.drop_first();
        lemma_spec_find_properties(tail, name);
        assert forall|j: int| 0 <= j < tail.len() implies tail[j] == s[j + 1] by {}
        match spec_find(tail, name) {
            Some(i) => {
                assert(s[i + 1].0 == name);
                assert forall|j: int| 0 <= j < i + 1 implies s[j].0 != name by {
                    if j >= 1 {
                        assert(tail[j - 1].0 != name);
                    }
                }
            },
            None => {
                assert forall|j: int| 0 <= j < s.len() implies s[j].0 != name by {
                    if j >= 1 {
                        assert(tail[j - 1].0 != name);
                    }
                }
            },
        }
    }
}

impl CaptureTable {
    /// No two entries share a name. Established by [`CaptureTable::new`] and
    /// preserved by [`CaptureTable::insert`].
    pub open spec fn wf(&self) -> bool {
        forall|i: int, j: int| 0 <= i < j < self@.len() ==> self@[i].0 != self@[j].0
    }

    /// An empty capture table.
    pub fn new() -> (r: Self)
        ensures
            r@ =~= Seq::<(Seq<char>, Seq<char>)>::empty(),
            r.wf(),
    {
        CaptureTable { entries: Vec::new() }
    }

    /// Number of captured names.
    pub fn len(&self) -> (n: usize)
        ensures
            n == self@.len(),
    {
        self.entries.len()
    }

    /// The entry at position `i`, in insertion order.
    pub fn entry(&self, i: usize) -> (e: &CaptureEntry)
        requires
            i < self@.len(),
        ensures
            e.name@ == self@[i as int].0,
            e.payload@ == self@[i as int].1,
    {
        &self.entries[i]
    }

    /// The raw frame last captured under `name`, if any.
    pub fn get(&self, name: &String) -> (r: Option<&String>)
        ensures
            match r {
                Some(p) => spec_lookup(self@, name@) == Some(p@),
                None => spec_lookup(self@, name@) is None,
            },
    {
        let n = self.entries.len();
        let mut i: usize = 0;
        while i < n
            invariant
                n == self.entries@.len(),
                i <= n,
                forall|j: int| 0 <= j < i ==> self@[j].0 != name@,
            decreases n - i,
        {
            if self.entries[i].name == *name {
                proof {
                    assert(self@[i as int].0 == name@);
                    lemma_spec_find_properties(self@, name@);
                    match spec_find(self@, name@) {
                        Some(f) => {
                            assert(f == i as int);
                        },
                        None => {
                            assert(self@[i as int].0 != name@);
                        },
                    }
                    assert(self@[i as int].1 == self.entries@[i as int].payload@);
                }
                return Some(&self.entries[i].payload);
            }
            i = i + 1;
        }
        proof {
            lemma_spec_find_properties(self@, name@);
            if let Some(f) = spec_find(self@, name@) {
                assert(self@[f].0 != name@);
            }
        }
        None
    }

    /// Store `payload` under `name`: overwrite the first entry of that name
    /// in place, or append a new entry.
    pub fn insert(&mut self, name: String, payload: String)
        ensures
            final(self)@ == spec_insert(old(self)@, name@, payload@),
            old(self).wf() ==> final(self).wf(),
    {
        let n = self.entries.len();
        let mut i: usize = 0;
        while i < n
            invariant
                *self == *old(self),
                n == self.entries@.len(),
                i <= n,
                forall|j: int| 0 <= j < i ==> self@[j].0 != name@,
            decreases n - i,
        {
            if self.entries[i].name == name {
                proof {
                    assert(self@[i as int].0 == name@);
                    lemma_spec_find_properties(self@, name@);
                    match spec_find(self@, name@) {
                        Some(f) => {
                            assert(f == i as int);
                        },
                        None => {
                            assert(self@[i as int].0 != name@);
                        },
                    }
                }
                let ghost pre = self@;
                self.entries.set(i, CaptureEntry { name, payload });
                proof {
                    assert(final(self)@ =~= pre.update(i as int, (name@, payload@)));
                    if old(self).wf() {
                        assert forall|a: int, b: int|
                            0 <= a < b < final(self)@.len() implies final(self)@[a].0
                            != final(self)@[b].0 by {
                            assert(pre[a].0 == old(self)@[a].0);
                        }
                    }
                }
                return ;
            }
            i = i + 1;
        }
        proof {
            lemma_spec_find_properties(self@, name@);
            if let Some(f) = spec_find(self@, name@) {
                assert(self@[f].0 != name@);
            }
        }
        let ghost pre = self@;
        self.entries.push(CaptureEntry { name, payload });
        proof {
            assert(final(self)@ =~= pre.push((name@, payload@)));
            if old(self).wf() {
                assert forall|a: int, b: int|
                    0 <= a < b < final(self)@.len() implies final(self)@[a].0
                    != final(self)@[b].0 by {}
            }
        }
    }
}

/// Storing under a name makes that name map to the stored payload, leaves
/// every other name's lookup unchanged, and keeps names unique.
pub proof fn lemma_insert_lookup(
    s: Seq<(Seq<char>, Seq<char>)>,
    name: Seq<char>,
    payload: Seq<char>,
    other: Seq<char>,
)
    requires
        other != name,
    ensures
        spec_lookup(spec_insert(s, name, payload), name) == Some(payload),
        spec_lookup(spec_insert(s, name, payload), other) == spec_lookup(s, other),
{
    lemma_spec_find_properties(s, name);
    let t = spec_insert(s, name, payload);
    lemma_spec_find_properties(t, name);
    lemma_spec_find_properties(t, other);
    lemma_spec_find_properties(s, other);
    match spec_find(t, name) {
        Some(i) => {
            match spec_find(s, name) {
                Some(f) => {
                    assert(t[f].0 == name);
                    assert(i == f);
                },
                None => {
                    assert(t[s.len() as int].0 == name);
                    assert(i == s.len());
                },
            }
        },
        None => {
            match spec_find(s, name) {
                Some(f) => {
                    assert(t[f].0 == name);
                },
                None => {
                    assert(t[s.len() as int].0 == name);
                },
            }
        },
    }
    match spec_find(t, other) {
        Some(i) => {
            match spec_find(s, other) {
                Some(f) => {
                    assert(s[f] == t[f]);
                    assert(i == f);
                },
                None => {
                    assert(s[i].0 != other);
                    assert(false);
                },
            }
        },
        None => {
            match spec_find(s, other) {
                Some(f) => {
                    assert(t[f].0 == other);
                    assert(false);
                },
                None => {},
            }
        },
    }
}

} // verus!
