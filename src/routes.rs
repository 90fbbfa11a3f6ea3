use vstd::prelude::*;
use crate::target::{BackendTarget, TargetView};

verus! {

/// The route table: a map from exact request paths to backend targets.
///
/// Paths are unique; the table is built once and then only read.
#[derive(Debug)]
pub struct RouteTable {
    entries: Vec<(String, BackendTarget)>,
}

impl RouteTable {
    /// Each path occurs in at most one entry.
    pub closed spec fn wf(&self) -> bool {
        forall|i: int, j: int|
            0 <= i < self.entries@.len() && 0 <= j < self.entries@.len() && i != j
                ==> #[trigger] self.entries@[i].0@ != #[trigger] self.entries@[j].0@
    }

    closed spec fn has_key_at(&self, k: Seq<char>, i: int) -> bool {
        0 <= i < self.entries@.len() && self.entries@[i].0@ == k
    }

    /// The table as a map from path to target.
    pub closed spec fn view(&self) -> Map<Seq<char>, TargetView> {
        Map::new(
            |k: Seq<char>| exists|i: int| self.has_key_at(k, i),
            |k: Seq<char>| self.entries@[choose|i: int| self.has_key_at(k, i)].1@,
        )
    }

    proof fn lemma_lookup(&self, k: Seq<char>, i: int)
        requires
            self.wf(),
            self.has_key_at(k, i),
        ensures
            self@.contains_key(k),
            self@[k] == self.entries@[i].1@,
    {
        let j = choose|j: int| self.has_key_at(k, j);
        assert(self.has_key_at(k, j));
        if i != j {
            assert(self.entries@[i].0@ != self.entries@[j].0@);
        }
    }

    /// Storing an entry at index `i`, over the entry with the same path or
    /// after the last one, inserts that entry into the map.
    proof fn lemma_view_after_store(before: RouteTable, after: RouteTable, i: int)
        requires
            before.wf(),
            after.wf(),
            0 <= i < after.entries@.len(),
            after.entries@.len() == before.entries@.len() || (after.entries@.len()
                == before.entries@.len() + 1 && i == before.entries@.len()),
            i < before.entries@.len() ==> before.entries@[i].0@ == after.entries@[i].0@,
            forall|j: int|
                0 <= j < after.entries@.len() && j != i ==> after.entries@[j] == before.entries@[j],
        ensures
            after@ == before@.insert(after.entries@[i].0@, after.entries@[i].1@),
    {
        let k = after.entries@[i].0@;
        after.lemma_lookup(k, i);
        assert forall|q: Seq<char>| q != k implies (#[trigger] after@.dom().contains(q)
            == before@.dom().contains(q)) && (after@.dom().contains(q) ==> after@[q] == before@[q]) by {
            if after@.contains_key(q) {
                let j = choose|j: int| after.has_key_at(q, j);
                assert(after.has_key_at(q, j));
                assert(before.has_key_at(q, j));
                after.lemma_lookup(q, j);
                before.lemma_lookup(q, j);
            }
            if before@.contains_key(q) {
                let j = choose|j: int| before.has_key_at(q, j);
                assert(before.has_key_at(q, j));
                assert(after.has_key_at(q, j));
            }
        }
        assert(after@ =~= before@.insert(k, after.entries@[i].1@));
    }

    /// An empty table.
    pub fn new() -> (r: RouteTable)
        ensures
            r.wf(),
            r@ == Map::<Seq<char>, TargetView>::empty(),
    {
        let r = RouteTable { entries: Vec::new() };
        assert(r@ =~= Map::<Seq<char>, TargetView>::empty());
        r
    }

    /// Maps `path` to `target`, replacing the target it had before, if any.
    pub fn insert(&mut self, path: String, target: BackendTarget)
        requires
            old(self).wf(),
        ensures
            final(self).wf(),
            final(self)@ == old(self)@.insert(path@, target@),
    {
        let n = self.entries.len();
        let mut i: usize = 0;
        while i < n
            invariant
                n == self.entries@.len(),
                i <= n,
                forall|j: int| 0 <= j < i ==> self.entries@[j].0@ != path@,
            ensures
                i <= n,
                i < n ==> self.entries@[i as int].0@ == path@,
                forall|j: int| 0 <= j < i ==> self.entries@[j].0@ != path@,
            decreases n - i,
        {
            if self.entries[i].0 == path {
                break;
            }
            i = i + 1;
        }
        let ghost before = *self;
        if i < n {
            self.entries.set(i, (path, target));
            proof {
                assert forall|a: int, b: int|
                    0 <= a < self.entries@.len() && 0 <= b < self.entries@.len() && a != b
                    implies #[trigger] self.entries@[a].0@ != #[trigger] self.entries@[b].0@ by {
                    assert(before.entries@[a].0@ != before.entries@[b].0@);
                }
                RouteTable::lemma_view_after_store(before, *self, i as int);
            }
        } else {
            self.entries.push((path, target));
            proof {
                assert forall|a: int, b: int|
                    0 <= a < self.entries@.len() && 0 <= b < self.entries@.len() && a != b
                    implies #[trigger] self.entries@[a].0@ != #[trigger] self.entries@[b].0@ by {
                    if a != n && b != n {
                        assert(before.entries@[a].0@ != before.entries@[b].0@);
                    }
                }
                RouteTable::lemma_view_after_store(before, *self, n as int);
            }
        }
    }

    /// The target that `path` maps to, found by exact comparison of the whole
    /// path; `None` where the table has no entry for it.
    pub fn resolve(&self, path: &String) -> (r: Option<BackendTarget>)
        requires
            self.wf(),
        ensures
            r is None <==> !self@.contains_key(path@),
            r matches Some(t) ==> t@ == self@[path@],
    {
        let n = self.entries.len();
        let mut i: usize = 0;
        while i < n
            invariant
                n == self.entries@.len(),
                i <= n,
                self.wf(),
                forall|j: int| 0 <= j < i ==> self.entries@[j].0@ != path@,
            decreases n - i,
        {
            if self.entries[i].0 == *path {
                proof {
                    self.lemma_lookup(path@, i as int);
                }
                return Some(self.entries[i].1.duplicate());
            }
            i = i + 1;
        }
        proof {
            if self@.contains_key(path@) {
                let j = choose|j: int| self.has_key_at(path@, j);
                assert(self.has_key_at(path@, j));
            }
        }
        None
    }
}

} // verus!
