//! The last revision seen of each open document.
use vstd::prelude::*;
use crate::text::str_equal;

verus! {

/// The map that a list of (document, revision) entries stands for; a later
/// entry for a document overrides an earlier one.
pub open spec fn map_of(entries: Seq<(String, i32)>) -> Map<Seq<char>, i32>
    decreases entries.len(),
{
    if entries.len() == 0 {
        Map::empty()
    } else {
        let last = entries.last();
        map_of(entries.drop_last()).insert(last.0@, last.1)
    }
}

/// No two entries name the same document.
pub open spec fn keys_unique(entries: Seq<(String, i32)>) -> bool {
    forall|i: int, j: int|
        0 <= i < entries.len() && 0 <= j < entries.len() && i != j ==> #[trigger] entries[i].0@
            != #[trigger] entries[j].0@
}

proof fn lemma_map_of_domain(entries: Seq<(String, i32)>, k: Seq<char>)
    ensures
        map_of(entries).contains_key(k) <==> exists|i: int|
            0 <= i < entries.len() && #[trigger] entries[i].0@ == k,
    decreases entries.len(),
{
    if entries.len() > 0 {
        let init = entries.drop_last();
        lemma_map_of_domain(init, k);
        if map_of(entries).contains_key(k) {
            if k != entries.last().0@ {
                let i = choose|i: int| 0 <= i < init.len() && #[trigger] init[i].0@ == k;
                assert(entries[i].0@ == k);
            }
        }
        if exists|i: int| 0 <= i < entries.len() && #[trigger] entries[i].0@ == k {
            let i = choose|i: int| 0 <= i < entries.len() && #[trigger] entries[i].0@ == k;
            if i < init.len() {
                assert(init[i].0@ == k);
            }
        }
    }
}

proof fn lemma_map_of_value(entries: Seq<(String, i32)>, i: int)
    requires
        keys_unique(entries),
        0 <= i < entries.len(),
    ensures
        map_of(entries).contains_key(entries[i].0@),
        map_of(entries)[entries[i].0@] == entries[i].1,
    decreases entries.len(),
{
    let init = entries.drop_last();
    if i < entries.len() - 1 {
        assert(keys_unique(init)) by {
            assert forall|a: int, b: int|
                0 <= a < init.len() && 0 <= b < init.len() && a != b implies #[trigger] init[a].0@
                != #[trigger] init[b].0@ by {
                assert(init[a] == entries[a] && init[b] == entries[b]);
            }
        }
        assert(init[i] == entries[i]);
        lemma_map_of_value(init, i);
        assert(entries[i].0@ != entries[entries.len() - 1].0@);
    }
}

proof fn lemma_map_of_update(entries: Seq<(String, i32)>, i: int, e: (String, i32))
    requires
        keys_unique(entries),
        0 <= i < entries.len(),
        e.0@ == entries[i].0@,
    ensures
        map_of(entries.update(i, e)) =~= map_of(entries).insert(e.0@, e.1),
    decreases entries.len(),
{
    let init = entries.drop_last();
    let updated = entries.update(i, e);
    if i == entries.len() - 1 {
        assert(updated.drop_last() =~= init);
    } else {
        assert(updated.drop_last() =~= init.update(i, e));
        assert(keys_unique(init)) by {
            assert forall|a: int, b: int|
                0 <= a < init.len() && 0 <= b < init.len() && a != b implies #[trigger] init[a].0@
                != #[trigger] init[b].0@ by {
                assert(init[a] == entries[a] && init[b] == entries[b]);
            }
        }
        lemma_map_of_update(init, i, e);
        assert(entries[i].0@ != entries[entries.len() - 1].0@);
        assert(updated.last() == entries.last());
    }
}

/// What a table with contents `m` answers for `doc`.
pub open spec fn lookup_in(m: Map<Seq<char>, i32>, doc: Seq<char>) -> Option<i32> {
    if m.contains_key(doc) {
        Some(m[doc])
    } else {
        None
    }
}

/// Looking a document up right after recording it gives the revision just
/// recorded; recording it again replaces that revision, leaving nothing of the first.
pub proof fn record_then_lookup(
    m: Map<Seq<char>, i32>,
    doc: Seq<char>,
    first: i32,
    second: i32,
)
    ensures
        lookup_in(m.insert(doc, first), doc) == Some(first),
        m.insert(doc, first).insert(doc, second) == m.insert(doc, second),
{
    assert(m.insert(doc, first).insert(doc, second) =~= m.insert(doc, second));
}

/// Maps each document, by its URI, to the last revision the editor reported for it.
///
/// A document that was never reported has no entry, which is not the same as revision 0.
#[derive(Debug)]
pub struct VersionTable {
    entries: Vec<(String, i32)>,
}

impl View for VersionTable {
    type V = Map<Seq<char>, i32>;

    closed spec fn view(&self) -> Map<Seq<char>, i32> {
        map_of(self.entries@)
    }
}

impl VersionTable {
    #[verifier::type_invariant]
    spec fn inv(self) -> bool {
        keys_unique(self.entries@)
    }

    /// A table that has seen no document.
    pub fn new() -> (r: VersionTable)
        ensures
            r@ == Map::<Seq<char>, i32>::empty(),
    {
        VersionTable { entries: Vec::new() }
    }

    /// Sets the revision of `doc`, replacing whatever was known of it.
    pub fn record(&mut self, doc: String, revision: i32)
        ensures
            final(self)@ == old(self)@.insert(doc@, revision),
    {
        proof {
            use_type_invariant(&*self);
        }
        let mut taken = VersionTable { entries: Vec::new() };
        std::mem::swap(self, &mut taken);
        proof {
            use_type_invariant(&taken);
        }
        let ghost before = taken@;
        let VersionTable { mut entries } = taken;
        let n = entries.len();
        let mut i: usize = 0;
        while i < n
            invariant
                n == entries@.len(),
                i <= n,
                keys_unique(entries@),
                map_of(entries@) == before,
                before == old(self)@,
                forall|j: int| 0 <= j < i ==> #[trigger] entries@[j].0@ != doc@,
            decreases n - i,
        {
            if str_equal(entries[i].0.as_str(), doc.as_str()) {
                proof {
                    lemma_map_of_update(entries@, i as int, (doc, revision));
                }
                entries.set(i, (doc, revision));
                *self = VersionTable { entries };
                return;
            }
            i = i + 1;
        }
        proof {
            assert(entries@.push((doc, revision)).drop_last() =~= entries@);
        }
        entries.push((doc, revision));
        *self = VersionTable { entries };
    }

    /// The revision last recorded for `doc`, or `None` if it was never recorded.
    pub fn lookup(&self, doc: &str) -> (r: Option<i32>)
        ensures
            r == lookup_in(self@, doc@),
    {
        proof {
            use_type_invariant(self);
            lemma_map_of_domain(self.entries@, doc@);
        }
        let n = self.entries.len();
        let mut i: usize = 0;
        while i < n
            invariant
                n == self.entries@.len(),
                i <= n,
                keys_unique(self.entries@),
                forall|j: int| 0 <= j < i ==> #[trigger] self.entries@[j].0@ != doc@,
            decreases n - i,
        {
            if str_equal(self.entries[i].0.as_str(), doc) {
                proof {
                    lemma_map_of_value(self.entries@, i as int);
                }
                return Some(self.entries[i].1);
            }
            i = i + 1;
        }
        None
    }
}

} // verus!
