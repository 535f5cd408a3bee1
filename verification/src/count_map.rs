//! The var-declaration reference-count map: declared identifier name to
//! usage count, bumped for every simple-identifier declarator found inside
//! an exported variable declaration, so that a later dead-code pass does not
//! delete identifiers that are part of a named export list.

use vstd::prelude::*;

verus! {

/// One more reference: counts saturate instead of wrapping.
pub open spec fn bump_count(c: u64) -> u64 {
    if c < u64::MAX {
        (c + 1) as u64
    } else {
        c
    }
}

/// The map after one reference-count bump of `k`.
pub open spec fn bump_name(m: Map<Seq<char>, u64>, k: Seq<char>) -> Map<Seq<char>, u64> {
    if m.dom().contains(k) {
        m.insert(k, bump_count(m[k]))
    } else {
        m.insert(k, 1u64)
    }
}

/// The map held by one association entry list, later entries winning
/// (entry keys are kept unique, so order never matters).
pub open spec fn assoc_map(entries: Seq<(String, u64)>) -> Map<Seq<char>, u64>
    decreases entries.len(),
{
    if entries.len() == 0 {
        Map::empty()
    } else {
        assoc_map(entries.drop_last()).insert(entries.last().0@, entries.last().1)
    }
}

/// Mapping from declared identifier name to reference count.
pub struct VarDeclCountMap {
    entries: Vec<(String, u64)>,
}

proof fn lemma_assoc_absent(entries: Seq<(String, u64)>, k: Seq<char>)
    requires
        forall|j: int| 0 <= j < entries.len() ==> (#[trigger] entries[j]).0@ != k,
    ensures
        !assoc_map(entries).dom().contains(k),
    decreases entries.len(),
{
    if entries.len() > 0 {
        lemma_assoc_absent(entries.drop_last(), k);
    }
}

proof fn lemma_assoc_present(entries: Seq<(String, u64)>, i: int)
    requires
        0 <= i < entries.len(),
        forall|p: int, q: int|
            0 <= p < q < entries.len() ==> (#[trigger] entries[p]).0@ != (#[trigger] entries[q]).0@,
    ensures
        assoc_map(entries).dom().contains(entries[i].0@),
        assoc_map(entries)[entries[i].0@] == entries[i].1,
    decreases entries.len(),
{
    if i < entries.len() - 1 {
        lemma_assoc_present(entries.drop_last(), i);
        assert(entries.drop_last()[i] == entries[i]);
        assert(entries[i].0@ != entries.last().0@);
    }
}

proof fn lemma_assoc_update(entries: Seq<(String, u64)>, i: int, e: (String, u64))
    requires
        0 <= i < entries.len(),
        e.0@ == entries[i].0@,
        forall|p: int, q: int|
            0 <= p < q < entries.len() ==> (#[trigger] entries[p]).0@ != (#[trigger] entries[q]).0@,
    ensures
        assoc_map(entries.update(i, e)) == assoc_map(entries).insert(e.0@, e.1),
    decreases entries.len(),
{
    let upd = entries.update(i, e);
    if i == entries.len() - 1 {
        assert(upd.drop_last() =~= entries.drop_last());
        assert(upd.last() == e);
        assert(assoc_map(upd) =~= assoc_map(entries).insert(e.0@, e.1));
    } else {
        assert(upd.drop_last() =~= entries.drop_last().update(i, e));
        assert(entries.drop_last()[i] == entries[i]);
        lemma_assoc_update(entries.drop_last(), i, e);
        assert(upd.last() == entries.last());
        // the two inserted keys differ, so the inserts commute
        assert(e.0@ != entries.last().0@);
        assert(assoc_map(upd) =~= assoc_map(entries).insert(e.0@, e.1));
    }
}

impl VarDeclCountMap {
    /// The mathematical map this value holds.
    pub closed spec fn view(&self) -> Map<Seq<char>, u64> {
        assoc_map(self.entries@)
    }

    /// Entry keys are unique, so each name has one count.
    pub closed spec fn wf(&self) -> bool {
        forall|p: int, q: int|
            0 <= p < q < self.entries@.len() ==> (#[trigger] self.entries@[p]).0@ != (
            #[trigger] self.entries@[q]).0@
    }

    pub fn new() -> (r: Self)
        ensures
            r.wf(),
            r@ == Map::<Seq<char>, u64>::empty(),
    {
        VarDeclCountMap { entries: Vec::new() }
    }

    /// The count recorded for `ident`, zero when it was never bumped.
    pub fn get_count(&self, ident: &String) -> (r: u64)
        requires
            self.wf(),
        ensures
            r == if self@.dom().contains(ident@) {
                self@[ident@]
            } else {
                0u64
            },
    {
        let n = self.entries.len();
        let mut i: usize = 0;
        while i < n
            invariant
                n == self.entries@.len(),
                i <= n,
                self.wf(),
                forall|j: int| 0 <= j < i ==> (#[trigger] self.entries@[j]).0@ != ident@,
            decreases n - i,
        {
            if self.entries[i].0.eq(ident) {
                proof {
                    lemma_assoc_present(self.entries@, i as int);
                }
                return self.entries[i].1;
            }
            i = i + 1;
        }
        proof {
            lemma_assoc_absent(self.entries@, ident@);
        }
        0
    }
}

/// Records one more reference to `ident` in the count map.
pub fn increase_ident_count(map: &mut VarDeclCountMap, ident: &String)
    requires
        old(map).wf(),
    ensures
        final(map).wf(),
        final(map)@ == bump_name(old(map)@, ident@),
{
    let n = map.entries.len();
    let mut i: usize = 0;
    while i < n
        invariant
            n == map.entries@.len(),
            i <= n,
            map.wf(),
            *map == *old(map),
            forall|j: int| 0 <= j < i ==> (#[trigger] map.entries@[j]).0@ != ident@,
        decreases n - i,
    {
        if map.entries[i].0.eq(ident) {
            proof {
                lemma_assoc_present(map.entries@, i as int);
            }
            let entry = map.entries.remove(i);
            let count = if entry.1 < u64::MAX {
                entry.1 + 1
            } else {
                entry.1
            };
            let ghost before = map.entries@;
            map.entries.insert(i, (entry.0, count));
            proof {
                assert(map.entries@ =~= old(map).entries@.update(i as int, map.entries@[i as int]));
                lemma_assoc_update(
                    old(map).entries@,
                    i as int,
                    map.entries@[i as int],
                );
            }
            return ;
        }
        i = i + 1;
    }
    proof {
        lemma_assoc_absent(map.entries@, ident@);
    }
    map.entries.push((ident.clone(), 1));
    proof {
        assert(map.entries@.drop_last() =~= old(map).entries@);
        assert(map.entries@.last().0@ == ident@);
    }
}

} // verus!
