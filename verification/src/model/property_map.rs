//! The property map of a normalized device: property name to property.
//!
//! Modelled as a `Map<Seq<char>, PropertyV>`; insertion overwrites on a name
//! collision (last write wins), which is this crate's stated policy for a
//! contradictory bridge response.

use vstd::prelude::*;
use vstd::map::*;

use crate::model::device::{Property, PropertyV};

verus! {

/// The mapping a list of entries denotes: a later entry with the same name
/// overwrites an earlier one.
spec fn map_of(entries: Seq<(String, Property)>) -> Map<Seq<char>, PropertyV>
    decreases entries.len(),
{
    if entries.len() == 0 {
        Map::empty()
    } else {
        map_of(entries.drop_last()).insert(entries.last().0@, entries.last().1.deep_view())
    }
}

/// A name is in the mapping exactly when some entry carries it.
proof fn lemma_map_of_contains(entries: Seq<(String, Property)>, k: Seq<char>)
    ensures
        map_of(entries).contains_key(k) <==> exists|i: int|
            0 <= i < entries.len() && entries[i].0@ == k,
    decreases entries.len(),
{
    if entries.len() > 0 {
        lemma_map_of_contains(entries.drop_last(), k);
        if entries.last().0@ == k {
            assert(entries[entries.len() - 1].0@ == k);
        } else {
            if exists|i: int| 0 <= i < entries.len() && entries[i].0@ == k {
                let i = choose|i: int| 0 <= i < entries.len() && entries[i].0@ == k;
                assert(entries.drop_last()[i].0@ == k);
            }
        }
    }
}

/// An entry whose name no later entry repeats gives the mapping's value at
/// that name.
proof fn lemma_map_of_index(entries: Seq<(String, Property)>, i: int)
    requires
        0 <= i < entries.len(),
        forall|j: int| i < j < entries.len() ==> entries[j].0@ != entries[i].0@,
    ensures
        map_of(entries).contains_key(entries[i].0@),
        map_of(entries)[entries[i].0@] == entries[i].1.deep_view(),
    decreases entries.len(),
{
    if i < entries.len() - 1 {
        lemma_map_of_index(entries.drop_last(), i);
    }
}

/// With pairwise-distinct names, the mapping has exactly one entry per list
/// entry.
proof fn lemma_map_of_len(entries: Seq<(String, Property)>)
    requires
        forall|i: int, j: int| 0 <= i < j < entries.len() ==> entries[i].0@ != entries[j].0@,
    ensures
        map_of(entries).dom().finite(),
        map_of(entries).dom().len() == entries.len(),
    decreases entries.len(),
{
    broadcast use vstd::set::axiom_set_insert_len;

    if entries.len() == 0 {
        assert(map_of(entries).dom() =~= Set::<Seq<char>>::empty());
    } else {
        lemma_map_of_len(entries.drop_last());
        lemma_map_of_contains(entries.drop_last(), entries.last().0@);
        assert(map_of(entries).dom() =~= map_of(entries.drop_last()).dom().insert(
            entries.last().0@,
        ));
    }
}

/// Removing the entry that carries a name removes that name from the
/// mapping, when names are pairwise distinct.
proof fn lemma_map_of_remove(entries: Seq<(String, Property)>, i: int)
    requires
        0 <= i < entries.len(),
        forall|p: int, q: int| 0 <= p < q < entries.len() ==> entries[p].0@ != entries[q].0@,
    ensures
        map_of(entries.remove(i)) == map_of(entries).remove(entries[i].0@),
    decreases entries.len(),
{
    let k = entries[i].0@;
    if i == entries.len() - 1 {
        lemma_map_of_contains(entries.drop_last(), k);
        assert(entries.remove(i) =~= entries.drop_last());
        assert(map_of(entries.drop_last()) =~= map_of(entries).remove(k));
    } else {
        lemma_map_of_remove(entries.drop_last(), i);
        assert(entries.remove(i).drop_last() =~= entries.drop_last().remove(i));
        assert(entries.remove(i).last() == entries.last());
        assert(map_of(entries.remove(i)) == map_of(entries.drop_last().remove(i)).insert(
            entries.last().0@,
            entries.last().1.deep_view(),
        ));
        assert(map_of(entries.drop_last()).remove(k).insert(
            entries.last().0@,
            entries.last().1.deep_view(),
        ) =~= map_of(entries).remove(k));
    }
}

/// With pairwise-distinct names the first entry can be folded in first:
/// order does not matter.
proof fn lemma_map_of_skip_first(entries: Seq<(String, Property)>)
    requires
        entries.len() > 0,
        forall|p: int, q: int| 0 <= p < q < entries.len() ==> entries[p].0@ != entries[q].0@,
    ensures
        map_of(entries) == map_of(entries.skip(1)).insert(entries[0].0@, entries[0].1.deep_view()),
    decreases entries.len(),
{
    if entries.len() == 1 {
        assert(entries.skip(1) =~= Seq::<(String, Property)>::empty());
        assert(entries.drop_last() =~= Seq::<(String, Property)>::empty());
    } else {
        lemma_map_of_skip_first(entries.drop_last());
        assert(entries.drop_last()[0] == entries[0]);
        assert(entries.skip(1).drop_last() =~= entries.drop_last().skip(1));
        assert(entries.skip(1).last() == entries.last());
        assert(map_of(entries.skip(1)) == map_of(entries.drop_last().skip(1)).insert(
            entries.last().0@,
            entries.last().1.deep_view(),
        ));
        assert(entries[0].0@ != entries.last().0@);
        assert(map_of(entries.drop_last().skip(1)).insert(
            entries.last().0@,
            entries.last().1.deep_view(),
        ).insert(entries[0].0@, entries[0].1.deep_view()) =~= map_of(
            entries.drop_last().skip(1),
        ).insert(entries[0].0@, entries[0].1.deep_view()).insert(
            entries.last().0@,
            entries.last().1.deep_view(),
        ));
    }
}

/// The property map: an association list with pairwise-distinct names,
/// viewed as the mapping it denotes.
#[derive(Debug)]
pub struct PropertyMap {
    entries: Vec<(String, Property)>,
}

impl View for PropertyMap {
    type V = Map<Seq<char>, PropertyV>;

    closed spec fn view(&self) -> Map<Seq<char>, PropertyV> {
        map_of(self.entries@)
    }
}

impl PropertyMap {
    /// Names are pairwise distinct.
    #[verifier::type_invariant]
    spec fn wf(self) -> bool {
        forall|i: int, j: int|
            0 <= i < j < self.entries@.len() ==> self.entries@[i].0@ != self.entries@[j].0@
    }

    /// An empty map.
    pub fn new() -> (r: PropertyMap)
        ensures
            r@ == Map::<Seq<char>, PropertyV>::empty(),
    {
        PropertyMap { entries: Vec::new() }
    }

    /// How many properties the map holds.
    pub fn len(&self) -> (r: usize)
        ensures
            r == self@.dom().len(),
            self@.dom().finite(),
    {
        proof {
            use_type_invariant(&*self);
            lemma_map_of_len(self.entries@);
        }
        self.entries.len()
    }

    /// The property under a name, if any.
    pub fn get(&self, key: &str) -> (r: Option<&Property>)
        ensures
            match r {
                Some(p) => self@.contains_key(key@) && self@[key@] == p.deep_view(),
                None => !self@.contains_key(key@),
            },
    {
        proof {
            use_type_invariant(&*self);
        }
        let mut i: usize = 0;
        while i < self.entries.len()
            invariant
                i <= self.entries.len(),
                forall|j: int| 0 <= j < i ==> self.entries@[j].0@ != key@,
        decreases self.entries.len() - i,
        {
            if crate::raw::str_eq(self.entries[i].0.as_str(), key) {
                proof {
                    use_type_invariant(&*self);
                    lemma_map_of_index(self.entries@, i as int);
                }
                return Some(&self.entries[i].1);
            }
            i = i + 1;
        }
        proof {
            lemma_map_of_contains(self.entries@, key@);
        }
        None
    }

    /// Adds a property under a name, overwriting any property already there:
    /// last write wins.
    pub fn insert(self, key: String, value: Property) -> (r: PropertyMap)
        ensures
            r@ == self@.insert(key@, value.deep_view()),
    {
        proof {
            use_type_invariant(&self);
        }
        let ghost orig = self.entries@;
        let PropertyMap { mut entries } = self;
        let mut i: usize = 0;
        let mut found: Option<usize> = None;
        while i < entries.len()
            invariant
                entries@ == orig,
                i <= entries.len(),
                match found {
                    Some(f) => f < i && entries@[f as int].0@ == key@,
                    None => forall|j: int| 0 <= j < i ==> entries@[j].0@ != key@,
                },
        decreases entries.len() - i,
        {
            if found.is_none() && crate::raw::str_eq(entries[i].0.as_str(), key.as_str()) {
                found = Some(i);
            }
            i = i + 1;
        }
        match found {
            Some(f) => {
                proof {
                    lemma_map_of_remove(orig, f as int);
                }
                entries.remove(f);
                entries.push((key, value));
                proof {
                    assert(entries@.drop_last() =~= orig.remove(f as int));
                    assert(map_of(entries@) =~= map_of(orig).remove(orig[f as int].0@).insert(
                        key@,
                        value.deep_view(),
                    ));
                    assert(map_of(orig).remove(orig[f as int].0@).insert(key@, value.deep_view())
                        =~= map_of(orig).insert(key@, value.deep_view()));
                }
                PropertyMap { entries }
            },
            None => {
                entries.push((key, value));
                proof {
                    assert(entries@.drop_last() =~= orig);
                }
                PropertyMap { entries }
            },
        }
    }

    /// Merges another map into this one, entry by entry in the other map's
    /// order; on a name collision the other map's property wins.
    pub fn merge(self, other: PropertyMap) -> (r: PropertyMap)
        ensures
            r@ == self@.union_prefer_right(other@),
    {
        proof {
            use_type_invariant(&other);
        }
        let ghost target = self@.union_prefer_right(other@);
        let PropertyMap { mut entries } = other;
        let mut acc = self;
        while entries.len() > 0
            invariant
                forall|p: int, q: int|
                    0 <= p < q < entries@.len() ==> entries@[p].0@ != entries@[q].0@,
                acc@.union_prefer_right(map_of(entries@)) == target,
        decreases entries.len(),
        {
            let ghost before = entries@;
            let ghost acc_before = acc@;
            proof {
                lemma_map_of_skip_first(before);
                lemma_map_of_contains(before.skip(1), before[0].0@);
            }
            let (k, v) = entries.remove(0);
            let ghost vv = v.deep_view();
            acc = acc.insert(k, v);
            proof {
                assert(entries@ =~= before.skip(1));
                assert(acc@ == acc_before.insert(before[0].0@, vv));
                assert(!map_of(entries@).contains_key(before[0].0@));
                assert(acc_before.insert(before[0].0@, vv).union_prefer_right(map_of(entries@))
                    =~= acc_before.union_prefer_right(map_of(entries@).insert(before[0].0@, vv)));
            }
        }
        proof {
            assert(acc@.union_prefer_right(map_of(entries@)) =~= acc@);
        }
        acc
    }
}

} // verus!
