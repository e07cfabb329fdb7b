//! Environment overrides of a launch.
//!
//! Overrides are added to what the spawned process inherits. They are written
//! one after the other, so where a key occurs more than once its last value
//! counts; the library hands its driver each key once.

use vstd::prelude::*;
use crate::text::same_text;

verus! {

/// A key and its value, as plain text.
pub type Binding = (Seq<char>, Seq<char>);

/// The texts that a list of key and value strings holds, in order.
pub open spec fn bindings(list: Seq<(String, String)>) -> Seq<Binding> {
    Seq::new(list.len(), |i: int| (list[i].0@, list[i].1@))
}

/// The bindings with every write of `key` taken out.
pub open spec fn without_key(list: Seq<Binding>, key: Seq<char>) -> Seq<Binding> {
    list.filter(|b: Binding| b.0 != key)
}

/// Each key once, with the value that was written last, in the order of
/// those last writes.
pub open spec fn last_writes(list: Seq<Binding>) -> Seq<Binding>
    decreases list.len(),
{
    if list.len() == 0 {
        Seq::empty()
    } else {
        without_key(last_writes(list.drop_last()), list.last().0).push(list.last())
    }
}

/// The overrides as a mapping: writing them one after the other.
pub open spec fn override_map(list: Seq<Binding>) -> Map<Seq<char>, Seq<char>>
    decreases list.len(),
{
    if list.len() == 0 {
        Map::empty()
    } else {
        override_map(list.drop_last()).insert(list.last().0, list.last().1)
    }
}

/// The environment of the spawned process: what it inherits, with the
/// overrides written over it.
pub open spec fn child_environment(
    inherited: Map<Seq<char>, Seq<char>>,
    overrides: Seq<Binding>,
) -> Map<Seq<char>, Seq<char>> {
    inherited.union_prefer_right(override_map(overrides))
}

/// Whether no key is written twice.
pub open spec fn keys_distinct(list: Seq<Binding>) -> bool {
    forall|i: int, j: int|
        0 <= i < j < list.len() ==> (#[trigger] list[i]).0 != (#[trigger] list[j]).0
}

/// Whether `key` is written at `index` and nowhere after it.
pub open spec fn is_last_write(list: Seq<Binding>, key: Seq<char>, index: int) -> bool {
    &&& 0 <= index < list.len()
    &&& list[index].0 == key
    &&& forall|j: int| index < j < list.len() ==> (#[trigger] list[j]).0 != key
}

/// Whether `key` is written anywhere.
pub open spec fn writes_key(list: Seq<Binding>, key: Seq<char>) -> bool {
    exists|i: int| 0 <= i < list.len() && (#[trigger] list[i]).0 == key
}

/// The mapping holds exactly the keys that are written.
pub proof fn lemma_override_map_keys(list: Seq<Binding>, key: Seq<char>)
    ensures
        override_map(list).dom().contains(key) <==> writes_key(list, key),
    decreases list.len(),
{
    if list.len() > 0 {
        let front = list.drop_last();
        lemma_override_map_keys(front, key);
        if writes_key(front, key) {
            let i = choose|i: int| 0 <= i < front.len() && (#[trigger] front[i]).0 == key;
            assert(list[i].0 == key);
        }
        if list.last().0 == key {
            assert(list[list.len() - 1].0 == key);
        }
        if writes_key(list, key) {
            let i = choose|i: int| 0 <= i < list.len() && (#[trigger] list[i]).0 == key;
            if i < list.len() - 1 {
                assert(front[i].0 == key);
            }
        }
    }
}

/// The mapping gives each key the value of its last write.
pub proof fn lemma_override_map_value(list: Seq<Binding>, key: Seq<char>, index: int)
    requires
        is_last_write(list, key, index),
    ensures
        override_map(list).dom().contains(key),
        override_map(list)[key] == list[index].1,
    decreases list.len(),
{
    if index < list.len() - 1 {
        let front = list.drop_last();
        assert(list[list.len() - 1].0 != key);
        assert forall|j: int| index < j < front.len() implies (#[trigger] front[j]).0 != key by {
            assert(list[j].0 != key);
        }
        lemma_override_map_value(front, key, index);
    }
}

/// Taking a key out of the bindings takes it out of the mapping, and
/// nothing else.
proof fn lemma_without_key_map(list: Seq<Binding>, key: Seq<char>)
    ensures
        override_map(without_key(list, key)) == override_map(list).remove(key),
    decreases list.len(),
{
    reveal(Seq::filter);
    if list.len() == 0 {
        assert(override_map(list).remove(key) =~= Map::empty());
    } else {
        let front = list.drop_last();
        lemma_without_key_map(front, key);
        if list.last().0 != key {
            let kept = without_key(front, key).push(list.last());
            assert(without_key(list, key) == kept);
            assert(kept.drop_last() =~= without_key(front, key));
            assert(override_map(kept) =~= override_map(list).remove(key));
        } else {
            assert(without_key(list, key) == without_key(front, key));
            assert(override_map(front).remove(key) =~= override_map(list).remove(key));
        }
    }
}

/// Keeping some bindings of a list without repeated keys repeats no key.
proof fn lemma_without_key_distinct(list: Seq<Binding>, key: Seq<char>)
    requires
        keys_distinct(list),
    ensures
        keys_distinct(without_key(list, key)),
        forall|i: int|
            0 <= i < without_key(list, key).len() ==> (#[trigger] without_key(
                list,
                key,
            )[i]).0 != key,
        forall|i: int|
            0 <= i < without_key(list, key).len() ==> list.contains(
                #[trigger] without_key(list, key)[i],
            ),
    decreases list.len(),
{
    reveal(Seq::filter);
    if list.len() > 0 {
        let front = list.drop_last();
        assert forall|i: int, j: int| 0 <= i < j < front.len() implies (#[trigger] front[i]).0 != (
        #[trigger] front[j]).0 by {
            assert(list[i].0 != list[j].0);
        }
        lemma_without_key_distinct(front, key);
        let kept_front = without_key(front, key);
        let kept = without_key(list, key);
        assert forall|i: int| 0 <= i < kept_front.len() implies list.contains(
            #[trigger] kept_front[i],
        ) && kept_front[i].0 != list.last().0 by {
            assert(front.contains(kept_front[i]));
            let k = choose|k: int| 0 <= k < front.len() && front[k] == kept_front[i];
            assert(list[k] == kept_front[i]);
            assert(list[k].0 != list[list.len() - 1].0);
        }
        if list.last().0 != key {
            assert(kept == kept_front.push(list.last()));
            assert(list[list.len() - 1] == list.last());
        } else {
            assert(kept == kept_front);
        }
    }
}

/// After normalising, no key is written twice.
pub proof fn lemma_last_writes_distinct(list: Seq<Binding>)
    ensures
        keys_distinct(last_writes(list)),
    decreases list.len(),
{
    if list.len() > 0 {
        let front = list.drop_last();
        lemma_last_writes_distinct(front);
        lemma_without_key_distinct(last_writes(front), list.last().0);
    }
}

/// Normalising does not change what the overrides mean.
pub proof fn lemma_last_writes_same_map(list: Seq<Binding>)
    ensures
        override_map(last_writes(list)) == override_map(list),
    decreases list.len(),
{
    if list.len() > 0 {
        let front = list.drop_last();
        let last = list.last();
        lemma_last_writes_same_map(front);
        lemma_without_key_map(last_writes(front), last.0);
        let kept = without_key(last_writes(front), last.0);
        assert(kept.push(last).drop_last() =~= kept);
        assert(override_map(last_writes(list)) =~= override_map(list));
    }
}

/// Overrides are added to the inherited environment: a key that no override
/// writes is inherited unchanged, present or absent, and a key that an
/// override writes has the value of its last write.
pub proof fn lemma_overrides_are_additive(
    inherited: Map<Seq<char>, Seq<char>>,
    overrides: Seq<Binding>,
    key: Seq<char>,
)
    ensures
        !writes_key(overrides, key) ==> {
            &&& child_environment(inherited, overrides).dom().contains(key)
                == inherited.dom().contains(key)
            &&& inherited.dom().contains(key) ==> child_environment(inherited, overrides)[key]
                == inherited[key]
        },
        writes_key(overrides, key) ==> child_environment(inherited, overrides).dom().contains(key),
        forall|index: int| #[trigger]
            is_last_write(overrides, key, index) ==> child_environment(inherited, overrides)[key]
                == overrides[index].1,
        child_environment(inherited, last_writes(overrides)) == child_environment(
            inherited,
            overrides,
        ),
{
    lemma_override_map_keys(overrides, key);
    lemma_last_writes_same_map(overrides);
    assert forall|index: int| #[trigger]
        is_last_write(overrides, key, index) implies child_environment(inherited, overrides)[key]
        == overrides[index].1 by {
        lemma_override_map_value(overrides, key, index);
    }
}

/// The bindings of `list` that do not write `key`, in order.
fn drop_key(list: Vec<(String, String)>, key: &str) -> (kept: Vec<(String, String)>)
    ensures
        bindings(kept@) == without_key(bindings(list@), key@),
{
    let mut kept: Vec<(String, String)> = Vec::new();
    let mut i: usize = 0;
    proof {
        reveal(Seq::filter);
        assert(bindings(list@).take(0) =~= Seq::empty());
    }
    while i < list.len()
        invariant
            0 <= i <= list.len(),
            bindings(kept@) == without_key(bindings(list@).take(i as int), key@),
        decreases list.len() - i,
    {
        let ghost seen = bindings(list@).take(i as int);
        let ghost next = bindings(list@).take(i + 1);
        proof {
            reveal(Seq::filter);
            assert(next.drop_last() =~= seen);
            assert(next.last() == (list[i as int].0@, list[i as int].1@));
        }
        if !same_text(list[i].0.as_str(), key) {
            let ghost before = bindings(kept@);
            kept.push((list[i].0.clone(), list[i].1.clone()));
            assert(bindings(kept@) =~= before.push(next.last()));
        }
        i += 1;
    }
    assert(bindings(list@).take(i as int) =~= bindings(list@));
    kept
}

/// The overrides with each key once: where a key was written more than
/// once, only its last value stays.
pub fn effective_overrides(overrides: &Vec<(String, String)>) -> (kept: Vec<(String, String)>)
    ensures
        bindings(kept@) == last_writes(bindings(overrides@)),
{
    let mut kept: Vec<(String, String)> = Vec::new();
    let mut i: usize = 0;
    assert(bindings(overrides@).take(0) =~= Seq::empty());
    assert(bindings(kept@) =~= Seq::empty());
    while i < overrides.len()
        invariant
            0 <= i <= overrides.len(),
            bindings(kept@) == last_writes(bindings(overrides@).take(i as int)),
        decreases overrides.len() - i,
    {
        let ghost seen = bindings(overrides@).take(i as int);
        let ghost next = bindings(overrides@).take(i + 1);
        assert(next.drop_last() =~= seen);
        assert(next.last() == (overrides[i as int].0@, overrides[i as int].1@));
        kept = drop_key(kept, overrides[i].0.as_str());
        let ghost before = bindings(kept@);
        kept.push((overrides[i].0.clone(), overrides[i].1.clone()));
        assert(bindings(kept@) =~= before.push(next.last()));
        i += 1;
    }
    assert(bindings(overrides@).take(i as int) =~= bindings(overrides@));
    kept
}

} // verus!
