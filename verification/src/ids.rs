//! A `Vec<u32>` used as a duplicate-free set of numeric identifiers, with the
//! set it denotes given by `Seq::to_set`.

use vstd::prelude::*;

verus! {

/// Linear scan for an identifier.
pub(crate) fn contains_id(v: &Vec<u32>, id: u32) -> (found: bool)
    ensures
        found == v@.contains(id),
{
    let mut i: usize = 0;
    while i < v.len()
        invariant
            i <= v@.len(),
            forall|j: int| 0 <= j < i ==> v@[j] != id,
        decreases v@.len() - i,
    {
        if v[i] == id {
            return true;
        }
        i += 1;
    }
    false
}

/// Index of an identifier, if present.
pub(crate) fn find_id(v: &Vec<u32>, id: u32) -> (r: Option<usize>)
    ensures
        r matches Some(i) ==> i < v@.len() && v@[i as int] == id,
        r is None ==> !v@.contains(id),
{
    let mut i: usize = 0;
    while i < v.len()
        invariant
            i <= v@.len(),
            forall|j: int| 0 <= j < i ==> v@[j] != id,
        decreases v@.len() - i,
    {
        if v[i] == id {
            return Some(i);
        }
        i += 1;
    }
    None
}

/// Set insertion on the duplicate-free representation.
pub(crate) fn insert_id(v: &mut Vec<u32>, id: u32)
    requires
        old(v)@.no_duplicates(),
    ensures
        final(v)@.no_duplicates(),
        final(v)@.to_set() == old(v)@.to_set().insert(id),
{
    if !contains_id(v, id) {
        v.push(id);
        proof {
            old(v)@.lemma_push_to_set_commute(id);
            assert(final(v)@.to_set() =~= old(v)@.to_set().insert(id));
        }
    } else {
        proof {
            assert(final(v)@.to_set() =~= old(v)@.to_set().insert(id));
        }
    }
}

/// Set removal on the duplicate-free representation.
pub(crate) fn remove_id(v: &mut Vec<u32>, id: u32)
    requires
        old(v)@.no_duplicates(),
    ensures
        final(v)@.no_duplicates(),
        final(v)@.to_set() == old(v)@.to_set().remove(id),
{
    match find_id(v, id) {
        Some(i) => {
            v.remove(i);
            proof {
                old(v)@.remove_ensures(i as int);
                assert forall|x: u32| final(v)@.contains(x) implies old(v)@.contains(x) && x != id by {
                    let k = choose|k: int| 0 <= k < final(v)@.len() && final(v)@[k] == x;
                    if k < i {
                        assert(old(v)@[k] == x);
                    } else {
                        assert(old(v)@[k + 1] == x);
                        assert(old(v)@[k + 1] != old(v)@[i as int]);
                    }
                }
                assert forall|x: u32| old(v)@.contains(x) && x != id implies final(v)@.contains(x) by {
                    let k = choose|k: int| 0 <= k < old(v)@.len() && old(v)@[k] == x;
                    if k < i {
                        assert(final(v)@[k] == x);
                    } else {
                        assert(k != i);
                        assert(final(v)@[k - 1] == x);
                    }
                }
                assert(final(v)@.to_set() =~= old(v)@.to_set().remove(id));
                assert forall|a: int, b: int|
                    0 <= a < final(v)@.len() && 0 <= b < final(v)@.len() && a != b
                    implies final(v)@[a] != final(v)@[b] by {
                    let a0: int = if a < i { a } else { a + 1 };
                    let b0: int = if b < i { b } else { b + 1 };
                    assert(old(v)@[a0] != old(v)@[b0]);
                }
            }
        },
        None => {
            proof {
                assert(final(v)@.to_set() =~= old(v)@.to_set().remove(id));
            }
        },
    }
}

} // verus!
