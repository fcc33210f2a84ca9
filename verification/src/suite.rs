//! A conformance suite over any implementation of the list contract.
//!
//! Every check here is generic in the element type and in the list
//! implementation, and every assertion is proved from the contract of
//! [`crate::list::List`] alone: the checks hold for every implementation
//! of the trait and every choice of element values.  The searching
//! checks assume that `==` on the element type is value equality
//! (`obeys_concrete_eq`), which is the setting the contract is meant
//! for.

use crate::list::List;
use core::fmt::Debug;
use vstd::laws_eq::obeys_concrete_eq;
use vstd::prelude::*;
use vstd::std_specs::cmp::PartialEqSpec;

verus! {

/// A fresh list holds nothing.
pub fn test_empty<T: PartialEq, L: List<T>>() {
    let list = L::empty();
    let v = list.collect();
    assert(v@.len() == 0);
}

/// A list with one element added collects to exactly that element.
pub fn test_one<T: PartialEq + Clone + Debug, L: List<T>>(v0: T) {
    let ghost g0 = v0;
    let list = L::empty().add(v0);
    let v = list.collect();
    assert(v@.len() == 1);
    assert(v@[0] == g0);
}

/// Two added elements collect in insertion order, oldest first.
pub fn test_two<T: PartialEq + Clone + Debug, L: List<T>>(v0: T, v1: T) {
    let ghost g0 = v0;
    let ghost g1 = v1;
    let list = L::empty().add(v0).add(v1);
    let v = list.collect();
    assert(v@.len() == 2);
    assert(v@[0] == g0);
    assert(v@[1] == g1);
}

/// Searching for an element that is present succeeds.
pub fn test_found<T: PartialEq + Clone, L: List<T>>(v0: T, v1: T)
    requires
        obeys_concrete_eq::<T>(),
{
    let list = L::empty().add(v0).add(v1);
    let c = list.collect();
    let found = list.find(c[0]);
    proof {
        reveal(vstd::laws_eq::obeys_concrete_eq);
        let s = list.elems();
        assert(c@[0] == s[1]);
        match found {
            Some(_) => {},
            None => {
                assert(!c@[0].eq_spec(&s[1]));
                assert(false);
            },
        }
    }
    assert(found.is_some());
}

/// Searching for an element equal to none that was added fails.
pub fn test_not_found<T: PartialEq + Clone, L: List<T>>(v0: T, v1: T, x0: T)
    requires
        obeys_concrete_eq::<T>(),
        x0 != v0,
        x0 != v1,
{
    let ghost g0 = v0;
    let ghost g1 = v1;
    let list = L::empty().add(v0).add(v1);
    let found = list.find(&x0);
    proof {
        reveal(vstd::laws_eq::obeys_concrete_eq);
        let s = list.elems();
        assert(s.len() == 2 && s[0] == g1 && s[1] == g0);
        match found {
            Some(node) => {
                let ne = L::node_elems(node);
                assert(ne[0] == s[s.len() - ne.len()]);
                assert(false);
            },
            None => {},
        }
    }
    assert(found.is_none());
}

/// Removing the node found for the earliest-added element leaves the
/// other element alone.
pub fn test_remove_first<T: PartialEq + Clone + Debug, L: List<T>>(v0: T, v1: T)
    requires
        obeys_concrete_eq::<T>(),
{
    let ghost g0 = v0;
    let ghost g1 = v1;
    let list = L::empty().add(v0).add(v1);
    let c = list.collect();
    let found = list.find(c[0]);
    proof {
        reveal(vstd::laws_eq::obeys_concrete_eq);
        let s = list.elems();
        assert(c@[0] == s[1]);
        match found {
            Some(node) => {
                let ne = L::node_elems(node);
                assert(ne[0] == s[s.len() - ne.len()]);
            },
            None => {
                assert(!c@[0].eq_spec(&s[1]));
                assert(false);
            },
        }
    }
    assert(found.is_some());
    let node = found.unwrap();
    let list2 = list.remove(node);
    proof {
        reveal(vstd::laws_eq::obeys_concrete_eq);
        let s = list.elems();
        let ne = L::node_elems(node);
        if ne.len() == 2 {
            // the head matched, so the two values compare equal
            assert(c@[0].eq_spec(&ne[0]));
            assert(g0 == g1);
            assert(list2.elems() =~= seq![g0]);
        } else {
            assert(list2.elems() =~= seq![g1]);
        }
    }
    let v = list2.collect();
    assert(v@.len() == 1);
    assert(v@[0] == g1);
}

/// Removing the node found for the most recently added element leaves
/// the earlier element alone.
pub fn test_remove_second<T: PartialEq + Clone + Debug, L: List<T>>(v0: T, v1: T)
    requires
        obeys_concrete_eq::<T>(),
{
    let ghost g0 = v0;
    let list = L::empty().add(v0).add(v1);
    let c = list.collect();
    let found = list.find(c[1]);
    proof {
        reveal(vstd::laws_eq::obeys_concrete_eq);
        let s = list.elems();
        assert(c@[1] == s[0]);
        match found {
            Some(node) => {
                let ne = L::node_elems(node);
                assert(ne[0] == s[s.len() - ne.len()]);
                // an earlier match would contradict reflexivity at the head
                assert(ne.len() == 2);
            },
            None => {
                assert(!c@[1].eq_spec(&s[0]));
                assert(false);
            },
        }
    }
    assert(found.is_some());
    let node = found.unwrap();
    let list2 = list.remove(node);
    proof {
        assert(list2.elems() =~= seq![g0]);
    }
    let v = list2.collect();
    assert(v@.len() == 1);
    assert(v@[0] == g0);
}

/// Removing the last-added of three elements leaves the first two, in
/// insertion order.
pub fn test_remove_third<T: PartialEq + Clone + Debug, L: List<T>>(v0: T, v1: T, v2: T)
    requires
        obeys_concrete_eq::<T>(),
{
    let ghost g0 = v0;
    let ghost g1 = v1;
    let list = L::empty().add(v0).add(v1).add(v2);
    let c = list.collect();
    let found = list.find(c[2]);
    proof {
        reveal(vstd::laws_eq::obeys_concrete_eq);
        let s = list.elems();
        assert(c@[2] == s[0]);
        match found {
            Some(node) => {
                let ne = L::node_elems(node);
                assert(ne[0] == s[s.len() - ne.len()]);
                assert(ne.len() == 3);
            },
            None => {
                assert(!c@[2].eq_spec(&s[0]));
                assert(false);
            },
        }
    }
    assert(found.is_some());
    let node = found.unwrap();
    let list2 = list.remove(node);
    proof {
        assert(list2.elems() =~= seq![g1, g0]);
    }
    let v = list2.collect();
    assert(v@.len() == 2);
    assert(v@[0] == g0);
    assert(v@[1] == g1);
}

/// Persistence: building `add(list, value)` disturbs nothing the given
/// handle holds — collecting it afterwards still yields exactly the
/// elements it held before the add, and the new list holds `value` in
/// front of them.
pub fn test_add_is_nondestructive<T: PartialEq, L: List<T>>(list: &L, value: T) {
    let ghost before = list.elems();
    let list2 = list.add(value);
    assert(list2.elems() == seq![value] + before);
    let after = list.collect();
    assert(after@.len() == before.len());
    assert(forall|i: int| 0 <= i < before.len() ==> after@[i] == before[before.len() - 1 - i]);
}

} // verus!
