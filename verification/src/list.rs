//! The capability contract a persistent list must meet.

use vstd::prelude::*;
use vstd::std_specs::cmp::PartialEqSpec;

verus! {

/// Holds when `node` heads the first (nearest the head of `s`) cell whose
/// element compares equal to `value`.  `node` is the suffix of `s` that
/// starts at that cell; every element before it compares unequal.
pub open spec fn found_first<T: PartialEq>(node: Seq<T>, s: Seq<T>, value: T) -> bool {
    &&& node.len() >= 1
    &&& node.is_suffix_of(s)
    &&& value.eq_spec(&node[0])
    &&& forall|j: int| 0 <= j < s.len() - node.len() ==> !value.eq_spec(&s[j])
}

/// The chain `s` with the cell heading the suffix `node` excised.  The
/// terminator heads the empty suffix, and excising it changes nothing.
pub open spec fn without_node<T>(node: Seq<T>, s: Seq<T>) -> Seq<T>
    recommends
        node.is_suffix_of(s),
{
    if node.len() == 0 {
        s
    } else {
        s.subrange(0, s.len() - node.len()) + node.drop_first()
    }
}

/// The operations a persistent list supports.  A list value is an
/// immutable handle: every "update" returns a new list value and leaves
/// every previously obtained one untouched.
///
/// `elems` is the list's mathematical value, the most recently added
/// element first; `node_elems` gives the elements a node handle carries,
/// namely the suffix of the chain that the node heads.
pub trait List<T: PartialEq>: Sized {
    type Node;

    /// The elements of the list, most recently added first.
    spec fn elems(&self) -> Seq<T>;

    /// The suffix of the chain headed by `node`.
    spec fn node_elems(node: &Self::Node) -> Seq<T>;

    /// A list with no elements.
    fn empty() -> (r: Self)
        ensures
            r.elems() == Seq::<T>::empty(),
    ;

    /// A new list with `value` in front of everything already present.
    /// The receiver is shared as the new list's tail, not copied.
    fn add(&self, value: T) -> (r: Self)
        ensures
            r.elems() == seq![value] + self.elems(),
    ;

    /// A handle to the first (most recently added first) cell whose
    /// element equals `value`, or `None` when no element does.  The
    /// promise is stated over `eq_spec`, so it binds wherever `==` on `T`
    /// obeys its specification.
    fn find(&self, value: &T) -> (r: Option<&Self::Node>)
        ensures
            T::obeys_eq_spec() ==> match r {
                Some(node) => found_first(Self::node_elems(node), self.elems(), *value),
                None => forall|i: int|
                    0 <= i < self.elems().len() ==> !value.eq_spec(&self.elems()[i]),
            },
    ;

    /// A new list equal to the receiver with the cell heading `node`
    /// excised; handing it the terminator changes nothing.  The handle
    /// must come from the receiver's own chain.
    fn remove(&self, node: &Self::Node) -> (r: Self)
        requires
            Self::node_elems(node).is_suffix_of(self.elems()),
            self.elems().len() <= usize::MAX,
        ensures
            r.elems() == without_node(Self::node_elems(node), self.elems()),
    ;

    /// References to every element, in insertion order: the element added
    /// earliest comes first.
    fn collect(&self) -> (r: Vec<&T>)
        ensures
            r@.len() == self.elems().len(),
            forall|i: int| 0 <= i < r@.len() ==> r@[i] == self.elems()[self.elems().len() - 1 - i],
    ;
}

} // verus!
