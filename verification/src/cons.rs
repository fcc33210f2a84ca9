//! The cons-cell chain: immutable, reference-counted nodes.

use crate::list::List;
use std::rc::Rc;
use vstd::pervasive::unreached;
use vstd::prelude::*;
use vstd::std_specs::cmp::PartialEqSpec;

verus! {

/// One node of a chain: either a cell holding an element and the rest of
/// the chain, or the terminator.  Nodes are never mutated once built; a
/// node may be the tail of many chains at once.
pub enum ConsNode<T> {
    Cons(Rc<T>, Rc<ConsNode<T>>),
    Nil,
}

impl<T> ConsNode<T> {
    /// The elements stored from this node down to the terminator, the
    /// element of this node first.
    pub open spec fn elems(&self) -> Seq<T>
        decreases self,
    {
        match self {
            ConsNode::Cons(value, tail) => seq![**value] + tail.elems(),
            ConsNode::Nil => Seq::empty(),
        }
    }

    /// The number of cells from this node down to the terminator.
    pub fn len(&self) -> (r: usize)
        requires
            self.elems().len() <= usize::MAX,
        ensures
            r == self.elems().len(),
        decreases self.elems().len(),
    {
        match self {
            ConsNode::Cons(_, tail) => 1 + tail.len(),
            ConsNode::Nil => 0,
        }
    }
}

/// Prepend `value`: one fresh cell whose tail is the whole existing
/// chain, shared rather than copied.
pub fn unshift<T>(cons_node: &Rc<ConsNode<T>>, value: T) -> (r: Rc<ConsNode<T>>)
    ensures
        r.elems() == seq![value] + cons_node.elems(),
{
    Rc::new(ConsNode::Cons(Rc::new(value), cons_node.clone()))
}

/// A suffix of length one or more starts one position further in: its
/// tail is again a suffix, and its first element sits right where the
/// suffix starts.
proof fn lemma_suffix_step<T>(t: Seq<T>, s: Seq<T>)
    requires
        t.is_suffix_of(s),
        t.len() >= 1,
    ensures
        t.drop_first().is_suffix_of(s),
        t[0] == s[s.len() - t.len()],
{
    assert(t.drop_first() =~= s.subrange(s.len() - t.len() + 1, s.len() as int));
}

/// A persistent list: a handle to the head of an immutable chain.
/// Distinct list values may share arbitrary suffixes of their chains.
pub struct ConsList<T> {
    head: Rc<ConsNode<T>>,
}

impl<T: PartialEq> List<T> for ConsList<T> {
    type Node = Rc<ConsNode<T>>;

    closed spec fn elems(&self) -> Seq<T> {
        self.head.elems()
    }

    closed spec fn node_elems(node: &Rc<ConsNode<T>>) -> Seq<T> {
        node.elems()
    }

    fn empty() -> (r: Self) {
        ConsList { head: Rc::new(ConsNode::Nil) }
    }

    fn add(&self, value: T) -> (r: Self) {
        ConsList { head: unshift(&self.head, value) }
    }

    fn find(&self, value: &T) -> (r: Option<&Rc<ConsNode<T>>>) {
        let mut cons_node: &Rc<ConsNode<T>> = &self.head;
        loop
            invariant
                cons_node.elems().is_suffix_of(self.elems()),
                T::obeys_eq_spec() ==> forall|j: int|
                    0 <= j < self.elems().len() - cons_node.elems().len() ==> !value.eq_spec(
                        &self.elems()[j],
                    ),
            decreases cons_node.elems().len(),
        {
            match &**cons_node {
                ConsNode::Cons(content, next) => {
                    proof {
                        lemma_suffix_step(cons_node.elems(), self.elems());
                        assert(cons_node.elems().drop_first() =~= next.elems());
                    }
                    if *value == **content {
                        return Some(cons_node);
                    }
                    cons_node = next;
                },
                ConsNode::Nil => {
                    return None;
                },
            }
        }
    }

    fn remove(&self, node: &Rc<ConsNode<T>>) -> (r: Self) {
        match &**node {
            ConsNode::Nil => ConsList { head: self.head.clone() },
            ConsNode::Cons(_, _) => {
                let k = node.len();
                let n = self.head.len();
                let mut values: Vec<Rc<T>> = Vec::new();
                let mut cur: &Rc<ConsNode<T>> = &self.head;
                while values.len() < n - k
                    invariant
                        k == node.elems().len(),
                        n == self.elems().len(),
                        1 <= k <= n,
                        node.elems().is_suffix_of(self.elems()),
                        cur.elems().is_suffix_of(self.elems()),
                        values@.len() <= n - k,
                        cur.elems().len() == n - values@.len(),
                        forall|j: int| 0 <= j < values@.len() ==> values@[j] == self.elems()[j],
                    decreases n - values@.len(),
                {
                    match &**cur {
                        ConsNode::Cons(value, next) => {
                            proof {
                                lemma_suffix_step(cur.elems(), self.elems());
                                assert(cur.elems().drop_first() =~= next.elems());
                            }
                            values.push(value.clone());
                            cur = next;
                        },
                        ConsNode::Nil => {
                            proof {
                                assert(false);
                            }
                            unreached()
                        },
                    }
                }
                proof {
                    assert(cur.elems() =~= node.elems());
                }
                match &**cur {
                    ConsNode::Cons(_, tail) => {
                        proof {
                            assert(cur.elems().drop_first() =~= tail.elems());
                        }
                        let mut new_head: Rc<ConsNode<T>> = tail.clone();
                        let mut j: usize = values.len();
                        while j > 0
                            invariant
                                j <= values@.len() == n - k,
                                k == node.elems().len(),
                                n == self.elems().len(),
                                1 <= k <= n,
                                forall|i: int|
                                    0 <= i < values@.len() ==> values@[i] == self.elems()[i],
                                new_head.elems() =~= self.elems().subrange(j as int, n - k)
                                    + node.elems().drop_first(),
                            decreases j,
                        {
                            j -= 1;
                            let ghost prev = new_head.elems();
                            new_head = Rc::new(ConsNode::Cons(values[j].clone(), new_head));
                            proof {
                                assert(new_head.elems() =~= seq![self.elems()[j as int]] + prev);
                                assert(new_head.elems() =~= self.elems().subrange(j as int, n - k)
                                    + node.elems().drop_first());
                            }
                        }
                        ConsList { head: new_head }
                    },
                    ConsNode::Nil => {
                        proof {
                            assert(false);
                        }
                        unreached()
                    },
                }
            },
        }
    }

    fn collect(&self) -> (r: Vec<&T>) {
        let mut values: Vec<&T> = Vec::new();
        let mut node: &Rc<ConsNode<T>> = &self.head;
        loop
            invariant_except_break
                node.elems().is_suffix_of(self.elems()),
                values@.len() + node.elems().len() == self.elems().len(),
                forall|i: int| 0 <= i < values@.len() ==> values@[i] == self.elems()[i],
            ensures
                values@.len() == self.elems().len(),
                forall|i: int| 0 <= i < values@.len() ==> values@[i] == self.elems()[i],
            decreases node.elems().len(),
        {
            match &**node {
                ConsNode::Cons(value, next) => {
                    proof {
                        lemma_suffix_step(node.elems(), self.elems());
                        assert(node.elems().drop_first() =~= next.elems());
                    }
                    values.push(&**value);
                    node = next;
                },
                ConsNode::Nil => {
                    break;
                },
            }
        }
        let mut result: Vec<&T> = Vec::new();
        let mut i: usize = values.len();
        while i > 0
            invariant
                i <= values@.len() == self.elems().len(),
                forall|j: int| 0 <= j < values@.len() ==> values@[j] == self.elems()[j],
                result@.len() == values@.len() - i,
                forall|j: int|
                    0 <= j < result@.len() ==> result@[j] == self.elems()[self.elems().len() - 1
                        - j],
            decreases i,
        {
            i -= 1;
            result.push(values[i]);
        }
        result
    }
}

} // verus!
