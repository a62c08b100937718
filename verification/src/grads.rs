use vstd::prelude::*;

use crate::element::FloatElement;
use crate::shape::prod;
use crate::tensor::{add_rep, rep_wf, Tensor, TensorRep};

verus! {

/// The gradient tape of one backward pass: a mapping from vertex identity
/// to the gradient accumulated there so far. Registering at an occupied
/// identity sums the gradients, as the chain rule demands of a value with
/// several consumers; consuming removes the entry so that no gradient is
/// counted twice.
pub struct Gradients<E> {
    slots: Vec<Option<Tensor<E>>>,
}

/// Accumulation into a gradient mapping: a new entry is inserted, an
/// existing one is summed with the arriving gradient.
pub open spec fn tape_acc<E: FloatElement>(
    tape: Map<int, TensorRep<E>>,
    p: int,
    g: TensorRep<E>,
) -> Map<int, TensorRep<E>> {
    if tape.dom().contains(p) {
        tape.insert(p, add_rep(tape[p], g))
    } else {
        tape.insert(p, g)
    }
}

impl<E: FloatElement> Gradients<E> {
    /// The mapping from vertex identity to accumulated gradient.
    pub closed spec fn view_map(&self) -> Map<int, TensorRep<E>> {
        Map::new(
            |i: int| 0 <= i < self.slots@.len() && self.slots@[i] is Some,
            |i: int| self.slots@[i]->Some_0.rep(),
        )
    }

    /// How many vertex identities the tape covers.
    pub closed spec fn capacity(&self) -> int {
        self.slots@.len() as int
    }

    /// Every held gradient is a well-formed tensor value.
    pub closed spec fn inv(&self) -> bool {
        forall|i: int|
            0 <= i < self.slots@.len() ==> ((#[trigger] self.slots@[i]) matches Some(t) ==> t.wf())
    }

    /// An empty tape covering `n` vertex identities.
    pub fn new_for(n: usize) -> (r: Gradients<E>)
        ensures
            r.inv(),
            r.capacity() == n,
            r.view_map() =~= Map::<int, TensorRep<E>>::empty(),
    {
        let mut slots: Vec<Option<Tensor<E>>> = Vec::new();
        let mut i: usize = 0;
        while i < n
            invariant
                i <= n,
                slots@.len() == i,
                forall|j: int| 0 <= j < i ==> (#[trigger] slots@[j]) is None,
            decreases n - i,
        {
            slots.push(None);
            i = i + 1;
        }
        Gradients { slots }
    }

    /// Whether a gradient is pending at identity `i`.
    pub fn contains(&self, i: usize) -> (r: bool)
        ensures
            r == self.view_map().dom().contains(i as int),
    {
        i < self.slots.len() && self.slots[i].is_some()
    }

    /// Accumulates `g` at identity `i`: inserted if the identity is empty,
    /// summed into the pending gradient otherwise.
    pub fn register(&mut self, i: usize, g: Tensor<E>)
        requires
            old(self).inv(),
            i < old(self).capacity(),
            g.wf(),
            old(self).view_map().dom().contains(i as int) ==> old(self).view_map()[i as int].shape
                =~= g.rep().shape,
        ensures
            final(self).inv(),
            final(self).capacity() == old(self).capacity(),
            final(self).view_map() =~= tape_acc(old(self).view_map(), i as int, g.rep()),
    {
        let cur = self.slots[i].take();
        match cur {
            Some(t) => {
                let n = t.len();
                proof {
                    assert(prod(t.rep().shape) == n);
                    crate::graph::lemma_same_shape_bc(t.rep().shape, g.rep().shape);
                }
                let s = t.add(&g);
                self.slots.set(i, Some(s));
            },
            None => {
                self.slots.set(i, Some(g));
            },
        }
    }

    /// Removes and returns the pending gradient at identity `i`; asking for
    /// an identity without one is ruled out, so no gradient is consumed
    /// twice.
    pub fn consume(&mut self, i: usize) -> (r: Tensor<E>)
        requires
            old(self).inv(),
            old(self).view_map().dom().contains(i as int),
        ensures
            final(self).inv(),
            final(self).capacity() == old(self).capacity(),
            r.wf(),
            r.rep() == old(self).view_map()[i as int],
            final(self).view_map() =~= old(self).view_map().remove(i as int),
    {
        let t = self.slots[i].take();
        match t {
            Some(t) => t,
            None => {
                proof {
                    assert(false);
                }
                unreached()
            },
        }
    }

    /// Reads the gradient at identity `i` without removing it; asking
    /// twice answers the same value.
    pub fn query(&self, i: usize) -> (r: Option<Tensor<E>>)
        requires
            self.inv(),
        ensures
            match r {
                Some(t) => self.view_map().dom().contains(i as int) && t.rep()
                    == self.view_map()[i as int] && t.wf(),
                None => !self.view_map().dom().contains(i as int),
            },
    {
        if i < self.slots.len() {
            match &self.slots[i] {
                Some(t) => Some(t.duplicate()),
                None => None,
            }
        } else {
            None
        }
    }
}

} // verus!
