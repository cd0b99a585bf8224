//! The persistent list type and its operations.

use std::rc::Rc;
use vstd::prelude::*;

verus! {

/// One node of a non-empty list: a head value together with the tail list.
///
/// Nodes are created once, by [`List::cons`], and never mutated afterwards,
/// which is what makes sharing them between lists safe.
pub struct ListBox<T> {
    x: T,
    xs: List<T>,
}

/// An immutable, possibly-empty singly-linked list.
///
/// The non-empty case holds its node behind a reference-counted pointer, so
/// cloning a list only copies a handle: the chain of nodes is shared, never
/// duplicated. A list is modelled in specifications by the sequence of its
/// elements, head first (its [`View`]).
pub struct List<T>(Option<Rc<ListBox<T>>>);

impl<T> List<T> {
    /// The sequence of elements of this list, head first.
    pub closed spec fn as_seq(self) -> Seq<T>
        decreases self,
    {
        match self.0 {
            None => Seq::empty(),
            Some(b) => b.as_seq(),
        }
    }
}

impl<T> View for List<T> {
    type V = Seq<T>;

    open spec fn view(&self) -> Seq<T> {
        self.as_seq()
    }
}

impl<T> ListBox<T> {
    /// The sequence of elements of the list that starts at this node.
    pub closed spec fn as_seq(self) -> Seq<T>
        decreases self,
    {
        seq![self.x] + self.xs.as_seq()
    }
}

impl<T> View for ListBox<T> {
    type V = Seq<T>;

    open spec fn view(&self) -> Seq<T> {
        self.as_seq()
    }
}

impl<T> Clone for List<T> {
    /// A second handle to the same list: no node is copied, and the clone
    /// has exactly the same elements as the original.
    fn clone(&self) -> (r: Self)
        ensures
            r@ == self@,
    {
        match &self.0 {
            None => List(None),
            Some(rc) => List(Some(rc.clone())),
        }
    }
}

impl<T> Default for List<T> {
    /// The empty list.
    fn default() -> (r: Self)
        ensures
            r@ == Seq::<T>::empty(),
    {
        List(None)
    }
}

impl<T> List<T> {
    /// The empty list.
    pub fn new() -> (r: Self)
        ensures
            r@ == Seq::<T>::empty(),
    {
        List(None)
    }

    /// A new list with head `x` and this list as its tail. The receiver is
    /// shared as the tail, not copied, and remains usable unchanged.
    pub fn cons(&self, x: T) -> (r: Self)
        ensures
            r@ == seq![x] + self@,
    {
        let xs = self.clone();
        List(Some(Rc::new(ListBox { x, xs })))
    }

    /// Decomposes the list into head and tail, without copying either.
    /// Returns `None` exactly when the list is empty.
    pub fn uncons(&self) -> (r: Option<(&T, &Self)>)
        ensures
            r is Some <==> self@.len() > 0,
            r matches Some(p) ==> *p.0 == self@[0] && p.1@ == self@.drop_first(),
    {
        match &self.0 {
            None => None,
            Some(b) => {
                proof {
                    assert(b.xs@ =~= self@.drop_first());
                }
                Some((&b.x, &b.xs))
            },
        }
    }

    /// The head value, or `None` exactly when the list is empty.
    pub fn first(&self) -> (r: Option<&T>)
        ensures
            r is Some <==> self@.len() > 0,
            r matches Some(x) ==> *x == self@[0],
    {
        match self.uncons() {
            Some((x, _)) => Some(x),
            None => None,
        }
    }

    /// The tail list, or `None` exactly when the list is empty.
    pub fn rest(&self) -> (r: Option<&Self>)
        ensures
            r is Some <==> self@.len() > 0,
            r matches Some(xs) ==> xs@ == self@.drop_first(),
    {
        match self.uncons() {
            Some((_, xs)) => Some(xs),
            None => None,
        }
    }

    /// The final element, or `None` exactly when the list is empty.
    /// Walks the chain; allocates nothing.
    pub fn last(&self) -> (r: Option<&T>)
        ensures
            r is Some <==> self@.len() > 0,
            r matches Some(x) ==> *x == self@.last(),
    {
        match &self.0 {
            None => None,
            Some(b) => Some(b.last()),
        }
    }
}

impl<T> List<T> {
    /// A new list of all elements but the last, in order, or `None` exactly
    /// when the list is empty. Every surviving element is re-created by
    /// `T::clone`: the prefix of a list cannot share nodes with the original
    /// once its last node is cut off.
    pub fn init(&self) -> (r: Option<Self>)
        where
            T: Clone,
        ensures
            r is Some <==> self@.len() > 0,
            r matches Some(l) ==> l@.len() == self@.len() - 1 && (forall|i: int|
                0 <= i < l@.len() ==> cloned::<T>(self@[i], l@[i])),
    {
        match &self.0 {
            None => None,
            Some(b) => Some(b.init()),
        }
    }

    /// A new list of this list's elements followed by `other`'s, in order.
    /// The receiver's elements are re-created by `T::clone` (each of its
    /// nodes needs a new tail), while `other`'s chain is shared unchanged
    /// as the new list's suffix.
    pub fn append(&self, other: &Self) -> (r: Self)
        where
            T: Clone,
        ensures
            r@.len() == self@.len() + other@.len(),
            forall|i: int| 0 <= i < self@.len() ==> cloned::<T>(self@[i], r@[i]),
            forall|i: int| 0 <= i < other@.len() ==> r@[self@.len() + i] == other@[i],
    {
        match &self.0 {
            None => other.clone(),
            Some(b) => b.append(other),
        }
    }
}

impl<T> ListBox<T> {
    /// All elements of the list that starts at this node but the last one,
    /// each re-created by `T::clone`, in order.
    pub fn init(&self) -> (r: List<T>)
        where
            T: Clone,
        ensures
            r@.len() == self@.len() - 1,
            forall|i: int| 0 <= i < r@.len() ==> cloned::<T>(self@[i], r@[i]),
        decreases *self,
    {
        match &self.xs.0 {
            Some(xs) => {
                let rec = xs.init();
                let r = rec.cons(self.x.clone());
                proof {
                    assert forall|i: int| 0 <= i < r@.len() implies cloned::<T>(
                        self@[i],
                        r@[i],
                    ) by {
                        if i > 0 {
                            assert(self@[i] == xs@[i - 1]);
                            assert(r@[i] == rec@[i - 1]);
                        }
                    }
                }
                r
            },
            None => List::new(),
        }
    }

    /// The elements of the list that starts at this node, each re-created by
    /// `T::clone`, followed by `other`'s elements, whose nodes are shared.
    pub fn append(&self, other: &List<T>) -> (r: List<T>)
        where
            T: Clone,
        ensures
            r@.len() == self@.len() + other@.len(),
            forall|i: int| 0 <= i < self@.len() ==> cloned::<T>(self@[i], r@[i]),
            forall|i: int| 0 <= i < other@.len() ==> r@[self@.len() + i] == other@[i],
        decreases *self,
    {
        match &self.xs.0 {
            Some(xs) => {
                let rec = xs.append(other);
                let r = rec.cons(self.x.clone());
                proof {
                    assert forall|i: int| 0 <= i < self@.len() implies cloned::<T>(
                        self@[i],
                        r@[i],
                    ) by {
                        if i > 0 {
                            assert(self@[i] == xs@[i - 1]);
                            assert(r@[i] == rec@[i - 1]);
                        }
                    }
                }
                r
            },
            None => other.cons(self.x.clone()),
        }
    }

    /// The final element of the list that starts at this node.
    pub fn last(&self) -> (r: &T)
        ensures
            *r == self@.last(),
        decreases *self,
    {
        match &self.xs.0 {
            None => &self.x,
            Some(b) => {
                proof {
                    assert(self@.last() == b@.last());
                }
                b.last()
            },
        }
    }
}

/// Decomposition inverts construction: a list built by `cons(x)` on a list
/// with elements `l@` has `x` as its first element, and its tail has exactly
/// the elements `l@` again — consing never disturbs the list it extends.
pub proof fn lemma_cons_decomposition<T>(l: List<T>, x: T)
    ensures
        (seq![x] + l@).first() == x,
        (seq![x] + l@).drop_first() == l@,
{
    assert((seq![x] + l@).drop_first() =~= l@);
}

/// Re-attaching the last element to the initial segment rebuilds the
/// original: for a non-empty list, the elements of `init` followed by the
/// one-element sequence of `last` are exactly the elements of the list.
pub proof fn lemma_init_last_rebuild<T>(l: List<T>)
    requires
        l@.len() >= 1,
    ensures
        l@.drop_last() + seq![l@.last()] == l@,
{
    assert(l@.drop_last() + seq![l@.last()] =~= l@);
}

/// The empty list is a left and right identity for appending, at the level
/// of elements: appending an empty sequence of elements on either side
/// changes nothing.
pub proof fn lemma_append_empty_identity<T>(l: List<T>)
    ensures
        l@ + Seq::<T>::empty() == l@,
        Seq::<T>::empty() + l@ == l@,
{
    assert(l@ + Seq::<T>::empty() =~= l@);
    assert(Seq::<T>::empty() + l@ =~= l@);
}

/// Appending is associative at the level of elements: grouping three lists'
/// element sequences either way yields the same sequence.
pub proof fn lemma_append_associative<T>(a: List<T>, b: List<T>, c: List<T>)
    ensures
        (a@ + b@) + c@ == a@ + (b@ + c@),
{
    assert((a@ + b@) + c@ =~= a@ + (b@ + c@));
}

} // verus!
