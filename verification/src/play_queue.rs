//! An ordered, indexable sequence of items with a movable cursor.
//!
//! The queue knows nothing about playback: it supports appending, clearing,
//! resetting, stepping the cursor forwards and backwards, jumping to an item,
//! and a cursor-preserving shuffle.

use rand::seq::SliceRandom;
use vstd::prelude::*;

verus! {

use vstd::std_specs::cmp::PartialEqSpec;

/// An ordered sequence of equality-comparable, clonable items (duplicates
/// allowed) together with a cursor index pointing at the current item.
///
/// The view of a queue is the sequence of its items; the cursor is exposed
/// through the spec function [`PlayQueue::cursor`].
pub struct PlayQueue<T> {
    items: Vec<T>,
    index: usize,
}

impl<T> View for PlayQueue<T> {
    type V = Seq<T>;

    closed spec fn view(&self) -> Seq<T> {
        self.items@
    }
}

/// The reason a queue operation was refused: a programmer-contract
/// violation, treated as non-recoverable by callers.
#[derive(Debug, PartialEq, Eq, Structural)]
pub enum QueueError {
    /// The item handed to a lookup is not in the queue at all.
    ItemNotFound,
}

/// Relies on rand's `SliceRandom::shuffle` (seeded from `rand::rng()`): an
/// in-place Fisher-Yates permutation of `items[start..]`. Elements before
/// `start` are not touched, and no element is added or removed, so the
/// multiset of items is preserved; nothing is promised about the resulting
/// order, which depends on the thread-local random generator.
#[verifier::external_body]
fn shuffle_from<T>(items: &mut Vec<T>, start: usize)
    requires
        start <= old(items)@.len(),
    ensures
        final(items)@.len() == old(items)@.len(),
        final(items)@.to_multiset() == old(items)@.to_multiset(),
        forall|i: int| 0 <= i < start ==> final(items)@[i] == old(items)@[i],
{
    items[start..].shuffle(&mut rand::rng());
}

impl<T: PartialEq + Clone> PlayQueue<T> {
    /// The current cursor position, as a mathematical integer.
    pub closed spec fn cursor(&self) -> int {
        self.index as int
    }

    /// Well-formedness: the cursor stays inside `[0, len)` whenever the
    /// queue is non-empty, and rests at 0 when it is empty.
    pub open spec fn wf(&self) -> bool {
        &&& self@.len() == 0 ==> self.cursor() == 0
        &&& self@.len() > 0 ==> 0 <= self.cursor() < self@.len()
    }

    /// The item under the cursor, or `None` when the queue is empty.
    pub open spec fn current_spec(&self) -> Option<T> {
        if 0 <= self.cursor() < self@.len() {
            Some(self@[self.cursor()])
        } else {
            None
        }
    }

    /// Law: a well-formed, non-empty queue keeps its cursor inside
    /// `[0, len)`. Every operation below preserves well-formedness, so this
    /// holds after any sequence of `next` and `previous` calls.
    pub proof fn lemma_cursor_in_bounds(&self)
        requires
            self.wf(),
            self@.len() > 0,
        ensures
            0 <= self.cursor() < self@.len(),
    {
    }

    /// Create a new empty play queue.
    pub fn new() -> (q: PlayQueue<T>)
        ensures
            q@ == Seq::<T>::empty(),
            q.cursor() == 0,
            q.wf(),
    {
        PlayQueue::from_vec(Vec::new())
    }

    /// Create a new play queue using the items from vector `items`.
    pub fn from_vec(items: Vec<T>) -> (q: PlayQueue<T>)
        ensures
            q@ == items@,
            q.cursor() == 0,
            q.wf(),
    {
        PlayQueue { items, index: 0 }
    }

    /// Add a clone of `item` to the end of the queue. The cursor does not
    /// move, so the current item is unchanged unless the queue was empty,
    /// in which case the appended item becomes current.
    pub fn append(&mut self, item: &T)
        requires
            old(self).wf(),
        ensures
            final(self).wf(),
            final(self)@.len() == old(self)@.len() + 1,
            final(self)@.subrange(0, old(self)@.len() as int) =~= old(self)@,
            cloned::<T>(*item, final(self)@[old(self)@.len() as int]),
            final(self).cursor() == old(self).cursor(),
            old(self)@.len() > 0 ==> final(self).current_spec() == old(self).current_spec(),
            old(self)@.len() == 0 ==> final(self).current_spec() == Some(final(self)@[0]),
    {
        self.items.push(item.clone());
    }

    /// Remove all items from the queue; the cursor returns to 0 and there
    /// is no current item any more.
    pub fn clear(&mut self)
        ensures
            final(self).wf(),
            final(self)@ == Seq::<T>::empty(),
            final(self).cursor() == 0,
            final(self).current_spec() is None,
    {
        self.items = Vec::new();
        self.index = 0;
    }

    /// Reset the queue back to the first item; the contents are untouched.
    pub fn reset(&mut self)
        ensures
            final(self).wf(),
            final(self)@ == old(self)@,
            final(self).cursor() == 0,
            final(self)@.len() > 0 ==> final(self).current_spec() == Some(final(self)@[0]),
    {
        self.index = 0;
    }

    /// Move to the next item in the queue, returning it.
    ///
    /// Returns `None`, and leaves the cursor (and so the current item)
    /// unchanged, if there is no next item in the queue.
    pub fn next(&mut self) -> (r: Option<&T>)
        requires
            old(self).wf(),
        ensures
            final(self).wf(),
            final(self)@ == old(self)@,
            old(self).cursor() + 1 < old(self)@.len() ==> ({
                &&& final(self).cursor() == old(self).cursor() + 1
                &&& r matches Some(v) && *v == final(self)@[final(self).cursor()]
            }),
            old(self).cursor() + 1 >= old(self)@.len() ==> ({
                &&& final(self).cursor() == old(self).cursor()
                &&& r is None
                &&& final(self).current_spec() == old(self).current_spec()
            }),
    {
        let len = self.items.len();
        if self.index + 1 < len {
            self.index = self.index + 1;
            Some(&self.items[self.index])
        } else {
            None
        }
    }

    /// Move to the previous item in the queue, returning it.
    ///
    /// Returns `None`, and leaves the cursor at 0, if there is no previous
    /// item in the queue.
    pub fn previous(&mut self) -> (r: Option<&T>)
        requires
            old(self).wf(),
        ensures
            final(self).wf(),
            final(self)@ == old(self)@,
            old(self).cursor() > 0 ==> ({
                &&& final(self).cursor() == old(self).cursor() - 1
                &&& r matches Some(v) && *v == final(self)@[final(self).cursor()]
            }),
            old(self).cursor() == 0 ==> ({
                &&& final(self).cursor() == 0
                &&& r is None
                &&& final(self).current_spec() == old(self).current_spec()
            }),
    {
        if self.index > 0 {
            self.index = self.index - 1;
            Some(&self.items[self.index])
        } else {
            None
        }
    }

    /// Return the current item in the queue. Returns `None` if there aren't
    /// any items, which occurs exactly when the play queue is empty.
    pub fn current(&self) -> (r: Option<&T>)
        requires
            self.wf(),
        ensures
            r matches Some(v) ==> self.current_spec() == Some(*v),
            r is None <==> self@.len() == 0,
    {
        if self.index < self.items.len() {
            Some(&self.items[self.index])
        } else {
            None
        }
    }

    /// Jump to the first item in the queue equal to `item`, by linear scan.
    ///
    /// A missing item is a programmer-contract violation: the queue is left
    /// untouched and a fatal [`QueueError::ItemNotFound`] is reported.
    pub fn jump_to(&mut self, item: &T) -> (r: Result<(), QueueError>)
        requires
            old(self).wf(),
        ensures
            final(self).wf(),
            final(self)@ == old(self)@,
            T::obeys_eq_spec() ==> ({
                &&& (r is Ok <==> exists|i: int|
                    0 <= i < final(self)@.len() && final(self)@[i].eq_spec(item))
                &&& r is Ok ==> {
                    &&& 0 <= final(self).cursor() < final(self)@.len()
                    &&& final(self)@[final(self).cursor()].eq_spec(item)
                    &&& forall|j: int|
                        0 <= j < final(self).cursor() ==> !final(self)@[j].eq_spec(item)
                }
            }),
            r is Err ==> ({
                &&& final(self).cursor() == old(self).cursor()
                &&& r == Err::<(), QueueError>(QueueError::ItemNotFound)
            }),
    {
        let mut i: usize = 0;
        while i < self.items.len()
            invariant
                self@ == old(self)@,
                self.cursor() == old(self).cursor(),
                old(self).wf(),
                0 <= i <= self@.len(),
                T::obeys_eq_spec() ==> forall|j: int| 0 <= j < i ==> !self@[j].eq_spec(item),
            decreases self@.len() - i,
        {
            if self.items[i] == *item {
                self.index = i;
                return Ok(());
            }
            i = i + 1;
        }
        Err(QueueError::ItemNotFound)
    }

    /// Shuffle the items in the queue, keeping the current item at the
    /// front: the cursor returns to 0, the current item (if any) becomes
    /// the first item, and the remaining items are randomly permuted, so
    /// the queue holds the same multiset of items as before.
    pub fn shuffle(&mut self)
        requires
            old(self).wf(),
        ensures
            final(self).wf(),
            final(self).cursor() == 0,
            final(self)@.len() == old(self)@.len(),
            final(self)@.to_multiset() == old(self)@.to_multiset(),
            old(self)@.len() > 0 ==> final(self)@[0] == old(self)@[old(self).cursor()],
            final(self).current_spec() == old(self).current_spec(),
    {
        if self.items.len() == 0 {
            return;
        }
        let ghost s0 = self@;
        let ghost c0 = self.cursor();
        let cur = self.items.remove(self.index);
        self.items.insert(0, cur);
        proof {
            broadcast use vstd::seq_lib::group_to_multiset_ensures;
            broadcast use vstd::multiset::group_multiset_axioms;

            assert(s0.contains(s0[c0]));
            assert(self@.to_multiset() =~= s0.to_multiset());
        }
        shuffle_from(&mut self.items, 1);
        self.index = 0;
    }
}

} // verus!
