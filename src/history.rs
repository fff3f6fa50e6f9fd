//! Bounded, traversable record of the tracks that were played.
use arrayvec::ArrayVec;
use vstd::prelude::*;

verus! {

/// Most entries a history keeps; the oldest is dropped to make room.
pub const HISTORY_CAPACITY: usize = 100;

#[verifier::external_type_specification]
#[verifier::external_body]
#[verifier::reject_recursive_types(T)]
pub struct ExArrayVec<T, const CAP: usize>(ArrayVec<T, CAP>);

/// The entries a history buffer holds, oldest first.
pub uninterp spec fn stored(v: ArrayVec<usize, 100>) -> Seq<usize>;

/// Relies on `ArrayVec::new`: a vector with no elements.
#[verifier::external_body]
fn buffer_new() -> (r: ArrayVec<usize, 100>)
    ensures
        stored(r) == Seq::<usize>::empty(),
{
    ArrayVec::new()
}

/// Relies on `ArrayVec::len`: the number of elements, never above the capacity.
#[verifier::external_body]
fn buffer_len(v: &ArrayVec<usize, 100>) -> (r: usize)
    ensures
        r == stored(*v).len(),
        r <= 100,
{
    v.len()
}

/// Relies on indexing the slice that `ArrayVec` dereferences to.
#[verifier::external_body]
fn buffer_at(v: &ArrayVec<usize, 100>, i: usize) -> (r: usize)
    requires
        i < stored(*v).len(),
    ensures
        r == stored(*v)[i as int],
{
    v[i]
}

/// Relies on `ArrayVec::push`: appends at the end (it panics when full).
#[verifier::external_body]
fn buffer_push(v: &mut ArrayVec<usize, 100>, x: usize)
    requires
        stored(*old(v)).len() < 100,
    ensures
        stored(*final(v)) == stored(*old(v)).push(x),
{
    v.push(x)
}

/// Relies on `ArrayVec::remove`: takes out the element at `0` and shifts the rest
/// down by one (it panics on an empty vector).
#[verifier::external_body]
fn buffer_remove_first(v: &mut ArrayVec<usize, 100>)
    requires
        stored(*old(v)).len() > 0,
    ensures
        stored(*final(v)) == stored(*old(v)).subrange(1, stored(*old(v)).len() as int),
{
    v.remove(0);
}

/// Relies on `ArrayVec::truncate`: keeps the first `n` elements.
#[verifier::external_body]
fn buffer_truncate(v: &mut ArrayVec<usize, 100>, n: usize)
    requires
        n <= stored(*old(v)).len(),
    ensures
        stored(*final(v)) == stored(*old(v)).take(n as int),
{
    v.truncate(n)
}

/// Relies on `ArrayVec::clear`: removes every element.
#[verifier::external_body]
fn buffer_clear(v: &mut ArrayVec<usize, 100>)
    ensures
        stored(*final(v)) == Seq::<usize>::empty(),
{
    v.clear()
}

/// A history as entries, oldest first, and the position of the cursor among them.
pub type Trail = (Seq<usize>, nat);

/// A trail is well formed when it fits the capacity and its cursor points at an
/// entry, or the trail is empty and the cursor is zero.
pub open spec fn trail_wf(t: Trail) -> bool {
    &&& t.0.len() <= HISTORY_CAPACITY
    &&& if t.0.len() == 0 {
        t.1 == 0
    } else {
        t.1 < t.0.len()
    }
}

/// The entry after the cursor, if any, together with the trail moved onto it.
pub open spec fn forward(t: Trail) -> (Trail, Option<usize>) {
    if t.1 + 1 < t.0.len() {
        ((t.0, (t.1 + 1) as nat), Some(t.0[t.1 + 1 as int]))
    } else {
        (t, None)
    }
}

/// The entry before the cursor, if any, together with the trail moved onto it.
pub open spec fn backward(t: Trail) -> (Trail, Option<usize>) {
    if t.1 > 0 {
        ((t.0, (t.1 - 1) as nat), Some(t.0[t.1 - 1]))
    } else {
        (t, None)
    }
}

/// The entries up to and including the cursor: the trail without its forward path.
pub open spec fn behind(t: Trail) -> Seq<usize> {
    if t.0.len() == 0 {
        Seq::empty()
    } else {
        t.0.take(t.1 + 1 as int)
    }
}

/// The trail after visiting `value`: the forward path is cut off; then, unless
/// `value` is already the last entry, it is appended, the oldest entry giving way
/// when the trail is full. The cursor ends on the last entry.
pub open spec fn pushed(t: Trail, value: usize) -> Trail {
    let base = behind(t);
    if base.len() > 0 && base.last() == value {
        (base, (base.len() - 1) as nat)
    } else {
        let room = if base.len() >= HISTORY_CAPACITY {
            base.subrange(1, base.len() as int)
        } else {
            base
        };
        (room.push(value), room.len())
    }
}

/// The tracks visited, as indices into a track list, with a cursor on the one
/// that is active.
#[derive(Debug)]
pub struct History {
    queue: ArrayVec<usize, 100>,
    index: usize,
}

impl View for History {
    type V = Trail;

    closed spec fn view(&self) -> Trail {
        (stored(self.queue), self.index as nat)
    }
}

impl History {
    pub open spec fn wf(&self) -> bool {
        trail_wf(self@)
    }

    /// An empty history.
    pub fn new() -> (r: Self)
        ensures
            r.wf(),
            r@ == (Seq::<usize>::empty(), 0nat),
    {
        History { queue: buffer_new(), index: 0 }
    }

    /// Number of entries held.
    pub fn len(&self) -> (r: usize)
        ensures
            r == self@.0.len(),
    {
        buffer_len(&self.queue)
    }

    /// Position of the cursor.
    pub fn index(&self) -> (r: usize)
        ensures
            r == self@.1,
    {
        self.index
    }

    /// Records a visit to `value` and moves the cursor onto it.
    pub fn push(&mut self, value: usize)
        requires
            old(self).wf(),
        ensures
            final(self).wf(),
            final(self)@ == pushed(old(self)@, value),
    {
        let len = buffer_len(&self.queue);
        if len > 0 && self.index + 1 < len {
            buffer_truncate(&mut self.queue, self.index + 1);
        }
        let len = buffer_len(&self.queue);
        assert(stored(self.queue) == behind(old(self)@));
        if len > 0 && buffer_at(&self.queue, len - 1) == value {
            self.index = len - 1;
            return;
        }
        if len == HISTORY_CAPACITY {
            buffer_remove_first(&mut self.queue);
        }
        buffer_push(&mut self.queue, value);
        self.index = buffer_len(&self.queue) - 1;
    }

    /// Forgets every entry.
    pub fn clear(&mut self)
        ensures
            final(self).wf(),
            final(self)@ == (Seq::<usize>::empty(), 0nat),
    {
        buffer_clear(&mut self.queue);
        self.index = 0;
    }

    /// Moves the cursor to the next entry and returns it, if there is one.
    pub fn advance(&mut self) -> (r: Option<usize>)
        requires
            old(self).wf(),
        ensures
            final(self).wf(),
            (final(self)@, r) == forward(old(self)@),
    {
        let len = buffer_len(&self.queue);
        if self.index + 1 < len {
            self.index = self.index + 1;
            Some(buffer_at(&self.queue, self.index))
        } else {
            None
        }
    }

    /// Moves the cursor to the previous entry and returns it, if there is one.
    pub fn retreat(&mut self) -> (r: Option<usize>)
        requires
            old(self).wf(),
        ensures
            final(self).wf(),
            (final(self)@, r) == backward(old(self)@),
    {
        if self.index > 0 {
            self.index = self.index - 1;
            Some(buffer_at(&self.queue, self.index))
        } else {
            None
        }
    }
}

/// Going back one entry and then forward again returns the entry the cursor was
/// on before, and leaves the trail as it was.
pub proof fn lemma_retreat_then_advance(t: Trail)
    requires
        trail_wf(t),
        backward(t).1 is Some,
    ensures
        forward(backward(t).0).1 == Some(t.0[t.1 as int]),
        forward(backward(t).0).0 == t,
{
}

/// Going forward one entry and then back again returns the entry the cursor was
/// on before, and leaves the trail as it was.
pub proof fn lemma_advance_then_retreat(t: Trail)
    requires
        trail_wf(t),
        forward(t).1 is Some,
    ensures
        backward(forward(t).0).1 == Some(t.0[t.1 as int]),
        backward(forward(t).0).0 == t,
{
}

} // verus!
