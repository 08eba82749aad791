//! The bounded buffer: a growable array that never outgrows the capacity
//! chosen when it was built.
use vstd::prelude::*;

verus! {

/// A contiguous buffer of at most `cap` elements. The backing storage is
/// allocated once, at construction, and the buffer never grows past it:
/// `self@.len() <= self.capacity_spec()` holds of every reachable value.
#[derive(Debug)]
pub struct BoundedBuffer<T> {
    data: Vec<T>,
    cap: usize,
}

impl<T> View for BoundedBuffer<T> {
    type V = Seq<T>;

    /// A buffer is modelled by the sequence of its live elements.
    closed spec fn view(&self) -> Seq<T> {
        self.data@
    }
}

impl<T> BoundedBuffer<T> {
    /// The capacity fixed at construction.
    pub closed spec fn capacity_spec(&self) -> usize {
        self.cap
    }

    #[verifier::type_invariant]
    spec fn inv(&self) -> bool {
        self.data@.len() <= self.cap
    }

    /// Builds an empty buffer whose capacity is `size`, fixed for its
    /// lifetime. Storage for `size` elements is reserved up front, so later
    /// insertions never reallocate; a `size` whose byte count the platform
    /// cannot represent, or an allocation failure, aborts here rather than
    /// returning a crippled buffer.
    pub fn new(size: usize) -> (buf: Self)
        ensures
            buf@ == Seq::<T>::empty(),
            buf.capacity_spec() == size,
    {
        Self { data: Vec::with_capacity(size), cap: size }
    }

    /// The count of live elements.
    pub fn len(&self) -> (n: usize)
        ensures
            n == self@.len(),
    {
        self.data.len()
    }

    /// The fixed capacity.
    pub fn capacity(&self) -> (c: usize)
        ensures
            c == self.capacity_spec(),
    {
        self.cap
    }

    /// Every buffer that can be reached at all holds no more elements than
    /// its capacity, whatever sequence of operations produced it. Callers may
    /// invoke this to bring that fact into scope; it computes nothing.
    pub fn capacity_invariant(&self)
        ensures
            self@.len() <= self.capacity_spec(),
    {
        proof {
            use_type_invariant(self);
        }
    }

    /// Borrows the element at `index`, or reports absence when `index` lies
    /// at or past the live end: the live range is `[0, len)`, so `index ==
    /// len` is already out of range.
    pub fn get(&self, index: usize) -> (r: Option<&T>)
        ensures
            index < self@.len() ==> r == Some(&self@[index as int]),
            index >= self@.len() ==> r is None,
    {
        if index < self.data.len() {
            Some(&self.data[index])
        } else {
            None
        }
    }

    /// Borrows the element at `index` without a bounds test. The caller owes
    /// the proof that `index` lies in the live range.
    pub fn get_unchecked(&self, index: usize) -> (r: &T)
        requires
            index < self@.len(),
        ensures
            *r == self@[index as int],
    {
        &self.data[index]
    }

    /// A read-only view of exactly the live prefix.
    pub fn as_slice(&self) -> (s: &[T])
        ensures
            s@ == self@,
    {
        self.data.as_slice()
    }

    /// Mutably borrows the element at `index`. Writing through the borrow
    /// replaces that element and touches nothing else.
    pub fn get_mut(&mut self, index: usize) -> (r: &mut T)
        requires
            index < old(self)@.len(),
        ensures
            *r == old(self)@[index as int],
            final(self)@ == old(self)@.update(index as int, *final(r)),
            final(self).capacity_spec() == old(self).capacity_spec(),
    {
        proof {
            use_type_invariant(&*self);
        }
        &mut self.data[index]
    }

    /// Overwrites the element at `index` with `value`.
    pub fn set(&mut self, index: usize, value: T)
        requires
            index < old(self)@.len(),
        ensures
            final(self)@ == old(self)@.update(index as int, value),
            final(self).capacity_spec() == old(self).capacity_spec(),
    {
        let slot = self.get_mut(index);
        *slot = value;
    }

    /// Appends `elem` at the end if a slot is free. On a full buffer nothing
    /// changes and `elem` comes back to the caller inside the error.
    pub fn try_push(&mut self, elem: T) -> (r: Result<(), T>)
        ensures
            old(self)@.len() < old(self).capacity_spec() ==> r is Ok && final(self)@ == old(self)@.push(elem),
            old(self)@.len() >= old(self).capacity_spec() ==> r == Err::<(), T>(elem) && final(self)@ == old(self)@,
            final(self).capacity_spec() == old(self).capacity_spec(),
    {
        proof {
            use_type_invariant(&*self);
        }
        if self.data.len() == self.cap {
            return Err(elem);
        }
        let mut data: Vec<T> = Vec::new();
        std::mem::swap(&mut data, &mut self.data);
        data.push(elem);
        self.data = data;
        Ok(())
    }

    /// Inserts `elem` at `index`, shifting `[index, len)` one slot right, if
    /// a slot is free and `index` lies within `[0, len]`. Otherwise nothing
    /// changes and `elem` comes back to the caller inside the error.
    pub fn try_insert(&mut self, index: usize, elem: T) -> (r: Result<(), T>)
        ensures
            old(self)@.len() < old(self).capacity_spec() && index <= old(self)@.len() ==> r is Ok
                && final(self)@ == old(self)@.insert(index as int, elem),
            old(self)@.len() >= old(self).capacity_spec() || index > old(self)@.len() ==> r
                == Err::<(), T>(elem) && final(self)@ == old(self)@,
            final(self).capacity_spec() == old(self).capacity_spec(),
    {
        proof {
            use_type_invariant(&*self);
        }
        if self.data.len() == self.cap || index > self.data.len() {
            return Err(elem);
        }
        let mut data: Vec<T> = Vec::new();
        std::mem::swap(&mut data, &mut self.data);
        data.insert(index, elem);
        self.data = data;
        Ok(())
    }

    /// Appends `elem` at the end. The caller owes the proof that a slot is
    /// free; in exchange no capacity test is run.
    pub fn push_unchecked(&mut self, elem: T)
        requires
            old(self)@.len() < old(self).capacity_spec(),
        ensures
            final(self)@ == old(self)@.push(elem),
            final(self).capacity_spec() == old(self).capacity_spec(),
    {
        let mut data: Vec<T> = Vec::new();
        std::mem::swap(&mut data, &mut self.data);
        data.push(elem);
        self.data = data;
    }

    /// Inserts `elem` at `index`, shifting the tail right. The caller owes
    /// the proof that a slot is free and that `index` is within `[0, len]`.
    pub fn insert_unchecked(&mut self, index: usize, elem: T)
        requires
            old(self)@.len() < old(self).capacity_spec(),
            index <= old(self)@.len(),
        ensures
            final(self)@ == old(self)@.insert(index as int, elem),
            final(self).capacity_spec() == old(self).capacity_spec(),
    {
        let mut data: Vec<T> = Vec::new();
        std::mem::swap(&mut data, &mut self.data);
        data.insert(index, elem);
        self.data = data;
    }

    /// Inserts `elem` at `index`, shifting the tail right, but never grows
    /// past the capacity: on a full buffer the rightmost element — the one
    /// that would land beyond the last slot — is dropped instead, so a full
    /// buffer acts as a sliding window that sheds its tail. The caller owes
    /// the proof that `index` is within `[0, len]`; the operation itself
    /// cannot fail.
    pub fn insert_lossy(&mut self, index: usize, elem: T)
        requires
            index <= old(self)@.len(),
        ensures
            old(self)@.len() < old(self).capacity_spec() ==> final(self)@ == old(self)@.insert(
                index as int,
                elem,
            ),
            old(self)@.len() >= old(self).capacity_spec() ==> final(self)@ == old(self)@.insert(
                index as int,
                elem,
            ).take(old(self).capacity_spec() as int),
            final(self).capacity_spec() == old(self).capacity_spec(),
    {
        proof {
            use_type_invariant(&*self);
        }
        let mut data: Vec<T> = Vec::new();
        std::mem::swap(&mut data, &mut self.data);
        if data.len() < self.cap {
            data.insert(index, elem);
        } else if index < self.cap {
            data.pop();
            data.insert(index, elem);
            proof {
                assert(data@ =~= old(self)@.insert(index as int, elem).take(self.cap as int));
            }
        } else {
            proof {
                assert(data@ =~= old(self)@.insert(index as int, elem).take(self.cap as int));
            }
        }
        self.data = data;
    }

    /// Removes and returns the element at `index`, shifting `[index + 1,
    /// len)` one slot left. The caller owes the proof that `index` is in the
    /// live range: an out-of-bounds removal is a caller error, not a
    /// recoverable condition.
    pub fn remove(&mut self, index: usize) -> (r: T)
        requires
            index < old(self)@.len(),
        ensures
            r == old(self)@[index as int],
            final(self)@ == old(self)@.remove(index as int),
            final(self).capacity_spec() == old(self).capacity_spec(),
    {
        proof {
            use_type_invariant(&*self);
        }
        let mut data: Vec<T> = Vec::new();
        std::mem::swap(&mut data, &mut self.data);
        let r = data.remove(index);
        self.data = data;
        r
    }

    /// Removes and returns the last element, or reports absence on an empty
    /// buffer: absence is the designated empty-buffer signal, never a fault.
    pub fn pop(&mut self) -> (r: Option<T>)
        ensures
            old(self)@.len() == 0 ==> r is None && final(self)@ == old(self)@,
            old(self)@.len() > 0 ==> r == Some(old(self)@.last()) && final(self)@ == old(self)@.drop_last(),
            final(self).capacity_spec() == old(self).capacity_spec(),
    {
        proof {
            use_type_invariant(&*self);
        }
        let mut data: Vec<T> = Vec::new();
        std::mem::swap(&mut data, &mut self.data);
        let r = data.pop();
        self.data = data;
        r
    }

    /// Drops every live element and resets the length to zero; the capacity
    /// and the backing storage are kept, so the buffer can be refilled up to
    /// the same capacity as if freshly built.
    pub fn clear(&mut self)
        ensures
            final(self)@ == Seq::<T>::empty(),
            final(self).capacity_spec() == old(self).capacity_spec(),
    {
        let mut data: Vec<T> = Vec::new();
        std::mem::swap(&mut data, &mut self.data);
        data.clear();
        self.data = data;
    }
}

impl<T: Clone> Clone for BoundedBuffer<T> {
    /// A clone has the same capacity and one clone of each live element, in
    /// the same order.
    fn clone(&self) -> (r: Self)
        ensures
            r.capacity_spec() == self.capacity_spec(),
            r@.len() == self@.len(),
            forall|i: int| #![all_triggers] 0 <= i < self@.len() ==> cloned::<T>(self@[i], r@[i]),
    {
        proof {
            use_type_invariant(self);
        }
        BoundedBuffer { data: self.data.clone(), cap: self.cap }
    }
}

/// The sequence left behind by pushing the values of `vals`, in order, onto a
/// buffer whose live elements are `s`.
pub open spec fn pushed_onto<T>(s: Seq<T>, vals: Seq<T>) -> Seq<T>
    decreases vals.len(),
{
    if vals.len() == 0 {
        s
    } else {
        pushed_onto(s.push(vals[0]), vals.drop_first())
    }
}

/// Pushing values in order appends them: afterwards the buffer holds its old
/// elements followed by the pushed ones, each at the index it was pushed at.
pub proof fn lemma_pushed_onto_appends<T>(s: Seq<T>, vals: Seq<T>)
    ensures
        pushed_onto(s, vals) == s + vals,
    decreases vals.len(),
{
    if vals.len() == 0 {
        assert(pushed_onto(s, vals) =~= s + vals);
    } else {
        lemma_pushed_onto_appends(s.push(vals[0]), vals.drop_first());
        assert(s.push(vals[0]) + vals.drop_first() =~= s + vals);
    }
}

/// Push/get round trip: pushing the values of `vals` in order onto an empty
/// buffer leaves exactly `vals`, so by `get`'s contract reading back index
/// `i` yields `vals[i]` for every `i < vals.len()`, and every index from
/// `vals.len()` on is absent.
pub proof fn lemma_push_get_round_trip<T>(vals: Seq<T>)
    ensures
        pushed_onto(Seq::<T>::empty(), vals) == vals,
{
    lemma_pushed_onto_appends(Seq::<T>::empty(), vals);
    assert(Seq::<T>::empty() + vals =~= vals);
}

} // verus!
