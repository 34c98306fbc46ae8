use vstd::prelude::*;

verus! {

/// Capacity chosen when a full buffer of capacity `cap` must grow:
/// doubling, starting from one slot, saturating at `usize::MAX`.
pub open spec fn grown_capacity(cap: nat) -> nat {
    if cap == 0 {
        1
    } else if cap <= usize::MAX / 2 {
        2 * cap
    } else {
        usize::MAX as nat
    }
}

/// The owned, contiguous backing storage of the container: its elements and
/// the number of slots reserved for them.
pub struct Buffer<T> {
    items: Vec<T>,
    cap: usize,
}

impl<T> View for Buffer<T> {
    type V = Seq<T>;

    closed spec fn view(&self) -> Seq<T> {
        self.items@
    }
}

impl<T> Buffer<T> {
    /// Reserved slots; the length never exceeds it.
    pub closed spec fn capacity(&self) -> nat {
        self.cap as nat
    }

    pub open spec fn wf(&self) -> bool {
        self@.len() <= self.capacity()
    }

    /// True when one more element would force the storage to relocate.
    pub open spec fn is_full(&self) -> bool {
        self@.len() == self.capacity()
    }

    pub fn with_capacity(cap: usize) -> (r: Buffer<T>)
        ensures
            r.wf(),
            r@ == Seq::<T>::empty(),
            r.capacity() == cap,
    {
        Buffer { items: Vec::with_capacity(cap), cap }
    }

    pub fn len(&self) -> (r: usize)
        ensures
            r == self@.len(),
    {
        self.items.len()
    }

    pub fn needs_growth(&self) -> (r: bool)
        requires
            self.wf(),
        ensures
            r == self.is_full(),
    {
        self.items.len() == self.cap
    }

    /// Appends `v` at the end, growing the reserved slots first when they are
    /// all taken. Elements already stored keep their values and positions.
    pub fn append(&mut self, v: T)
        requires
            old(self).wf(),
            old(self)@.len() < usize::MAX,
        ensures
            final(self).wf(),
            final(self)@ == old(self)@.push(v),
            final(self).capacity() == if old(self).is_full() {
                grown_capacity(old(self).capacity())
            } else {
                old(self).capacity()
            },
    {
        if self.items.len() == self.cap {
            let new_cap: usize = if self.cap == 0 {
                1
            } else if self.cap <= usize::MAX / 2 {
                2 * self.cap
            } else {
                usize::MAX
            };
            self.items.reserve(new_cap - self.items.len());
            self.cap = new_cap;
        }
        self.items.push(v);
    }

    /// Appends `v` unless the length has reached `usize::MAX`, in which case
    /// nothing changes and `v` is handed back.
    pub fn try_append(&mut self, v: T) -> (r: Result<(), T>)
        requires
            old(self).wf(),
        ensures
            final(self).wf(),
            final(self).capacity() == if r is Ok && old(self).is_full() {
                grown_capacity(old(self).capacity())
            } else {
                old(self).capacity()
            },
            r is Err <==> old(self)@.len() == usize::MAX,
            (match r {
                Ok(_) => old(self)@.len() < usize::MAX && final(self)@ == old(self)@.push(v),
                Err(x) => x == v && final(self)@ == old(self)@,
            }),
    {
        if self.items.len() < usize::MAX {
            self.append(v);
            Ok(())
        } else {
            Err(v)
        }
    }

    /// Replaces the element at `i` when it lies inside a window of length
    /// `end` and among the stored elements; reports whether it did.
    pub fn window_set(&mut self, end: usize, i: usize, v: T) -> (r: bool)
        requires
            old(self).wf(),
        ensures
            final(self).wf(),
            r == (i < end && i < old(self)@.len()),
            final(self)@ == if r {
                old(self)@.update(i as int, v)
            } else {
                old(self)@
            },
            final(self).capacity() == old(self).capacity(),
    {
        if i < end && i < self.items.len() {
            self.items.set(i, v);
            true
        } else {
            false
        }
    }

    /// Keeps the first `n` elements and drops the rest; a no-op when `n` is
    /// not below the length.
    pub fn truncate(&mut self, n: usize)
        requires
            old(self).wf(),
        ensures
            final(self).wf(),
            final(self)@ == if n < old(self)@.len() {
                old(self)@.subrange(0, n as int)
            } else {
                old(self)@
            },
            final(self).capacity() == old(self).capacity(),
    {
        self.items.truncate(n);
    }
}

impl<T: Copy> Buffer<T> {
    /// The element at `i` seen through a window of length `end`: `None` when
    /// `i` lies outside the window or past the stored elements.
    pub fn window_get(&self, end: usize, i: usize) -> (r: Option<T>)
        ensures
            r == if i < end && i < self@.len() {
                Some(self@[i as int])
            } else {
                None::<T>
            },
    {
        if i < end && i < self.items.len() {
            Some(self.items[i])
        } else {
            None
        }
    }

    /// The first `end` elements, in order; all of them when `end` is not
    /// below the length.
    pub fn prefix(&self, end: usize) -> (r: Vec<T>)
        ensures
            r@ == self@.subrange(0, bounded_end(end as nat, self@.len()) as int),
    {
        let stop: usize = if end < self.items.len() {
            end
        } else {
            self.items.len()
        };
        let mut out: Vec<T> = Vec::with_capacity(stop);
        let mut i: usize = 0;
        while i < stop
            invariant
                stop <= self@.len(),
                stop == bounded_end(end as nat, self@.len()),
                i <= stop,
                out@ == self@.subrange(0, i as int),
            decreases stop - i,
        {
            out.push(self.items[i]);
            i = i + 1;
            assert(out@ =~= self@.subrange(0, i as int));
        }
        out
    }
}

/// A window end clipped to a length.
pub open spec fn bounded_end(end: nat, len: nat) -> nat {
    if end < len {
        end
    } else {
        len
    }
}

} // verus!
