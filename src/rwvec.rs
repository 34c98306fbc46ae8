use vstd::prelude::*;
use crate::buffer::{Buffer, bounded_end, grown_capacity};

verus! {

/// Who holds the resize lock exclusively, if anyone.
#[derive(PartialEq, Eq, Structural, Clone, Copy, Debug)]
pub enum Exclusive {
    /// No exclusive holder.
    Free,
    /// A write snapshot holds it.
    Snapshot,
    /// A write snapshot holds it and has been upgraded to an exclusive view,
    /// which also holds the push lock.
    Upgraded,
}

/// Why a request could not go ahead now.
pub enum PushError<T> {
    /// The request must wait for a holder to release; the value is handed
    /// back so the caller can try again.
    Blocked(T),
    /// The length has reached `usize::MAX`; the value is handed back.
    Full(T),
}

/// The state of a growable sequence shared by read snapshots, write snapshots
/// and appenders: its storage and the holds on its resize and push locks.
///
/// Every request is decided at once: one that would have to wait for another
/// holder is refused with `None` or `Blocked` and changes nothing, and the
/// caller retries once that holder has released. Read snapshots hold the
/// resize lock shared; a write snapshot holds it exclusively; an exclusive
/// view holds it and the push lock. An append with spare capacity waits only
/// on an exclusive view; one that must relocate the storage also waits on
/// every snapshot.
pub struct RWVec<T> {
    buf: Buffer<T>,
    readers: u64,
    exclusive: Exclusive,
}

impl<T> View for RWVec<T> {
    type V = Seq<T>;

    /// The stored elements.
    closed spec fn view(&self) -> Seq<T> {
        self.buf@
    }
}

impl<T> RWVec<T> {
    /// Number of live read snapshots.
    pub closed spec fn readers(&self) -> nat {
        self.readers as nat
    }

    /// The exclusive holder of the resize lock.
    pub closed spec fn exclusive(&self) -> Exclusive {
        self.exclusive
    }

    /// Reserved slots: an append at this length relocates the storage.
    pub closed spec fn capacity(&self) -> nat {
        self.buf.capacity()
    }

    /// The storage is well formed, and shared holders and an exclusive
    /// holder never coexist.
    pub open spec fn wf(&self) -> bool {
        &&& self@.len() <= self.capacity()
        &&& (self.exclusive() != Exclusive::Free ==> self.readers() == 0)
    }

    /// At most one exclusive holder at a time, and none while any read
    /// snapshot is live; every operation keeps this.
    pub proof fn lemma_exclusive_excludes_readers(&self)
        requires
            self.wf(),
        ensures
            self.exclusive() != Exclusive::Free ==> self.readers() == 0,
            self.readers() > 0 ==> self.exclusive() == Exclusive::Free,
    {
    }

    /// An empty container.
    pub fn new() -> (r: RWVec<T>)
        ensures
            r.wf(),
            r@ == Seq::<T>::empty(),
            r.capacity() == 0,
            r.readers() == 0,
            r.exclusive() == Exclusive::Free,
    {
        RWVec { buf: Buffer::with_capacity(0), readers: 0, exclusive: Exclusive::Free }
    }

    /// An empty container with room for `capacity` elements before its
    /// storage has to relocate.
    pub fn with_capacity(capacity: usize) -> (r: RWVec<T>)
        ensures
            r.wf(),
            r@ == Seq::<T>::empty(),
            r.capacity() == capacity,
            r.readers() == 0,
            r.exclusive() == Exclusive::Free,
    {
        RWVec { buf: Buffer::with_capacity(capacity), readers: 0, exclusive: Exclusive::Free }
    }

    /// Number of stored elements.
    pub fn len(&self) -> (r: usize)
        ensures
            r == self@.len(),
    {
        self.buf.len()
    }

    /// The exclusive holder of the resize lock, if any.
    pub fn exclusive_holder(&self) -> (r: Exclusive)
        ensures
            r == self.exclusive(),
    {
        self.exclusive
    }

    /// Number of live read snapshots.
    pub fn reader_count(&self) -> (r: u64)
        ensures
            r == self.readers(),
    {
        self.readers
    }

    /// Whether an append now would have to wait: always under an exclusive
    /// view, and, when the storage is full, under any snapshot.
    pub open spec fn push_blocked(&self) -> bool {
        self.exclusive() == Exclusive::Upgraded || (self@.len() == self.capacity() && (
        self.readers() > 0 || self.exclusive() != Exclusive::Free))
    }

    /// Appends `t` at the end, unless it must wait (`Blocked`) or the length
    /// has reached `usize::MAX` (`Full`); then nothing changes.
    pub fn push(&mut self, t: T) -> (r: Result<(), PushError<T>>)
        requires
            old(self).wf(),
        ensures
            final(self).wf(),
            final(self).readers() == old(self).readers(),
            final(self).exclusive() == old(self).exclusive(),
            final(self).capacity() == if r is Ok && old(self)@.len() == old(self).capacity() {
                grown_capacity(old(self).capacity())
            } else {
                old(self).capacity()
            },
            (match r {
                Ok(_) => !old(self).push_blocked() && old(self)@.len() < usize::MAX
                    && final(self)@ == old(self)@.push(t),
                Err(PushError::Blocked(x)) => old(self).push_blocked() && x == t
                    && final(self)@ == old(self)@,
                Err(PushError::Full(x)) => !old(self).push_blocked() && old(self)@.len()
                    == usize::MAX && x == t && final(self)@ == old(self)@,
            }),
    {
        let full = self.buf.needs_growth();
        let blocked = match self.exclusive {
            Exclusive::Upgraded => true,
            Exclusive::Snapshot => full,
            Exclusive::Free => full && self.readers > 0,
        };
        if blocked {
            return Err(PushError::Blocked(t));
        }
        match self.buf.try_append(t) {
            Ok(()) => Ok(()),
            Err(x) => Err(PushError::Full(x)),
        }
    }

    /// A read snapshot over the current length, or `None` while an exclusive
    /// holder is active (or the count of snapshots is at its limit); `None`
    /// changes nothing.
    pub fn reader(&mut self) -> (r: Option<SliceGuard>)
        requires
            old(self).wf(),
        ensures
            final(self).wf(),
            final(self)@ == old(self)@,
            final(self).capacity() == old(self).capacity(),
            final(self).exclusive() == old(self).exclusive(),
            r is Some <==> (old(self).exclusive() == Exclusive::Free && old(self).readers()
                < u64::MAX),
            (match r {
                Some(g) => g.end_spec() == old(self)@.len() && final(self).readers()
                    == old(self).readers() + 1,
                None => final(self).readers() == old(self).readers(),
            }),
    {
        if self.exclusive == Exclusive::Free && self.readers < u64::MAX {
            self.readers = self.readers + 1;
            Some(SliceGuard { end: self.buf.len() })
        } else {
            None
        }
    }

    /// A write snapshot over the current length, or `None` while any other
    /// holder of the resize lock is active; `None` changes nothing.
    pub fn writer(&mut self) -> (r: Option<SliceGuardMut>)
        requires
            old(self).wf(),
        ensures
            final(self).wf(),
            final(self)@ == old(self)@,
            final(self).capacity() == old(self).capacity(),
            final(self).readers() == old(self).readers(),
            r is Some <==> (old(self).exclusive() == Exclusive::Free && old(self).readers()
                == 0),
            (match r {
                Some(g) => g.end_spec() == old(self)@.len() && final(self).exclusive()
                    == Exclusive::Snapshot,
                None => final(self).exclusive() == old(self).exclusive(),
            }),
    {
        if self.exclusive == Exclusive::Free && self.readers == 0 {
            self.exclusive = Exclusive::Snapshot;
            Some(SliceGuardMut { end: self.buf.len() })
        } else {
            None
        }
    }
}

/// A read snapshot: shared access to the first `end` elements of the
/// container it came from. Give it back with `release`.
pub struct SliceGuard {
    end: usize,
}

impl SliceGuard {
    pub closed spec fn end_spec(&self) -> nat {
        self.end as nat
    }

    /// Length of the window.
    pub fn end(&self) -> (r: usize)
        ensures
            r == self.end_spec(),
    {
        self.end
    }

    /// Moves the window to the container's current length. Nothing else
    /// changes: the snapshot's shared hold is given up and taken again within
    /// one step, with no other holder in between.
    pub fn refresh<T>(&mut self, v: &RWVec<T>)
        ensures
            final(self).end_spec() == v@.len(),
    {
        self.end = v.len();
    }

    /// The element at `i`, or `None` when `i` is not inside the window.
    pub fn get<T: Copy>(&self, v: &RWVec<T>, i: usize) -> (r: Option<T>)
        ensures
            r == if i < self.end_spec() && i < v@.len() {
                Some(v@[i as int])
            } else {
                None::<T>
            },
    {
        v.buf.window_get(self.end, i)
    }

    /// The elements of the window, in order.
    pub fn to_vec<T: Copy>(&self, v: &RWVec<T>) -> (r: Vec<T>)
        ensures
            r@ == v@.subrange(0, bounded_end(self.end_spec(), v@.len()) as int),
    {
        v.buf.prefix(self.end)
    }

    /// Ends the snapshot and gives back its shared hold.
    pub fn release<T>(self, v: &mut RWVec<T>)
        requires
            old(v).wf(),
        ensures
            final(v).wf(),
            final(v)@ == old(v)@,
            final(v).capacity() == old(v).capacity(),
            final(v).exclusive() == old(v).exclusive(),
            final(v).readers() == if old(v).readers() > 0 {
                old(v).readers() - 1
            } else {
                0
            },
    {
        if v.readers > 0 {
            v.readers = v.readers - 1;
        }
    }
}

/// A write snapshot: exclusive, in-place access to the first `end` elements
/// of the container it came from. Give it back with `release`.
pub struct SliceGuardMut {
    end: usize,
}

impl SliceGuardMut {
    pub closed spec fn end_spec(&self) -> nat {
        self.end as nat
    }

    /// Length of the window.
    pub fn end(&self) -> (r: usize)
        ensures
            r == self.end_spec(),
    {
        self.end
    }

    /// Moves the window to the container's current length.
    pub fn refresh<T>(&mut self, v: &RWVec<T>)
        ensures
            final(self).end_spec() == v@.len(),
    {
        self.end = v.len();
    }

    /// The element at `i`, or `None` when `i` is not inside the window.
    pub fn get<T: Copy>(&self, v: &RWVec<T>, i: usize) -> (r: Option<T>)
        ensures
            r == if i < self.end_spec() && i < v@.len() {
                Some(v@[i as int])
            } else {
                None::<T>
            },
    {
        v.buf.window_get(self.end, i)
    }

    /// The elements of the window, in order.
    pub fn to_vec<T: Copy>(&self, v: &RWVec<T>) -> (r: Vec<T>)
        ensures
            r@ == v@.subrange(0, bounded_end(self.end_spec(), v@.len()) as int),
    {
        v.buf.prefix(self.end)
    }

    /// Overwrites the element at `i` in place; returns `false`, changing
    /// nothing, when `i` is not inside the window.
    pub fn set<T>(&self, v: &mut RWVec<T>, i: usize, x: T) -> (r: bool)
        requires
            old(v).wf(),
        ensures
            final(v).wf(),
            final(v).capacity() == old(v).capacity(),
            final(v).readers() == old(v).readers(),
            final(v).exclusive() == old(v).exclusive(),
            r == (i < self.end_spec() && i < old(v)@.len()),
            final(v)@ == if r {
                old(v)@.update(i as int, x)
            } else {
                old(v)@
            },
    {
        v.buf.window_set(self.end, i, x)
    }

    /// Escalates to exclusive access over the whole storage: the snapshot's
    /// exclusive hold is kept and the push lock is taken as well, so appends
    /// wait until the view is released.
    pub fn upgrade<T>(self, v: &mut RWVec<T>) -> (r: VecGuardMut)
        requires
            old(v).wf(),
            old(v).exclusive() == Exclusive::Snapshot,
        ensures
            final(v).wf(),
            final(v)@ == old(v)@,
            final(v).capacity() == old(v).capacity(),
            final(v).readers() == old(v).readers(),
            final(v).exclusive() == Exclusive::Upgraded,
            r.end_spec() == self.end_spec(),
    {
        v.exclusive = Exclusive::Upgraded;
        VecGuardMut { end: self.end }
    }

    /// Ends the snapshot and gives back its exclusive hold.
    pub fn release<T>(self, v: &mut RWVec<T>)
        requires
            old(v).wf(),
        ensures
            final(v).wf(),
            final(v)@ == old(v)@,
            final(v).capacity() == old(v).capacity(),
            final(v).readers() == old(v).readers(),
            final(v).exclusive() == Exclusive::Free,
    {
        v.exclusive = Exclusive::Free;
    }
}

/// Exclusive access to the whole storage of the container it came from,
/// appends included, while every other append and acquisition waits. Give it
/// back with `release`, which returns the write snapshot it came from.
pub struct VecGuardMut {
    end: usize,
}

impl VecGuardMut {
    /// End of the window of the write snapshot this view came from.
    pub closed spec fn end_spec(&self) -> nat {
        self.end as nat
    }

    /// Number of stored elements.
    pub fn len<T>(&self, v: &RWVec<T>) -> (r: usize)
        ensures
            r == v@.len(),
    {
        v.len()
    }

    /// The element at `i`, or `None` past the stored elements.
    pub fn get<T: Copy>(&self, v: &RWVec<T>, i: usize) -> (r: Option<T>)
        ensures
            r == if i < v@.len() {
                Some(v@[i as int])
            } else {
                None::<T>
            },
    {
        let n = v.buf.len();
        v.buf.window_get(n, i)
    }

    /// All stored elements, in order.
    pub fn to_vec<T: Copy>(&self, v: &RWVec<T>) -> (r: Vec<T>)
        ensures
            r@ == v@,
    {
        let n = v.buf.len();
        let r = v.buf.prefix(n);
        assert(r@ =~= v@);
        r
    }

    /// Overwrites the element at `i`; returns `false`, changing nothing,
    /// past the stored elements.
    pub fn set<T>(&self, v: &mut RWVec<T>, i: usize, x: T) -> (r: bool)
        requires
            old(v).wf(),
        ensures
            final(v).wf(),
            final(v).capacity() == old(v).capacity(),
            final(v).readers() == old(v).readers(),
            final(v).exclusive() == old(v).exclusive(),
            r == (i < old(v)@.len()),
            final(v)@ == if r {
                old(v)@.update(i as int, x)
            } else {
                old(v)@
            },
    {
        let n = v.buf.len();
        v.buf.window_set(n, i, x)
    }

    /// Appends through this view; fails, changing nothing, only when the
    /// length has reached `usize::MAX`.
    pub fn push<T>(&self, v: &mut RWVec<T>, t: T) -> (r: Result<(), T>)
        requires
            old(v).wf(),
        ensures
            final(v).wf(),
            final(v).capacity() == if r is Ok && old(v)@.len() == old(v).capacity() {
                grown_capacity(old(v).capacity())
            } else {
                old(v).capacity()
            },
            final(v).readers() == old(v).readers(),
            final(v).exclusive() == old(v).exclusive(),
            r is Err <==> old(v)@.len() == usize::MAX,
            (match r {
                Ok(_) => final(v)@ == old(v)@.push(t),
                Err(x) => x == t && final(v)@ == old(v)@,
            }),
    {
        v.buf.try_append(t)
    }

    /// Keeps the first `n` elements and drops the rest.
    pub fn truncate<T>(&self, v: &mut RWVec<T>, n: usize)
        requires
            old(v).wf(),
        ensures
            final(v).wf(),
            final(v).capacity() == old(v).capacity(),
            final(v).readers() == old(v).readers(),
            final(v).exclusive() == old(v).exclusive(),
            final(v)@ == if n < old(v)@.len() {
                old(v)@.subrange(0, n as int)
            } else {
                old(v)@
            },
    {
        v.buf.truncate(n);
    }

    /// Gives back the push lock only: the write snapshot it came from keeps
    /// the resize lock, with its window clipped to the current length.
    pub fn release<T>(self, v: &mut RWVec<T>) -> (r: SliceGuardMut)
        requires
            old(v).wf(),
            old(v).exclusive() == Exclusive::Upgraded,
        ensures
            final(v).wf(),
            final(v)@ == old(v)@,
            final(v).capacity() == old(v).capacity(),
            final(v).readers() == old(v).readers(),
            final(v).exclusive() == Exclusive::Snapshot,
            r.end_spec() == bounded_end(self.end_spec(), old(v)@.len()),
    {
        v.exclusive = Exclusive::Snapshot;
        let n = v.buf.len();
        let end = if self.end < n {
            self.end
        } else {
            n
        };
        SliceGuardMut { end }
    }
}

} // verus!
