//! A fixed-capacity history that keeps the most recent items in order.
use vstd::prelude::*;

verus! {

pub struct RingBuffer<T> {
    buf: Vec<T>,
    cap: usize,
    head: usize,
    len: usize,
}

/// The contents after pushing `item` onto `s` with room for `cap` items:
/// when full, the oldest item leaves.
pub open spec fn ring_push<T>(s: Seq<T>, cap: nat, item: T) -> Seq<T> {
    if s.len() < cap { s.push(item) } else { s.subrange(1, s.len() as int).push(item) }
}

/// Position in the backing store of the `i`-th oldest item.
pub open spec fn slot(head: int, i: int, cap: int) -> int {
    if head + i < cap { head + i } else { head + i - cap }
}

impl<T: Copy> RingBuffer<T> {
    /// The items, oldest first.
    pub closed spec fn view(&self) -> Seq<T> {
        Seq::new(self.len as nat, |i: int| self.buf@[slot(self.head as int, i, self.cap as int)])
    }

    pub closed spec fn capacity(&self) -> nat {
        self.cap as nat
    }

    pub closed spec fn wf(&self) -> bool {
        &&& self.cap > 0
        &&& self.len <= self.cap
        &&& self.head < self.cap
        &&& if self.len < self.cap {
            self.head == 0 && self.buf@.len() == self.len
        } else {
            self.buf@.len() == self.cap
        }
    }

    /// A well-formed ring never holds more than its capacity.
    pub proof fn lemma_len_within_capacity(&self)
        requires
            self.wf(),
        ensures
            self@.len() <= self.capacity(),
            self.capacity() > 0,
    {
    }

    pub fn new(cap: usize) -> (r: Self)
        requires
            cap > 0,
        ensures
            r.wf(),
            r@ == Seq::<T>::empty(),
            r.capacity() == cap,
            r@.len() <= r.capacity(),
    {
        let r = RingBuffer { buf: Vec::new(), cap, head: 0, len: 0 };
        assert(r@ =~= Seq::<T>::empty());
        r
    }

    /// Appends `item`; when full, the oldest item is dropped.
    pub fn push(&mut self, item: T)
        requires
            old(self).wf(),
        ensures
            final(self).wf(),
            final(self).capacity() == old(self).capacity(),
            final(self)@ == ring_push(old(self)@, old(self).capacity(), item),
            final(self)@.len() <= final(self).capacity(),
            final(self)@.len() == (if old(self)@.len() < old(self).capacity() {
                old(self)@.len() + 1 as int
            } else {
                old(self).capacity() as int
            }),
    {
        let ghost before = self@;
        if self.len < self.cap {
            self.buf.push(item);
            self.len = self.len + 1;
            assert(self@ =~= before.push(item));
        } else {
            let h = self.head;
            self.buf.set(h, item);
            self.head = if h + 1 < self.cap { h + 1 } else { 0 };
            let ghost cap = self.cap as int;
            assert forall|i: int| 0 <= i < cap implies #[trigger] self@[i] == ring_push(
                before,
                cap as nat,
                item,
            )[i] by {
                if i < cap - 1 {
                    assert(slot(self.head as int, i, cap) == slot(h as int, i + 1, cap));
                } else {
                    assert(slot(self.head as int, i, cap) == h);
                }
            }
            assert(self@ =~= ring_push(before, cap as nat, item));
        }
    }

    pub fn len(&self) -> (r: usize)
        requires
            self.wf(),
        ensures
            r == self@.len(),
            r <= self.capacity(),
    {
        self.len
    }

    pub fn clear(&mut self)
        requires
            old(self).wf(),
        ensures
            final(self).wf(),
            final(self).capacity() == old(self).capacity(),
            final(self)@ == Seq::<T>::empty(),
            final(self)@.len() <= final(self).capacity(),
    {
        self.buf.clear();
        self.head = 0;
        self.len = 0;
        assert(self@ =~= Seq::<T>::empty());
    }

    /// The items, oldest first.
    pub fn to_vec_ordered(&self) -> (r: Vec<T>)
        requires
            self.wf(),
        ensures
            r@ == self@,
            r@.len() <= self.capacity(),
    {
        let mut out: Vec<T> = Vec::new();
        let mut i: usize = 0;
        while i < self.len
            invariant
                self.wf(),
                i <= self.len,
                out@ == self@.subrange(0, i as int),
            decreases self.len - i,
        {
            let idx = if i < self.cap - self.head {
                self.head + i
            } else {
                i - (self.cap - self.head)
            };
            out.push(self.buf[idx]);
            i = i + 1;
            assert(out@ =~= self@.subrange(0, i as int));
        }
        assert(out@ =~= self@);
        out
    }
}

} // verus!
