//! Fixed-capacity rolling window: the last `capacity` values pushed, oldest first.
//!
//! Each push reports the value it evicted, so a caller can keep a running aggregate of
//! the window (add the new value, take out the evicted one) without rescanning it.

use vstd::prelude::*;

verus! {

/// The window after pushing `v` onto window `w` of capacity `cap`: a window of capacity zero
/// stays empty; otherwise `v` is appended and, when the window was full, its oldest value leaves.
pub open spec fn pushed_window<T>(w: Seq<T>, v: T, cap: nat) -> Seq<T> {
    if cap == 0 {
        w
    } else if w.len() < cap {
        w.push(v)
    } else {
        w.push(v).drop_first()
    }
}

/// The last `n` values of `h` (all of `h` when it is shorter), oldest first.
pub open spec fn last_n<T>(h: Seq<T>, n: nat) -> Seq<T> {
    if h.len() <= n {
        h
    } else {
        h.skip(h.len() - n)
    }
}

/// A rolling window over the last `capacity` values pushed.
#[derive(Debug)]
pub struct RingWindow<T> {
    buffer: Vec<T>,
    capacity: usize,
    head: usize,
}

impl<T> RingWindow<T> {
    #[verifier::type_invariant]
    spec fn well_formed(&self) -> bool {
        &&& self.buffer.len() <= self.capacity
        &&& self.buffer.len() < self.capacity ==> self.head == 0
        &&& self.capacity == 0 ==> self.head == 0
        &&& self.capacity > 0 ==> self.head < self.capacity
    }
}

impl<T> View for RingWindow<T> {
    type V = Seq<T>;

    /// The values in the window, oldest first.
    closed spec fn view(&self) -> Seq<T> {
        self.buffer@.subrange(self.head as int, self.buffer@.len() as int) + self.buffer@.subrange(
            0,
            self.head as int,
        )
    }
}

impl<T: Copy> RingWindow<T> {
    /// The maximum number of values the window holds.
    pub closed spec fn spec_capacity(&self) -> usize {
        self.capacity
    }

    /// An empty window holding at most `capacity` values.
    pub fn new(capacity: usize) -> (w: Self)
        ensures
            w@ == Seq::<T>::empty(),
            w.capacity() == capacity,
    {
        let w = RingWindow { buffer: Vec::new(), capacity, head: 0 };
        assert(w@ =~= Seq::<T>::empty());
        w
    }

    /// The maximum number of values the window holds.
    #[verifier::when_used_as_spec(spec_capacity)]
    pub fn capacity(&self) -> (c: usize)
        ensures
            c == self.spec_capacity(),
    {
        self.capacity
    }

    /// The number of values in the window.
    pub fn len(&self) -> (n: usize)
        ensures
            n == self@.len(),
            n <= self.capacity(),
    {
        proof {
            use_type_invariant(self);
        }
        self.buffer.len()
    }

    /// The window holds no value.
    pub fn is_empty(&self) -> (b: bool)
        ensures
            b == (self@.len() == 0),
    {
        proof {
            use_type_invariant(self);
        }
        self.buffer.len() == 0
    }

    /// The window holds `capacity` values.
    pub fn is_full(&self) -> (b: bool)
        ensures
            b == (self@.len() == self.capacity()),
    {
        proof {
            use_type_invariant(self);
        }
        self.buffer.len() == self.capacity
    }

    /// Push `value`. When the window was full, its oldest value is evicted and returned.
    /// A window of capacity zero ignores every value.
    pub fn push(&mut self, value: T) -> (evicted: Option<T>)
        ensures
            final(self).capacity() == old(self).capacity(),
            final(self)@ == pushed_window(old(self)@, value, old(self).capacity() as nat),
            evicted == (if old(self).capacity() > 0 && old(self)@.len() == old(self).capacity() {
                Some(old(self)@[0])
            } else {
                None
            }),
    {
        proof {
            use_type_invariant(&*self);
        }
        if self.capacity == 0 {
            assert(self@ =~= Seq::<T>::empty());
            return None;
        }
        let ghost before = self@;
        let mut taken = RingWindow { buffer: Vec::new(), capacity: 0, head: 0 };
        std::mem::swap(self, &mut taken);
        let RingWindow { buffer: mut buffer, capacity, head } = taken;
        if buffer.len() < capacity {
            buffer.push(value);
            *self = RingWindow { buffer, capacity, head };
            assert(self@ =~= before.push(value));
            None
        } else {
            let old_value = buffer[head];
            buffer.set(head, value);
            let next = if head + 1 == capacity {
                0
            } else {
                head + 1
            };
            *self = RingWindow { buffer, capacity, head: next };
            assert(before[0] == old_value);
            assert(self@ =~= before.push(value).drop_first());
            Some(old_value)
        }
    }

    /// The values in the window, oldest first.
    pub fn to_vec(&self) -> (v: Vec<T>)
        ensures
            v@ == self@,
    {
        proof {
            use_type_invariant(self);
        }
        let mut v: Vec<T> = Vec::new();
        let n = self.buffer.len();
        let mut i: usize = self.head;
        while i < n
            invariant
                self.head <= i <= n,
                n == self.buffer.len(),
                v@ == self.buffer@.subrange(self.head as int, i as int),
            decreases n - i,
        {
            v.push(self.buffer[i]);
            assert(self.buffer@.subrange(self.head as int, i + 1) =~= self.buffer@.subrange(
                self.head as int,
                i as int,
            ).push(self.buffer@[i as int]));
            i = i + 1;
        }
        let mut j: usize = 0;
        while j < self.head
            invariant
                j <= self.head <= n,
                n == self.buffer.len(),
                v@ == self.buffer@.subrange(self.head as int, n as int) + self.buffer@.subrange(
                    0,
                    j as int,
                ),
            decreases self.head - j,
        {
            v.push(self.buffer[j]);
            assert(self.buffer@.subrange(0, j + 1) =~= self.buffer@.subrange(0, j as int).push(
                self.buffer@[j as int],
            ));
            assert(self.buffer@.subrange(self.head as int, n as int) + self.buffer@.subrange(
                0,
                j + 1,
            ) =~= (self.buffer@.subrange(self.head as int, n as int) + self.buffer@.subrange(
                0,
                j as int,
            )).push(self.buffer@[j as int]));
            j = j + 1;
        }
        v
    }
}

impl<T: Copy> Clone for RingWindow<T> {
    /// An independent window with the same values and capacity.
    fn clone(&self) -> (c: Self)
        ensures
            c@ == self@,
            c.capacity() == self.capacity(),
    {
        proof {
            use_type_invariant(self);
        }
        let mut buffer: Vec<T> = Vec::new();
        let n = self.buffer.len();
        let mut i: usize = 0;
        while i < n
            invariant
                i <= n,
                n == self.buffer.len(),
                buffer@ == self.buffer@.subrange(0, i as int),
            decreases n - i,
        {
            buffer.push(self.buffer[i]);
            assert(self.buffer@.subrange(0, i + 1) =~= self.buffer@.subrange(0, i as int).push(
                self.buffer@[i as int],
            ));
            i = i + 1;
        }
        assert(buffer@ =~= self.buffer@);
        RingWindow { buffer, capacity: self.capacity, head: self.head }
    }
}

/// The window always holds the last `capacity` values pushed: if a window holds the last
/// `cap` values of history `h`, then after pushing `v` it holds the last `cap` values of
/// `h` followed by `v`.
pub proof fn lemma_window_holds_last_values<T>(h: Seq<T>, v: T, cap: nat)
    ensures
        pushed_window(last_n(h, cap), v, cap) =~= last_n(h.push(v), cap),
{
    if cap == 0 {
        assert(last_n(h, 0) =~= Seq::<T>::empty()) by {
            if h.len() > 0 {
                assert(h.skip(h.len() as int) =~= Seq::<T>::empty());
            }
        }
        assert(last_n(h.push(v), 0) =~= Seq::<T>::empty());
    } else if h.len() < cap {
    } else {
        let w = last_n(h, cap);
        assert(w.len() == cap);
        assert(w.push(v).drop_first() =~= h.push(v).skip(h.push(v).len() - cap));
    }
}

} // verus!
