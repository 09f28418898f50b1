//! A fixed-capacity FIFO queue of stereo frames with non-blocking push and
//! pop: the single synchronization point between the feeder and the output
//! callback. `try_push` refuses instead of overwriting unread slots, and
//! `try_pop` refuses instead of reading unwritten slots; the capacity never
//! changes after construction.

use vstd::prelude::*;

use crate::Frame;

verus! {

/// A bounded FIFO queue of frames over a circular buffer.
pub struct RingBuffer {
    buf: Vec<Frame>,
    head: usize,
    count: usize,
}

impl RingBuffer {
    /// Internal invariant of the circular representation.
    pub closed spec fn wf(self) -> bool {
        &&& 1 <= self.buf@.len() <= usize::MAX / 2
        &&& self.head < self.buf@.len()
        &&& self.count <= self.buf@.len()
    }

    /// The fixed capacity.
    pub closed spec fn cap(self) -> nat {
        self.buf@.len()
    }

    /// Position of the `i`-th queued frame in the circular buffer.
    spec fn slot(self, i: int) -> int {
        if self.head + i < self.buf@.len() {
            self.head + i
        } else {
            self.head + i - self.buf@.len()
        }
    }

    /// The queued frames, oldest first.
    pub closed spec fn contents(self) -> Seq<Frame> {
        Seq::new(self.count as nat, |i: int| self.buf@[self.slot(i)])
    }

    /// Build an empty buffer with the given capacity.
    pub fn new(capacity: usize) -> (rb: RingBuffer)
        requires
            1 <= capacity <= usize::MAX / 2,
        ensures
            rb.wf(),
            rb.cap() == capacity,
            rb.contents() == Seq::<Frame>::empty(),
    {
        let mut buf: Vec<Frame> = Vec::new();
        let mut i: usize = 0;
        while i < capacity
            invariant
                i <= capacity,
                buf@.len() == i,
            decreases capacity - i,
        {
            buf.push(Frame { left: 0, right: 0 });
            i = i + 1;
        }
        let rb = RingBuffer { buf, head: 0, count: 0 };
        proof {
            assert(rb.contents() =~= Seq::<Frame>::empty());
        }
        rb
    }

    /// Number of queued frames.
    pub fn len(&self) -> (n: usize)
        requires
            self.wf(),
        ensures
            n == self.contents().len(),
    {
        self.count
    }

    /// The fixed capacity.
    pub fn capacity(&self) -> (n: usize)
        requires
            self.wf(),
        ensures
            n == self.cap(),
    {
        self.buf.len()
    }

    /// Number of free slots.
    pub fn slots(&self) -> (n: usize)
        requires
            self.wf(),
        ensures
            n == self.cap() - self.contents().len(),
    {
        self.buf.len() - self.count
    }

    /// Append a frame unless the buffer is full; never blocks, never
    /// overwrites a queued frame.
    pub fn try_push(&mut self, frame: Frame) -> (ok: bool)
        requires
            old(self).wf(),
        ensures
            final(self).wf(),
            final(self).cap() == old(self).cap(),
            if old(self).contents().len() == old(self).cap() {
                !ok && final(self).contents() == old(self).contents()
            } else {
                ok && final(self).contents() == old(self).contents().push(frame)
            },
    {
        if self.count == self.buf.len() {
            false
        } else {
            let cap: usize = self.buf.len();
            let tail: usize = if self.head < cap - self.count {
                self.head + self.count
            } else {
                self.head - (cap - self.count)
            };
            self.buf[tail] = frame;
            self.count = self.count + 1;
            proof {
                assert(self.contents() =~= old(self).contents().push(frame));
            }
            true
        }
    }

    /// Remove and return the oldest frame, or nothing when empty; never
    /// blocks.
    pub fn try_pop(&mut self) -> (r: Option<Frame>)
        requires
            old(self).wf(),
        ensures
            final(self).wf(),
            final(self).cap() == old(self).cap(),
            if old(self).contents().len() == 0 {
                r is None && final(self).contents() == old(self).contents()
            } else {
                r == Some(old(self).contents()[0]) && final(self).contents() == old(
                    self,
                ).contents().drop_first()
            },
    {
        if self.count == 0 {
            None
        } else {
            let frame = self.buf[self.head];
            self.head = if self.head + 1 == self.buf.len() {
                0
            } else {
                self.head + 1
            };
            self.count = self.count - 1;
            proof {
                assert(self.contents() =~= old(self).contents().drop_first());
            }
            Some(frame)
        }
    }
}

/// What `try_push` does to the queued frames: appended when there is
/// room, refused (left unchanged) when the buffer is full.
pub open spec fn queue_push(s: Seq<Frame>, frame: Frame, cap: nat) -> Seq<Frame> {
    if s.len() == cap {
        s
    } else {
        s.push(frame)
    }
}

/// The queued frames after a whole run of `try_push` calls, first push
/// first.
pub open spec fn queue_push_all(s: Seq<Frame>, pushes: Seq<Frame>, cap: nat) -> Seq<Frame>
    decreases pushes.len(),
{
    if pushes.len() == 0 {
        s
    } else {
        queue_push_all(queue_push(s, pushes[0], cap), pushes.drop_first(), cap)
    }
}

/// Frames come back in push order, and nothing comes back that was not
/// pushed: a run of pushes that fits in the free space lands behind the
/// frames already queued, exactly in push order, so the successive
/// `try_pop` results — each the head of the queue, by its contract — are
/// the queued frames first and then the pushed ones, in order.
pub proof fn lemma_fifo_order(s: Seq<Frame>, pushes: Seq<Frame>, cap: nat)
    requires
        s.len() + pushes.len() <= cap,
    ensures
        queue_push_all(s, pushes, cap) == s + pushes,
    decreases pushes.len(),
{
    if pushes.len() == 0 {
        assert(queue_push_all(s, pushes, cap) =~= s + pushes);
    } else {
        lemma_fifo_order(s.push(pushes[0]), pushes.drop_first(), cap);
        assert(s.push(pushes[0]) + pushes.drop_first() =~= s + pushes);
    }
}

} // verus!
