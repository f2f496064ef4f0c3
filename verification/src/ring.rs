//! The queue of finished sound samples between the sound unit, which
//! adds them, and the host, which takes them.

use vstd::prelude::*;

verus! {

/// Samples that the host takes at a time.
pub const AUDIO_BUFFER_SIZE: usize = 0x1000;

/// Samples that the queue can hold.
pub const RING_SIZE: usize = 0x2000;

/// A bounded first-in first-out queue of samples. Adding to a full
/// queue drops the sample; nothing ever waits.
pub struct RingBuffer {
    cells: [i16; RING_SIZE],
    head: usize,
    count: usize,
}

/// The queue after `v` is offered: `v` is behind the others, unless the queue was full.
pub open spec fn offered(queue: Seq<i16>, v: i16) -> Seq<i16> {
    if queue.len() < RING_SIZE {
        queue.push(v)
    } else {
        queue
    }
}

/// The queue after its oldest sample, if any, is taken.
pub open spec fn drained(queue: Seq<i16>) -> Seq<i16> {
    if queue.len() > 0 {
        queue.drop_first()
    } else {
        queue
    }
}

impl View for RingBuffer {
    type V = Seq<i16>;

    /// The samples in the queue, oldest first.
    closed spec fn view(&self) -> Seq<i16> {
        Seq::new(self.count as nat, |i: int| self.cells@[self.slot(i)])
    }
}

impl RingBuffer {
    /// The cell that holds the sample `i` places behind the oldest.
    spec fn slot(self, i: int) -> int {
        (self.head + i) % (RING_SIZE as int)
    }

    #[verifier::type_invariant]
    spec fn inv(self) -> bool {
        self.head < RING_SIZE && self.count <= RING_SIZE
    }

    /// An empty queue.
    pub fn new() -> (ring: RingBuffer)
        ensures
            ring@ == Seq::<i16>::empty(),
    {
        RingBuffer { cells: [0i16; RING_SIZE], head: 0, count: 0 }
    }

    /// The number of samples in the queue.
    pub fn len(&self) -> (n: usize)
        ensures
            n == self@.len(),
            n <= RING_SIZE,
    {
        proof {
            use_type_invariant(self);
        }
        self.count
    }

    /// Offers a sample to the queue. Returns whether it was taken in.
    pub fn add(&mut self, v: i16) -> (accepted: bool)
        ensures
            accepted == (old(self)@.len() < RING_SIZE),
            final(self)@ == offered(old(self)@, v),
        no_unwind
    {
        proof {
            use_type_invariant(&*self);
        }
        if self.count >= RING_SIZE {
            return false;
        }
        let at: usize = (self.head + self.count) % RING_SIZE;
        self.cells[at] = v;
        self.count += 1;
        assert(final(self)@ =~= old(self)@.push(v)) by {
            assert forall|i: int| 0 <= i < old(self).count implies #[trigger] old(self).slot(i)
                != at by {
                if old(self).head + i >= RING_SIZE {
                    assert(old(self).slot(i) == old(self).head + i - RING_SIZE);
                }
                if old(self).head + old(self).count >= RING_SIZE {
                    assert(at == old(self).head + old(self).count - RING_SIZE);
                }
            }
            assert forall|i: int| 0 <= i < old(self).count implies #[trigger] final(self).slot(i)
                == old(self).slot(i) by {}
        }
        true
    }

    /// Takes the oldest sample out of the queue.
    pub fn take(&mut self) -> (r: Option<i16>)
        ensures
            r is Some <==> old(self)@.len() > 0,
            r matches Some(v) ==> v == old(self)@[0],
            final(self)@ == drained(old(self)@),
        no_unwind
    {
        proof {
            use_type_invariant(&*self);
        }
        if self.count == 0 {
            return None;
        }
        let v: i16 = self.cells[self.head];
        self.head = (self.head + 1) % RING_SIZE;
        self.count -= 1;
        assert(final(self)@ =~= old(self)@.drop_first()) by {
            assert forall|i: int| 0 <= i < final(self).count implies #[trigger] final(self).slot(i)
                == old(self).slot(i + 1) by {
                if old(self).head + 1 >= RING_SIZE {
                    assert(final(self).head == 0);
                }
            }
        }
        Some(v)
    }

    /// Takes the `n` oldest samples out of the queue, oldest first, if
    /// it holds that many; otherwise takes nothing.
    pub fn take_block(&mut self, n: usize) -> (r: Option<Vec<i16>>)
        ensures
            r is Some <==> old(self)@.len() >= n,
            r matches Some(block) ==> block@ == old(self)@.subrange(0, n as int) && final(self)@
                == old(self)@.subrange(n as int, old(self)@.len() as int),
            r is None ==> final(self)@ == old(self)@,
    {
        if self.len() < n {
            return None;
        }
        let mut block: Vec<i16> = Vec::new();
        let mut i: usize = 0;
        while i < n
            invariant
                i <= n,
                n <= old(self)@.len(),
                block@ == old(self)@.subrange(0, i as int),
                self@ == old(self)@.subrange(i as int, old(self)@.len() as int),
            decreases n - i,
        {
            let ghost before = self@;
            match self.take() {
                Some(v) => {
                    block.push(v);
                    assert(block@ =~= old(self)@.subrange(0, i + 1));
                    assert(self@ =~= old(self)@.subrange(i + 1, old(self)@.len() as int));
                },
                None => {},
            }
            i += 1;
        }
        Some(block)
    }
}

/// What one side does to the queue.
pub enum Access {
    /// The producer offers a sample.
    Add(i16),
    /// The consumer asks for one.
    Take,
}

/// The queue after a sequence of accesses, starting from `queue`.
pub open spec fn queue_after(queue: Seq<i16>, accesses: Seq<Access>) -> Seq<i16>
    decreases accesses.len(),
{
    if accesses.len() == 0 {
        queue
    } else {
        let before = queue_after(queue, accesses.drop_last());
        match accesses.last() {
            Access::Add(v) => offered(before, v),
            Access::Take => drained(before),
        }
    }
}

/// The samples that the queue took in during a sequence of accesses, in the order offered.
pub open spec fn accepted(queue: Seq<i16>, accesses: Seq<Access>) -> Seq<i16>
    decreases accesses.len(),
{
    if accesses.len() == 0 {
        Seq::empty()
    } else {
        let before = queue_after(queue, accesses.drop_last());
        let so_far = accepted(queue, accesses.drop_last());
        match accesses.last() {
            Access::Add(v) => if before.len() < RING_SIZE {
                so_far.push(v)
            } else {
                so_far
            },
            Access::Take => so_far,
        }
    }
}

/// The samples that the consumer got during a sequence of accesses, in the order received.
pub open spec fn received(queue: Seq<i16>, accesses: Seq<Access>) -> Seq<i16>
    decreases accesses.len(),
{
    if accesses.len() == 0 {
        Seq::empty()
    } else {
        let before = queue_after(queue, accesses.drop_last());
        let so_far = received(queue, accesses.drop_last());
        match accesses.last() {
            Access::Add(_) => so_far,
            Access::Take => if before.len() > 0 {
                so_far.push(before[0])
            } else {
                so_far
            },
        }
    }
}

/// First in, first out: whatever the producer and the consumer do, and
/// in whatever order, what the consumer has received, followed by what
/// is still queued, is what was queued at the start followed by what
/// the queue took in. The consumer therefore reads the accepted samples
/// in the order written, without gaps and without repeats.
pub proof fn lemma_fifo(queue: Seq<i16>, accesses: Seq<Access>)
    ensures
        received(queue, accesses) + queue_after(queue, accesses) == queue + accepted(
            queue,
            accesses,
        ),
    decreases accesses.len(),
{
    if accesses.len() == 0 {
        assert(Seq::<i16>::empty() + queue =~= queue + Seq::<i16>::empty());
    } else {
        let front = accesses.drop_last();
        lemma_fifo(queue, front);
        let before = queue_after(queue, front);
        let got = received(queue, front);
        let took = accepted(queue, front);
        assert(got + before == queue + took);
        match accesses.last() {
            Access::Add(v) => {
                if before.len() < RING_SIZE {
                    assert(got + before.push(v) =~= (got + before).push(v));
                    assert(queue + took.push(v) =~= (queue + took).push(v));
                }
            },
            Access::Take => {
                if before.len() > 0 {
                    assert(got.push(before[0]) + before.drop_first() =~= got + before);
                }
            },
        }
    }
}

} // verus!
