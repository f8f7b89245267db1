//! Fixed-capacity queue of 16-bit PCM samples.
//!
//! The queue never blocks: a push into a full queue drops the new sample and
//! a pop from an empty queue yields nothing, which playback turns into
//! silence. Its view is the sequence of queued samples, oldest first.

use vstd::prelude::*;

verus! {

/// The sample played when the queue has nothing to offer.
pub const SILENCE: i16 = 0;

/// Position `head + offset` on a circle of `capacity` slots.
pub open spec fn wrap_index(head: int, offset: int, capacity: int) -> int {
    if head + offset >= capacity {
        head + offset - capacity
    } else {
        head + offset
    }
}

/// A sequence of `n` silent samples.
pub open spec fn silence(n: nat) -> Seq<i16> {
    Seq::new(n, |i: int| SILENCE)
}

pub struct RingBuffer {
    storage: Vec<i16>,
    head: usize,
    len: usize,
}

impl View for RingBuffer {
    type V = Seq<i16>;

    closed spec fn view(&self) -> Seq<i16> {
        Seq::new(
            self.len as nat,
            |i: int| self.storage@[wrap_index(self.head as int, i, self.storage@.len() as int)],
        )
    }
}

impl RingBuffer {
    #[verifier::type_invariant]
    spec fn well_formed(self) -> bool {
        &&& self.len <= self.storage@.len()
        &&& self.head <= self.storage@.len()
        &&& self.storage@.len() > 0 ==> self.head < self.storage@.len()
    }

    /// The number of samples the queue can hold.
    pub closed spec fn spec_capacity(&self) -> nat {
        self.storage@.len()
    }

    /// An empty queue with room for `capacity` samples.
    pub fn new(capacity: usize) -> (ring: RingBuffer)
        ensures
            ring@ == Seq::<i16>::empty(),
            ring.spec_capacity() == capacity,
    {
        let ring = RingBuffer { storage: vec![SILENCE; capacity], head: 0, len: 0 };
        assert(ring@ =~= Seq::<i16>::empty());
        ring
    }

    pub fn capacity(&self) -> (n: usize)
        ensures
            n == self.spec_capacity(),
    {
        self.storage.len()
    }

    /// The number of queued samples.
    pub fn len(&self) -> (n: usize)
        ensures
            n == self@.len(),
            n <= self.spec_capacity(),
    {
        proof {
            use_type_invariant(self);
        }
        self.len
    }

    pub fn is_empty(&self) -> (b: bool)
        ensures
            b == (self@.len() == 0),
    {
        self.len == 0
    }

    pub fn is_full(&self) -> (b: bool)
        ensures
            b == (self@.len() == self.spec_capacity()),
    {
        self.len == self.storage.len()
    }

    /// Queues `sample` behind the samples already held. A full queue keeps
    /// its contents, drops `sample`, and reports `false`.
    pub fn push(&mut self, sample: i16) -> (accepted: bool)
        ensures
            final(self).spec_capacity() == old(self).spec_capacity(),
            accepted == (old(self)@.len() < old(self).spec_capacity()),
            accepted ==> final(self)@ == old(self)@.push(sample),
            !accepted ==> final(self)@ == old(self)@,
    {
        proof {
            use_type_invariant(&*self);
        }
        let capacity = self.storage.len();
        if self.len == capacity {
            return false;
        }
        let free = capacity - self.len;
        let tail = if self.head >= free {
            self.head - free
        } else {
            self.head + self.len
        };
        let ghost before = self@;
        self.storage[tail] = sample;
        self.len = self.len + 1;
        proof {
            let cap = capacity as int;
            let head = self.head as int;
            assert(tail as int == wrap_index(head, before.len() as int, cap));
            assert forall|i: int| 0 <= i < before.len() implies wrap_index(head, i, cap)
                != tail as int by {}
            assert(self@ =~= before.push(sample));
        }
        true
    }

    /// Takes the oldest queued sample, or nothing when the queue is empty.
    pub fn pop(&mut self) -> (sample: Option<i16>)
        ensures
            final(self).spec_capacity() == old(self).spec_capacity(),
            old(self)@.len() == 0 ==> sample.is_none() && final(self)@ == old(self)@,
            old(self)@.len() > 0 ==> sample == Some(old(self)@[0]) && final(self)@ == old(
                self,
            )@.skip(1),
    {
        proof {
            use_type_invariant(&*self);
        }
        if self.len == 0 {
            return None;
        }
        let ghost before = self@;
        let capacity = self.storage.len();
        let sample = self.storage[self.head];
        self.head = if self.head + 1 == capacity {
            0
        } else {
            self.head + 1
        };
        self.len = self.len - 1;
        proof {
            assert(self@ =~= before.skip(1));
        }
        Some(sample)
    }

    /// Takes the oldest queued sample, or silence when the queue is empty.
    pub fn pop_or_silence(&mut self) -> (sample: i16)
        ensures
            final(self).spec_capacity() == old(self).spec_capacity(),
            old(self)@.len() == 0 ==> sample == SILENCE && final(self)@ == old(self)@,
            old(self)@.len() > 0 ==> sample == old(self)@[0] && final(self)@ == old(self)@.skip(1),
    {
        match self.pop() {
            Some(sample) => sample,
            None => SILENCE,
        }
    }
}

/// How many of `offered` samples a queue with `len` of `capacity` places
/// taken accepts: as many as there is room for.
pub open spec fn accepted_count(capacity: nat, len: nat, offered: nat) -> nat {
    if offered <= capacity - len {
        offered
    } else {
        (capacity - len) as nat
    }
}

/// What a playback block of `n` samples holds when it is filled from a queue
/// holding `queued`: the queued samples, oldest first, then silence.
pub open spec fn playback_block(queued: Seq<i16>, n: nat) -> Seq<i16> {
    Seq::new(n, |i: int| if i < queued.len() { queued[i] } else { SILENCE })
}

impl RingBuffer {
    /// Queues the samples in order for as long as there is room; the rest
    /// is dropped. Returns how many were queued.
    pub fn push_slice(&mut self, samples: &[i16]) -> (accepted: usize)
        ensures
            final(self).spec_capacity() == old(self).spec_capacity(),
            accepted == accepted_count(old(self).spec_capacity(), old(self)@.len(), samples@.len()),
            final(self)@ == old(self)@ + samples@.take(accepted as int),
    {
        let ghost before = self@;
        let ghost capacity = self.spec_capacity();
        let mut accepted: usize = 0;
        let mut i: usize = 0;
        proof {
            use_type_invariant(&*self);
            assert(samples@.take(0) =~= Seq::<i16>::empty());
            assert(before + Seq::<i16>::empty() =~= before);
        }
        while i < samples.len()
            invariant
                i <= samples@.len(),
                self.spec_capacity() == capacity,
                before.len() <= capacity,
                accepted == accepted_count(capacity, before.len(), i as nat),
                self@ == before + samples@.take(accepted as int),
            decreases samples@.len() - i,
        {
            let sample = samples[i];
            if self.push(sample) {
                assert(samples@.take(accepted + 1) =~= samples@.take(accepted as int).push(sample));
                assert(before + samples@.take(accepted as int).push(sample) =~= (before
                    + samples@.take(accepted as int)).push(sample));
                accepted = accepted + 1;
            }
            i = i + 1;
        }
        accepted
    }

    /// Fills a playback block from the queue, oldest sample first, and with
    /// silence where the queue runs out.
    pub fn fill(&mut self, output: &mut [i16])
        ensures
            final(self).spec_capacity() == old(self).spec_capacity(),
            final(output)@ == playback_block(old(self)@, old(output)@.len()),
            final(self)@ == old(self)@.skip(
                accepted_count(old(self)@.len(), 0, old(output)@.len()) as int,
            ),
    {
        let ghost queued = self@;
        let ghost capacity = self.spec_capacity();
        let n = output.len();
        let mut i: usize = 0;
        assert(queued.skip(0) =~= queued);
        while i < n
            invariant
                i <= n == output@.len(),
                self.spec_capacity() == capacity,
                self@ == queued.skip(accepted_count(queued.len(), 0, i as nat) as int),
                forall|k: int| 0 <= k < i ==> output@[k] == playback_block(queued, n as nat)[k],
            decreases n - i,
        {
            let ghost taken = accepted_count(queued.len(), 0, i as nat);
            let sample = self.pop_or_silence();
            output[i] = sample;
            proof {
                if i < queued.len() {
                    assert(queued.skip(taken as int).skip(1) =~= queued.skip((taken + 1) as int));
                }
            }
            i = i + 1;
        }
        assert(output@ =~= playback_block(queued, n as nat));
    }

    /// A queue for a latency of `latency_samples` samples: twice that
    /// capacity, and that many samples of silence queued, so that playback
    /// starts with a cushion. Nothing is returned when the capacity does not
    /// fit the machine's word.
    pub fn with_latency(latency_samples: usize) -> (ring: Option<RingBuffer>)
        ensures
            ring.is_some() == (2 * latency_samples <= usize::MAX),
            ring matches Some(r) ==> r.spec_capacity() == 2 * latency_samples && r@ == silence(
                latency_samples as nat,
            ),
    {
        if latency_samples > usize::MAX / 2 {
            return None;
        }
        let mut ring = RingBuffer::new(2 * latency_samples);
        let mut i: usize = 0;
        assert(ring@ =~= silence(0));
        while i < latency_samples
            invariant
                i <= latency_samples,
                ring.spec_capacity() == 2 * latency_samples,
                ring@ == silence(i as nat),
            decreases latency_samples - i,
        {
            proof {
                lemma_prefill_never_full(ring, latency_samples as nat, i as nat);
            }
            let accepted = ring.push(SILENCE);
            assert(accepted);
            assert(silence(i as nat).push(SILENCE) =~= silence((i + 1) as nat));
            i = i + 1;
        }
        Some(ring)
    }
}

/// A queue of twice the latency's capacity is not full at any moment of the
/// pre-fill: not before any of its pushes, and not when it is done.
pub proof fn lemma_prefill_never_full(ring: RingBuffer, latency_samples: nat, pushed: nat)
    requires
        ring.spec_capacity() == 2 * latency_samples,
        ring@ == silence(pushed),
        pushed <= latency_samples,
        latency_samples > 0,
    ensures
        ring@.len() < ring.spec_capacity(),
{
}


} // verus!
