//! Bounded producer/consumer buffer for emulated audio samples.
//!
//! The machine core pushes one sample per emulated audio tick; the audio
//! device's playback callback drains the buffer at the hardware rate. Neither
//! side may block: a push into a full buffer drops the incoming (newest)
//! sample, and a pull from an empty buffer hands back silence. A sample is
//! carried as the 32-bit word of the host's sample encoding; the buffer moves
//! words and never reads them.

use vstd::prelude::*;
use std::collections::VecDeque;

verus! {

/// One push into a bounded buffer: a full buffer drops the incoming sample.
pub open spec fn push_sample_spec(contents: Seq<u32>, capacity: usize, sample: u32) -> Seq<u32> {
    if contents.len() >= capacity {
        contents
    } else {
        contents.push(sample)
    }
}

/// A whole sequence of pushes, oldest first.
pub open spec fn push_seq_spec(contents: Seq<u32>, capacity: usize, incoming: Seq<u32>) -> Seq<u32>
    decreases incoming.len(),
{
    if incoming.len() == 0 {
        contents
    } else {
        push_seq_spec(
            push_sample_spec(contents, capacity, incoming[0]),
            capacity,
            incoming.subrange(1, incoming.len() as int),
        )
    }
}

/// Bounded FIFO of audio sample words, drained front-first by the playback
/// callback. Samples pushed beyond `capacity` are dropped (drop-newest).
pub struct SampleRingBuffer {
    /// Queued samples, oldest at the front.
    pub samples: VecDeque<u32>,
    /// Most samples the buffer will hold.
    pub capacity: usize,
}

impl SampleRingBuffer {
    /// An empty buffer that will hold at most `capacity` samples.
    pub fn new(capacity: usize) -> (b: SampleRingBuffer)
        ensures
            b.samples@ == Seq::<u32>::empty(),
            b.capacity == capacity,
    {
        SampleRingBuffer { samples: VecDeque::new(), capacity }
    }

    pub fn len(&self) -> (n: usize)
        ensures
            n == self.samples@.len(),
    {
        self.samples.len()
    }

    /// Producer side: push one sample. Never blocks; when the buffer is full
    /// the incoming sample is dropped, costing at most a one-sample glitch
    /// instead of stalling the emulation.
    pub fn on_sample(&mut self, sample: u32)
        ensures
            final(self).capacity == old(self).capacity,
            final(self).samples@ == push_sample_spec(
                old(self).samples@,
                old(self).capacity,
                sample,
            ),
            final(self).samples@.len() <= old(self).samples@.len() + 1,
    {
        if self.samples.len() < self.capacity {
            self.samples.push_back(sample);
        }
    }

    /// Consumer side: pull the oldest sample, or `None` when the buffer has
    /// underflowed.
    pub fn pull_sample(&mut self) -> (r: Option<u32>)
        ensures
            final(self).capacity == old(self).capacity,
            match r {
                Some(s) => {
                    &&& old(self).samples@.len() > 0
                    &&& s == old(self).samples@[0]
                    &&& final(self).samples@ == old(self).samples@.subrange(
                        1,
                        old(self).samples@.len() as int,
                    )
                },
                None => {
                    &&& old(self).samples@.len() == 0
                    &&& final(self).samples@ == old(self).samples@
                },
            },
    {
        self.samples.pop_front()
    }

    /// Consumer side for a real-time playback callback: the oldest sample, or
    /// `silence` when the buffer has underflowed — never blocks.
    pub fn pull_sample_or(&mut self, silence: u32) -> (r: u32)
        ensures
            final(self).capacity == old(self).capacity,
            old(self).samples@.len() == 0 ==> r == silence && final(self).samples@
                == old(self).samples@,
            old(self).samples@.len() > 0 ==> r == old(self).samples@[0] && final(self).samples@
                == old(self).samples@.subrange(1, old(self).samples@.len() as int),
    {
        match self.samples.pop_front() {
            Some(s) => s,
            None => silence,
        }
    }
}

/// Law: the buffer never overflows and drops only the newest samples. Pushing
/// any sequence of samples into a buffer holding at most `capacity` samples
/// keeps the oldest samples, in order, up to the remaining room, and drops the
/// rest; in particular the length never exceeds `capacity`. (The producer
/// never blocks: a push is a total operation.)
pub proof fn lemma_push_seq_keeps_oldest(contents: Seq<u32>, capacity: usize, incoming: Seq<u32>)
    requires
        contents.len() <= capacity,
    ensures
        ({
            let room = capacity - contents.len();
            let kept: int = if incoming.len() <= room {
                incoming.len() as int
            } else {
                room
            };
            &&& push_seq_spec(contents, capacity, incoming) == contents + incoming.take(kept)
            &&& push_seq_spec(contents, capacity, incoming).len() <= capacity
        }),
    decreases incoming.len(),
{
    let room = capacity - contents.len();
    let kept: int = if incoming.len() <= room {
        incoming.len() as int
    } else {
        room
    };
    if incoming.len() == 0 {
        assert(push_seq_spec(contents, capacity, incoming) =~= contents + incoming.take(kept));
    } else {
        let rest = incoming.subrange(1, incoming.len() as int);
        if contents.len() >= capacity {
            lemma_push_seq_keeps_oldest(contents, capacity, rest);
            assert(contents + rest.take(0) =~= contents + incoming.take(0));
        } else {
            let pushed = contents.push(incoming[0]);
            lemma_push_seq_keeps_oldest(pushed, capacity, rest);
            assert(pushed + rest.take(kept - 1) =~= contents + incoming.take(kept));
        }
    }
}

} // verus!
