//! The tap between the decoded source and the output device.
//!
//! Every sample that the output pulls goes through [`SampleBroadcaster::next`],
//! which hands it on unchanged and collects a copy. Whenever a chunk's worth
//! of samples has been collected, the chunk is handed out to be sent to the
//! analysis worker, and collecting starts again. The tap never consults the
//! channel to the worker: what happens to a chunk has no bearing on what the
//! output receives.

use vstd::prelude::*;

verus! {

/// How a chunk is to be handed to the channel.
#[derive(Debug, Clone, Copy, PartialEq, Eq, Structural)]
pub enum Delivery {
    /// Without waiting: where the channel is full the chunk is dropped.
    NonBlocking,
    /// Waiting for room: used for the last, partial chunk of a stream.
    Blocking,
}

/// A chunk of collected samples, ready to be sent.
#[derive(Debug, Clone)]
pub struct Chunk {
    /// The samples, in the order they were pulled.
    pub samples: Vec<u32>,
    /// How to hand them to the channel.
    pub delivery: Delivery,
}

/// What one pull gives.
#[derive(Debug, Clone)]
pub struct TapOutput {
    /// What the output device receives: the sample that was pulled, or the
    /// end of the stream.
    pub sample: Option<u32>,
    /// The chunk that this pull completed, if it completed one.
    pub chunk: Option<Chunk>,
}

/// What is collected after one pull: the pulled sample is added, and where
/// that fills the chunk, or the stream has ended, collecting starts again.
pub open spec fn buffer_after_pull(buffer: Seq<u32>, capacity: nat, pulled: Option<u32>) -> Seq<
    u32,
> {
    match pulled {
        Some(sample) => if buffer.len() + 1 >= capacity {
            Seq::empty()
        } else {
            buffer.push(sample)
        },
        None => Seq::empty(),
    }
}

/// The chunk that one pull completes: a full one, to be sent without
/// waiting, when the pulled sample fills it; at the end of the stream
/// whatever was collected, if anything, to be sent waiting for room.
pub open spec fn chunk_after_pull(buffer: Seq<u32>, capacity: nat, pulled: Option<u32>) -> Option<
    (Seq<u32>, Delivery),
> {
    match pulled {
        Some(sample) => if buffer.len() + 1 >= capacity {
            Some((buffer.push(sample), Delivery::NonBlocking))
        } else {
            None
        },
        None => if buffer.len() > 0 {
            Some((buffer, Delivery::Blocking))
        } else {
            None
        },
    }
}

/// What is collected after a run of samples has been pulled.
pub open spec fn buffer_after_all(buffer: Seq<u32>, capacity: nat, samples: Seq<u32>) -> Seq<u32>
    decreases samples.len(),
{
    if samples.len() == 0 {
        buffer
    } else {
        buffer_after_pull(
            buffer_after_all(buffer, capacity, samples.drop_last()),
            capacity,
            Some(samples.last()),
        )
    }
}

/// The chunks that are completed while a run of samples is pulled, in the
/// order they are completed.
pub open spec fn chunks_after_all(buffer: Seq<u32>, capacity: nat, samples: Seq<u32>) -> Seq<
    Seq<u32>,
>
    decreases samples.len(),
{
    if samples.len() == 0 {
        Seq::empty()
    } else {
        let before = chunks_after_all(buffer, capacity, samples.drop_last());
        match chunk_after_pull(
            buffer_after_all(buffer, capacity, samples.drop_last()),
            capacity,
            Some(samples.last()),
        ) {
            Some((chunk, _)) => before.push(chunk),
            None => before,
        }
    }
}

/// What the tap is, as a mathematical value.
pub struct TapModel {
    /// Number of samples in a full chunk.
    pub capacity: nat,
    /// The samples collected for the next chunk, oldest first.
    pub buffer: Seq<u32>,
    /// Sample rate of the source, in hertz.
    pub sample_rate: u32,
}

impl TapModel {
    /// Between two pulls the tap holds less than a full chunk.
    pub open spec fn well_formed(self) -> bool {
        self.buffer.len() == 0 || self.buffer.len() < self.capacity
    }
}

/// Collects the samples that pass through into chunks of a fixed length.
pub struct SampleBroadcaster {
    buffer: Vec<u32>,
    capacity: usize,
    sample_rate: u32,
}

impl View for SampleBroadcaster {
    type V = TapModel;

    closed spec fn view(&self) -> TapModel {
        TapModel {
            capacity: self.capacity as nat,
            buffer: self.buffer@,
            sample_rate: self.sample_rate,
        }
    }
}

impl SampleBroadcaster {
    #[verifier::type_invariant]
    spec fn inv(self) -> bool {
        self.buffer@.len() == 0 || self.buffer@.len() < self.capacity
    }

    /// A tap for a source of the given sample rate that cuts what passes
    /// through into chunks of `buffer_capacity` samples. A capacity of zero
    /// gives chunks of one sample.
    pub fn new(sample_rate: u32, buffer_capacity: usize) -> (tap: Self)
        ensures
            tap@.capacity == buffer_capacity,
            tap@.buffer == Seq::<u32>::empty(),
            tap@.sample_rate == sample_rate,
            tap@.well_formed(),
    {
        SampleBroadcaster {
            buffer: Vec::with_capacity(buffer_capacity),
            capacity: buffer_capacity,
            sample_rate,
        }
    }

    /// Sample rate of the source that the tap was made for.
    pub fn sample_rate(&self) -> (rate: u32)
        ensures
            rate == self@.sample_rate,
    {
        self.sample_rate
    }

    /// Number of samples in a full chunk.
    pub fn chunk_len(&self) -> (n: usize)
        ensures
            n == self@.capacity,
    {
        self.capacity
    }

    /// Takes what the source gave, a sample or the end of the stream, and
    /// hands it on unchanged. The sample is collected; the chunk that it
    /// completes, or that the end of the stream cuts short, is handed out
    /// with it.
    pub fn next(&mut self, pulled: Option<u32>) -> (out: TapOutput)
        ensures
            out.sample == pulled,
            final(self)@.capacity == old(self)@.capacity,
            final(self)@.sample_rate == old(self)@.sample_rate,
            final(self)@.buffer == buffer_after_pull(
                old(self)@.buffer,
                old(self)@.capacity,
                pulled,
            ),
            match chunk_after_pull(old(self)@.buffer, old(self)@.capacity, pulled) {
                Some((samples, delivery)) => {
                    &&& out.chunk matches Some(chunk)
                    &&& chunk.samples@ == samples
                    &&& chunk.delivery == delivery
                },
                None => out.chunk is None,
            },
            old(self)@.well_formed(),
            final(self)@.well_formed(),
    {
        proof {
            use_type_invariant(&*self);
        }
        match pulled {
            Some(sample) => {
                if self.buffer.len() + 1 >= self.capacity {
                    let mut samples: Vec<u32> = Vec::with_capacity(self.capacity);
                    std::mem::swap(&mut self.buffer, &mut samples);
                    samples.push(sample);
                    TapOutput {
                        sample: Some(sample),
                        chunk: Some(Chunk { samples, delivery: Delivery::NonBlocking }),
                    }
                } else {
                    let mut held: Vec<u32> = Vec::new();
                    std::mem::swap(&mut self.buffer, &mut held);
                    held.push(sample);
                    self.buffer = held;
                    TapOutput { sample: Some(sample), chunk: None }
                }
            },
            None => {
                if self.buffer.len() > 0 {
                    let mut samples: Vec<u32> = Vec::new();
                    std::mem::swap(&mut self.buffer, &mut samples);
                    TapOutput {
                        sample: None,
                        chunk: Some(Chunk { samples, delivery: Delivery::Blocking }),
                    }
                } else {
                    TapOutput { sample: None, chunk: None }
                }
            },
        }
    }
}

/// Nothing is lost, repeated or reordered on the way into the chunks: the
/// chunks completed while a run of samples is pulled, one after the other,
/// followed by what is still collected, are what was collected before
/// followed by the run.
pub proof fn lemma_chunks_hold_every_sample(buffer: Seq<u32>, capacity: nat, samples: Seq<u32>)
    ensures
        chunks_after_all(buffer, capacity, samples).flatten() + buffer_after_all(
            buffer,
            capacity,
            samples,
        ) == buffer + samples,
    decreases samples.len(),
{
    if samples.len() == 0 {
        assert(chunks_after_all(buffer, capacity, samples).flatten() =~= Seq::<u32>::empty());
        assert(Seq::<u32>::empty() + buffer =~= buffer + samples);
    } else {
        let front = samples.drop_last();
        let last = samples.last();
        lemma_chunks_hold_every_sample(buffer, capacity, front);
        let chunks = chunks_after_all(buffer, capacity, front);
        let held = buffer_after_all(buffer, capacity, front);
        assert(buffer + samples =~= (buffer + front).push(last));
        if held.len() + 1 >= capacity {
            chunks.lemma_flatten_push(held.push(last));
            assert(chunks.flatten() + held.push(last) + Seq::<u32>::empty() =~= (chunks.flatten()
                + held).push(last));
        } else {
            assert(chunks.flatten() + held.push(last) =~= (chunks.flatten() + held).push(last));
        }
    }
}

/// A tap that starts with less than a full chunk only ever completes full
/// chunks while samples are pulled, and holds less than a full chunk in
/// between.
pub proof fn lemma_chunks_are_full(buffer: Seq<u32>, capacity: nat, samples: Seq<u32>)
    requires
        capacity >= 1,
        buffer.len() < capacity,
    ensures
        buffer_after_all(buffer, capacity, samples).len() < capacity,
        forall|k: int|
            0 <= k < chunks_after_all(buffer, capacity, samples).len() ==> (
            #[trigger] chunks_after_all(buffer, capacity, samples)[k]).len() == capacity,
    decreases samples.len(),
{
    if samples.len() > 0 {
        let front = samples.drop_last();
        lemma_chunks_are_full(buffer, capacity, front);
        let before = chunks_after_all(buffer, capacity, front);
        let chunks = chunks_after_all(buffer, capacity, samples);
        assert forall|k: int| 0 <= k < chunks.len() implies (#[trigger] chunks[k]).len()
            == capacity by {
            if k < before.len() {
                assert(chunks[k] == before[k]);
            }
        }
    }
}

} // verus!
