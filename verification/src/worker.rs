//! Decisions of the analysis worker.
//!
//! The worker runs on a thread of its own, between the channel that brings
//! chunks of samples and the channel that takes analysis records. This module
//! holds what it decides: what to do next, for each thing that can happen.
//! Whoever runs the worker carries out the action that [`AnalysisWorker::step`]
//! names and reports what came of it as the next event, until the action is
//! [`WorkerAction::Exit`].

use vstd::prelude::*;
use crate::processor::{
    carry_after,
    frequency_bins,
    peak_magnitude,
    window_after,
    AnalysisWindow,
    AudioAnalysisData,
    AudioProcessor,
    ProcessorModel,
};

verus! {

/// How long the worker waits for a chunk before it looks at the stop signal
/// again, in milliseconds.
pub const RECEIVE_TIMEOUT_MS: u64 = 200;

/// Number of records that may wait between the worker and their consumer.
pub const ANALYSIS_CHANNEL_CAPACITY: usize = 10;

/// The first channel of interleaved samples: every `channels`-th sample,
/// starting with the first. Samples of a single channel (or of none) are
/// left as they are.
pub open spec fn downmixed(samples: Seq<u32>, channels: nat) -> Seq<u32> {
    if channels > 1 {
        Seq::new(
            ((samples.len() + channels - 1) / channels as int) as nat,
            |j: int| samples[j * channels],
        )
    } else {
        samples
    }
}

/// Reduces interleaved samples to their first channel.
pub fn downmix(samples: Vec<u32>, channels: u16) -> (mono: Vec<u32>)
    ensures
        mono@ == downmixed(samples@, channels as nat),
{
    if channels <= 1 {
        return samples;
    }
    let step: usize = channels as usize;
    let len: usize = samples.len();
    let mut mono: Vec<u32> = Vec::new();
    let mut i: usize = 0;
    assert(0 * step == 0) by (nonlinear_arith);
    while i < len
        invariant
            step > 1,
            len == samples.len(),
            i <= len,
            i < len ==> i == mono.len() * step,
            i == len ==> mono.len() * step >= len,
            mono.len() > 0 ==> (mono.len() - 1) * step < len,
            forall|j: int| 0 <= j < mono.len() ==> mono[j] == samples[j * step],
        decreases len - i,
    {
        let ghost k: int = mono.len() as int;
        assert((k + 1) * step == k * step + step) by (nonlinear_arith);
        mono.push(samples[i]);
        if len - i <= step {
            i = len;
        } else {
            i += step;
        }
    }
    proof {
        let k: int = mono.len() as int;
        let s: int = step as int;
        let l: int = len as int;
        assert(k == 0 ==> k * s == 0) by (nonlinear_arith);
        assert((l + s - 1) / s == k) by (nonlinear_arith)
            requires
                s > 1,
                k >= 0,
                l >= 0,
                k * s >= l,
                k > 0 ==> (k - 1) * s < l,
                k == 0 ==> l == 0,
        ;
        assert(mono@ =~= downmixed(samples@, channels as nat));
    }
    mono
}

/// What a look at the stop signal found.
#[derive(Debug, Clone, Copy, PartialEq, Eq, Structural)]
pub enum StopPoll {
    /// A stop signal was waiting.
    Signalled,
    /// Nobody holds the sending end any more.
    Disconnected,
    /// No signal so far.
    Empty,
}

/// What waiting for a chunk of samples brought.
#[derive(Debug, Clone)]
pub enum ChunkPoll {
    /// A chunk, as the tap sent it: interleaved where there are channels.
    Chunk(Vec<u32>),
    /// Nothing came within the time allowed.
    TimedOut,
    /// The tap is gone.
    Disconnected,
}

/// What became of an attempt to hand a record on without waiting.
#[derive(Debug, Clone, Copy, PartialEq, Eq, Structural)]
pub enum SendOutcome {
    /// The record is on its way.
    Sent,
    /// There was no room; the record is dropped.
    Full,
    /// Nobody is there to receive records.
    Disconnected,
}

/// Something that happened to the worker.
#[derive(Debug, Clone)]
pub enum WorkerEvent {
    /// The worker's thread has started.
    Started,
    /// The stop signal was looked at.
    StopPolled(StopPoll),
    /// The wait for a chunk is over.
    ChunkPolled(ChunkPoll),
    /// The floating-point analysis of the last window handed out is done:
    /// the root mean square of its samples and the magnitude of each bin of
    /// the transform, bin 0 first.
    Analyzed { rms_amplitude: u32, spectrum: Vec<u32> },
    /// The attempt to hand a record on is over.
    RecordSent(SendOutcome),
}

/// What the worker does next.
#[derive(Debug, Clone)]
pub enum WorkerAction {
    /// Look at the stop signal, without waiting.
    PollStop,
    /// Wait for a chunk of samples, for at most `timeout_ms` milliseconds.
    ReceiveChunk { timeout_ms: u64 },
    /// Analyse these samples: one window, raw.
    Analyze { samples: Vec<u32> },
    /// Try to hand this record on, without waiting.
    SendRecord(AudioAnalysisData),
    /// Leave the loop.
    Exit,
}

/// The part of a window that the worker keeps while the window is analysed.
#[derive(Debug, Clone, Copy, PartialEq, Eq, Structural)]
pub struct PendingWindow {
    /// Greatest magnitude among the raw samples of the window.
    pub peak_amplitude: u32,
    /// Number of samples of the window.
    pub fft_size: usize,
}

/// What the worker is, as a mathematical value.
pub struct WorkerModel {
    /// The processor that the chunks are fed to.
    pub processor: ProcessorModel,
    /// Number of interleaved channels in the chunks that come in.
    pub channels: nat,
    /// The window that was handed out for analysis and has not come back.
    pub pending: Option<PendingWindow>,
}

/// The worker's state between two events.
pub struct AnalysisWorker {
    processor: AudioProcessor,
    channels: u16,
    pending: Option<PendingWindow>,
}

impl View for AnalysisWorker {
    type V = WorkerModel;

    closed spec fn view(&self) -> WorkerModel {
        WorkerModel {
            processor: self.processor@,
            channels: self.channels as nat,
            pending: self.pending,
        }
    }
}

impl AnalysisWorker {
    /// A worker for a source of `channels` interleaved channels that
    /// analyses windows of `fft_size` samples of the first channel.
    pub fn new(fft_size: usize, channels: u16) -> (worker: Self)
        ensures
            worker@.processor.fft_size == fft_size,
            worker@.processor.carry == Seq::<u32>::empty(),
            worker@.channels == channels,
            worker@.pending is None,
    {
        AnalysisWorker { processor: AudioProcessor::new(fft_size), channels, pending: None }
    }

    /// Decides what to do after `event`.
    ///
    /// Each round begins with a look at the stop signal: a signal, or a
    /// sending end that is gone, ends the loop. Without one the worker waits
    /// for a chunk. A wait that times out begins the next round; a tap that
    /// is gone ends the loop. A chunk is reduced to its first channel and fed
    /// to the processor; where that completes a window, the window is handed
    /// out for analysis, and where it does not, the next round begins. The
    /// results of the analysis become a record, which is handed on. A record
    /// that was sent or dropped begins the next round; a receiver that is
    /// gone ends the loop.
    pub fn step(&mut self, event: WorkerEvent) -> (action: WorkerAction)
        ensures
            final(self)@.channels == old(self)@.channels,
            final(self)@.processor.fft_size == old(self)@.processor.fft_size,
            match event {
                WorkerEvent::Started => {
                    &&& action is PollStop
                    &&& final(self)@ == old(self)@
                },
                WorkerEvent::StopPolled(poll) => {
                    &&& final(self)@ == old(self)@
                    &&& if poll == StopPoll::Empty {
                        action == (WorkerAction::ReceiveChunk { timeout_ms: RECEIVE_TIMEOUT_MS })
                    } else {
                        action is Exit
                    }
                },
                WorkerEvent::ChunkPolled(ChunkPoll::TimedOut) => {
                    &&& action is PollStop
                    &&& final(self)@ == old(self)@
                },
                WorkerEvent::ChunkPolled(ChunkPoll::Disconnected) => {
                    &&& action is Exit
                    &&& final(self)@ == old(self)@
                },
                WorkerEvent::ChunkPolled(ChunkPoll::Chunk(chunk)) => {
                    let before = old(self)@.processor;
                    let mono = downmixed(chunk@, old(self)@.channels);
                    &&& final(self)@.processor.carry == carry_after(
                        before.carry,
                        before.fft_size,
                        mono,
                    )
                    &&& match window_after(before.carry, before.fft_size, mono) {
                        Some(window) => {
                            &&& action matches WorkerAction::Analyze { samples }
                            &&& samples@ == window
                            &&& final(self)@.pending == Some(
                                PendingWindow {
                                    peak_amplitude: peak_magnitude(window),
                                    fft_size: before.fft_size as usize,
                                },
                            )
                        },
                        None => {
                            &&& action is PollStop
                            &&& final(self)@.pending is None
                        },
                    }
                },
                WorkerEvent::Analyzed { rms_amplitude, spectrum } => {
                    &&& final(self)@.processor == old(self)@.processor
                    &&& final(self)@.pending is None
                    &&& match old(self)@.pending {
                        Some(pending) if spectrum@.len() >= frequency_bins(
                            pending.fft_size as nat,
                        ) => {
                            &&& action matches WorkerAction::SendRecord(record)
                            &&& record.rms_amplitude == rms_amplitude
                            &&& record.peak_amplitude == pending.peak_amplitude
                            &&& record.fft_size == pending.fft_size
                            &&& record.frequency_magnitudes@ == spectrum@.take(
                                frequency_bins(pending.fft_size as nat) as int,
                            )
                            &&& record.well_formed()
                        },
                        _ => action is PollStop,
                    }
                },
                WorkerEvent::RecordSent(outcome) => {
                    &&& final(self)@ == old(self)@
                    &&& if outcome == SendOutcome::Disconnected {
                        action is Exit
                    } else {
                        action is PollStop
                    }
                },
            },
    {
        match event {
            WorkerEvent::Started => WorkerAction::PollStop,
            WorkerEvent::StopPolled(poll) => match poll {
                StopPoll::Empty => WorkerAction::ReceiveChunk { timeout_ms: RECEIVE_TIMEOUT_MS },
                StopPoll::Signalled | StopPoll::Disconnected => WorkerAction::Exit,
            },
            WorkerEvent::ChunkPolled(poll) => match poll {
                ChunkPoll::TimedOut => WorkerAction::PollStop,
                ChunkPoll::Disconnected => WorkerAction::Exit,
                ChunkPoll::Chunk(chunk) => {
                    let mono: Vec<u32> = downmix(chunk, self.channels);
                    match self.processor.process_samples(mono.as_slice()) {
                        Some(window) => {
                            let AnalysisWindow { samples, peak_amplitude, fft_size } = window;
                            self.pending = Some(PendingWindow { peak_amplitude, fft_size });
                            WorkerAction::Analyze { samples }
                        },
                        None => {
                            self.pending = None;
                            WorkerAction::PollStop
                        },
                    }
                },
            },
            WorkerEvent::Analyzed { rms_amplitude, spectrum } => {
                let pending: Option<PendingWindow> = self.pending.take();
                match pending {
                    Some(PendingWindow { peak_amplitude, fft_size }) => {
                        match AudioAnalysisData::assemble(
                            fft_size,
                            peak_amplitude,
                            rms_amplitude,
                            spectrum,
                        ) {
                            Some(record) => WorkerAction::SendRecord(record),
                            None => WorkerAction::PollStop,
                        }
                    },
                    None => WorkerAction::PollStop,
                }
            },
            WorkerEvent::RecordSent(outcome) => match outcome {
                SendOutcome::Disconnected => WorkerAction::Exit,
                SendOutcome::Sent | SendOutcome::Full => WorkerAction::PollStop,
            },
        }
    }
}

} // verus!
