//! Buffering in front of the spectrum analysis.
//!
//! The processor collects incoming samples until a full window is available,
//! cuts the window off the front of what it holds, and measures the peak of
//! the raw samples. The floating-point part of the analysis (the tapering,
//! the transform, the root mean square) is the caller's: it receives the
//! window and hands back its results, from which the record is assembled.

use vstd::prelude::*;
use crate::sample::{abs_bits, is_nan, magnitude, INFINITY_BITS};

verus! {

/// The greatest magnitude among the samples that are numbers, as a pattern;
/// `+0.0` where there is none. A NaN never becomes the peak.
pub open spec fn peak_magnitude(samples: Seq<u32>) -> u32
    decreases samples.len(),
{
    if samples.len() == 0 {
        0
    } else {
        let before = peak_magnitude(samples.drop_last());
        let m = magnitude(samples.last());
        if m <= INFINITY_BITS && m > before {
            m
        } else {
            before
        }
    }
}

/// Number of magnitudes in the spectrum of a transform of `fft_size` points:
/// the bins from 0 to `fft_size / 2`, both included.
pub open spec fn frequency_bins(fft_size: nat) -> nat {
    fft_size / 2 + 1
}

/// What is left in the processor after `new_samples` have come in: the
/// samples held so far followed by the new ones, less the first `fft_size`
/// of them where that many are there.
pub open spec fn carry_after(carry: Seq<u32>, fft_size: nat, new_samples: Seq<u32>) -> Seq<u32> {
    let pending = carry + new_samples;
    if pending.len() >= fft_size {
        pending.skip(fft_size as int)
    } else {
        pending
    }
}

/// The window that is cut off when `new_samples` come in: the first
/// `fft_size` samples of what is then held, where that many are there.
pub open spec fn window_after(carry: Seq<u32>, fft_size: nat, new_samples: Seq<u32>) -> Option<
    Seq<u32>,
> {
    let pending = carry + new_samples;
    if pending.len() >= fft_size {
        Some(pending.take(fft_size as int))
    } else {
        None
    }
}

/// What is left in the processor after a run of chunks has come in, one
/// chunk per call.
pub open spec fn carry_after_all(carry: Seq<u32>, fft_size: nat, chunks: Seq<Seq<u32>>) -> Seq<u32>
    decreases chunks.len(),
{
    if chunks.len() == 0 {
        carry
    } else {
        carry_after(carry_after_all(carry, fft_size, chunks.drop_last()), fft_size, chunks.last())
    }
}

/// The windows that are cut off while a run of chunks comes in, one chunk
/// per call, in the order they are cut.
pub open spec fn windows_after_all(carry: Seq<u32>, fft_size: nat, chunks: Seq<Seq<u32>>) -> Seq<
    Seq<u32>,
>
    decreases chunks.len(),
{
    if chunks.len() == 0 {
        Seq::empty()
    } else {
        let before = windows_after_all(carry, fft_size, chunks.drop_last());
        match window_after(
            carry_after_all(carry, fft_size, chunks.drop_last()),
            fft_size,
            chunks.last(),
        ) {
            Some(window) => before.push(window),
            None => before,
        }
    }
}

/// One chunk of analysed audio. The amplitudes and magnitudes are patterns of
/// single-precision values.
#[derive(Debug, Clone)]
pub struct AudioAnalysisData {
    /// Root mean square of the raw samples of the window.
    pub rms_amplitude: u32,
    /// Greatest magnitude among the raw samples of the window.
    pub peak_amplitude: u32,
    /// Magnitudes of the bins from 0 to `fft_size / 2`.
    pub frequency_magnitudes: Vec<u32>,
    /// Number of points of the transform.
    pub fft_size: usize,
}

impl AudioAnalysisData {
    /// A record holds exactly one magnitude per bin.
    pub open spec fn well_formed(&self) -> bool {
        self.frequency_magnitudes@.len() == frequency_bins(self.fft_size as nat)
    }
}

/// A window that was cut off the buffered samples and awaits its spectrum.
#[derive(Debug, Clone)]
pub struct AnalysisWindow {
    /// The raw samples of the window, in the order they came in.
    pub samples: Vec<u32>,
    /// Greatest magnitude among `samples`.
    pub peak_amplitude: u32,
    /// Number of points of the transform that the window is meant for.
    pub fft_size: usize,
}

impl AudioAnalysisData {
    /// Assembles the record of a window of `fft_size` samples whose peak is
    /// `peak_amplitude`, from what the floating-point analysis found: the
    /// root mean square of the samples and the magnitude of each bin of the
    /// transform, bin 0 first. Only the bins up to `fft_size / 2` are kept.
    /// Fewer magnitudes than that give no record.
    pub fn assemble(
        fft_size: usize,
        peak_amplitude: u32,
        rms_amplitude: u32,
        spectrum: Vec<u32>,
    ) -> (out: Option<Self>)
        ensures
            out is Some <==> spectrum@.len() >= frequency_bins(fft_size as nat),
            out matches Some(record) ==> {
                &&& record.rms_amplitude == rms_amplitude
                &&& record.peak_amplitude == peak_amplitude
                &&& record.fft_size == fft_size
                &&& record.frequency_magnitudes@ == spectrum@.take(
                    frequency_bins(fft_size as nat) as int,
                )
                &&& record.well_formed()
            },
    {
        let half: usize = fft_size / 2;
        if spectrum.len() <= half {
            return None;
        }
        let mut frequency_magnitudes = spectrum;
        frequency_magnitudes.truncate(half + 1);
        Some(AudioAnalysisData { rms_amplitude, peak_amplitude, frequency_magnitudes, fft_size })
    }
}

impl AnalysisWindow {
    /// Assembles the record of this window, as [`AudioAnalysisData::assemble`]
    /// does, with the window's length and peak.
    pub fn into_record(self, rms_amplitude: u32, spectrum: Vec<u32>) -> (out: Option<
        AudioAnalysisData,
    >)
        ensures
            out is Some <==> spectrum@.len() >= frequency_bins(self.fft_size as nat),
            out matches Some(record) ==> {
                &&& record.rms_amplitude == rms_amplitude
                &&& record.peak_amplitude == self.peak_amplitude
                &&& record.fft_size == self.fft_size
                &&& record.frequency_magnitudes@ == spectrum@.take(
                    frequency_bins(self.fft_size as nat) as int,
                )
                &&& record.well_formed()
            },
    {
        AudioAnalysisData::assemble(self.fft_size, self.peak_amplitude, rms_amplitude, spectrum)
    }
}

/// Measures the peak of a run of samples.
pub fn peak_amplitude(samples: &[u32]) -> (peak: u32)
    ensures
        peak == peak_magnitude(samples@),
{
    let mut peak: u32 = 0;
    let mut i: usize = 0;
    while i < samples.len()
        invariant
            i <= samples.len(),
            peak == peak_magnitude(samples@.take(i as int)),
        decreases samples.len() - i,
    {
        let m: u32 = abs_bits(samples[i]);
        assert(samples@.take(i + 1).drop_last() == samples@.take(i as int));
        if m <= INFINITY_BITS && m > peak {
            peak = m;
        }
        i += 1;
    }
    assert(samples@.take(samples.len() as int) == samples@);
    peak
}

/// What the processor is, as a mathematical value.
pub struct ProcessorModel {
    /// Number of points of the transform, and so the length of a window.
    pub fft_size: nat,
    /// The samples that came in and were not cut off yet, oldest first.
    pub carry: Seq<u32>,
}

/// Collects samples and cuts them into windows of `fft_size` samples.
pub struct AudioProcessor {
    fft_size: usize,
    sample_buffer: Vec<u32>,
}

impl View for AudioProcessor {
    type V = ProcessorModel;

    closed spec fn view(&self) -> ProcessorModel {
        ProcessorModel { fft_size: self.fft_size as nat, carry: self.sample_buffer@ }
    }
}

impl AudioProcessor {
    /// A processor for windows of `fft_size` samples that holds nothing yet.
    pub fn new(fft_size: usize) -> (processor: Self)
        ensures
            processor@.fft_size == fft_size,
            processor@.carry == Seq::<u32>::empty(),
    {
        AudioProcessor { fft_size, sample_buffer: Vec::new() }
    }

    /// The length of a window.
    pub fn fft_size(&self) -> (n: usize)
        ensures
            n == self@.fft_size,
    {
        self.fft_size
    }

    /// How many samples are held back for the next window.
    pub fn buffered_len(&self) -> (n: usize)
        ensures
            n == self@.carry.len(),
    {
        self.sample_buffer.len()
    }

    /// Takes in `new_samples`. Where a full window is then available, its
    /// samples are cut off the front of what is held and returned with their
    /// peak; whatever came after them is kept for the next call. Where it is
    /// not, everything is kept and nothing is returned. One call returns at
    /// most one window.
    pub fn process_samples(&mut self, new_samples: &[u32]) -> (out: Option<AnalysisWindow>)
        ensures
            final(self)@.fft_size == old(self)@.fft_size,
            final(self)@.carry == carry_after(old(self)@.carry, old(self)@.fft_size, new_samples@),
            out is Some <==> window_after(old(self)@.carry, old(self)@.fft_size, new_samples@)
                is Some,
            out matches Some(window) ==> {
                &&& Some(window.samples@) == window_after(
                    old(self)@.carry,
                    old(self)@.fft_size,
                    new_samples@,
                )
                &&& window.peak_amplitude == peak_magnitude(window.samples@)
                &&& window.fft_size == old(self)@.fft_size
            },
    {
        self.sample_buffer.extend_from_slice(new_samples);
        assert(self.sample_buffer@ =~= old(self).sample_buffer@ + new_samples@);
        if self.sample_buffer.len() >= self.fft_size {
            let mut samples: Vec<u32> = self.sample_buffer.split_off(self.fft_size);
            std::mem::swap(&mut self.sample_buffer, &mut samples);
            let peak: u32 = peak_amplitude(samples.as_slice());
            Some(AnalysisWindow { samples, peak_amplitude: peak, fft_size: self.fft_size })
        } else {
            None
        }
    }
}

/// The peak is the greatest magnitude among the samples that are numbers:
/// none of them exceeds it, and it is the magnitude of one of them unless it
/// is zero. It is never a NaN.
pub proof fn lemma_peak_is_greatest(samples: Seq<u32>)
    ensures
        peak_magnitude(samples) <= INFINITY_BITS,
        forall|i: int|
            0 <= i < samples.len() && !is_nan(#[trigger] samples[i]) ==> magnitude(samples[i])
                <= peak_magnitude(samples),
        peak_magnitude(samples) == 0 || exists|i: int|
            0 <= i < samples.len() && !is_nan(#[trigger] samples[i]) && magnitude(samples[i])
                == peak_magnitude(samples),
    decreases samples.len(),
{
    if samples.len() > 0 {
        let front = samples.drop_last();
        lemma_peak_is_greatest(front);
        assert forall|i: int| 0 <= i < samples.len() && !is_nan(#[trigger] samples[i]) implies magnitude(
            samples[i],
        ) <= peak_magnitude(samples) by {
            if i < samples.len() - 1 {
                assert(front[i] == samples[i]);
            }
        }
        if peak_magnitude(samples) != 0 {
            if peak_magnitude(samples) == peak_magnitude(front) {
                let j = choose|j: int|
                    0 <= j < front.len() && !is_nan(#[trigger] front[j]) && magnitude(front[j])
                        == peak_magnitude(front);
                assert(samples[j] == front[j]);
            } else {
                let j = samples.len() - 1;
                assert(!is_nan(samples[j]) && magnitude(samples[j]) == peak_magnitude(samples));
            }
        }
    }
}

/// A processor that holds nothing and is given exactly one window's worth of
/// samples returns that window and holds nothing afterwards.
pub proof fn lemma_exact_window(fft_size: nat, new_samples: Seq<u32>)
    requires
        new_samples.len() == fft_size,
    ensures
        window_after(Seq::empty(), fft_size, new_samples) == Some(new_samples),
        carry_after(Seq::empty(), fft_size, new_samples) == Seq::<u32>::empty(),
{
    let pending = Seq::<u32>::empty() + new_samples;
    assert(pending =~= new_samples);
    assert(pending.take(fft_size as int) =~= new_samples);
    assert(pending.skip(fft_size as int) =~= Seq::<u32>::empty());
}

/// While the samples held and the chunks that came in together are fewer
/// than a window, every call returns nothing and everything is kept, in
/// order.
pub proof fn lemma_accumulates_until_full(carry: Seq<u32>, fft_size: nat, chunks: Seq<Seq<u32>>)
    requires
        carry.len() + chunks.flatten().len() < fft_size,
    ensures
        carry_after_all(carry, fft_size, chunks) == carry + chunks.flatten(),
        forall|k: int|
            0 <= k < chunks.len() ==> window_after(
                carry_after_all(carry, fft_size, #[trigger] chunks.take(k)),
                fft_size,
                chunks[k],
            ) is None,
    decreases chunks.len(),
{
    if chunks.len() == 0 {
        assert(chunks.flatten() =~= Seq::<u32>::empty());
        assert(carry + chunks.flatten() =~= carry);
    } else {
        let front = chunks.drop_last();
        let last = chunks.last();
        assert(chunks =~= front.push(last));
        front.lemma_flatten_push(last);
        assert(chunks.flatten() =~= front.flatten() + last);
        lemma_accumulates_until_full(carry, fft_size, front);
        assert(carry + front.flatten() + last =~= carry + chunks.flatten());
        assert forall|k: int| 0 <= k < chunks.len() implies window_after(
            carry_after_all(carry, fft_size, #[trigger] chunks.take(k)),
            fft_size,
            chunks[k],
        ) is None by {
            if k < front.len() {
                assert(chunks.take(k) =~= front.take(k));
                assert(chunks[k] == front[k]);
            } else {
                assert(chunks.take(k) =~= front);
            }
        }
    }
}

/// The call with which the samples held and the chunks that came in first
/// add up to a window returns the first `fft_size` of them, in the order
/// they came in.
pub proof fn lemma_first_window(
    carry: Seq<u32>,
    fft_size: nat,
    chunks: Seq<Seq<u32>>,
    last: Seq<u32>,
)
    requires
        carry.len() + chunks.flatten().len() < fft_size,
        carry.len() + chunks.flatten().len() + last.len() >= fft_size,
    ensures
        window_after(carry_after_all(carry, fft_size, chunks), fft_size, last) == Some(
            (carry + chunks.flatten() + last).take(fft_size as int),
        ),
{
    lemma_accumulates_until_full(carry, fft_size, chunks);
}

/// A processor that holds less than a window and is given at most a
/// window's worth of samples holds less than a window afterwards.
pub proof fn lemma_carry_stays_short(carry: Seq<u32>, fft_size: nat, new_samples: Seq<u32>)
    requires
        carry.len() < fft_size,
        new_samples.len() <= fft_size,
    ensures
        carry_after(carry, fft_size, new_samples).len() < fft_size,
{
}

/// The windows are consecutive stretches of what came in: nothing is lost,
/// repeated or reordered. The windows cut while a run of chunks comes in,
/// one after the other, followed by what is still held, are what was held
/// before followed by the chunks; and every window has exactly `fft_size`
/// samples.
pub proof fn lemma_windows_hold_every_sample(
    carry: Seq<u32>,
    fft_size: nat,
    chunks: Seq<Seq<u32>>,
)
    ensures
        windows_after_all(carry, fft_size, chunks).flatten() + carry_after_all(
            carry,
            fft_size,
            chunks,
        ) == carry + chunks.flatten(),
        forall|k: int|
            0 <= k < windows_after_all(carry, fft_size, chunks).len() ==> (
            #[trigger] windows_after_all(carry, fft_size, chunks)[k]).len() == fft_size,
    decreases chunks.len(),
{
    let windows = windows_after_all(carry, fft_size, chunks);
    if chunks.len() == 0 {
        assert(windows.flatten() =~= Seq::<u32>::empty());
        assert(chunks.flatten() =~= Seq::<u32>::empty());
        assert(Seq::<u32>::empty() + carry =~= carry + Seq::<u32>::empty());
    } else {
        let front = chunks.drop_last();
        let last = chunks.last();
        lemma_windows_hold_every_sample(carry, fft_size, front);
        let before = windows_after_all(carry, fft_size, front);
        let held = carry_after_all(carry, fft_size, front);
        let pending = held + last;
        assert(chunks =~= front.push(last));
        front.lemma_flatten_push(last);
        assert(carry + chunks.flatten() =~= carry + front.flatten() + last);
        if pending.len() >= fft_size {
            let window = pending.take(fft_size as int);
            before.lemma_flatten_push(window);
            assert(window + pending.skip(fft_size as int) =~= pending);
            assert(before.flatten() + window + pending.skip(fft_size as int) =~= before.flatten()
                + held + last);
        } else {
            assert(before.flatten() + (held + last) =~= before.flatten() + held + last);
        }
        assert forall|k: int| 0 <= k < windows.len() implies (#[trigger] windows[k]).len()
            == fft_size by {
            if k < before.len() {
                assert(windows[k] == before[k]);
            }
        }
    }
}

} // verus!
