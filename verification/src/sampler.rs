//! The frame-rate sampler: frames are counted as they are rendered, and once
//! per sampling period the count is published as the rate and reset.

use vstd::prelude::*;

verus! {

/// What the sampler holds, as unbounded numbers.
pub struct SamplerState {
    /// Frames recorded since the last sample was taken.
    pub frame_count: nat,
    /// The frame count that the last sample published.
    pub rate: nat,
}

/// The number of values that the frame counter can take; counting one frame
/// past the largest of them starts again at zero.
pub open spec fn counter_modulus() -> nat {
    (usize::MAX + 1) as nat
}

impl SamplerState {
    /// The state before any frame: nothing counted, nothing published.
    pub open spec fn initial() -> Self {
        SamplerState { frame_count: 0, rate: 0 }
    }

    /// The state after one more frame was recorded: the counter stands one
    /// higher, or at zero where it stood at its largest value.
    pub open spec fn record_frame(self) -> Self {
        SamplerState {
            frame_count: if self.frame_count + 1 < counter_modulus() {
                self.frame_count + 1
            } else {
                0
            },
            rate: self.rate,
        }
    }

    /// The state after `k` more frames were recorded.
    pub open spec fn record_frames(self, k: nat) -> Self
        decreases k,
    {
        if k == 0 {
            self
        } else {
            self.record_frames((k - 1) as nat).record_frame()
        }
    }

    /// The state after the sampling timer fired: the count becomes the rate
    /// and counting starts again at zero.
    pub open spec fn sample(self) -> Self {
        SamplerState { frame_count: 0, rate: self.frame_count }
    }
}

/// Counts rendered frames and publishes the count once per sampling period.
///
/// The counter and the published rate are separate values: recording a frame
/// never touches the rate, and only taking a sample writes it.
#[derive(Debug)]
pub struct FpsSampler {
    frame_counter: usize,
    published_rate: usize,
}

impl View for FpsSampler {
    type V = SamplerState;

    closed spec fn view(&self) -> SamplerState {
        SamplerState {
            frame_count: self.frame_counter as nat,
            rate: self.published_rate as nat,
        }
    }
}

impl FpsSampler {
    /// A sampler that has counted no frame and published no rate.
    pub fn new() -> (sampler: Self)
        ensures
            sampler@ == SamplerState::initial(),
    {
        FpsSampler { frame_counter: 0, published_rate: 0 }
    }

    /// Counts one rendered frame. The counter wraps to zero past `usize::MAX`.
    pub fn record_frame(&mut self)
        ensures
            final(self)@ == old(self)@.record_frame(),
    {
        self.frame_counter = self.frame_counter.wrapping_add(1);
    }

    /// Takes the once-per-period sample: publishes the number of frames
    /// counted since the previous sample, resets the counter, and returns the
    /// rate it published.
    pub fn sample(&mut self) -> (rate: usize)
        ensures
            final(self)@ == old(self)@.sample(),
            rate == old(self)@.frame_count,
    {
        let frames = self.frame_counter;
        self.frame_counter = 0;
        self.published_rate = frames;
        frames
    }

    /// The rate that the last sample published; zero before the first one.
    pub fn current_rate(&self) -> (rate: usize)
        ensures
            rate == self@.rate,
    {
        self.published_rate
    }

    /// The number of frames counted since the last sample.
    pub fn frame_count(&self) -> (count: usize)
        ensures
            count == self@.frame_count,
    {
        self.frame_counter
    }
}

impl Default for FpsSampler {
    fn default() -> (sampler: Self)
        ensures
            sampler@ == SamplerState::initial(),
    {
        FpsSampler::new()
    }
}

/// Recording frames leaves the published rate alone, and after `k` frames the
/// counter stands at its old value plus `k`, wrapped.
pub proof fn lemma_record_frames(s: SamplerState, k: nat)
    requires
        s.frame_count < counter_modulus(),
    ensures
        s.record_frames(k).rate == s.rate,
        s.record_frames(k).frame_count == (s.frame_count + k) % counter_modulus(),
    decreases k,
{
    let m = counter_modulus() as int;
    if k == 0 {
        vstd::arithmetic::div_mod::lemma_small_mod(s.frame_count, counter_modulus());
    } else {
        let j = (k - 1) as nat;
        let before = s.record_frames(j);
        lemma_record_frames(s, j);
        assert(s.record_frames(k) == before.record_frame());
        // ((c + j) % m + 1) % m == (c + j + 1) % m
        vstd::arithmetic::div_mod::lemma_add_mod_noop((s.frame_count + j) as int, 1, m);
        vstd::arithmetic::div_mod::lemma_small_mod(1, m as nat);
        vstd::arithmetic::div_mod::lemma_mod_bound((s.frame_count + j) as int, m);
        if before.frame_count + 1 < m {
            vstd::arithmetic::div_mod::lemma_small_mod((before.frame_count + 1) as nat, m as nat);
        } else {
            vstd::arithmetic::div_mod::lemma_mod_self_0(m);
        }
    }
}

/// When exactly `k` frames are recorded within one sampling period, that is
/// starting from a counter at zero, the sample that ends the period publishes
/// `k` and leaves the counter at zero. (A count beyond `usize::MAX` is
/// published wrapped.)
pub proof fn lemma_sample_publishes_frame_count(s: SamplerState, k: nat)
    requires
        s.frame_count == 0,
    ensures
        s.record_frames(k).sample().rate == k % counter_modulus(),
        k <= usize::MAX ==> s.record_frames(k).sample().rate == k,
        s.record_frames(k).sample().frame_count == 0,
{
    lemma_record_frames(s, k);
    if k <= usize::MAX {
        vstd::arithmetic::div_mod::lemma_small_mod(k, counter_modulus());
    }
}

} // verus!
