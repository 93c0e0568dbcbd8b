//! Energy-based voice activity detection: the root mean square of a chunk
//! against a fixed or adaptive threshold, with hysteresis.

use super::detector::{VadDecision, VadDetector};
use crate::audio::buffer::{AudioChunk, Sample};
use crate::Error;
use std::collections::VecDeque;
use vstd::prelude::*;
use vstd::relations::{sorted_by, total_ordering};
use vstd::seq_lib::lemma_sorted_unique;

verus! {

/// The largest energy a chunk can have: the magnitude of `i16::MIN`.
pub const ENERGY_MAX: u32 = 32768;

/// The sum of the squares of the samples.
pub open spec fn square_sum(samples: Seq<Sample>) -> nat
    decreases samples.len(),
{
    if samples.len() == 0 {
        0
    } else {
        square_sum(samples.drop_last()) + (samples.last() as int * samples.last() as int) as nat
    }
}

/// Whether `r` is the integer square root of `n`: the one natural number
/// with `r * r <= n < (r + 1) * (r + 1)`.
pub open spec fn is_isqrt(n: nat, r: nat) -> bool {
    r * r <= n && n < (r + 1) * (r + 1)
}

/// The integer square root of `n`.
pub open spec fn isqrt(n: nat) -> nat {
    choose|r: nat| is_isqrt(n, r)
}

/// The energy of a chunk: the root mean square of its samples, rounded
/// down; zero for an empty chunk.
pub open spec fn rms_energy(samples: Seq<Sample>) -> nat {
    if samples.len() == 0 {
        0
    } else {
        isqrt(square_sum(samples) / samples.len())
    }
}

/// The order by which energies are sorted.
pub open spec fn energy_leq() -> spec_fn(u32, u32) -> bool {
    |a: u32, b: u32| a <= b
}

/// The upper median of a non-empty window: the element in the middle of
/// the window once sorted (the later of the two middle ones when the
/// length is even).
pub open spec fn median(window: Seq<u32>) -> u32 {
    window.sort_by(energy_leq())[(window.len() / 2) as int]
}

/// The window after `energy` has entered it: appended, and the oldest
/// value dropped if the window then holds more than `size` values.
pub open spec fn window_push(window: Seq<u32>, energy: u32, size: nat) -> Seq<u32> {
    let grown = window.push(energy);
    if grown.len() > size {
        grown.drop_first()
    } else {
        grown
    }
}

/// A counter one higher, unless it is at the top of its range.
pub open spec fn bump(count: usize) -> usize {
    if count < usize::MAX {
        (count + 1) as usize
    } else {
        count
    }
}

/// Settings of the energy detector.
#[derive(Debug, Clone, Copy)]
pub struct EnergyVadConfig {
    /// Energy threshold, in sample units (full scale is 32767).
    pub threshold: u32,
    /// Chunks above the threshold needed to enter speech.
    pub min_speech_chunks: usize,
    /// Chunks below the threshold needed to leave speech.
    pub min_silence_chunks: usize,
    /// Whether the threshold rides on the background estimate.
    pub adaptive: bool,
    /// How many recent energies the background estimate looks at.
    pub adaptive_window_size: usize,
}

impl EnergyVadConfig {
    /// The default settings: a fixed threshold of 655, which is 0.02 of
    /// full scale; two chunks to enter speech and three to leave it. The
    /// threshold does not ride on the background by default: an adaptive
    /// threshold rises with a signal that is loud from its first chunk
    /// and would never hear it.
    pub open spec fn spec_default() -> EnergyVadConfig {
        EnergyVadConfig {
            threshold: 655,
            min_speech_chunks: 2,
            min_silence_chunks: 3,
            adaptive: false,
            adaptive_window_size: 30,
        }
    }
}

impl Default for EnergyVadConfig {
    fn default() -> (config: Self)
        ensures
            config == EnergyVadConfig::spec_default(),
    {
        EnergyVadConfig {
            threshold: 655,
            min_speech_chunks: 2,
            min_silence_chunks: 3,
            adaptive: false,
            adaptive_window_size: 30,
        }
    }
}

/// The state of an energy detector, as contracts see it.
pub struct EnergyVadState {
    pub config: EnergyVadConfig,
    pub speech_count: usize,
    pub silence_count: usize,
    pub current_state: VadDecision,
    pub history: Seq<u32>,
    pub background: u32,
}

impl EnergyVadState {
    /// A detector that has seen nothing yet.
    pub open spec fn initial(config: EnergyVadConfig) -> EnergyVadState {
        EnergyVadState {
            config,
            speech_count: 0,
            silence_count: 0,
            current_state: VadDecision::Silence,
            history: Seq::empty(),
            background: 0,
        }
    }

    /// The state once `energy` has been taken into the background
    /// estimate. A fixed-threshold detector keeps no history.
    pub open spec fn observe(self, energy: u32) -> EnergyVadState {
        if !self.config.adaptive {
            self
        } else {
            let history = window_push(
                self.history,
                energy,
                self.config.adaptive_window_size as nat,
            );
            EnergyVadState {
                history,
                background: if history.len() > 0 {
                    median(history)
                } else {
                    self.background
                },
                ..self
            }
        }
    }

    /// The threshold a chunk's energy has to exceed to count as speech.
    pub open spec fn effective_threshold(self) -> nat {
        if self.config.adaptive {
            (self.background + self.config.threshold) as nat
        } else {
            self.config.threshold as nat
        }
    }

    /// One step of the hysteresis: the next state and the decision, given
    /// whether the chunk was above the threshold.
    pub open spec fn advance(self, above: bool) -> (EnergyVadState, VadDecision) {
        match self.current_state {
            VadDecision::Silence => {
                if above {
                    let speech_count = bump(self.speech_count);
                    if speech_count >= self.config.min_speech_chunks {
                        (
                            EnergyVadState {
                                speech_count,
                                silence_count: 0,
                                current_state: VadDecision::Speech,
                                ..self
                            },
                            VadDecision::Speech,
                        )
                    } else {
                        (
                            EnergyVadState { speech_count, silence_count: 0, ..self },
                            VadDecision::Silence,
                        )
                    }
                } else {
                    (EnergyVadState { speech_count: 0, ..self }, VadDecision::Silence)
                }
            },
            VadDecision::Speech => {
                if above {
                    (
                        EnergyVadState {
                            speech_count: bump(self.speech_count),
                            silence_count: 0,
                            ..self
                        },
                        VadDecision::Speech,
                    )
                } else {
                    let silence_count = bump(self.silence_count);
                    if silence_count >= self.config.min_silence_chunks {
                        (
                            EnergyVadState {
                                speech_count: 0,
                                silence_count,
                                current_state: VadDecision::Silence,
                                ..self
                            },
                            VadDecision::Silence,
                        )
                    } else {
                        (
                            EnergyVadState { speech_count: 0, silence_count, ..self },
                            VadDecision::Speech,
                        )
                    }
                }
            },
        }
    }

    /// Whether a chunk of these samples counts as speech-like in this
    /// state: its energy exceeds the threshold that holds once the energy
    /// has been observed.
    pub open spec fn is_above(self, samples: Seq<Sample>) -> bool {
        rms_energy(samples) > self.observe(rms_energy(samples) as u32).effective_threshold()
    }

    /// The whole of `detect`: the next state and the decision for a chunk
    /// of these samples.
    pub open spec fn detect(self, samples: Seq<Sample>) -> (EnergyVadState, VadDecision) {
        self.observe(rms_energy(samples) as u32).advance(self.is_above(samples))
    }
}

/// Energy-based detector.
pub struct EnergyVad {
    config: EnergyVadConfig,
    speech_count: usize,
    silence_count: usize,
    current_state: VadDecision,
    energy_history: VecDeque<u32>,
    background_energy: u32,
}

impl View for EnergyVad {
    type V = EnergyVadState;

    closed spec fn view(&self) -> EnergyVadState {
        EnergyVadState {
            config: self.config,
            speech_count: self.speech_count,
            silence_count: self.silence_count,
            current_state: self.current_state,
            history: self.energy_history@,
            background: self.background_energy,
        }
    }
}

/// The integer square root is unique.
pub proof fn lemma_isqrt_unique(n: nat, r: nat)
    requires
        is_isqrt(n, r),
    ensures
        isqrt(n) == r,
{
    let s = isqrt(n);
    assert(is_isqrt(n, s));
    if s < r {
        assert((s + 1) * (s + 1) <= r * r) by (nonlinear_arith)
            requires
                s + 1 <= r,
        ;
    } else if r < s {
        assert((r + 1) * (r + 1) <= s * s) by (nonlinear_arith)
            requires
                r + 1 <= s,
        ;
    }
}

/// The squares of `len` samples sum to at most `len` times the square of
/// the largest magnitude.
pub proof fn lemma_square_sum_bound(samples: Seq<Sample>)
    ensures
        square_sum(samples) <= samples.len() * 0x4000_0000,
    decreases samples.len(),
{
    if samples.len() > 0 {
        lemma_square_sum_bound(samples.drop_last());
        let x = samples.last() as int;
        assert(0 <= x * x <= 0x4000_0000) by (nonlinear_arith)
            requires
                -32768 <= x <= 32767,
        ;
    }
}

/// The integer square root of a number below 2^32.
fn integer_sqrt(n: u32) -> (r: u32)
    ensures
        r == isqrt(n as nat),
        is_isqrt(n as nat, r as nat),
{
    let mut lo: u32 = 0;
    let mut hi: u32 = 65536;
    while hi - lo > 1
        invariant
            lo < hi <= 65536,
            lo * lo <= n,
            n < hi * hi,
        decreases hi - lo,
    {
        let mid: u32 = lo + (hi - lo) / 2;
        assert(mid * mid <= 65536 * 65536) by (nonlinear_arith)
            requires
                mid <= 65536,
        ;
        let square: u64 = (mid as u64) * (mid as u64);
        if square <= n as u64 {
            lo = mid;
        } else {
            hi = mid;
        }
    }
    proof {
        lemma_isqrt_unique(n as nat, lo as nat);
    }
    lo
}

impl EnergyVad {
    /// A detector with these settings that has seen nothing yet.
    pub fn new(config: EnergyVadConfig) -> (vad: Self)
        ensures
            vad@ == EnergyVadState::initial(config),
    {
        EnergyVad {
            config,
            speech_count: 0,
            silence_count: 0,
            current_state: VadDecision::Silence,
            energy_history: VecDeque::new(),
            background_energy: 0,
        }
    }

    /// The energy of a run of samples: its root mean square, rounded down.
    pub fn calculate_rms_energy(samples: &[Sample]) -> (energy: u32)
        ensures
            energy == rms_energy(samples@),
            energy <= ENERGY_MAX,
    {
        let len: usize = samples.len();
        if len == 0 {
            return 0;
        }
        let mut sum: u128 = 0;
        let mut i: usize = 0;
        while i < len
            invariant
                i <= len,
                len == samples@.len(),
                sum == square_sum(samples@.take(i as int)),
            decreases len - i,
        {
            let x: i64 = samples[i] as i64;
            proof {
                lemma_square_sum_bound(samples@.take(i as int));
                assert(samples@.take(i + 1).drop_last() =~= samples@.take(i as int));
                assert(x * x <= 0x4000_0000) by (nonlinear_arith)
                    requires
                        -32768 <= x <= 32767,
                ;
                assert(0 <= x * x) by (nonlinear_arith);
            }
            let square: i64 = x * x;
            sum = sum + square as u128;
            i = i + 1;
        }
        proof {
            assert(samples@.take(len as int) =~= samples@);
            lemma_square_sum_bound(samples@);
            assert(square_sum(samples@) / (len as nat) <= 0x4000_0000) by (nonlinear_arith)
                requires
                    square_sum(samples@) <= len * 0x4000_0000,
                    len > 0,
            ;
        }
        let mean: u128 = sum / (len as u128);
        let root: u32 = integer_sqrt(mean as u32);
        proof {
            if root > 32768 {
                assert(root as nat * root as nat > 0x4000_0000) by (nonlinear_arith)
                    requires
                        root >= 32769,
                ;
            }
        }
        root
    }

    /// The values held by `window`, sorted in rising order.
    fn sorted_window(window: &VecDeque<u32>) -> (sorted: Vec<u32>)
        ensures
            sorted@ == window@.sort_by(energy_leq()),
    {
        let mut sorted: Vec<u32> = Vec::new();
        let mut i: usize = 0;
        assert(sorted@ =~= window@.take(0));
        while i < window.len()
            invariant
                i <= window@.len(),
                sorted_by(sorted@, energy_leq()),
                sorted@.to_multiset() == window@.take(i as int).to_multiset(),
            decreases window@.len() - i,
        {
            let x: u32 = window[i];
            let mut pos: usize = 0;
            while pos < sorted.len() && sorted[pos] <= x
                invariant
                    pos <= sorted@.len(),
                    forall|k: int| 0 <= k < pos ==> sorted@[k] <= x,
                decreases sorted@.len() - pos,
            {
                pos = pos + 1;
            }
            proof {
                let before = sorted@;
                let after = before.insert(pos as int, x);
                vstd::seq_lib::to_multiset_insert(before, pos as int, x);
                vstd::seq_lib::to_multiset_build(window@.take(i as int), x);
                assert(window@.take(i + 1) =~= window@.take(i as int).push(x));
                assert forall|a: int, b: int| 0 <= a < b < after.len() implies energy_leq()(
                    after[a],
                    after[b],
                ) by {
                    if b < pos {
                        assert(energy_leq()(before[a], before[b]));
                    } else if b > pos {
                        assert(x < before[pos as int]);
                        if b - 1 > pos {
                            assert(energy_leq()(before[pos as int], before[b - 1]));
                        }
                        if a > pos {
                            assert(energy_leq()(before[a - 1], before[b - 1]));
                        }
                    }
                }
            }
            sorted.insert(pos, x);
            i = i + 1;
        }
        proof {
            assert(window@.take(i as int) =~= window@);
            lemma_energy_leq_total();
            window@.lemma_sort_by_ensures(energy_leq());
            lemma_sorted_unique(sorted@, window@.sort_by(energy_leq()), energy_leq());
        }
        sorted
    }

    /// Takes `energy` into the background estimate.
    fn update_background_energy(&mut self, energy: u32)
        ensures
            final(self)@ == old(self)@.observe(energy),
    {
        if !self.config.adaptive {
            return ;
        }
        self.energy_history.push_back(energy);
        if self.energy_history.len() > self.config.adaptive_window_size {
            let _ = self.energy_history.pop_front();
        }
        assert(self.energy_history@ =~= window_push(
            old(self).energy_history@,
            energy,
            self.config.adaptive_window_size as nat,
        ));
        if self.energy_history.len() > 0 {
            let sorted = Self::sorted_window(&self.energy_history);
            proof {
                lemma_energy_leq_total();
                self.energy_history@.lemma_sort_by_ensures(energy_leq());
                vstd::seq_lib::to_multiset_len(sorted@);
                vstd::seq_lib::to_multiset_len(self.energy_history@);
            }
            self.background_energy = sorted[sorted.len() / 2];
        }
    }

    /// The threshold in force.
    fn get_threshold(&self) -> (threshold: u64)
        ensures
            threshold == self@.effective_threshold(),
    {
        if self.config.adaptive {
            self.background_energy as u64 + self.config.threshold as u64
        } else {
            self.config.threshold as u64
        }
    }

    /// Classifies a run of samples and moves the detector on.
    pub fn detect_samples(&mut self, samples: &[Sample]) -> (decision: VadDecision)
        ensures
            (final(self)@, decision) == old(self)@.detect(samples@),
    {
        let energy = Self::calculate_rms_energy(samples);
        self.update_background_energy(energy);
        let threshold = self.get_threshold();
        let has_speech = energy as u64 > threshold;
        match self.current_state {
            VadDecision::Silence => {
                if has_speech {
                    self.speech_count = increment(self.speech_count);
                    self.silence_count = 0;
                    if self.speech_count >= self.config.min_speech_chunks {
                        self.current_state = VadDecision::Speech;
                        VadDecision::Speech
                    } else {
                        VadDecision::Silence
                    }
                } else {
                    self.speech_count = 0;
                    VadDecision::Silence
                }
            },
            VadDecision::Speech => {
                if has_speech {
                    self.silence_count = 0;
                    self.speech_count = increment(self.speech_count);
                    VadDecision::Speech
                } else {
                    self.silence_count = increment(self.silence_count);
                    self.speech_count = 0;
                    if self.silence_count >= self.config.min_silence_chunks {
                        self.current_state = VadDecision::Silence;
                        VadDecision::Silence
                    } else {
                        VadDecision::Speech
                    }
                }
            },
        }
    }

    /// Whether the detector is inside speech.
    pub fn in_speech(&self) -> (b: bool)
        ensures
            b == (self@.current_state == VadDecision::Speech),
    {
        self.current_state == VadDecision::Speech
    }
}

/// A counter one higher, unless it is at the top of its range.
fn increment(count: usize) -> (next: usize)
    ensures
        next == bump(count),
{
    if count < usize::MAX {
        count + 1
    } else {
        count
    }
}

/// `<=` on energies is a total order.
pub proof fn lemma_energy_leq_total()
    ensures
        total_ordering(energy_leq()),
{
}

impl VadDetector for EnergyVad {
    open spec fn detects(
        pre: &Self,
        chunk: &AudioChunk,
        post: &Self,
        result: Result<VadDecision, Error>,
    ) -> bool {
        result matches Ok(decision) && (post@, decision) == pre@.detect(chunk.samples@)
    }

    open spec fn resets(pre: &Self, post: &Self) -> bool {
        post@ == EnergyVadState::initial(pre@.config)
    }

    fn detect(&mut self, chunk: &AudioChunk) -> (result: Result<VadDecision, Error>) {
        Ok(self.detect_samples(chunk.samples.as_slice()))
    }

    open spec fn is_named(&self, name: &str) -> bool {
        name@ == "Energy-based VAD"@
    }

    fn name(&self) -> (name: &str) {
        "Energy-based VAD"
    }

    fn reset(&mut self) {
        self.speech_count = 0;
        self.silence_count = 0;
        self.current_state = VadDecision::Silence;
        self.energy_history.clear();
        self.background_energy = 0;
    }
}

} // verus!
