//! Segment assembly: per-chunk decisions become whole speech segments,
//! with a bounded run of earlier chunks in front of each.

use super::detector::{VadDecision, VadDetector};
use crate::audio::buffer::{concat_samples, AudioChunk, Sample};
use crate::Error;
use std::collections::VecDeque;
use vstd::prelude::*;

verus! {

/// The pre-roll capacity in force until a chunk's length has been seen.
pub const DEFAULT_PRE_ROLL_CHUNKS: usize = 10;

/// The sample rate reported by a segment without chunks.
pub const DEFAULT_SAMPLE_RATE: u32 = 16000;

/// Settings of the segment assembler.
#[derive(Debug, Clone, Copy)]
pub struct VadProcessorConfig {
    /// How much audio before detected speech a segment includes, in
    /// milliseconds.
    pub pre_roll_ms: u32,
    /// How much audio after the end of speech a segment includes, in
    /// milliseconds.
    pub post_roll_ms: u32,
}

impl VadProcessorConfig {
    /// The default settings: 300 ms of pre-roll and 500 ms of post-roll.
    pub open spec fn spec_default() -> VadProcessorConfig {
        VadProcessorConfig { pre_roll_ms: 300, post_roll_ms: 500 }
    }
}

impl Default for VadProcessorConfig {
    fn default() -> (config: Self)
        ensures
            config == VadProcessorConfig::spec_default(),
    {
        VadProcessorConfig { pre_roll_ms: 300, post_roll_ms: 500 }
    }
}

/// The summed length of the chunks in milliseconds, capped at `u64::MAX`.
pub open spec fn total_duration_ms(chunks: Seq<AudioChunk>) -> nat
    decreases chunks.len(),
{
    if chunks.len() == 0 {
        0
    } else {
        let sum = total_duration_ms(chunks.drop_last()) + chunks.last().spec_duration_ms();
        if sum > u64::MAX {
            u64::MAX as nat
        } else {
            sum
        }
    }
}

/// One utterance: consecutive chunks, with what is derived from them.
#[derive(Debug)]
pub struct SpeechSegment {
    /// The chunks of the segment, in capture order.
    pub chunks: Vec<AudioChunk>,
    /// Their summed length in milliseconds.
    pub duration_ms: u64,
    /// The capture time of the first chunk; zero when there is none.
    pub start_time: u64,
}

impl SpeechSegment {
    /// Whether this is the segment made of exactly `chunks`.
    pub open spec fn is_segment_of(&self, chunks: Seq<AudioChunk>) -> bool {
        &&& self.chunks@ == chunks
        &&& self.duration_ms == total_duration_ms(chunks)
        &&& self.start_time == if chunks.len() > 0 {
            chunks[0].timestamp
        } else {
            0
        }
    }

    /// The segment made of `chunks`.
    pub fn new(chunks: Vec<AudioChunk>) -> (segment: Self)
        ensures
            segment.is_segment_of(chunks@),
    {
        let mut duration_ms: u64 = 0;
        let mut i: usize = 0;
        while i < chunks.len()
            invariant
                i <= chunks@.len(),
                duration_ms == total_duration_ms(chunks@.take(i as int)),
            decreases chunks@.len() - i,
        {
            assert(chunks@.take(i + 1).drop_last() =~= chunks@.take(i as int));
            let d: u64 = chunks[i].duration_ms();
            duration_ms = if d > u64::MAX - duration_ms {
                u64::MAX
            } else {
                duration_ms + d
            };
            i = i + 1;
        }
        assert(chunks@.take(chunks@.len() as int) =~= chunks@);
        let start_time: u64 = if chunks.len() > 0 {
            chunks[0].timestamp
        } else {
            0
        };
        SpeechSegment { chunks, duration_ms, start_time }
    }

    /// All the samples of the segment, in order.
    pub fn get_samples(&self) -> (samples: Vec<Sample>)
        ensures
            samples@ == concat_samples(self.chunks@),
    {
        let mut samples: Vec<Sample> = Vec::new();
        let mut i: usize = 0;
        while i < self.chunks.len()
            invariant
                i <= self.chunks@.len(),
                samples@ == concat_samples(self.chunks@.take(i as int)),
            decreases self.chunks@.len() - i,
        {
            assert(self.chunks@.take(i + 1).drop_last() =~= self.chunks@.take(i as int));
            let chunk = &self.chunks[i];
            let ghost before = samples@;
            let mut j: usize = 0;
            while j < chunk.samples.len()
                invariant
                    j <= chunk.samples@.len(),
                    samples@ == before + chunk.samples@.take(j as int),
                decreases chunk.samples@.len() - j,
            {
                samples.push(chunk.samples[j]);
                assert(chunk.samples@.take(j + 1) =~= chunk.samples@.take(j as int).push(
                    chunk.samples@[j as int],
                ));
                assert(samples@ =~= before + chunk.samples@.take(j + 1));
                j = j + 1;
            }
            assert(chunk.samples@.take(chunk.samples@.len() as int) =~= chunk.samples@);
            i = i + 1;
        }
        assert(self.chunks@.take(self.chunks@.len() as int) =~= self.chunks@);
        samples
    }

    /// The sample rate of the first chunk; 16 kHz when there is none.
    pub fn sample_rate(&self) -> (rate: u32)
        ensures
            rate == if self.chunks@.len() > 0 {
                self.chunks@[0].sample_rate
            } else {
                DEFAULT_SAMPLE_RATE
            },
    {
        if self.chunks.len() > 0 {
            self.chunks[0].sample_rate
        } else {
            DEFAULT_SAMPLE_RATE
        }
    }

    /// Whether the segment holds no chunks.
    pub fn is_empty(&self) -> (b: bool)
        ensures
            b == (self.chunks@.len() == 0),
    {
        self.chunks.len() == 0
    }

    /// The number of chunks.
    pub fn len(&self) -> (n: usize)
        ensures
            n == self.chunks@.len(),
    {
        self.chunks.len()
    }
}

/// How many chunks of `chunk_ms` milliseconds cover `pre_roll_ms`
/// milliseconds: the quotient, rounded up.
pub open spec fn pre_roll_capacity(pre_roll_ms: u32, chunk_ms: nat) -> nat
    recommends
        chunk_ms > 0,
{
    if pre_roll_ms as nat % chunk_ms == 0 {
        pre_roll_ms as nat / chunk_ms
    } else {
        pre_roll_ms as nat / chunk_ms + 1
    }
}

/// The last `n` items of `s`; all of `s` where it has no more than `n`.
pub open spec fn keep_last<T>(s: Seq<T>, n: nat) -> Seq<T> {
    if s.len() > n {
        s.skip(s.len() - n)
    } else {
        s
    }
}

/// Whether `tail` is what `whole` ends with.
pub open spec fn is_suffix<T>(tail: Seq<T>, whole: Seq<T>) -> bool {
    tail.len() <= whole.len() && whole.skip(whole.len() - tail.len()) == tail
}

/// The assembler's state, as contracts see it.
pub struct ProcessorState {
    /// The configured pre-roll, in milliseconds.
    pub pre_roll_ms: u32,
    /// Whether a segment is open.
    pub in_speech: bool,
    /// The most recent chunks seen while idle, oldest first.
    pub pre_roll: Seq<AudioChunk>,
    /// The chunks of the open segment.
    pub speech: Seq<AudioChunk>,
    /// The pre-roll capacity, once a chunk's length has fixed it.
    pub capacity: Option<usize>,
    /// Every chunk consumed since the last emission or reset.
    pub consumed: Seq<AudioChunk>,
    /// Where in `consumed` the open segment's first speech chunk stands.
    pub opened_at: nat,
}

impl ProcessorState {
    /// An idle assembler with empty buffers.
    pub open spec fn initial(config: VadProcessorConfig) -> ProcessorState {
        ProcessorState {
            pre_roll_ms: config.pre_roll_ms,
            in_speech: false,
            pre_roll: Seq::empty(),
            speech: Seq::empty(),
            capacity: None,
            consumed: Seq::empty(),
            opened_at: 0,
        }
    }

    /// What [`VadProcessor::reset`] leaves: idle, with empty buffers, and
    /// the capacity as it was.
    pub open spec fn cleared(self) -> ProcessorState {
        ProcessorState {
            in_speech: false,
            pre_roll: Seq::empty(),
            speech: Seq::empty(),
            consumed: Seq::empty(),
            opened_at: 0,
            ..self
        }
    }

    /// The capacity in force.
    pub open spec fn effective_capacity(self) -> nat {
        match self.capacity {
            Some(c) => c as nat,
            None => DEFAULT_PRE_ROLL_CHUNKS as nat,
        }
    }

    /// The state once `chunk`'s length has been looked at: the first chunk
    /// of positive length fixes the capacity.
    pub open spec fn learn_capacity(self, chunk: AudioChunk) -> ProcessorState {
        if self.capacity is None && chunk.spec_duration_ms() > 0 {
            ProcessorState {
                capacity: Some(
                    pre_roll_capacity(self.pre_roll_ms, chunk.spec_duration_ms()) as usize,
                ),
                ..self
            }
        } else {
            self
        }
    }

    /// The transition on one classified chunk, the capacity being settled:
    /// the next state and, where a segment closes, its chunks.
    pub open spec fn transition(self, chunk: AudioChunk, decision: VadDecision) -> (
        ProcessorState,
        Option<Seq<AudioChunk>>,
    ) {
        let consumed = self.consumed.push(chunk);
        if !self.in_speech {
            match decision {
                VadDecision::Silence => (
                    ProcessorState {
                        pre_roll: keep_last(self.pre_roll.push(chunk), self.effective_capacity()),
                        consumed,
                        ..self
                    },
                    None,
                ),
                VadDecision::Speech => (
                    ProcessorState {
                        in_speech: true,
                        pre_roll: Seq::empty(),
                        speech: self.pre_roll.push(chunk),
                        consumed,
                        opened_at: self.consumed.len(),
                        ..self
                    },
                    None,
                ),
            }
        } else {
            match decision {
                VadDecision::Speech => (
                    ProcessorState { speech: self.speech.push(chunk), consumed, ..self },
                    None,
                ),
                VadDecision::Silence => (self.cleared(), Some(self.speech.push(chunk))),
            }
        }
    }

    /// One step: the capacity is settled from the chunk, then the
    /// transition is taken.
    pub open spec fn step(self, chunk: AudioChunk, decision: VadDecision) -> (
        ProcessorState,
        Option<Seq<AudioChunk>>,
    ) {
        self.learn_capacity(chunk).transition(chunk, decision)
    }

    /// What holds of every state that can be reached: while idle there is
    /// no open segment and the pre-roll is the tail of what was consumed;
    /// while in speech the pre-roll is empty and the open segment is the
    /// tail of what was consumed, from no later than its first speech
    /// chunk.
    pub open spec fn inv(self) -> bool {
        if self.in_speech {
            &&& self.pre_roll.len() == 0
            &&& is_suffix(self.speech, self.consumed)
            &&& self.opened_at < self.consumed.len()
            &&& self.consumed.len() - self.speech.len() <= self.opened_at
        } else {
            &&& self.speech.len() == 0
            &&& is_suffix(self.pre_roll, self.consumed)
        }
    }
}

/// Whether `outcome` is what a step that emits `emitted` hands back.
pub open spec fn outcome_matches(
    outcome: Option<SpeechSegment>,
    emitted: Option<Seq<AudioChunk>>,
) -> bool {
    match emitted {
        Some(chunks) => outcome matches Some(segment) && segment.is_segment_of(chunks),
        None => outcome is None,
    }
}

/// A suffix stays a suffix when the same item is appended to both.
pub proof fn lemma_suffix_push<T>(tail: Seq<T>, whole: Seq<T>, item: T)
    requires
        is_suffix(tail, whole),
    ensures
        is_suffix(tail.push(item), whole.push(item)),
{
    assert(whole.push(item).skip(whole.len() + 1 - (tail.len() + 1)) =~= whole.skip(
        whole.len() - tail.len(),
    ).push(item));
}

/// The last items of a suffix are a suffix.
pub proof fn lemma_suffix_keep_last<T>(tail: Seq<T>, whole: Seq<T>, n: nat)
    requires
        is_suffix(tail, whole),
    ensures
        is_suffix(keep_last(tail, n), whole),
{
    if tail.len() > n {
        assert(whole.skip(whole.len() - n) =~= whole.skip(whole.len() - tail.len()).skip(
            tail.len() - n,
        ));
    }
}

/// Appending to the last items and cutting again is appending to the
/// whole and cutting once.
pub proof fn lemma_keep_last_push<T>(s: Seq<T>, item: T, n: nat)
    ensures
        keep_last(keep_last(s, n).push(item), n) == keep_last(s.push(item), n),
{
    assert(keep_last(keep_last(s, n).push(item), n) =~= keep_last(s.push(item), n));
}

/// The pre-roll capacity is no more than the pre-roll's milliseconds.
pub proof fn lemma_pre_roll_capacity_bound(pre_roll_ms: u32, chunk_ms: nat)
    requires
        chunk_ms > 0,
    ensures
        pre_roll_capacity(pre_roll_ms, chunk_ms) <= pre_roll_ms,
{
    let pre = pre_roll_ms as nat;
    assert(pre_roll_capacity(pre_roll_ms, chunk_ms) <= pre) by (nonlinear_arith)
        requires
            chunk_ms > 0,
            pre_roll_capacity(pre_roll_ms, chunk_ms) == if pre % chunk_ms == 0 {
                pre / chunk_ms
            } else {
                pre / chunk_ms + 1
            },
    ;
}

/// Every step keeps the invariant.
pub proof fn lemma_step_keeps_inv(state: ProcessorState, chunk: AudioChunk, decision: VadDecision)
    requires
        state.inv(),
    ensures
        state.step(chunk, decision).0.inv(),
        state.learn_capacity(chunk).inv(),
{
    let settled = state.learn_capacity(chunk);
    let next = state.step(chunk, decision).0;
    if !settled.in_speech {
        lemma_suffix_push(settled.pre_roll, settled.consumed, chunk);
        match decision {
            VadDecision::Silence => {
                lemma_suffix_keep_last(
                    settled.pre_roll.push(chunk),
                    settled.consumed.push(chunk),
                    settled.effective_capacity(),
                );
            },
            VadDecision::Speech => {},
        }
    } else {
        lemma_suffix_push(settled.speech, settled.consumed, chunk);
        match decision {
            VadDecision::Speech => {},
            VadDecision::Silence => {
                assert(next.consumed.skip(0) =~= next.pre_roll);
            },
        }
    }
}

/// What an emitted segment is made of: the chunks consumed since the last
/// emission or reset, the closing chunk included, without a run of
/// pre-roll chunks that all came before the segment's first speech chunk.
/// As multisets: the segment and that run together are what was consumed.
pub proof fn lemma_emitted_segment(
    state: ProcessorState,
    chunk: AudioChunk,
    decision: VadDecision,
)
    requires
        state.inv(),
        state.step(chunk, decision).1 is Some,
    ensures
        ({
            let emitted = state.step(chunk, decision).1->Some_0;
            let consumed = state.consumed.push(chunk);
            let dropped = consumed.len() - emitted.len();
            &&& state.in_speech
            &&& decision == VadDecision::Silence
            &&& emitted.len() >= 2
            &&& emitted.last() == chunk
            &&& 0 <= dropped <= state.opened_at
            &&& emitted == consumed.skip(dropped)
            &&& consumed == consumed.take(dropped) + emitted
            &&& consumed.to_multiset() == consumed.take(dropped).to_multiset().add(
                emitted.to_multiset(),
            )
            &&& state.step(chunk, decision).0.consumed.len() == 0
        }),
{
    let settled = state.learn_capacity(chunk);
    let emitted = state.step(chunk, decision).1->Some_0;
    let consumed = state.consumed.push(chunk);
    let dropped = consumed.len() - emitted.len();
    lemma_suffix_push(settled.speech, settled.consumed, chunk);
    assert(consumed =~= consumed.take(dropped) + consumed.skip(dropped));
    vstd::seq_lib::lemma_multiset_commutative(consumed.take(dropped), emitted);
}

impl ProcessorState {
    /// A run of classified chunks, in order: the state it leaves and the
    /// segments it emits, in the order they close.
    pub open spec fn assemble(self, chunks: Seq<AudioChunk>, decisions: Seq<VadDecision>) -> (
        ProcessorState,
        Seq<Seq<AudioChunk>>,
    )
        recommends
            chunks.len() == decisions.len(),
        decreases chunks.len(),
    {
        if chunks.len() == 0 {
            (self, Seq::empty())
        } else {
            let (mid, emitted) = self.assemble(chunks.drop_last(), decisions.drop_last());
            let (end, out) = mid.step(chunks.last(), decisions.last());
            (
                end,
                match out {
                    Some(segment) => emitted.push(segment),
                    None => emitted,
                },
            )
        }
    }
}

/// Whether every chunk lasts `chunk_ms` milliseconds.
pub open spec fn all_last(chunks: Seq<AudioChunk>, chunk_ms: nat) -> bool {
    forall|i: int| 0 <= i < chunks.len() ==> (#[trigger] chunks[i]).spec_duration_ms() == chunk_ms
}

impl ProcessorState {
    /// The pre-roll capacity for chunks of `chunk_ms` milliseconds.
    pub open spec fn capacity_for(self, chunk_ms: nat) -> nat {
        pre_roll_capacity(self.pre_roll_ms, chunk_ms)
    }

    /// What an open segment holds, or a segment that closes, given what
    /// was consumed since the last emission or reset: the last chunks
    /// ahead of the opening chunk, as many as cover the pre-roll or all
    /// there were, and every chunk from the opening chunk on.
    pub open spec fn with_pre_roll(self, consumed: Seq<AudioChunk>, chunk_ms: nat) -> Seq<
        AudioChunk,
    > {
        keep_last(consumed.take(self.opened_at as int), self.capacity_for(chunk_ms))
            + consumed.skip(self.opened_at as int)
    }

    /// What holds of every state reached with chunks of `chunk_ms`
    /// milliseconds, whatever the detector said of them: the capacity is
    /// open or the number of chunks that cover the pre-roll; while idle,
    /// the pre-roll holds the last of the chunks consumed since the last
    /// emission or reset, as many as the capacity or all there were;
    /// while in speech, the open segment holds the pre-roll as it was
    /// ahead of the opening chunk and every chunk from that one on.
    pub open spec fn keeps_pre_roll(self, chunk_ms: nat) -> bool {
        &&& chunk_ms > 0
        &&& self.inv()
        &&& (self.capacity is None || self.capacity == Some(self.capacity_for(chunk_ms) as usize))
        &&& if self.in_speech {
            self.speech == self.with_pre_roll(self.consumed, chunk_ms)
        } else {
            self.pre_roll == keep_last(self.consumed, self.capacity_for(chunk_ms))
        }
    }
}

/// A fresh assembler keeps its pre-roll, and so does one that is reset
/// after chunks of this length.
pub proof fn lemma_fresh_keeps_pre_roll(
    config: VadProcessorConfig,
    state: ProcessorState,
    chunk_ms: nat,
)
    requires
        chunk_ms > 0,
    ensures
        ProcessorState::initial(config).keeps_pre_roll(chunk_ms),
        state.keeps_pre_roll(chunk_ms) ==> state.cleared().keeps_pre_roll(chunk_ms),
{
    let fresh = ProcessorState::initial(config);
    assert(fresh.consumed.skip(0) =~= fresh.pre_roll);
    assert(fresh.pre_roll =~= keep_last(fresh.consumed, fresh.capacity_for(chunk_ms)));
    if state.keeps_pre_roll(chunk_ms) {
        let cleared = state.cleared();
        assert(cleared.consumed.skip(0) =~= cleared.pre_roll);
        assert(cleared.pre_roll =~= keep_last(cleared.consumed, cleared.capacity_for(chunk_ms)));
    }
}

/// The pre-roll of every segment, for any detector and after any number
/// of segments: one step with a chunk of `chunk_ms` milliseconds keeps
/// what [`ProcessorState::keeps_pre_roll`] says, whatever the decision.
/// Where the step emits a segment, the segment holds, in capture order,
/// the last chunks consumed while idle since the last emission or reset,
/// as many as cover the pre-roll or all there were, then the opening
/// chunk and every chunk up to the closing one; the chunks dropped are
/// the oldest of those consumed while idle.
#[verifier::rlimit(40)]
pub proof fn lemma_step_keeps_pre_roll(
    state: ProcessorState,
    chunk: AudioChunk,
    decision: VadDecision,
    chunk_ms: nat,
)
    requires
        state.keeps_pre_roll(chunk_ms),
        chunk.spec_duration_ms() == chunk_ms,
    ensures
        state.step(chunk, decision).0.keeps_pre_roll(chunk_ms),
        state.step(chunk, decision).0.pre_roll_ms == state.pre_roll_ms,
        state.step(chunk, decision).1 matches Some(segment) ==> {
            &&& state.in_speech
            &&& state.opened_at < state.consumed.len()
            &&& segment == state.with_pre_roll(state.consumed.push(chunk), chunk_ms)
            &&& segment.len() == (if state.opened_at > state.capacity_for(chunk_ms) {
                state.capacity_for(chunk_ms)
            } else {
                state.opened_at
            }) + (state.consumed.len() + 1 - state.opened_at)
        },
{
    let capacity = state.capacity_for(chunk_ms);
    let settled = state.learn_capacity(chunk);
    let next = state.step(chunk, decision).0;
    let consumed = state.consumed.push(chunk);
    lemma_step_keeps_inv(state, chunk, decision);
    lemma_pre_roll_capacity_bound(state.pre_roll_ms, chunk_ms);
    assert(settled.effective_capacity() == capacity);
    if !state.in_speech {
        match decision {
            VadDecision::Silence => {
                lemma_keep_last_push(state.consumed, chunk, capacity);
            },
            VadDecision::Speech => {
                assert(consumed.take(state.consumed.len() as int) =~= state.consumed);
                assert(consumed.skip(state.consumed.len() as int) =~= seq![chunk]);
                assert(next.speech =~= next.with_pre_roll(next.consumed, chunk_ms));
            },
        }
    } else {
        let opened = state.opened_at as int;
        assert(consumed.take(opened) =~= state.consumed.take(opened));
        assert(consumed.skip(opened) =~= state.consumed.skip(opened).push(chunk));
        assert(state.speech.push(chunk) =~= state.with_pre_roll(consumed, chunk_ms));
        match decision {
            VadDecision::Speech => {},
            VadDecision::Silence => {
                assert(next.consumed.skip(0) =~= next.pre_roll);
                assert(next.pre_roll =~= keep_last(next.consumed, capacity));
            },
        }
    }
}

/// Every run of classified chunks of one length keeps the pre-roll: see
/// [`lemma_step_keeps_pre_roll`].
pub proof fn lemma_run_keeps_pre_roll(
    start: ProcessorState,
    chunks: Seq<AudioChunk>,
    decisions: Seq<VadDecision>,
    chunk_ms: nat,
)
    requires
        start.keeps_pre_roll(chunk_ms),
        chunks.len() == decisions.len(),
        all_last(chunks, chunk_ms),
    ensures
        start.assemble(chunks, decisions).0.keeps_pre_roll(chunk_ms),
        start.assemble(chunks, decisions).0.pre_roll_ms == start.pre_roll_ms,
    decreases chunks.len(),
{
    if chunks.len() > 0 {
        let front = chunks.drop_last();
        assert(all_last(front, chunk_ms)) by {
            assert forall|i: int| 0 <= i < front.len() implies (#[trigger] front[i]).spec_duration_ms()
                == chunk_ms by {
                assert(front[i] == chunks[i]);
            }
        }
        lemma_run_keeps_pre_roll(start, front, decisions.drop_last(), chunk_ms);
        assert(chunks[chunks.len() - 1].spec_duration_ms() == chunk_ms);
        lemma_step_keeps_pre_roll(
            start.assemble(front, decisions.drop_last()).0,
            chunks.last(),
            decisions.last(),
            chunk_ms,
        );
    }
}

/// Whether the chunks' capture times never go back.
pub open spec fn in_time_order(chunks: Seq<AudioChunk>) -> bool {
    forall|i: int, j: int|
        0 <= i < j < chunks.len() ==> chunks[i].timestamp <= chunks[j].timestamp
}

/// Where the last of the marked runs ends; zero where there is none.
pub open spec fn last_end(marks: Seq<(int, int)>) -> int {
    if marks.len() == 0 {
        0
    } else {
        marks.last().1
    }
}

/// Whether `marks` place the segments in `chunks`: each segment is a run
/// of `chunks` that is not empty, and the runs follow one another without
/// overlap.
pub open spec fn placed(
    emitted: Seq<Seq<AudioChunk>>,
    chunks: Seq<AudioChunk>,
    marks: Seq<(int, int)>,
) -> bool {
    &&& marks.len() == emitted.len()
    &&& forall|k: int|
        0 <= k < marks.len() ==> 0 <= (#[trigger] marks[k]).0 < marks[k].1 <= chunks.len()
            && emitted[k] == chunks.subrange(marks[k].0, marks[k].1)
    &&& forall|k: int| 0 <= k && k + 1 < marks.len() ==> marks[k].1 <= (#[trigger] marks[k + 1]).0
}

/// Segments are runs of what was consumed, in capture order, and no chunk
/// is in two of them: from a state that has consumed nothing since the
/// last emission or reset, every run of classified chunks emits segments
/// that can be placed in the run one after the other. What has been
/// consumed since the last of them is the rest of the run.
pub proof fn lemma_segments_are_runs(
    start: ProcessorState,
    chunks: Seq<AudioChunk>,
    decisions: Seq<VadDecision>,
) -> (marks: Seq<(int, int)>)
    requires
        start.inv(),
        start.consumed.len() == 0,
        chunks.len() == decisions.len(),
    ensures
        start.assemble(chunks, decisions).0.inv(),
        placed(start.assemble(chunks, decisions).1, chunks, marks),
        last_end(marks) <= chunks.len(),
        start.assemble(chunks, decisions).0.consumed == chunks.skip(last_end(marks)),
    decreases chunks.len(),
{
    if chunks.len() == 0 {
        let marks = Seq::<(int, int)>::empty();
        assert(start.consumed =~= chunks.skip(0));
        marks
    } else {
        let front = chunks.drop_last();
        let chunk = chunks.last();
        let decision = decisions.last();
        let before = lemma_segments_are_runs(start, front, decisions.drop_last());
        let (mid, emitted) = start.assemble(front, decisions.drop_last());
        let (end, out) = mid.step(chunk, decision);
        lemma_step_keeps_inv(mid, chunk, decision);
        let m = last_end(before);
        assert(mid.consumed.push(chunk) =~= chunks.skip(m));
        assert forall|k: int| 0 <= k < before.len() implies emitted[k] == chunks.subrange(
            (#[trigger] before[k]).0,
            before[k].1,
        ) by {
            assert(front.subrange(before[k].0, before[k].1) =~= chunks.subrange(
                before[k].0,
                before[k].1,
            ));
        }
        match out {
            Some(segment) => {
                lemma_emitted_segment(mid, chunk, decision);
                let consumed = mid.consumed.push(chunk);
                let dropped = consumed.len() - segment.len();
                let from = m + dropped;
                assert(segment =~= chunks.subrange(from, chunks.len() as int));
                let marks = before.push((from, chunks.len() as int));
                assert(end.consumed =~= chunks.skip(chunks.len() as int));
                assert forall|k: int| 0 <= k && k + 1 < marks.len() implies marks[k].1 <= (
                #[trigger] marks[k + 1]).0 by {
                    if k + 1 < before.len() {
                        assert(before[k].1 <= before[k + 1].0);
                    }
                }
                marks
            },
            None => {
                assert(end.consumed == mid.consumed.push(chunk));
                before
            },
        }
    }
}

/// Segments come out in time order: where the chunks' capture times never
/// go back, neither do the start times of the segments emitted, in the
/// order they are emitted.
pub proof fn lemma_segments_in_time_order(
    start: ProcessorState,
    chunks: Seq<AudioChunk>,
    decisions: Seq<VadDecision>,
)
    requires
        start.inv(),
        start.consumed.len() == 0,
        chunks.len() == decisions.len(),
        in_time_order(chunks),
    ensures
        forall|i: int, j: int|
            #![trigger start.assemble(chunks, decisions).1[i], start.assemble(chunks, decisions).1[j]]
            0 <= i < j < start.assemble(chunks, decisions).1.len() ==> {
                let emitted = start.assemble(chunks, decisions).1;
                &&& emitted[i].len() > 0
                &&& emitted[j].len() > 0
                &&& emitted[i][0].timestamp <= emitted[j][0].timestamp
            },
{
    let marks = lemma_segments_are_runs(start, chunks, decisions);
    let emitted = start.assemble(chunks, decisions).1;
    assert forall|i: int, j: int| 0 <= i < j < emitted.len() implies emitted[i].len() > 0
        && emitted[j].len() > 0 && emitted[i][0].timestamp <= emitted[j][0].timestamp by {
        lemma_marks_rise(marks, i, j);
        assert(emitted[i][0] == chunks[marks[i].0]);
        assert(emitted[j][0] == chunks[marks[j].0]);
    }
}

/// Runs that follow one another start one after the other.
proof fn lemma_marks_rise(marks: Seq<(int, int)>, i: int, j: int)
    requires
        forall|k: int| 0 <= k < marks.len() ==> (#[trigger] marks[k]).0 < marks[k].1,
        forall|k: int| 0 <= k && k + 1 < marks.len() ==> marks[k].1 <= (#[trigger] marks[k + 1]).0,
        0 <= i < j < marks.len(),
    ensures
        marks[i].0 < marks[j].0,
    decreases j - i,
{
    if i + 1 < j {
        lemma_marks_rise(marks, i, j - 1);
        assert(marks[j - 1].1 <= marks[j - 1 + 1].0);
    } else {
        assert(marks[i].1 <= marks[i + 1].0);
    }
}

/// Assembles classified chunks into speech segments.
pub struct VadProcessor<D: VadDetector> {
    config: VadProcessorConfig,
    detector: D,
    in_speech: bool,
    pre_roll_buffer: VecDeque<AudioChunk>,
    speech_buffer: Vec<AudioChunk>,
    max_pre_roll_chunks: Option<usize>,
    consumed: Ghost<Seq<AudioChunk>>,
    opened_at: Ghost<nat>,
}

impl<D: VadDetector> View for VadProcessor<D> {
    type V = ProcessorState;

    closed spec fn view(&self) -> ProcessorState {
        ProcessorState {
            pre_roll_ms: self.config.pre_roll_ms,
            in_speech: self.in_speech,
            pre_roll: self.pre_roll_buffer@,
            speech: self.speech_buffer@,
            capacity: self.max_pre_roll_chunks,
            consumed: self.consumed@,
            opened_at: self.opened_at@,
        }
    }
}

impl<D: VadDetector> VadProcessor<D> {
    /// The detector the assembler asks.
    pub closed spec fn detector(&self) -> D {
        self.detector
    }

    /// The settings the assembler was made with.
    pub closed spec fn config(&self) -> VadProcessorConfig {
        self.config
    }

    /// Whether the assembler's state is one that can be reached.
    pub open spec fn wf(&self) -> bool {
        self@.inv() && self@.pre_roll_ms == self.config().pre_roll_ms
    }

    /// An idle assembler around `detector`.
    pub fn new(config: VadProcessorConfig, detector: D) -> (processor: Self)
        ensures
            processor.wf(),
            processor@ == ProcessorState::initial(config),
            processor.detector() == detector,
            processor.config() == config,
    {
        let processor = VadProcessor {
            config,
            detector,
            in_speech: false,
            pre_roll_buffer: VecDeque::new(),
            speech_buffer: Vec::new(),
            max_pre_roll_chunks: None,
            consumed: Ghost(Seq::empty()),
            opened_at: Ghost(0),
        };
        assert(processor@.consumed.skip(0) =~= processor@.pre_roll);
        processor
    }

    /// Settles the pre-roll capacity from the first chunk of positive
    /// length.
    fn settle_capacity(&mut self, chunk: &AudioChunk)
        ensures
            final(self)@ == old(self)@.learn_capacity(*chunk),
            final(self).detector == old(self).detector,
            final(self).config == old(self).config,
    {
        if self.max_pre_roll_chunks.is_none() && !chunk.is_empty() {
            let chunk_ms: u64 = chunk.duration_ms();
            if chunk_ms > 0 {
                let pre: u64 = self.config.pre_roll_ms as u64;
                let whole: u64 = pre / chunk_ms;
                let capacity: u64 = if pre % chunk_ms == 0 {
                    whole
                } else {
                    whole + 1
                };
                assert(capacity <= pre) by (nonlinear_arith)
                    requires
                        chunk_ms > 0,
                        whole == pre / chunk_ms,
                        capacity == if pre % chunk_ms == 0 {
                            whole
                        } else {
                            (whole + 1) as u64
                        },
                ;
                self.max_pre_roll_chunks = Some(capacity as usize);
            }
        }
    }

    /// Takes one chunk with the decision made of it: buffers it, opens a
    /// segment or closes one. Returns the segment when one closes.
    pub fn apply(&mut self, chunk: AudioChunk, decision: VadDecision) -> (outcome: Option<
        SpeechSegment,
    >)
        requires
            old(self).wf(),
        ensures
            final(self).wf(),
            final(self)@ == old(self)@.step(chunk, decision).0,
            outcome_matches(outcome, old(self)@.step(chunk, decision).1),
            final(self).detector() == old(self).detector(),
            final(self).config() == old(self).config(),
    {
        proof {
            lemma_step_keeps_inv(self@, chunk, decision);
        }
        self.settle_capacity(&chunk);
        self.transit(chunk, decision)
    }

    /// The transition proper, the capacity being settled.
    fn transit(&mut self, chunk: AudioChunk, decision: VadDecision) -> (outcome: Option<
        SpeechSegment,
    >)
        requires
            old(self)@.inv(),
        ensures
            final(self)@ == old(self)@.transition(chunk, decision).0,
            outcome_matches(outcome, old(self)@.transition(chunk, decision).1),
            final(self).detector == old(self).detector,
            final(self).config == old(self).config,
    {
        let ghost before = self@;
        let ghost item = chunk;
        if !self.in_speech {
            match decision {
                VadDecision::Silence => {
                    self.pre_roll_buffer.push_back(chunk);
                    let capacity: usize = match self.max_pre_roll_chunks {
                        Some(c) => c,
                        None => DEFAULT_PRE_ROLL_CHUNKS,
                    };
                    let ghost grown = self.pre_roll_buffer@;
                    while self.pre_roll_buffer.len() > capacity
                        invariant
                            grown.len() >= self.pre_roll_buffer@.len(),
                            self.pre_roll_buffer@.len() >= capacity
                                || self.pre_roll_buffer@.len() == grown.len(),
                            self.pre_roll_buffer@ == grown.skip(
                                grown.len() - self.pre_roll_buffer@.len(),
                            ),
                            self.in_speech == old(self).in_speech,
                            self.speech_buffer == old(self).speech_buffer,
                            self.max_pre_roll_chunks == old(self).max_pre_roll_chunks,
                            self.config == old(self).config,
                            self.detector == old(self).detector,
                            self.consumed == old(self).consumed,
                            self.opened_at == old(self).opened_at,
                        decreases self.pre_roll_buffer@.len(),
                    {
                        let ghost held = self.pre_roll_buffer@;
                        let _ = self.pre_roll_buffer.pop_front();
                        assert(self.pre_roll_buffer@ =~= grown.skip(grown.len() - (held.len() - 1)));
                    }
                    assert(self.pre_roll_buffer@ =~= keep_last(grown, capacity as nat)) by {
                        assert(grown.skip(0) =~= grown);
                    }
                    self.consumed = Ghost(before.consumed.push(item));
                    None
                },
                VadDecision::Speech => {
                    self.in_speech = true;
                    assert(self.speech_buffer@ + self.pre_roll_buffer@ =~= before.pre_roll);
                    while self.pre_roll_buffer.len() > 0
                        invariant
                            self.speech_buffer@ + self.pre_roll_buffer@ == before.pre_roll,
                            self.in_speech,
                            self.max_pre_roll_chunks == old(self).max_pre_roll_chunks,
                            self.config == old(self).config,
                            self.detector == old(self).detector,
                            self.consumed == old(self).consumed,
                            self.opened_at == old(self).opened_at,
                        decreases self.pre_roll_buffer@.len(),
                    {
                        let ghost moved = self.speech_buffer@;
                        let ghost held = self.pre_roll_buffer@;
                        match self.pre_roll_buffer.pop_front() {
                            Some(earlier) => {
                                self.speech_buffer.push(earlier);
                                assert(self.speech_buffer@ + self.pre_roll_buffer@ =~= moved
                                    + held);
                            },
                            None => {},
                        }
                    }
                    assert(self.speech_buffer@ =~= before.pre_roll);
                    assert(self.pre_roll_buffer@ =~= Seq::<AudioChunk>::empty());
                    self.speech_buffer.push(chunk);
                    self.opened_at = Ghost(before.consumed.len());
                    self.consumed = Ghost(before.consumed.push(item));
                    None
                },
            }
        } else {
            self.speech_buffer.push(chunk);
            match decision {
                VadDecision::Speech => {
                    self.consumed = Ghost(before.consumed.push(item));
                    None
                },
                VadDecision::Silence => {
                    let mut chunks: Vec<AudioChunk> = Vec::new();
                    std::mem::swap(&mut chunks, &mut self.speech_buffer);
                    let segment = SpeechSegment::new(chunks);
                    self.in_speech = false;
                    self.pre_roll_buffer.clear();
                    self.consumed = Ghost(Seq::empty());
                    self.opened_at = Ghost(0);
                    assert(self.speech_buffer@ =~= Seq::<AudioChunk>::empty());
                    Some(segment)
                },
            }
        }
    }

    /// Whether `process`, called on `pre` with `chunk`, may leave `post`
    /// behind and return `result`, the detector's verdict being `verdict`:
    /// the detector was asked once; on a decision the step for it was
    /// taken, on a failure the chunk was dropped and the error handed on.
    pub open spec fn processed(
        pre: Self,
        chunk: AudioChunk,
        post: Self,
        result: Result<Option<SpeechSegment>, Error>,
        verdict: Result<VadDecision, Error>,
    ) -> bool {
        &&& D::detects(&pre.detector(), &chunk, &post.detector(), verdict)
        &&& match verdict {
            Ok(decision) => {
                &&& result matches Ok(outcome)
                &&& post@ == pre@.step(chunk, decision).0
                &&& outcome_matches(outcome, pre@.step(chunk, decision).1)
            },
            Err(e) => {
                &&& result == Err::<Option<SpeechSegment>, Error>(e)
                &&& post@ == pre@.learn_capacity(chunk)
            },
        }
    }

    /// Classifies one chunk with the detector and takes it in. Returns the
    /// segment when one closes. Where the detector fails, its error is
    /// returned and the chunk is dropped.
    pub fn process(&mut self, chunk: AudioChunk) -> (result: Result<Option<SpeechSegment>, Error>)
        requires
            old(self).wf(),
        ensures
            final(self).wf(),
            final(self).config() == old(self).config(),
            exists|verdict: Result<VadDecision, Error>|
                Self::processed(*old(self), chunk, *final(self), result, verdict),
    {
        proof {
            lemma_step_keeps_inv(self@, chunk, VadDecision::Speech);
        }
        self.settle_capacity(&chunk);
        let ghost settled = self@;
        let verdict = self.detector.detect(&chunk);
        assert(self@ == settled);
        match verdict {
            Ok(decision) => {
                proof {
                    lemma_step_keeps_inv(old(self)@, chunk, decision);
                }
                let outcome = self.transit(chunk, decision);
                let result = Ok(outcome);
                assert(Self::processed(*old(self), chunk, *self, result, verdict));
                result
            },
            Err(e) => {
                let result = Err(e);
                assert(Self::processed(*old(self), chunk, *self, result, verdict));
                result
            },
        }
    }

    /// Empties both buffers, returns to idle and resets the detector.
    pub fn reset(&mut self)
        ensures
            final(self).wf(),
            final(self)@ == old(self)@.cleared(),
            D::resets(&old(self).detector(), &final(self).detector()),
            final(self).config() == old(self).config(),
    {
        self.in_speech = false;
        self.pre_roll_buffer.clear();
        self.speech_buffer.clear();
        self.consumed = Ghost(Seq::empty());
        self.opened_at = Ghost(0);
        self.detector.reset();
        assert(self@.consumed.skip(0) =~= self@.pre_roll);
        assert(self@ =~= old(self)@.cleared());
    }

    /// Whether a segment is open.
    pub fn is_in_speech(&self) -> (b: bool)
        ensures
            b == self@.in_speech,
    {
        self.in_speech
    }

    /// The detector's name.
    pub fn detector_name(&self) -> (name: &str)
        ensures
            self.detector().is_named(name),
    {
        self.detector.name()
    }
}

} // verus!
