//! The energy detector and the segment assembler taken together: what a
//! run of chunks makes them emit.

use super::detector::VadDecision;
use super::energy::{lemma_isqrt_unique, rms_energy, square_sum, EnergyVadConfig, EnergyVadState};
use super::processor::{
    all_last, keep_last, lemma_keep_last_push, lemma_pre_roll_capacity_bound, pre_roll_capacity,
    ProcessorState, VadProcessorConfig,
};
use crate::audio::buffer::{AudioChunk, Sample};
use vstd::prelude::*;

verus! {

/// The detector, the assembler and the segments emitted so far.
pub struct PipelineState {
    pub detector: EnergyVadState,
    pub processor: ProcessorState,
    pub emitted: Seq<Seq<AudioChunk>>,
}

impl PipelineState {
    /// A fresh detector and an idle assembler.
    pub open spec fn initial(vad: EnergyVadConfig, config: VadProcessorConfig) -> PipelineState {
        PipelineState {
            detector: EnergyVadState::initial(vad),
            processor: ProcessorState::initial(config),
            emitted: Seq::empty(),
        }
    }

    /// One chunk through the detector and then the assembler.
    pub open spec fn step(self, chunk: AudioChunk) -> PipelineState {
        let (detector, decision) = self.detector.detect(chunk.samples@);
        let (processor, out) = self.processor.step(chunk, decision);
        PipelineState {
            detector,
            processor,
            emitted: match out {
                Some(segment) => self.emitted.push(segment),
                None => self.emitted,
            },
        }
    }

    /// A run of chunks, in order.
    pub open spec fn run(self, chunks: Seq<AudioChunk>) -> PipelineState
        decreases chunks.len(),
    {
        if chunks.len() == 0 {
            self
        } else {
            self.run(chunks.drop_last()).step(chunks.last())
        }
    }

    /// Whether `chunk` is above the threshold in force when it arrives.
    pub open spec fn hears_speech(self, chunk: AudioChunk) -> bool {
        self.detector.is_above(chunk.samples@)
    }
}

/// Whether every sample is zero.
pub open spec fn is_silent(samples: Seq<Sample>) -> bool {
    forall|i: int| 0 <= i < samples.len() ==> samples[i] == 0
}

/// How many chunks above the threshold it takes to enter speech: the
/// configured number, and one at least.
pub open spec fn speech_chunks_needed(vad: EnergyVadConfig) -> nat {
    if vad.min_speech_chunks == 0 {
        1
    } else {
        vad.min_speech_chunks as nat
    }
}

/// A run of zeros has no energy.
pub proof fn lemma_silent_energy(samples: Seq<Sample>)
    requires
        is_silent(samples),
    ensures
        square_sum(samples) == 0,
        rms_energy(samples) == 0,
    decreases samples.len(),
{
    if samples.len() > 0 {
        lemma_silent_energy(samples.drop_last());
        assert(0nat * 0nat <= 0 && 0 < (0nat + 1) * (0nat + 1)) by (nonlinear_arith);
        lemma_isqrt_unique(0, 0);
    }
}

/// A chunk of zeros is never above the threshold.
pub proof fn lemma_silent_not_above(state: EnergyVadState, samples: Seq<Sample>)
    requires
        is_silent(samples),
    ensures
        !state.is_above(samples),
{
    lemma_silent_energy(samples);
}

/// Silence yields nothing: a detector outside speech and an idle
/// assembler, fed chunks that are not above the threshold, stay as they
/// are and emit no segment.
pub proof fn lemma_quiet_run_emits_nothing(state: PipelineState, chunks: Seq<AudioChunk>)
    requires
        state.detector.current_state == VadDecision::Silence,
        !state.processor.in_speech,
        forall|i: int|
            0 <= i < chunks.len() ==> !#[trigger] state.run(chunks.take(i)).hears_speech(
                chunks[i],
            ),
    ensures
        state.run(chunks).emitted == state.emitted,
        state.run(chunks).detector.current_state == VadDecision::Silence,
        !state.run(chunks).processor.in_speech,
    decreases chunks.len(),
{
    if chunks.len() > 0 {
        let front = chunks.drop_last();
        assert forall|i: int| 0 <= i < front.len() implies !#[trigger] state.run(
            front.take(i),
        ).hears_speech(front[i]) by {
            assert(front.take(i) =~= chunks.take(i));
        }
        lemma_quiet_run_emits_nothing(state, front);
        assert(chunks.take(chunks.len() - 1) =~= front);
        assert(!state.run(chunks.take(chunks.len() - 1)).hears_speech(chunks[chunks.len() - 1]));
    }
}

/// Feeding a purely silent signal never emits a segment: from a fresh
/// detector and an idle assembler, a run of chunks whose samples are all
/// zero emits nothing.
pub proof fn lemma_silence_emits_nothing(
    vad: EnergyVadConfig,
    config: VadProcessorConfig,
    chunks: Seq<AudioChunk>,
)
    requires
        forall|i: int| 0 <= i < chunks.len() ==> is_silent(#[trigger] chunks[i].samples@),
    ensures
        PipelineState::initial(vad, config).run(chunks).emitted.len() == 0,
{
    let state = PipelineState::initial(vad, config);
    assert forall|i: int| 0 <= i < chunks.len() implies !#[trigger] state.run(
        chunks.take(i),
    ).hears_speech(chunks[i]) by {
        lemma_silent_not_above(state.run(chunks.take(i)).detector, chunks[i].samples@);
    }
    lemma_quiet_run_emits_nothing(state, chunks);
}

/// Whether each of `chunks` is above the threshold when it arrives, the
/// pipeline having been fed `before` and then the chunks ahead of it.
pub open spec fn all_heard(
    start: PipelineState,
    before: Seq<AudioChunk>,
    chunks: Seq<AudioChunk>,
) -> bool {
    forall|i: int|
        0 <= i < chunks.len() ==> #[trigger] start.run(before + chunks.take(i)).hears_speech(
            chunks[i],
        )
}

/// Whether none of `chunks` is above the threshold when it arrives, the
/// pipeline having been fed `before` and then the chunks ahead of it.
pub open spec fn none_heard(
    start: PipelineState,
    before: Seq<AudioChunk>,
    chunks: Seq<AudioChunk>,
) -> bool {
    forall|i: int|
        0 <= i < chunks.len() ==> !#[trigger] start.run(before + chunks.take(i)).hears_speech(
            chunks[i],
        )
}

impl PipelineState {
    /// Whether the pipeline is at rest, as it is at a fresh start and
    /// after every segment it has emitted: the detector is in silence and
    /// counts no speech, and the assembler is idle.
    pub open spec fn at_rest(self) -> bool {
        &&& self.detector.current_state == VadDecision::Silence
        &&& self.detector.speech_count == 0
        &&& !self.processor.in_speech
        &&& self.processor.inv()
    }

    /// The pre-roll capacity for chunks of `chunk_ms` milliseconds.
    pub open spec fn capacity_for(self, chunk_ms: nat) -> nat {
        pre_roll_capacity(self.processor.pre_roll_ms, chunk_ms)
    }

    /// Whether the assembler's capacity is open, or settled for chunks of
    /// `chunk_ms` milliseconds.
    pub open spec fn fits(self, chunk_ms: nat) -> bool {
        &&& chunk_ms > 0
        &&& (self.processor.capacity is None || self.processor.capacity == Some(
            self.capacity_for(chunk_ms) as usize,
        ))
    }

    /// Whether the assembler is ready for chunks of `chunk_ms`
    /// milliseconds, as it is at a fresh start and after every segment
    /// emitted from such chunks: its capacity fits and its pre-roll is
    /// within it.
    pub open spec fn settled_for(self, chunk_ms: nat) -> bool {
        self.fits(chunk_ms) && self.processor.pre_roll.len() <= self.capacity_for(chunk_ms)
    }
}

/// The chunks an utterance's segment begins with: the last chunks ahead
/// of the one that opens it, as many as the pre-roll holds, and the loud
/// chunks from that one on. The chunks ahead are what the pre-roll held
/// at the start, the lead, and the loud chunks that the detector counted
/// before it entered speech.
pub open spec fn utterance_head(
    start: PipelineState,
    lead: Seq<AudioChunk>,
    loud: Seq<AudioChunk>,
    chunk_ms: nat,
) -> Seq<AudioChunk> {
    let counted = speech_chunks_needed(start.detector.config) - 1;
    keep_last(
        start.processor.pre_roll + lead + loud.take(counted),
        start.capacity_for(chunk_ms),
    ) + loud.skip(counted)
}

/// A run of two parts is the run of the second after the first.
pub proof fn lemma_run_concat(start: PipelineState, first: Seq<AudioChunk>, then: Seq<AudioChunk>)
    ensures
        start.run(first + then) == start.run(first).run(then),
    decreases then.len(),
{
    if then.len() == 0 {
        assert(first + then =~= first);
    } else {
        lemma_run_concat(start, first, then.drop_last());
        assert((first + then).drop_last() =~= first + then.drop_last());
    }
}

/// What is heard after a first part is what is heard from the state the
/// first part leaves.
pub proof fn lemma_heard_after(
    start: PipelineState,
    first: Seq<AudioChunk>,
    before: Seq<AudioChunk>,
    chunks: Seq<AudioChunk>,
)
    ensures
        all_heard(start, first + before, chunks) == all_heard(start.run(first), before, chunks),
        none_heard(start, first + before, chunks) == none_heard(start.run(first), before, chunks),
{
    assert forall|i: int| 0 <= i < chunks.len() implies start.run(
        first + before + chunks.take(i),
    ) == start.run(first).run(before + chunks.take(i)) by {
        lemma_run_concat(start, first, before + chunks.take(i));
        assert(first + (before + chunks.take(i)) =~= first + before + chunks.take(i));
    }
}

/// The settings stay as they are through every run.
pub proof fn lemma_run_keeps_settings(start: PipelineState, chunks: Seq<AudioChunk>)
    ensures
        start.run(chunks).detector.config == start.detector.config,
        start.run(chunks).processor.pre_roll_ms == start.processor.pre_roll_ms,
    decreases chunks.len(),
{
    if chunks.len() > 0 {
        lemma_run_keeps_settings(start, chunks.drop_last());
    }
}

/// Whether the energy of every chunk exceeds `threshold`.
pub open spec fn all_above(chunks: Seq<AudioChunk>, threshold: u32) -> bool {
    forall|i: int| 0 <= i < chunks.len() ==> rms_energy((#[trigger] chunks[i]).samples@) > threshold
}

/// Whether the energy of no chunk exceeds `threshold`.
pub open spec fn none_above(chunks: Seq<AudioChunk>, threshold: u32) -> bool {
    forall|i: int|
        0 <= i < chunks.len() ==> rms_energy((#[trigger] chunks[i]).samples@) <= threshold
}

/// With a fixed threshold a chunk is heard as speech where its energy
/// exceeds the threshold, and only there, whatever came before.
pub proof fn lemma_fixed_threshold(
    start: PipelineState,
    before: Seq<AudioChunk>,
    chunks: Seq<AudioChunk>,
)
    requires
        !start.detector.config.adaptive,
    ensures
        all_above(chunks, start.detector.config.threshold) ==> all_heard(start, before, chunks),
        none_above(chunks, start.detector.config.threshold) ==> none_heard(start, before, chunks),
{
    assert forall|i: int| 0 <= i < chunks.len() implies #[trigger] start.run(
        before + chunks.take(i),
    ).hears_speech(chunks[i]) == (rms_energy(chunks[i].samples@)
        > start.detector.config.threshold) by {
        lemma_run_keeps_settings(start, before + chunks.take(i));
    }
    if all_above(chunks, start.detector.config.threshold) {
        assert forall|i: int| 0 <= i < chunks.len() implies #[trigger] start.run(
            before + chunks.take(i),
        ).hears_speech(chunks[i]) by {
            assert(rms_energy(chunks[i].samples@) > start.detector.config.threshold);
        }
    }
    if none_above(chunks, start.detector.config.threshold) {
        assert forall|i: int| 0 <= i < chunks.len() implies !#[trigger] start.run(
            before + chunks.take(i),
        ).hears_speech(chunks[i]) by {
            assert(rms_energy(chunks[i].samples@) <= start.detector.config.threshold);
        }
    }
}

/// One chunk more keeps what holds of a run's chunks ahead of it.
proof fn lemma_heard_front(start: PipelineState, before: Seq<AudioChunk>, chunks: Seq<AudioChunk>)
    requires
        chunks.len() > 0,
    ensures
        all_heard(start, before, chunks) ==> all_heard(start, before, chunks.drop_last())
            && start.run(before + chunks.drop_last()).hears_speech(chunks.last()),
        none_heard(start, before, chunks) ==> none_heard(start, before, chunks.drop_last())
            && !start.run(before + chunks.drop_last()).hears_speech(chunks.last()),
        (before + chunks).drop_last() == before + chunks.drop_last(),
        forall|chunk_ms: nat|
            all_last(chunks, chunk_ms) ==> #[trigger] all_last(chunks.drop_last(), chunk_ms)
                && chunks.last().spec_duration_ms() == chunk_ms,
{
    let front = chunks.drop_last();
    assert((before + chunks).drop_last() =~= before + front);
    assert(chunks.take(chunks.len() - 1) =~= front);
    if all_heard(start, before, chunks) {
        assert forall|i: int| 0 <= i < front.len() implies #[trigger] start.run(
            before + front.take(i),
        ).hears_speech(front[i]) by {
            assert(front.take(i) =~= chunks.take(i));
            assert(start.run(before + chunks.take(i)).hears_speech(chunks[i]));
        }
        assert(start.run(before + chunks.take(chunks.len() - 1)).hears_speech(
            chunks[chunks.len() - 1],
        ));
    }
    if none_heard(start, before, chunks) {
        assert forall|i: int| 0 <= i < front.len() implies !#[trigger] start.run(
            before + front.take(i),
        ).hears_speech(front[i]) by {
            assert(front.take(i) =~= chunks.take(i));
            assert(!start.run(before + chunks.take(i)).hears_speech(chunks[i]));
        }
        assert(!start.run(before + chunks.take(chunks.len() - 1)).hears_speech(
            chunks[chunks.len() - 1],
        ));
    }
    assert forall|chunk_ms: nat| all_last(chunks, chunk_ms) implies #[trigger] all_last(
        front,
        chunk_ms,
    ) && chunks.last().spec_duration_ms() == chunk_ms by {
        assert forall|i: int| 0 <= i < front.len() implies (#[trigger] front[i]).spec_duration_ms()
            == chunk_ms by {
            assert(front[i] == chunks[i]);
        }
        assert(chunks[chunks.len() - 1].spec_duration_ms() == chunk_ms);
    }
}

/// What one chunk does to an idle assembler whose pre-roll holds the last
/// of the chunks `ahead`: classified as silence it joins the pre-roll;
/// classified as speech it opens a segment that begins with the pre-roll.
proof fn lemma_idle_step(
    state: PipelineState,
    ahead: Seq<AudioChunk>,
    chunk: AudioChunk,
    chunk_ms: nat,
)
    requires
        state.fits(chunk_ms),
        chunk.spec_duration_ms() == chunk_ms,
        !state.processor.in_speech,
        state.processor.pre_roll == keep_last(ahead, state.capacity_for(chunk_ms)),
    ensures
        ({
            let capacity = state.capacity_for(chunk_ms);
            let quiet = state.processor.step(chunk, VadDecision::Silence).0;
            let open = state.processor.step(chunk, VadDecision::Speech).0;
            &&& quiet.capacity == Some(capacity as usize)
            &&& quiet.pre_roll == keep_last(ahead.push(chunk), capacity)
            &&& quiet.pre_roll.len() <= capacity
            &&& open.capacity == Some(capacity as usize)
            &&& open.speech == keep_last(ahead, capacity).push(chunk)
        }),
{
    let capacity = state.capacity_for(chunk_ms);
    lemma_pre_roll_capacity_bound(state.processor.pre_roll_ms, chunk_ms);
    lemma_keep_last_push(ahead, chunk, capacity);
    assert(state.processor.learn_capacity(chunk).effective_capacity() == capacity);
}

/// While no chunk is above the threshold, from a pipeline at rest: the
/// detector stays in silence and counts nothing, the assembler stays idle
/// and keeps the last chunks as pre-roll, and nothing is emitted.
pub proof fn lemma_lead_run(start: PipelineState, lead: Seq<AudioChunk>, chunk_ms: nat)
    requires
        start.at_rest(),
        none_heard(start, Seq::empty(), lead),
    ensures
        ({
            let end = start.run(lead);
            &&& end.emitted == start.emitted
            &&& end.detector.config == start.detector.config
            &&& end.processor.pre_roll_ms == start.processor.pre_roll_ms
            &&& end.detector.silence_count == start.detector.silence_count
            &&& end.at_rest()
            &&& start.settled_for(chunk_ms) && all_last(lead, chunk_ms) ==> {
                &&& end.settled_for(chunk_ms)
                &&& end.processor.pre_roll == keep_last(
                    start.processor.pre_roll + lead,
                    start.capacity_for(chunk_ms),
                )
            }
        }),
    decreases lead.len(),
{
    let capacity = start.capacity_for(chunk_ms);
    let held = start.processor.pre_roll;
    if lead.len() == 0 {
        assert(held + lead =~= held);
    } else {
        let front = lead.drop_last();
        let empty = Seq::<AudioChunk>::empty();
        lemma_heard_front(start, empty, lead);
        assert(empty + front =~= front);
        assert(empty + lead =~= lead);
        lemma_lead_run(start, front, chunk_ms);
        let mid = start.run(front);
        assert(!mid.hears_speech(lead.last()));
        let decision = mid.detector.detect(lead.last().samples@).1;
        super::processor::lemma_step_keeps_inv(mid.processor, lead.last(), decision);
        if start.settled_for(chunk_ms) && all_last(lead, chunk_ms) {
            assert(all_last(front, chunk_ms));
            lemma_idle_step(mid, held + front, lead.last(), chunk_ms);
            assert((held + front).push(lead.last()) =~= held + lead);
        }
    }
}

/// After a lead that is not above the threshold, while the chunks are
/// above it: before enough of them have come the detector counts them and
/// the assembler stays idle, keeping them as pre-roll; from then on both
/// are in speech, and the open segment is the head of the utterance.
/// Nothing is emitted.
pub proof fn lemma_loud_run(
    start: PipelineState,
    lead: Seq<AudioChunk>,
    loud: Seq<AudioChunk>,
    chunk_ms: nat,
)
    requires
        start.at_rest(),
        none_heard(start, Seq::empty(), lead),
        all_heard(start, lead, loud),
    ensures
        ({
            let end = start.run(lead + loud);
            let uniform = start.settled_for(chunk_ms) && all_last(lead, chunk_ms) && all_last(
                loud,
                chunk_ms,
            );
            &&& end.emitted == start.emitted
            &&& end.detector.config == start.detector.config
            &&& end.processor.pre_roll_ms == start.processor.pre_roll_ms
            &&& loud.len() > 0 ==> end.detector.silence_count == 0
            &&& end.processor.inv()
            &&& uniform ==> end.fits(chunk_ms)
            &&& if loud.len() < speech_chunks_needed(start.detector.config) {
                &&& end.detector.current_state == VadDecision::Silence
                &&& end.detector.speech_count == loud.len()
                &&& !end.processor.in_speech
                &&& uniform ==> end.processor.pre_roll == keep_last(
                    start.processor.pre_roll + lead + loud,
                    start.capacity_for(chunk_ms),
                )
            } else {
                &&& end.detector.current_state == VadDecision::Speech
                &&& end.processor.in_speech
                &&& uniform ==> end.processor.speech == utterance_head(start, lead, loud, chunk_ms)
            }
        }),
    decreases loud.len(),
{
    let capacity = start.capacity_for(chunk_ms);
    let held = start.processor.pre_roll;
    let uniform = start.settled_for(chunk_ms) && all_last(lead, chunk_ms) && all_last(
        loud,
        chunk_ms,
    );
    if loud.len() == 0 {
        lemma_lead_run(start, lead, chunk_ms);
        assert(lead + loud =~= lead);
        assert(held + lead + loud =~= held + lead);
    } else {
        let front = loud.drop_last();
        let chunk = loud.last();
        lemma_heard_front(start, lead, loud);
        lemma_loud_run(start, lead, front, chunk_ms);
        let mid = start.run(lead + front);
        assert(mid.hears_speech(chunk));
        let decision = mid.detector.detect(chunk.samples@).1;
        super::processor::lemma_step_keeps_inv(mid.processor, chunk, decision);
        if uniform {
            assert(all_last(front, chunk_ms));
            let counted = speech_chunks_needed(start.detector.config) - 1;
            if front.len() <= counted {
                lemma_idle_step(mid, held + lead + front, chunk, chunk_ms);
                assert((held + lead + front).push(chunk) =~= held + lead + loud);
                if front.len() == counted {
                    assert(loud.take(counted) =~= front);
                    assert(loud.skip(counted) =~= seq![chunk]);
                    assert(keep_last(held + lead + front, capacity).push(chunk) =~= keep_last(
                        held + lead + front,
                        capacity,
                    ) + seq![chunk]);
                }
            } else {
                assert(front.take(counted) =~= loud.take(counted));
                assert(front.skip(counted).push(chunk) =~= loud.skip(counted));
                assert(utterance_head(start, lead, front, chunk_ms).push(chunk) =~= utterance_head(
                    start,
                    lead,
                    loud,
                    chunk_ms,
                ));
            }
        }
    }
}

/// After the loud chunks, while the chunks are not above the threshold:
/// until enough of them have come both stay in speech, the open segment
/// grows and nothing is emitted; the last of them closes exactly one
/// segment, which is the head of the utterance and these chunks, and
/// leaves the pipeline at rest with an empty pre-roll.
pub proof fn lemma_closing_run(
    start: PipelineState,
    lead: Seq<AudioChunk>,
    loud: Seq<AudioChunk>,
    quiet: Seq<AudioChunk>,
    chunk_ms: nat,
)
    requires
        start.at_rest(),
        loud.len() >= speech_chunks_needed(start.detector.config),
        1 <= start.detector.config.min_silence_chunks,
        quiet.len() <= start.detector.config.min_silence_chunks,
        none_heard(start, Seq::empty(), lead),
        all_heard(start, lead, loud),
        none_heard(start, lead + loud, quiet),
    ensures
        ({
            let end = start.run(lead + loud + quiet);
            let uniform = start.settled_for(chunk_ms) && all_last(lead, chunk_ms) && all_last(
                loud,
                chunk_ms,
            ) && all_last(quiet, chunk_ms);
            let head = utterance_head(start, lead, loud, chunk_ms);
            &&& end.detector.config == start.detector.config
            &&& end.processor.pre_roll_ms == start.processor.pre_roll_ms
            &&& end.processor.inv()
            &&& uniform ==> end.fits(chunk_ms)
            &&& if quiet.len() < start.detector.config.min_silence_chunks {
                &&& end.emitted == start.emitted
                &&& end.detector.current_state == VadDecision::Speech
                &&& end.detector.silence_count == quiet.len()
                &&& end.processor.in_speech
                &&& uniform ==> end.processor.speech == head + quiet
            } else {
                &&& end.emitted.len() == start.emitted.len() + 1
                &&& end.emitted.drop_last() == start.emitted
                &&& end.at_rest()
                &&& end.processor.pre_roll.len() == 0
                &&& uniform ==> end.emitted.last() == head + quiet
            }
        }),
    decreases quiet.len(),
{
    let head = utterance_head(start, lead, loud, chunk_ms);
    let uniform = start.settled_for(chunk_ms) && all_last(lead, chunk_ms) && all_last(
        loud,
        chunk_ms,
    ) && all_last(quiet, chunk_ms);
    if quiet.len() == 0 {
        lemma_loud_run(start, lead, loud, chunk_ms);
        assert(lead + loud + quiet =~= lead + loud);
        assert(head + quiet =~= head);
    } else {
        let front = quiet.drop_last();
        let chunk = quiet.last();
        lemma_heard_front(start, lead + loud, quiet);
        lemma_closing_run(start, lead, loud, front, chunk_ms);
        let mid = start.run(lead + loud + front);
        assert(!mid.hears_speech(chunk));
        let decision = mid.detector.detect(chunk.samples@).1;
        super::processor::lemma_step_keeps_inv(mid.processor, chunk, decision);
        let end = start.run(lead + loud + quiet);
        if quiet.len() == start.detector.config.min_silence_chunks {
            assert(end.emitted.drop_last() =~= start.emitted);
        }
        if uniform {
            assert(all_last(front, chunk_ms));
            lemma_pre_roll_capacity_bound(start.processor.pre_roll_ms, chunk_ms);
            assert((head + front).push(chunk) =~= head + quiet);
        }
    }
}

/// Chunks of zeros are not above the threshold, whatever came before.
pub proof fn lemma_silent_run_is_not_heard(
    start: PipelineState,
    before: Seq<AudioChunk>,
    chunks: Seq<AudioChunk>,
)
    requires
        forall|i: int| 0 <= i < chunks.len() ==> is_silent(#[trigger] chunks[i].samples@),
    ensures
        none_heard(start, before, chunks),
{
    assert forall|i: int| 0 <= i < chunks.len() implies !#[trigger] start.run(
        before + chunks.take(i),
    ).hears_speech(chunks[i]) by {
        lemma_silent_not_above(start.run(before + chunks.take(i)).detector, chunks[i].samples@);
    }
}

/// A fresh detector and an idle assembler are at rest, and ready for
/// chunks of any length.
pub proof fn lemma_fresh_start(vad: EnergyVadConfig, config: VadProcessorConfig, chunk_ms: nat)
    ensures
        PipelineState::initial(vad, config).at_rest(),
        PipelineState::initial(vad, config).emitted.len() == 0,
        PipelineState::initial(vad, config).processor.pre_roll.len() == 0,
        chunk_ms > 0 ==> PipelineState::initial(vad, config).settled_for(chunk_ms),
{
    let start = PipelineState::initial(vad, config);
    assert(start.processor.consumed.skip(0) =~= start.processor.pre_roll);
}

/// One utterance, one segment: from a pipeline at rest (a fresh one, or
/// one that has emitted a segment), a silent lead, then chunks that are
/// above the threshold, as many as it takes to enter speech or more, then
/// `min_silence_chunks` silent chunks make the pipeline emit exactly one
/// segment, at the last chunk, and leave it at rest. The detector has to
/// ask for one silent chunk at least: with none, nothing follows the
/// speech and the segment stays open.
pub proof fn lemma_utterance_emits_one_segment(
    start: PipelineState,
    lead: Seq<AudioChunk>,
    loud: Seq<AudioChunk>,
    quiet: Seq<AudioChunk>,
)
    requires
        start.at_rest(),
        loud.len() >= 1,
        loud.len() >= start.detector.config.min_speech_chunks,
        start.detector.config.min_silence_chunks >= 1,
        quiet.len() == start.detector.config.min_silence_chunks,
        forall|i: int| 0 <= i < lead.len() ==> is_silent(#[trigger] lead[i].samples@),
        all_heard(start, lead, loud),
        forall|j: int| 0 <= j < quiet.len() ==> is_silent(#[trigger] quiet[j].samples@),
    ensures
        start.run(lead + loud + quiet).emitted.len() == start.emitted.len() + 1,
        start.run(lead + loud + quiet.drop_last()).emitted == start.emitted,
        start.run(lead + loud + quiet).at_rest(),
{
    lemma_silent_run_is_not_heard(start, Seq::empty(), lead);
    lemma_silent_run_is_not_heard(start, lead + loud, quiet);
    lemma_closing_run(start, lead, loud, quiet, 0);
    lemma_heard_front(start, lead + loud, quiet);
    lemma_closing_run(start, lead, loud, quiet.drop_last(), 0);
}

/// What the segment of an utterance holds. Chunks of one length are fed
/// to a pipeline at rest (a fresh one, or one that has emitted a segment
/// from such chunks): a lead that is not above the threshold, then chunks
/// above it, as many as it takes to enter speech or more, then
/// `min_silence_chunks` chunks that are not. The one segment emitted is,
/// in capture order: the last chunks ahead of the one that opened it, as
/// many as cover the pre-roll or as many as there were; every loud chunk
/// from that one on; and the closing chunks. The chunks ahead are what
/// the pre-roll held at the start, the lead, and the loud chunks that the
/// detector counted before it entered speech. The pipeline is at rest
/// again, ready for the next utterance, with an empty pre-roll.
pub proof fn lemma_utterance_segment(
    start: PipelineState,
    lead: Seq<AudioChunk>,
    loud: Seq<AudioChunk>,
    quiet: Seq<AudioChunk>,
    chunk_ms: nat,
)
    requires
        start.at_rest(),
        start.settled_for(chunk_ms),
        all_last(lead, chunk_ms),
        all_last(loud, chunk_ms),
        all_last(quiet, chunk_ms),
        loud.len() >= 1,
        loud.len() >= start.detector.config.min_speech_chunks,
        start.detector.config.min_silence_chunks >= 1,
        quiet.len() == start.detector.config.min_silence_chunks,
        none_heard(start, Seq::empty(), lead),
        all_heard(start, lead, loud),
        none_heard(start, lead + loud, quiet),
    ensures
        ({
            let end = start.run(lead + loud + quiet);
            let counted = speech_chunks_needed(start.detector.config) - 1;
            let capacity = start.capacity_for(chunk_ms);
            let ahead = start.processor.pre_roll + lead + loud.take(counted);
            let segment = utterance_head(start, lead, loud, chunk_ms) + quiet;
            &&& end.emitted == start.emitted.push(segment)
            &&& segment.len() == (if ahead.len() > capacity {
                capacity
            } else {
                ahead.len()
            }) + (loud.len() - counted) + quiet.len()
            &&& end.at_rest()
            &&& end.settled_for(chunk_ms)
            &&& end.processor.pre_roll.len() == 0
            &&& end.detector.config == start.detector.config
            &&& end.processor.pre_roll_ms == start.processor.pre_roll_ms
        }),
{
    lemma_closing_run(start, lead, loud, quiet, chunk_ms);
    let end = start.run(lead + loud + quiet);
    let segment = utterance_head(start, lead, loud, chunk_ms) + quiet;
    assert(end.emitted =~= end.emitted.drop_last().push(end.emitted.last()));
}

/// What has been emitted stays emitted: the segments emitted by a first
/// part of a run are the first of those emitted by the whole run.
pub proof fn lemma_emitted_grows(start: PipelineState, first: Seq<AudioChunk>, then: Seq<AudioChunk>)
    ensures
        start.run(first).emitted.len() <= start.run(first + then).emitted.len(),
        start.run(first + then).emitted.take(start.run(first).emitted.len() as int) == start.run(
            first,
        ).emitted,
    decreases then.len(),
{
    let early = start.run(first).emitted;
    if then.len() == 0 {
        assert(first + then =~= first);
        assert(early.take(early.len() as int) =~= early);
    } else {
        lemma_emitted_grows(start, first, then.drop_last());
        assert((first + then).drop_last() =~= first + then.drop_last());
        let mid = start.run(first + then.drop_last()).emitted;
        let late = start.run(first + then).emitted;
        assert(late.take(early.len() as int) =~= mid.take(early.len() as int));
    }
}

/// Between two points of a run at which the same segments have been
/// emitted, those are the segments emitted at every point.
pub proof fn lemma_emitted_between(start: PipelineState, chunks: Seq<AudioChunk>, lo: int, hi: int)
    requires
        0 <= lo <= hi <= chunks.len(),
        start.run(chunks.take(lo)).emitted == start.run(chunks.take(hi)).emitted,
    ensures
        forall|n: int|
            lo <= n <= hi ==> (#[trigger] start.run(chunks.take(n))).emitted == start.run(
                chunks.take(lo),
            ).emitted,
{
    let early = start.run(chunks.take(lo)).emitted;
    assert forall|n: int| lo <= n <= hi implies (#[trigger] start.run(chunks.take(n))).emitted
        == early by {
        let here = start.run(chunks.take(n)).emitted;
        lemma_emitted_grows(start, chunks.take(lo), chunks.subrange(lo, n));
        assert(chunks.take(lo) + chunks.subrange(lo, n) =~= chunks.take(n));
        lemma_emitted_grows(start, chunks.take(n), chunks.subrange(n, hi));
        assert(chunks.take(n) + chunks.subrange(n, hi) =~= chunks.take(hi));
        assert(here =~= early);
    }
}

/// A prefix of a run that reaches into its second part is the first
/// part and a prefix of the second.
pub proof fn lemma_run_take(
    start: PipelineState,
    first: Seq<AudioChunk>,
    then: Seq<AudioChunk>,
    n: int,
)
    requires
        first.len() <= n <= first.len() + then.len(),
    ensures
        start.run((first + then).take(n)) == start.run(first).run(then.take(n - first.len())),
{
    lemma_run_concat(start, first, then.take(n - first.len()));
    assert(first + then.take(n - first.len()) =~= (first + then).take(n));
}

/// A silent run emits nothing at any point, from a pipeline at rest.
pub proof fn lemma_silent_tail(start: PipelineState, tail: Seq<AudioChunk>)
    requires
        start.at_rest(),
        forall|j: int| 0 <= j < tail.len() ==> is_silent(#[trigger] tail[j].samples@),
    ensures
        forall|n: int|
            0 <= n <= tail.len() ==> (#[trigger] start.run(tail.take(n))).emitted == start.emitted,
{
    assert forall|n: int| 0 <= n <= tail.len() implies (#[trigger] start.run(
        tail.take(n),
    )).emitted == start.emitted by {
        lemma_silent_run_is_not_heard(start, Seq::empty(), tail.take(n));
        lemma_lead_run(start, tail.take(n), 0);
    }
}

/// One utterance, step by step. Chunks of one length are fed to a
/// pipeline at rest and ready for them: a lead that is not above the
/// threshold, then chunks above it, as many as it takes to enter speech
/// or more, then `min_silence_chunks` chunks that are not. Nothing is
/// emitted before the last chunk; the last chunk emits the utterance's
/// segment and leaves the pipeline at rest and ready.
pub proof fn lemma_utterance_steps(
    start: PipelineState,
    lead: Seq<AudioChunk>,
    loud: Seq<AudioChunk>,
    quiet: Seq<AudioChunk>,
    chunk_ms: nat,
)
    requires
        start.at_rest(),
        start.settled_for(chunk_ms),
        all_last(lead, chunk_ms),
        all_last(loud, chunk_ms),
        all_last(quiet, chunk_ms),
        loud.len() >= 1,
        loud.len() >= start.detector.config.min_speech_chunks,
        start.detector.config.min_silence_chunks >= 1,
        quiet.len() == start.detector.config.min_silence_chunks,
        none_heard(start, Seq::empty(), lead),
        all_heard(start, lead, loud),
        none_heard(start, lead + loud, quiet),
    ensures
        ({
            let chunks = lead + loud + quiet;
            let end = start.run(chunks);
            &&& forall|n: int|
                0 <= n < chunks.len() ==> (#[trigger] start.run(chunks.take(n))).emitted
                    == start.emitted
            &&& end.emitted == start.emitted.push(utterance_head(start, lead, loud, chunk_ms) + quiet)
            &&& end.at_rest()
            &&& end.settled_for(chunk_ms)
            &&& end.processor.pre_roll.len() == 0
            &&& end.detector.config == start.detector.config
            &&& end.processor.pre_roll_ms == start.processor.pre_roll_ms
        }),
{
    let chunks = lead + loud + quiet;
    lemma_utterance_segment(start, lead, loud, quiet, chunk_ms);
    lemma_heard_front(start, lead + loud, quiet);
    lemma_closing_run(start, lead, loud, quiet.drop_last(), chunk_ms);
    assert(lead + loud + quiet.drop_last() =~= chunks.take(chunks.len() - 1));
    assert(chunks.take(0) =~= Seq::<AudioChunk>::empty());
    lemma_emitted_between(start, chunks, 0, chunks.len() - 1);
}

/// A fresh pipeline with the default settings: a fixed threshold of 655,
/// two chunks to enter speech, three to leave it, and 300 ms of pre-roll.
pub open spec fn default_pipeline() -> PipelineState {
    PipelineState::initial(EnergyVadConfig::spec_default(), VadProcessorConfig::spec_default())
}

/// The length of the chunks in the scenarios below, in milliseconds.
pub open spec fn scenario_chunk_ms() -> nat {
    100
}

/// Whether `state` is a pipeline with the default settings, at rest with
/// an empty pre-roll and ready for the scenarios' chunks.
pub open spec fn ready_by_default(state: PipelineState) -> bool {
    &&& state.at_rest()
    &&& state.settled_for(scenario_chunk_ms())
    &&& state.processor.pre_roll.len() == 0
    &&& state.detector.config == EnergyVadConfig::spec_default()
    &&& state.processor.pre_roll_ms == VadProcessorConfig::spec_default().pre_roll_ms
}

/// An utterance with the default settings, step by step: a silent lead,
/// loud chunks and three silent chunks, all of 100 ms, fed to a pipeline
/// that is ready by default. Nothing is emitted before the last chunk.
/// The last chunk emits one segment: the last three chunks ahead of the
/// second loud chunk, or all there are, the loud chunks from the second
/// on, and the three silent chunks.
proof fn lemma_default_utterance(
    start: PipelineState,
    lead: Seq<AudioChunk>,
    loud: Seq<AudioChunk>,
    quiet: Seq<AudioChunk>,
)
    requires
        ready_by_default(start),
        loud.len() >= 2,
        quiet.len() == 3,
        all_last(lead, scenario_chunk_ms()),
        all_last(loud, scenario_chunk_ms()),
        all_last(quiet, scenario_chunk_ms()),
        forall|j: int| 0 <= j < lead.len() ==> is_silent(#[trigger] lead[j].samples@),
        all_above(loud, EnergyVadConfig::spec_default().threshold),
        forall|j: int| 0 <= j < quiet.len() ==> is_silent(#[trigger] quiet[j].samples@),
    ensures
        ({
            let chunks = lead + loud + quiet;
            let end = start.run(chunks);
            &&& forall|n: int|
                0 <= n < chunks.len() ==> (#[trigger] start.run(chunks.take(n))).emitted
                    == start.emitted
            &&& end.emitted == start.emitted.push(
                keep_last(lead + loud.take(1), 3) + loud.skip(1) + quiet,
            )
            &&& ready_by_default(end)
        }),
{
    let ms = scenario_chunk_ms();
    lemma_silent_run_is_not_heard(start, Seq::empty(), lead);
    lemma_fixed_threshold(start, lead, loud);
    lemma_silent_run_is_not_heard(start, lead + loud, quiet);
    lemma_utterance_steps(start, lead, loud, quiet, ms);
    assert(start.processor.pre_roll + lead + loud.take(1) =~= lead + loud.take(1));
}

/// A single utterance with the default settings. Ten chunks of 100 ms
/// whose energy exceeds the default threshold, followed by four silent
/// chunks, are fed to a fresh pipeline. Exactly one of the fourteen steps
/// emits a segment, the thirteenth: nothing is emitted before it and
/// nothing after it. The segment holds, in capture order, the ten loud
/// chunks and the three silent chunks it takes to leave speech.
pub proof fn lemma_single_utterance(loud: Seq<AudioChunk>, quiet: Seq<AudioChunk>)
    requires
        loud.len() == 10,
        quiet.len() == 4,
        all_last(loud, scenario_chunk_ms()),
        all_last(quiet, scenario_chunk_ms()),
        all_above(loud, EnergyVadConfig::spec_default().threshold),
        forall|j: int| 0 <= j < quiet.len() ==> is_silent(#[trigger] quiet[j].samples@),
    ensures
        forall|n: int|
            0 <= n <= 12 ==> (#[trigger] default_pipeline().run((loud + quiet).take(n))).emitted.len()
                == 0,
        forall|n: int|
            13 <= n <= 14 ==> (#[trigger] default_pipeline().run((loud + quiet).take(n))).emitted
                == seq![loud + quiet.take(3)],
        (loud + quiet.take(3)).len() == 13,
{
    let start = default_pipeline();
    let all = loud + quiet;
    let empty = Seq::<AudioChunk>::empty();
    let utterance = empty + loud + quiet.take(3);
    let tail = quiet.skip(3);
    lemma_fresh_start(
        EnergyVadConfig::spec_default(),
        VadProcessorConfig::spec_default(),
        scenario_chunk_ms(),
    );
    lemma_default_utterance(start, empty, loud, quiet.take(3));
    assert(keep_last(empty + loud.take(1), 3) + loud.skip(1) =~= loud);
    let once = start.run(utterance);
    assert(once.emitted =~= seq![loud + quiet.take(3)]);
    lemma_silent_tail(once, tail);
    assert(utterance + tail =~= all);
    assert forall|n: int| 0 <= n <= 12 implies (#[trigger] start.run(all.take(n))).emitted.len()
        == 0 by {
        assert(all.take(n) =~= utterance.take(n));
    }
    assert forall|n: int| 13 <= n <= 14 implies (#[trigger] start.run(all.take(n))).emitted
        == seq![loud + quiet.take(3)] by {
        lemma_run_take(start, utterance, tail, n);
    }
}

/// Two utterances with the default settings. Ten loud chunks, twenty
/// silent chunks, ten loud chunks and five silent chunks, all of 100 ms,
/// are fed to a fresh pipeline; the energy of the loud chunks exceeds the
/// default threshold. Exactly two of the forty-five steps emit a segment:
/// the thirteenth and the forty-third. The first segment holds the first
/// ten loud chunks and the three silent chunks behind them. The second
/// holds the last two chunks of the long silence, the second ten loud
/// chunks and the three silent chunks behind them. Both are runs of what
/// was fed, the first wholly before the second, so they are in capture
/// order and share no chunk.
#[verifier::rlimit(40)]
pub proof fn lemma_two_utterances(
    speech: Seq<AudioChunk>,
    pause: Seq<AudioChunk>,
    more: Seq<AudioChunk>,
    rest: Seq<AudioChunk>,
)
    requires
        speech.len() == 10,
        pause.len() == 20,
        more.len() == 10,
        rest.len() == 5,
        all_last(speech, scenario_chunk_ms()),
        all_last(pause, scenario_chunk_ms()),
        all_last(more, scenario_chunk_ms()),
        all_last(rest, scenario_chunk_ms()),
        all_above(speech, EnergyVadConfig::spec_default().threshold),
        all_above(more, EnergyVadConfig::spec_default().threshold),
        forall|j: int| 0 <= j < pause.len() ==> is_silent(#[trigger] pause[j].samples@),
        forall|j: int| 0 <= j < rest.len() ==> is_silent(#[trigger] rest[j].samples@),
    ensures
        ({
            let all = speech + pause + more + rest;
            let first = all.subrange(0, 13);
            let second = all.subrange(28, 43);
            &&& first == speech + pause.take(3)
            &&& second == pause.skip(18) + more + rest.take(3)
            &&& forall|n: int|
                0 <= n <= 12 ==> (#[trigger] default_pipeline().run(all.take(n))).emitted.len() == 0
            &&& forall|n: int|
                13 <= n <= 42 ==> (#[trigger] default_pipeline().run(all.take(n))).emitted
                    == seq![first]
            &&& forall|n: int|
                43 <= n <= 45 ==> (#[trigger] default_pipeline().run(all.take(n))).emitted
                    == seq![first, second]
        }),
{
    let start = default_pipeline();
    let all = speech + pause + more + rest;
    let empty = Seq::<AudioChunk>::empty();
    let first = speech + pause.take(3);
    let second = pause.skip(18) + more + rest.take(3);
    let one = empty + speech + pause.take(3);
    let two = pause.skip(3) + more + rest.take(3);
    let tail = rest.skip(3);
    assert(all.subrange(0, 13) =~= first);
    assert(all.subrange(28, 43) =~= second);
    assert(all =~= one + (two + tail));
    assert(all.take(43) =~= one + two);
    lemma_fresh_start(
        EnergyVadConfig::spec_default(),
        VadProcessorConfig::spec_default(),
        scenario_chunk_ms(),
    );
    lemma_default_utterance(start, empty, speech, pause.take(3));
    assert(keep_last(empty + speech.take(1), 3) + speech.skip(1) =~= speech);
    let once = start.run(one);
    assert(once.emitted =~= seq![first]);
    assert(all_last(pause.skip(3), scenario_chunk_ms())) by {
        assert forall|i: int| 0 <= i < pause.skip(3).len() implies (#[trigger] pause.skip(
            3,
        )[i]).spec_duration_ms() == scenario_chunk_ms() by {
            assert(pause.skip(3)[i] == pause[i + 3]);
        }
    }
    lemma_default_utterance(once, pause.skip(3), more, rest.take(3));
    assert(keep_last(pause.skip(3) + more.take(1), 3) + more.skip(1) =~= pause.skip(18) + more);
    let twice = once.run(two);
    assert(twice.emitted =~= seq![first, second]);
    lemma_silent_tail(twice, tail);
    lemma_run_concat(start, one, two);
    assert forall|n: int| 0 <= n <= 12 implies (#[trigger] start.run(all.take(n))).emitted.len()
        == 0 by {
        assert(all.take(n) =~= one.take(n));
    }
    assert forall|n: int| 13 <= n <= 42 implies (#[trigger] start.run(all.take(n))).emitted
        == seq![first] by {
        lemma_run_take(start, one, two + tail, n);
        assert((two + tail).take(n - 13) =~= two.take(n - 13));
    }
    assert forall|n: int| 43 <= n <= 45 implies (#[trigger] start.run(all.take(n))).emitted
        == seq![first, second] by {
        lemma_run_take(start, one + two, tail, n);
        assert(one + two + tail =~= all);
    }
}

} // verus!
