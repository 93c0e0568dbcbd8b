//! Capture rules: which settings are accepted, how large chunks and the
//! chunk ring are, how callback samples are cut into chunks, and what
//! follows each attempt to hand a chunk on.

use super::buffer::{concat_samples, AudioChunk, Sample};
use crate::text::{concat, concat3, decimal, decimal_string};
use crate::{Error, ErrorKind};
use vstd::prelude::*;

verus! {

/// The fewest chunks the ring is made for.
pub const MIN_RING_CHUNKS: u64 = 10;

/// How long the capture keeps quiet about dropped chunks after a warning,
/// in microseconds.
pub const DROP_WARNING_INTERVAL_US: u64 = 5_000_000;

/// Capture settings.
#[derive(Debug, Clone)]
pub struct CaptureConfig {
    /// The device's name, or "default".
    pub device_name: String,
    /// The sample rate chunks are delivered at.
    pub sample_rate: u32,
    /// The length of a chunk in milliseconds.
    pub chunk_duration_ms: u32,
    /// How many seconds of audio the ring holds.
    pub buffer_capacity_secs: u32,
}

/// Whether capture supports this sample rate.
pub open spec fn supported_sample_rate(rate: u32) -> bool {
    rate == 8000 || rate == 16000 || rate == 22050 || rate == 44100 || rate == 48000
}

/// What `validate` says of an unsupported sample rate.
pub open spec fn unsupported_rate_message(rate: u32) -> Seq<char> {
    "Unsupported sample rate "@ + decimal(rate as nat)
        + ". Supported values: [8000, 16000, 22050, 44100, 48000]"@
}

/// The samples in one chunk: `sample_rate * chunk_duration_ms / 1000`.
pub open spec fn chunk_samples(sample_rate: u32, chunk_duration_ms: u32) -> nat {
    (sample_rate as nat * chunk_duration_ms as nat) / 1000
}

/// The ring's size in chunks: enough chunks to hold
/// `buffer_capacity_secs` of audio, rounded up, and ten at least.
pub open spec fn ring_chunks(sample_rate: u32, chunk_duration_ms: u32, buffer_secs: u32) -> nat
    recommends
        chunk_samples(sample_rate, chunk_duration_ms) > 0,
{
    let total = sample_rate as nat * buffer_secs as nat;
    let per_chunk = chunk_samples(sample_rate, chunk_duration_ms);
    let needed = if total % per_chunk == 0 {
        total / per_chunk
    } else {
        total / per_chunk + 1
    };
    if needed < MIN_RING_CHUNKS {
        MIN_RING_CHUNKS as nat
    } else {
        needed
    }
}

impl Default for CaptureConfig {
    fn default() -> (config: Self)
        ensures
            config.device_name@ == "default"@,
            config.sample_rate == 16000,
            config.chunk_duration_ms == 200,
            config.buffer_capacity_secs == 2,
            config.spec_valid(),
    {
        CaptureConfig {
            device_name: "default".to_owned(),
            sample_rate: 16000,
            chunk_duration_ms: 200,
            buffer_capacity_secs: 2,
        }
    }
}

impl CaptureConfig {
    /// Whether the settings are within the accepted bounds.
    pub open spec fn spec_valid(&self) -> bool {
        &&& supported_sample_rate(self.sample_rate)
        &&& 10 <= self.chunk_duration_ms <= 1000
        &&& 1 <= self.buffer_capacity_secs <= 60
    }

    /// What is wrong with the settings, if anything: the sample rate is
    /// looked at first, then the chunk length, then the ring's capacity,
    /// and the first one out of bounds is named.
    pub open spec fn validation_error(&self) -> Option<Seq<char>> {
        if !supported_sample_rate(self.sample_rate) {
            Some(unsupported_rate_message(self.sample_rate))
        } else if !(10 <= self.chunk_duration_ms <= 1000) {
            Some("chunk_duration_ms must be between 10 and 1000"@)
        } else if !(1 <= self.buffer_capacity_secs <= 60) {
            Some("buffer_capacity_secs must be between 1 and 60"@)
        } else {
            None
        }
    }

    /// Checks the settings: `Ok` where they are within bounds, else a
    /// configuration error that names the first setting out of bounds.
    pub fn validate(&self) -> (result: Result<(), Error>)
        ensures
            result is Ok <==> self.spec_valid(),
            match self.validation_error() {
                None => result is Ok,
                Some(message) => {
                    &&& result matches Err(e)
                    &&& e.spec_kind() == crate::ErrorKind::Config
                    &&& e.spec_message() == message
                },
            },
    {
        let rate = self.sample_rate;
        if !(rate == 8000 || rate == 16000 || rate == 22050 || rate == 44100 || rate == 48000) {
            let number = decimal_string(rate as u64);
            return Err(
                Error::Config(
                    concat3(
                        "Unsupported sample rate ",
                        number.as_str(),
                        ". Supported values: [8000, 16000, 22050, 44100, 48000]",
                    ),
                ),
            );
        }
        if !(10 <= self.chunk_duration_ms && self.chunk_duration_ms <= 1000) {
            return Err(Error::Config("chunk_duration_ms must be between 10 and 1000".to_owned()));
        }
        if !(1 <= self.buffer_capacity_secs && self.buffer_capacity_secs <= 60) {
            return Err(Error::Config("buffer_capacity_secs must be between 1 and 60".to_owned()));
        }
        Ok(())
    }

    /// Whether the device is to be picked by the system.
    pub fn uses_default_device(&self) -> (b: bool)
        ensures
            b == (self.device_name@ == "default"@),
    {
        crate::text::same_text(self.device_name.as_str(), "default")
    }

    /// The number of samples in one chunk.
    pub fn chunk_size(&self) -> (n: usize)
        requires
            self.spec_valid(),
        ensures
            n == chunk_samples(self.sample_rate, self.chunk_duration_ms),
            80 <= n <= 48000,
    {
        let product: u64 = self.sample_rate as u64 * self.chunk_duration_ms as u64;
        (product / 1000) as usize
    }

    /// The number of chunks the ring is made for.
    pub fn ring_capacity(&self) -> (n: usize)
        requires
            self.spec_valid(),
        ensures
            n == ring_chunks(self.sample_rate, self.chunk_duration_ms, self.buffer_capacity_secs),
            10 <= n <= 36001,
    {
        let per_chunk: u64 = self.chunk_size() as u64;
        let total: u64 = self.sample_rate as u64 * self.buffer_capacity_secs as u64;
        let whole: u64 = total / per_chunk;
        assert(total <= 2880000) by (nonlinear_arith)
            requires
                total == self.sample_rate * self.buffer_capacity_secs,
                self.sample_rate <= 48000,
                self.buffer_capacity_secs <= 60,
        ;
        assert(whole <= 36000) by (nonlinear_arith)
            requires
                whole == total / per_chunk,
                total <= 2880000,
                per_chunk >= 80,
        ;
        let needed: u64 = if total % per_chunk == 0 {
            whole
        } else {
            whole + 1
        };
        if needed < MIN_RING_CHUNKS {
            MIN_RING_CHUNKS as usize
        } else {
            needed as usize
        }
    }
}

/// How an attempt to put a chunk into the ring ended.
#[derive(Debug, Clone, Copy, PartialEq, Eq, Structural)]
pub enum PushOutcome {
    /// The ring took the chunk.
    Delivered,
    /// The ring was full; the chunk is lost.
    Full,
    /// The consumer is gone.
    Closed,
}

/// What the capture callback does after an attempt.
#[derive(Debug, Clone, Copy, PartialEq, Eq, Structural)]
pub enum PushAction {
    /// Nothing to report.
    Continue,
    /// Report that the ring is full and this many chunks in a row were
    /// dropped.
    WarnDropped(u64),
    /// Report that the consumer is gone; no more chunks are produced.
    ReportClosed,
}

/// The concatenation of the runs, in order.
pub open spec fn concat_runs(runs: Seq<Vec<Sample>>) -> Seq<Sample>
    decreases runs.len(),
{
    if runs.len() == 0 {
        Seq::empty()
    } else {
        concat_runs(runs.drop_last()) + runs.last()@
    }
}

/// The capture callback's state, as contracts see it.
pub struct CaptureState {
    /// The length of one chunk, in milliseconds.
    pub chunk_duration_ms: u32,
    /// The samples in one chunk.
    pub chunk_size: nat,
    /// The rate chunks are delivered at.
    pub target_sample_rate: u32,
    /// The rate the device delivers.
    pub device_sample_rate: u32,
    /// Samples taken in and not yet cut into a chunk.
    pub pending: Seq<Sample>,
    /// Chunks dropped in a row on a full ring.
    pub dropped_chunks: u64,
    /// When the last warning was given.
    pub last_warning: u64,
    /// Whether the consumer is still there.
    pub channel_open: bool,
}

impl CaptureState {
    /// The state after an attempt at time `now` ended in `outcome`, and
    /// what the callback does about it.
    ///
    /// A delivery clears the count of dropped chunks. A full ring adds one
    /// to it, and is reported when five seconds have passed since the last
    /// report. A closed ring is reported once.
    pub open spec fn after_push(self, outcome: PushOutcome, now: u64) -> (CaptureState, PushAction) {
        match outcome {
            PushOutcome::Delivered => (
                CaptureState { dropped_chunks: 0, ..self },
                PushAction::Continue,
            ),
            PushOutcome::Full => {
                let dropped: u64 = if self.dropped_chunks < u64::MAX {
                    (self.dropped_chunks + 1) as u64
                } else {
                    self.dropped_chunks
                };
                if now >= self.last_warning && now - self.last_warning >= DROP_WARNING_INTERVAL_US {
                    (
                        CaptureState { dropped_chunks: dropped, last_warning: now, ..self },
                        PushAction::WarnDropped(dropped),
                    )
                } else {
                    (CaptureState { dropped_chunks: dropped, ..self }, PushAction::Continue)
                }
            },
            PushOutcome::Closed => (
                CaptureState { channel_open: false, ..self },
                if self.channel_open {
                    PushAction::ReportClosed
                } else {
                    PushAction::Continue
                },
            ),
        }
    }
}

impl CaptureState {
    /// The state after a run of attempts, each with its time.
    pub open spec fn after_pushes(self, attempts: Seq<(PushOutcome, u64)>) -> CaptureState
        decreases attempts.len(),
    {
        if attempts.len() == 0 {
            self
        } else {
            self.after_pushes(attempts.drop_last()).after_push(
                attempts.last().0,
                attempts.last().1,
            ).0
        }
    }

    /// The times at which a run of attempts was reported as dropping
    /// chunks.
    pub open spec fn warning_times(self, attempts: Seq<(PushOutcome, u64)>) -> Seq<u64>
        decreases attempts.len(),
    {
        if attempts.len() == 0 {
            Seq::empty()
        } else {
            let before = self.warning_times(attempts.drop_last());
            let action = self.after_pushes(attempts.drop_last()).after_push(
                attempts.last().0,
                attempts.last().1,
            ).1;
            if action is WarnDropped {
                before.push(attempts.last().1)
            } else {
                before
            }
        }
    }
}

/// Dropped chunks are reported once in five seconds at most: whatever
/// the attempts and their times, two reports that follow one another are
/// five seconds apart or more.
pub proof fn lemma_warnings_are_spaced(state: CaptureState, attempts: Seq<(PushOutcome, u64)>)
    ensures
        forall|i: int|
            0 <= i && i + 1 < state.warning_times(attempts).len() ==> (
            #[trigger] state.warning_times(attempts)[i + 1]) - state.warning_times(attempts)[i]
                >= DROP_WARNING_INTERVAL_US,
        state.warning_times(attempts).len() > 0 ==> state.after_pushes(attempts).last_warning
            == state.warning_times(attempts).last(),
        state.warning_times(attempts).len() == 0 ==> state.after_pushes(attempts).last_warning
            == state.last_warning,
    decreases attempts.len(),
{
    if attempts.len() > 0 {
        lemma_warnings_are_spaced(state, attempts.drop_last());
        let before = state.warning_times(attempts.drop_last());
        let times = state.warning_times(attempts);
        assert forall|i: int| 0 <= i && i + 1 < times.len() implies (#[trigger] times[i + 1])
            - times[i] >= DROP_WARNING_INTERVAL_US by {
            if i + 1 < before.len() {
                assert(before[i + 1] - before[i] >= DROP_WARNING_INTERVAL_US);
            }
        }
    }
}

/// The capture callback's bookkeeping: it cuts the device's samples into
/// chunks of the configured size and keeps count of dropped chunks.
pub struct ChunkAccumulator {
    chunk_duration_ms: u32,
    chunk_size: usize,
    target_sample_rate: u32,
    device_sample_rate: u32,
    pending: Vec<Sample>,
    dropped_chunks: u64,
    last_warning: u64,
    channel_open: bool,
}

impl View for ChunkAccumulator {
    type V = CaptureState;

    closed spec fn view(&self) -> CaptureState {
        CaptureState {
            chunk_duration_ms: self.chunk_duration_ms,
            chunk_size: self.chunk_size as nat,
            target_sample_rate: self.target_sample_rate,
            device_sample_rate: self.device_sample_rate,
            pending: self.pending@,
            dropped_chunks: self.dropped_chunks,
            last_warning: self.last_warning,
            channel_open: self.channel_open,
        }
    }
}

impl ChunkAccumulator {
    /// Whether the state is one that can be reached: a chunk has as many
    /// samples as its length takes at the delivery rate, one at least, and
    /// fewer than a chunk's worth are pending.
    pub open spec fn wf(&self) -> bool {
        &&& self@.chunk_size == chunk_samples(self@.target_sample_rate, self@.chunk_duration_ms)
        &&& self@.chunk_size > 0
        &&& self@.pending.len() < self@.chunk_size
    }

    /// The bookkeeping for a capture with these settings on a device that
    /// delivers `device_sample_rate`, started at time `now`.
    pub fn new(config: &CaptureConfig, device_sample_rate: u32, now: u64) -> (acc: Self)
        requires
            config.spec_valid(),
        ensures
            acc.wf(),
            acc@ == (CaptureState {
                chunk_duration_ms: config.chunk_duration_ms,
                chunk_size: chunk_samples(config.sample_rate, config.chunk_duration_ms),
                target_sample_rate: config.sample_rate,
                device_sample_rate,
                pending: Seq::empty(),
                dropped_chunks: 0,
                last_warning: now,
                channel_open: true,
            }),
    {
        ChunkAccumulator {
            chunk_duration_ms: config.chunk_duration_ms,
            chunk_size: config.chunk_size(),
            target_sample_rate: config.sample_rate,
            device_sample_rate,
            pending: Vec::new(),
            dropped_chunks: 0,
            last_warning: now,
            channel_open: true,
        }
    }

    /// Whether the device's rate differs from the rate chunks are
    /// delivered at.
    pub fn needs_resampling(&self) -> (b: bool)
        ensures
            b == (self@.device_sample_rate != self@.target_sample_rate),
    {
        self.device_sample_rate != self.target_sample_rate
    }

    /// Whether the consumer is still there.
    pub fn is_open(&self) -> (b: bool)
        ensures
            b == self@.channel_open,
    {
        self.channel_open
    }

    /// Chunks dropped in a row on a full ring.
    pub fn dropped_chunks(&self) -> (n: u64)
        ensures
            n == self@.dropped_chunks,
    {
        self.dropped_chunks
    }

    /// Takes the samples of one callback and returns the runs that became
    /// full, each of exactly one chunk's size, in capture order. What is
    /// left over waits for the next callback. Nothing is taken once the
    /// consumer is gone.
    pub fn push_samples(&mut self, data: &[Sample]) -> (full: Vec<Vec<Sample>>)
        requires
            old(self).wf(),
        ensures
            final(self).wf(),
            final(self)@ == (CaptureState { pending: final(self)@.pending, ..old(self)@ }),
            forall|i: int| 0 <= i < full@.len() ==> (#[trigger] full@[i])@.len() == old(self)@.chunk_size,
            old(self)@.channel_open ==> concat_runs(full@) + final(self)@.pending == old(self)@.pending + data@,
            !old(self)@.channel_open ==> full@.len() == 0 && final(self)@.pending == old(self)@.pending,
    {
        let mut full: Vec<Vec<Sample>> = Vec::new();
        if !self.channel_open {
            return full;
        }
        let mut i: usize = 0;
        while i < data.len()
            invariant
                i <= data@.len(),
                self.wf(),
                self@ == (CaptureState { pending: self@.pending, ..old(self)@ }),
                forall|k: int|
                    0 <= k < full@.len() ==> (#[trigger] full@[k])@.len() == old(self)@.chunk_size,
                concat_runs(full@) + self@.pending == old(self)@.pending + data@.take(i as int),
            decreases data@.len() - i,
        {
            let ghost runs = full@;
            let ghost held = self.pending@;
            self.pending.push(data[i]);
            proof {
                assert(data@.take(i + 1) =~= data@.take(i as int).push(data@[i as int]));
                assert(concat_runs(runs) + held.push(data@[i as int]) =~= (concat_runs(runs)
                    + held).push(data@[i as int]));
            }
            if self.pending.len() >= self.chunk_size {
                let mut run: Vec<Sample> = Vec::with_capacity(self.chunk_size);
                std::mem::swap(&mut run, &mut self.pending);
                proof {
                    assert(runs.push(run).drop_last() =~= runs);
                    assert(concat_runs(runs.push(run)) + Seq::<Sample>::empty() =~= concat_runs(
                        runs,
                    ) + run@);
                }
                full.push(run);
            }
            i = i + 1;
        }
        assert(data@.take(data@.len() as int) =~= data@);
        full
    }

    /// The chunk made of a full run at time `timestamp`: the run itself at
    /// the delivery rate.
    pub fn chunk_of(&self, run: Vec<Sample>, timestamp: u64) -> (chunk: AudioChunk)
        requires
            self.wf(),
            run@.len() == self@.chunk_size,
            self@.device_sample_rate == self@.target_sample_rate,
        ensures
            chunk.samples == run,
            chunk.sample_rate == self@.target_sample_rate,
            chunk.samples@.len() == self@.chunk_size,
            chunk.timestamp == timestamp,
    {
        AudioChunk::new(run, self.target_sample_rate, timestamp)
    }

    /// The chunk made of a full run that went through the resampler: the
    /// resampled samples at the delivery rate, or, where the resampler
    /// failed, the run itself at the device's rate.
    pub fn chunk_of_resampled(
        &self,
        run: Vec<Sample>,
        resampled: Option<Vec<Sample>>,
        timestamp: u64,
    ) -> (chunk: AudioChunk)
        ensures
            chunk.timestamp == timestamp,
            match resampled {
                Some(samples) => chunk.samples == samples && chunk.sample_rate
                    == self@.target_sample_rate,
                None => chunk.samples == run && chunk.sample_rate == self@.device_sample_rate,
            },
    {
        match resampled {
            Some(samples) => AudioChunk::new(samples, self.target_sample_rate, timestamp),
            None => AudioChunk::new(run, self.device_sample_rate, timestamp),
        }
    }

    /// Records how an attempt to hand a chunk on ended at time `now`, and
    /// says what the callback does about it.
    pub fn on_push_outcome(&mut self, outcome: PushOutcome, now: u64) -> (action: PushAction)
        ensures
            (final(self)@, action) == old(self)@.after_push(outcome, now),
            old(self).wf() ==> final(self).wf(),
    {
        match outcome {
            PushOutcome::Delivered => {
                self.dropped_chunks = 0;
                PushAction::Continue
            },
            PushOutcome::Full => {
                if self.dropped_chunks < u64::MAX {
                    self.dropped_chunks = self.dropped_chunks + 1;
                }
                if now >= self.last_warning && now - self.last_warning
                    >= DROP_WARNING_INTERVAL_US {
                    self.last_warning = now;
                    PushAction::WarnDropped(self.dropped_chunks)
                } else {
                    PushAction::Continue
                }
            },
            PushOutcome::Closed => {
                let was_open = self.channel_open;
                self.channel_open = false;
                if was_open {
                    PushAction::ReportClosed
                } else {
                    PushAction::Continue
                }
            },
        }
    }
}

impl ChunkAccumulator {
    /// Takes the samples of one callback that came at the delivery rate
    /// and returns the chunks that became full, in capture order. Every
    /// chunk has the delivery rate, exactly one chunk's worth of samples,
    /// which is `chunk_duration_ms * sample_rate / 1000`, and the
    /// callback's time; the samples go into the chunks in the order they
    /// came, and what is left over waits for the next callback.
    pub fn cut_chunks(&mut self, data: &[Sample], timestamp: u64) -> (chunks: Vec<AudioChunk>)
        requires
            old(self).wf(),
            old(self)@.device_sample_rate == old(self)@.target_sample_rate,
        ensures
            final(self).wf(),
            final(self)@ == (CaptureState { pending: final(self)@.pending, ..old(self)@ }),
            forall|i: int|
                0 <= i < chunks@.len() ==> {
                    &&& (#[trigger] chunks@[i]).sample_rate == old(self)@.target_sample_rate
                    &&& chunks@[i].samples@.len() == old(self)@.chunk_duration_ms as nat * old(
                        self,
                    )@.target_sample_rate as nat / 1000
                    &&& chunks@[i].timestamp == timestamp
                },
            old(self)@.channel_open ==> concat_samples(chunks@) + final(self)@.pending
                == old(self)@.pending + data@,
            !old(self)@.channel_open ==> chunks@.len() == 0 && final(self)@.pending == old(
                self,
            )@.pending,
    {
        let mut runs = self.push_samples(data);
        let ghost all = runs@;
        let mut reversed: Vec<Vec<Sample>> = Vec::new();
        while runs.len() > 0
            invariant
                runs@.len() + reversed@.len() == all.len(),
                runs@ == all.take(runs@.len() as int),
                forall|k: int| 0 <= k < reversed@.len() ==> reversed@[k] == all[all.len() - 1 - k],
            decreases runs@.len(),
        {
            match runs.pop() {
                Some(run) => {
                    reversed.push(run);
                },
                None => {},
            }
            assert(runs@ =~= all.take(runs@.len() as int));
        }
        let mut chunks: Vec<AudioChunk> = Vec::new();
        let ghost total = all.len();
        assert(all.take(0) =~= Seq::<Vec<Sample>>::empty());
        while reversed.len() > 0
            invariant
                self.wf(),
                self@.device_sample_rate == self@.target_sample_rate,
                self@.target_sample_rate == old(self)@.target_sample_rate,
                self@.chunk_size == old(self)@.chunk_size,
                total == all.len(),
                chunks@.len() + reversed@.len() == total,
                forall|k: int| 0 <= k < all.len() ==> (#[trigger] all[k])@.len() == self@.chunk_size,
                forall|k: int| 0 <= k < reversed@.len() ==> reversed@[k] == all[all.len() - 1 - k],
                forall|i: int|
                    0 <= i < chunks@.len() ==> {
                        &&& (#[trigger] chunks@[i]).sample_rate == self@.target_sample_rate
                        &&& chunks@[i].samples@.len() == self@.chunk_size
                        &&& chunks@[i].timestamp == timestamp
                    },
                concat_samples(chunks@) == concat_runs(all.take(chunks@.len() as int)),
            decreases reversed@.len(),
        {
            let ghost done = chunks@;
            match reversed.pop() {
                Some(run) => {
                    assert(run == all[done.len() as int]);
                    let chunk = self.chunk_of(run, timestamp);
                    chunks.push(chunk);
                    proof {
                        assert(chunks@.drop_last() =~= done);
                        assert(all.take(done.len() as int + 1).drop_last() =~= all.take(
                            done.len() as int,
                        ));
                    }
                },
                None => {},
            }
        }
        assert(all.take(all.len() as int) =~= all);
        chunks
    }

    /// Hands a chunk to the ring and records how that ended; the call
    /// never waits. While the sender can count on a free place the ring is
    /// not full, so the chunk is taken unless the consumer is gone; beyond
    /// that it depends on what the consumer has taken out by then.
    /// Returns what the callback does next.
    pub fn deliver(&mut self, sender: &mut ChunkSender, chunk: AudioChunk, now: u64) -> (action:
        PushAction)
        ensures
            old(self).wf() ==> final(self).wf(),
            exists|outcome: PushOutcome|
                (final(self)@, action) == #[trigger] old(self)@.after_push(outcome, now) && pushed(
                    old(sender).room(),
                    outcome,
                    final(sender).room(),
                ),
    {
        let outcome = sender.try_push(chunk);
        let action = self.on_push_outcome(outcome, now);
        assert((self@, action) == old(self)@.after_push(outcome, now));
        action
    }
}

/// The sending end of tokio's bounded channel, `mpsc::Sender`, declared
/// so that it can be held and passed on. Nothing is said of what is in
/// the channel.
#[verifier::external_type_specification]
#[verifier::external_body]
#[verifier::reject_recursive_types(T)]
pub struct ExSender<T>(tokio::sync::mpsc::Sender<T>);

/// The receiving end of tokio's bounded channel, `mpsc::Receiver`,
/// declared so that it can be held and passed on. Nothing is said of what
/// is in the channel.
#[verifier::external_type_specification]
#[verifier::external_body]
#[verifier::reject_recursive_types(T)]
pub struct ExReceiver<T>(tokio::sync::mpsc::Receiver<T>);

/// The most chunks a chunk ring is made for.
pub const MAX_RING_CHUNKS: usize = 1_000_000;

/// What an attempt to take a chunk out of the ring brought.
#[derive(Debug)]
pub enum RecvOutcome {
    /// The oldest chunk in the ring.
    Chunk(AudioChunk),
    /// The ring is empty; the producer is still there.
    Empty,
    /// The ring is empty and the producer is gone.
    Closed,
}

/// The free places a sender can count on in its channel: those there
/// were when the channel was made or when the sender last sent. The
/// library makes no second sender for a channel, so only this one fills
/// places and there are never fewer; the receiver may have freed more
/// since.
pub uninterp spec fn sender_room(tx: tokio::sync::mpsc::Sender<AudioChunk>) -> nat;

/// Whether a sender that could count on `before` free places may have
/// met `outcome` and may count on `after` places from then on. A chunk
/// that was taken fills one place. The channel is full only where the
/// sender could count on no place, and none is free then. A channel whose
/// receiver is gone takes nothing.
pub open spec fn pushed(before: nat, outcome: PushOutcome, after: nat) -> bool {
    match outcome {
        PushOutcome::Delivered => before <= after + 1,
        PushOutcome::Full => before == 0 && after == 0,
        PushOutcome::Closed => after == before,
    }
}

/// `mpsc::channel` of tokio: a bounded channel that buffers up to this
/// many messages, empty at first. It panics on capacity zero and on very
/// large ones, which the precondition leaves out.
#[verifier::external_body]
fn channel_new(capacity: usize) -> (ends: (
    tokio::sync::mpsc::Sender<AudioChunk>,
    tokio::sync::mpsc::Receiver<AudioChunk>,
))
    requires
        0 < capacity <= MAX_RING_CHUNKS,
    ensures
        sender_room(ends.0) == capacity,
{
    tokio::sync::mpsc::channel(capacity)
}

/// `Sender::try_send` of tokio: the message is queued where the channel
/// has a free place; else it comes back at once, with the reason: the
/// channel holds as many messages as it was made for, or the receiver is
/// closed or gone. The free places are those the sender could count on,
/// or more where the receiver has taken messages out by then.
#[verifier::external_body]
fn channel_try_send(tx: &mut tokio::sync::mpsc::Sender<AudioChunk>, chunk: AudioChunk) -> (outcome:
    PushOutcome)
    ensures
        pushed(sender_room(*old(tx)), outcome, sender_room(*final(tx))),
{
    match tx.try_send(chunk) {
        Ok(()) => PushOutcome::Delivered,
        Err(tokio::sync::mpsc::error::TrySendError::Full(_)) => PushOutcome::Full,
        Err(tokio::sync::mpsc::error::TrySendError::Closed(_)) => PushOutcome::Closed,
    }
}

/// `Receiver::try_recv` of tokio: the oldest message where there is one;
/// else whether senders are left. Which of the three happens depends on
/// what the senders have done by then.
#[verifier::external_body]
fn channel_try_recv(rx: &mut tokio::sync::mpsc::Receiver<AudioChunk>) -> RecvOutcome {
    match rx.try_recv() {
        Ok(chunk) => RecvOutcome::Chunk(chunk),
        Err(tokio::sync::mpsc::error::TryRecvError::Empty) => RecvOutcome::Empty,
        Err(tokio::sync::mpsc::error::TryRecvError::Disconnected) => RecvOutcome::Closed,
    }
}

/// The producer's end of the chunk ring.
pub struct ChunkSender {
    tx: tokio::sync::mpsc::Sender<AudioChunk>,
}

/// The consumer's end of the chunk ring.
pub struct ChunkReceiver {
    rx: tokio::sync::mpsc::Receiver<AudioChunk>,
}

/// A chunk ring for `capacity` chunks, empty at first: its producer's and
/// its consumer's end. The producer can count on `capacity` free places.
pub fn chunk_channel(capacity: usize) -> (ends: (ChunkSender, ChunkReceiver))
    requires
        0 < capacity <= MAX_RING_CHUNKS,
    ensures
        ends.0.room() == capacity,
{
    let (tx, rx) = channel_new(capacity);
    (ChunkSender { tx }, ChunkReceiver { rx })
}

impl ChunkSender {
    /// The free places the sender can count on: those there were when the
    /// ring was made or when it last pushed. The consumer may have freed
    /// more since.
    pub closed spec fn room(&self) -> nat {
        sender_room(self.tx)
    }

    /// Offers a chunk to the ring without waiting. A chunk the ring does
    /// not take is lost. While the sender can count on a free place the
    /// ring is not full: the chunk is taken, unless the consumer is gone.
    /// See [`pushed`].
    pub fn try_push(&mut self, chunk: AudioChunk) -> (outcome: PushOutcome)
        ensures
            pushed(old(self).room(), outcome, final(self).room()),
    {
        channel_try_send(&mut self.tx, chunk)
    }
}

impl ChunkReceiver {
    /// The channel's receiving end.
    pub closed spec fn inner(&self) -> tokio::sync::mpsc::Receiver<AudioChunk> {
        self.rx
    }

    /// Takes the oldest chunk out of the ring, without waiting.
    pub fn try_recv(&mut self) -> RecvOutcome {
        channel_try_recv(&mut self.rx)
    }

    /// The channel's receiving end itself, for a consumer that waits for
    /// chunks.
    pub fn into_inner(self) -> (rx: tokio::sync::mpsc::Receiver<AudioChunk>)
        ensures
            rx == self.inner(),
    {
        self.rx
    }
}

/// The sample formats a device may deliver.
#[derive(Debug, Clone, Copy, PartialEq, Eq, Structural)]
pub enum SampleFormat {
    I8,
    I16,
    I32,
    I64,
    U8,
    U16,
    U32,
    U64,
    F32,
    F64,
}

impl SampleFormat {
    /// The format's name.
    pub fn name(self) -> (name: &'static str)
        ensures
            name@ == self.spec_name(),
    {
        match self {
            SampleFormat::I8 => "I8",
            SampleFormat::I16 => "I16",
            SampleFormat::I32 => "I32",
            SampleFormat::I64 => "I64",
            SampleFormat::U8 => "U8",
            SampleFormat::U16 => "U16",
            SampleFormat::U32 => "U32",
            SampleFormat::U64 => "U64",
            SampleFormat::F32 => "F32",
            SampleFormat::F64 => "F64",
        }
    }

    /// The format's name.
    pub open spec fn spec_name(self) -> Seq<char> {
        match self {
            SampleFormat::I8 => "I8"@,
            SampleFormat::I16 => "I16"@,
            SampleFormat::I32 => "I32"@,
            SampleFormat::I64 => "I64"@,
            SampleFormat::U8 => "U8"@,
            SampleFormat::U16 => "U16"@,
            SampleFormat::U32 => "U32"@,
            SampleFormat::U64 => "U64"@,
            SampleFormat::F32 => "F32"@,
            SampleFormat::F64 => "F64"@,
        }
    }

    /// Whether capture can read the format: 32-bit floats and 16-bit
    /// integers, signed or not.
    pub open spec fn supported(self) -> bool {
        self == SampleFormat::F32 || self == SampleFormat::I16 || self == SampleFormat::U16
    }
}

/// Which device a capture opens.
#[derive(Debug, Clone)]
pub enum DeviceChoice {
    /// The system's default input device.
    Default,
    /// The device with exactly this name; the default one where there is
    /// none.
    Named(String),
}

/// What opening a stream takes.
#[derive(Debug, Clone, Copy)]
pub struct StreamPlan {
    /// The number of channels asked for: one.
    pub channels: u16,
    /// The rate the device delivers.
    pub device_sample_rate: u32,
    /// The format the device delivers.
    pub sample_format: SampleFormat,
    /// The samples in one chunk.
    pub chunk_size: usize,
    /// The chunks the ring is made for.
    pub ring_capacity: usize,
    /// Whether the samples go through the resampler.
    pub needs_resampling: bool,
}

/// A capture: its settings and whether it runs.
pub struct AudioCapture {
    config: CaptureConfig,
    is_running: bool,
}

impl AudioCapture {
    /// The settings.
    pub closed spec fn spec_config(&self) -> CaptureConfig {
        self.config
    }

    /// Whether the capture runs.
    pub closed spec fn running(&self) -> bool {
        self.is_running
    }

    /// A capture with these settings that does not run.
    pub fn new(config: CaptureConfig) -> (capture: Self)
        ensures
            capture.spec_config() == config,
            !capture.running(),
    {
        AudioCapture { config, is_running: false }
    }

    /// Whether the capture runs.
    pub fn is_running(&self) -> (b: bool)
        ensures
            b == self.running(),
    {
        self.is_running
    }

    /// The first part of a start: a running capture is not started again,
    /// and the settings have to be valid. Returns which device to open.
    pub fn start(&self) -> (result: Result<DeviceChoice, Error>)
        ensures
            self.running() ==> (result matches Err(e) && e.spec_kind() == ErrorKind::Audio
                && e.spec_message() == "Capture already running"@),
            !self.running() ==> match self.spec_config().validation_error() {
                Some(message) => {
                    &&& result matches Err(e)
                    &&& e.spec_kind() == ErrorKind::Config
                    &&& e.spec_message() == message
                },
                None => match result {
                    Ok(DeviceChoice::Default) => self.spec_config().device_name@ == "default"@,
                    Ok(DeviceChoice::Named(name)) => self.spec_config().device_name@ != "default"@
                        && name@ == self.spec_config().device_name@,
                    Err(_) => false,
                },
            },
    {
        if self.is_running {
            return Err(Error::Audio("Capture already running".to_owned()));
        }
        match self.config.validate() {
            Err(e) => {
                return Err(e);
            },
            Ok(_) => {},
        }
        if self.config.uses_default_device() {
            Ok(DeviceChoice::Default)
        } else {
            Ok(DeviceChoice::Named(self.config.device_name.clone()))
        }
    }

    /// The second part of a start, once the device has said what it
    /// delivers: a format capture cannot read is refused; else the plan
    /// for the stream is returned: one channel, the chunk's size, the
    /// ring's capacity, and whether the resampler is needed.
    pub fn plan_stream(&self, device_sample_rate: u32, sample_format: SampleFormat) -> (result:
        Result<StreamPlan, Error>)
        requires
            self.spec_config().spec_valid(),
        ensures
            !sample_format.supported() ==> (result matches Err(e) && e.spec_kind()
                == ErrorKind::Audio && e.spec_message() == "Unsupported sample format: "@
                + sample_format.spec_name()),
            sample_format.supported() ==> (result matches Ok(plan) && plan.channels == 1
                && plan.device_sample_rate == device_sample_rate && plan.sample_format
                == sample_format && plan.chunk_size == chunk_samples(
                self.spec_config().sample_rate,
                self.spec_config().chunk_duration_ms,
            ) && plan.ring_capacity == ring_chunks(
                self.spec_config().sample_rate,
                self.spec_config().chunk_duration_ms,
                self.spec_config().buffer_capacity_secs,
            ) && 0 < plan.ring_capacity <= MAX_RING_CHUNKS && plan.needs_resampling == (
            device_sample_rate != self.spec_config().sample_rate)),
    {
        match sample_format {
            SampleFormat::F32 | SampleFormat::I16 | SampleFormat::U16 => {},
            _ => {
                return Err(
                    Error::Audio(concat("Unsupported sample format: ", sample_format.name())),
                );
            },
        }
        Ok(
            StreamPlan {
                channels: 1,
                device_sample_rate,
                sample_format,
                chunk_size: self.config.chunk_size(),
                ring_capacity: self.config.ring_capacity(),
                needs_resampling: device_sample_rate != self.config.sample_rate,
            },
        )
    }

    /// Records that the stream plays: the capture runs from now on.
    pub fn mark_started(&mut self)
        ensures
            final(self).running(),
            final(self).spec_config() == old(self).spec_config(),
    {
        self.is_running = true;
    }

    /// Stops the capture. Returns whether there is a stream to pause and
    /// a producer to drop: there is where the capture ran. Stopping a
    /// capture that does not run does nothing.
    pub fn stop(&mut self) -> (was_running: bool)
        ensures
            was_running == old(self).running(),
            !final(self).running(),
            final(self).spec_config() == old(self).spec_config(),
    {
        let was_running = self.is_running;
        self.is_running = false;
        was_running
    }
}

} // verus!
