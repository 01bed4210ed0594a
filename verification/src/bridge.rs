//! Decisions of the stable PCM bridge.
//!
//! The bridge forwards real worker frames through replace-oldest delivery,
//! paces a silence frame whenever no real frame arrives in time, plays one
//! requested listening tone, and counts every eviction truthfully. The
//! application moves the audio; [`PcmBridge`] decides what to move next.

use vstd::prelude::*;

use crate::event::{DiagnosticPayload, PayloadView};
use crate::time::{elapsed, instant_after, Duration, Instant};

verus! {

/// Normalized live PCM sample rate for the whole pipeline.
pub const CAPTURE_SAMPLE_RATE: u32 = 44_100;

/// Normalized live PCM channel count.
pub const CAPTURE_CHANNELS: u8 = 2;

/// Capacity of the stable PCM bridge feeding the live decoder.
pub const CAPTURE_PCM_CAPACITY: usize = crate::event::PCM_CAPACITY;

/// Interval after which the bridge paces one frame of silence, in
/// nanoseconds.
pub const SILENCE_PERIOD_NANOS: u64 = 50_000_000;

/// Frame cadence of the finite listening tone, in nanoseconds.
pub const LISTENING_TONE_FRAME_NANOS: u64 = 20_000_000;

/// Longest single wait for the next tone frame, in nanoseconds.
pub const LISTENING_TONE_NAP_NANOS: u64 = 2_000_000;

/// Samples in one 50 ms bridge frame.
pub const BRIDGE_FRAME_SAMPLES: usize = 4_410;

/// Samples in one 20 ms tone frame.
pub const TONE_FRAME_SAMPLES: usize = 1_764;

/// Capacity of the bounded lifecycle queue, as reported.
pub const LIFECYCLE_QUEUE_CAPACITY: u32 = 256;

/// One frame of interleaved PCM.
#[derive(Debug, PartialEq, Eq)]
pub struct PcmFrame {
    /// Interleaved samples.
    pub samples: Vec<i16>,
    /// Channel count.
    pub channels: u8,
    /// Sample rate.
    pub sample_rate: u32,
}

/// One frame of true silence in the normalized layout (50 ms stereo).
pub fn silence_frame() -> (r: PcmFrame)
    ensures
        r.samples@ == Seq::new(BRIDGE_FRAME_SAMPLES as nat, |i: int| 0i16),
        r.channels == CAPTURE_CHANNELS,
        r.sample_rate == CAPTURE_SAMPLE_RATE,
{
    let samples: Vec<i16> = vec![0i16; BRIDGE_FRAME_SAMPLES];
    assert(samples@ =~= Seq::new(BRIDGE_FRAME_SAMPLES as nat, |i: int| 0i16));
    PcmFrame { samples, channels: CAPTURE_CHANNELS, sample_rate: CAPTURE_SAMPLE_RATE }
}

/// The samples of a list of frames, one after the other.
pub open spec fn joined(frames: Seq<PcmFrame>) -> Seq<i16>
    decreases frames.len(),
{
    if frames.len() == 0 {
        Seq::empty()
    } else {
        joined(frames.drop_last()) + frames.last().samples@
    }
}

/// Whether a frame has the normalized layout and holds at most 50 ms.
pub open spec fn is_bridge_frame(frame: PcmFrame) -> bool {
    &&& frame.channels == CAPTURE_CHANNELS
    &&& frame.sample_rate == CAPTURE_SAMPLE_RATE
    &&& 0 < frame.samples@.len() <= BRIDGE_FRAME_SAMPLES
}

/// Cuts an interleaved pattern into bridge-sized frames.
pub fn pattern_frames(samples: &Vec<i16>) -> (r: Vec<PcmFrame>)
    ensures
        joined(r@) == samples@,
        forall|i: int| 0 <= i < r@.len() ==> is_bridge_frame(#[trigger] r@[i]),
        forall|i: int| 0 <= i < r@.len() - 1 ==> (#[trigger] r@[i]).samples@.len() == BRIDGE_FRAME_SAMPLES,
{
    let mut frames: Vec<PcmFrame> = Vec::new();
    let mut start: usize = 0;
    assert(samples@.take(0) =~= Seq::empty());
    while start < samples.len()
        invariant
            start <= samples@.len(),
            joined(frames@) == samples@.take(start as int),
            forall|i: int| 0 <= i < frames@.len() ==> is_bridge_frame(#[trigger] frames@[i]),
            start < samples@.len() ==> forall|i: int| 0 <= i < frames@.len() ==>
                (#[trigger] frames@[i]).samples@.len() == BRIDGE_FRAME_SAMPLES,
            forall|i: int| 0 <= i < frames@.len() - 1 ==>
                (#[trigger] frames@[i]).samples@.len() == BRIDGE_FRAME_SAMPLES,
        decreases samples@.len() - start,
    {
        let end: usize = if samples.len() - start < BRIDGE_FRAME_SAMPLES {
            samples.len()
        } else {
            start + BRIDGE_FRAME_SAMPLES
        };
        let part: Vec<i16> = slice_copy(samples, start, end);
        let ghost before = frames@;
        frames.push(PcmFrame {
            samples: part,
            channels: CAPTURE_CHANNELS,
            sample_rate: CAPTURE_SAMPLE_RATE,
        });
        proof {
            assert(frames@.drop_last() =~= before);
            assert(samples@.take(end as int) =~= samples@.take(start as int) + part@);
        }
        start = end;
    }
    assert(samples@.take(samples@.len() as int) =~= samples@);
    frames
}

/// A copy of `samples[start..end]`.
pub fn slice_copy(samples: &Vec<i16>, start: usize, end: usize) -> (r: Vec<i16>)
    requires
        start <= end <= samples@.len(),
    ensures
        r@ == samples@.subrange(start as int, end as int),
{
    let mut part: Vec<i16> = Vec::new();
    let mut i: usize = start;
    while i < end
        invariant
            start <= i <= end,
            end <= samples@.len(),
            part@ == samples@.subrange(start as int, i as int),
        decreases end - i,
    {
        part.push(samples[i]);
        i = i + 1;
        assert(part@ =~= samples@.subrange(start as int, i as int));
    }
    part
}

/// Bytes of one captured sample frame: a single-precision number per channel.
pub const CAPTURE_FRAME_BYTES: usize = 8;

/// Samples in the complete frames of a captured byte queue.
pub open spec fn complete_samples(len: int) -> int {
    len / CAPTURE_FRAME_BYTES as int * CAPTURE_CHANNELS
}

/// Takes the samples of every complete frame out of a captured byte queue, as
/// bit patterns of single-precision numbers; a partial frame waits for its
/// rest.
pub fn take_samples(queue: &mut Vec<u8>) -> (r: Vec<u32>)
    ensures
        r@.len() == complete_samples(old(queue)@.len() as int),
        forall|i: int| 0 <= i < r@.len() ==> #[trigger] r@[i]
            == vstd::bytes::spec_u32_from_le_bytes(old(queue)@.subrange(4 * i, 4 * i + 4)),
        final(queue)@ == old(queue)@.skip(4 * complete_samples(old(queue)@.len() as int)),
{
    let ghost all = queue@;
    let len: usize = queue.len();
    let total: usize = len / CAPTURE_FRAME_BYTES * CAPTURE_CHANNELS as usize;
    let mut samples: Vec<u32> = Vec::new();
    let mut i: usize = 0;
    while i < total
        invariant
            i <= total,
            queue@ == all,
            4 * total <= len,
            len == all.len(),
            samples@.len() == i,
            forall|k: int| 0 <= k < i ==> #[trigger] samples@[k]
                == vstd::bytes::spec_u32_from_le_bytes(all.subrange(4 * k, 4 * k + 4)),
        decreases total - i,
    {
        let part: &[u8] = vstd::slice::slice_subrange(queue.as_slice(), 4 * i, 4 * i + 4);
        samples.push(vstd::bytes::u32_from_le_bytes(part));
        i = i + 1;
    }
    let rest: Vec<u8> = queue.split_off(4 * total);
    assert(rest@ =~= all.skip(4 * complete_samples(all.len() as int)));
    *queue = rest;
    samples
}

/// Progress of the tone being played.
#[derive(Clone, Copy, Debug, PartialEq, Eq, Structural)]
pub struct ToneProgress {
    /// Next sample to send.
    pub offset: usize,
    /// Samples in the tone.
    pub total: usize,
    /// Earliest instant of the next frame.
    pub next_frame_at: Instant,
}

/// Decision state of the bridge for one decoder-pair generation.
#[derive(Clone, Copy, Debug, PartialEq, Eq, Structural)]
pub struct PcmBridge {
    /// Evictions not yet published.
    pub pending_drops: u64,
    /// Whether the bridge is inside an uninterrupted run of evictions.
    ///
    /// Only the leading and trailing edge of a run are published, so a
    /// permanently backed-up decoder costs two controller wakeups instead of
    /// one per audio frame.
    pub in_eviction_run: bool,
    /// Whether the latest frame was paced silence.
    pub last_frame_was_silence: bool,
    /// Lifetime evictions.
    pub dropped_total: u64,
    /// Tone being played.
    pub tone: Option<ToneProgress>,
    /// Whether a tone is requested or playing.
    pub tone_active: bool,
}

/// A tone request taken from its queue.
#[derive(Clone, Copy, Debug, PartialEq, Eq, Structural)]
pub struct ToneRequest {
    /// Whether it was cancelled before it started.
    pub cancelled: bool,
    /// Samples in its tone.
    pub total: usize,
}

/// What one turn of the bridge starts from.
#[derive(Clone, Copy, Debug, PartialEq, Eq, Structural)]
pub struct TurnInput {
    /// Whether the session was cancelled.
    pub cancelled: bool,
    /// A tone request; only taken from its queue while no tone plays.
    pub request: Option<ToneRequest>,
    /// Whether the playing tone was cancelled.
    pub tone_cancelled: bool,
    /// Monotonic reading.
    pub now: Instant,
}

/// What one turn of the bridge does.
#[derive(Clone, Copy, Debug, PartialEq, Eq, Structural)]
pub enum TurnAction {
    /// End the bridge.
    Finish,
    /// Discard queued capture and take another turn.
    Again,
    /// Discard queued capture, wait, and take another turn.
    Nap(Duration),
    /// Discard queued capture and send these samples of the tone.
    SendTone {
        /// First sample.
        start: usize,
        /// End of the samples.
        end: usize,
    },
    /// Send injected or captured audio, or silence.
    PollLive,
}

/// What the live side of the bridge offered.
#[derive(Clone, Copy, Debug, PartialEq, Eq, Structural)]
pub enum LiveOffer {
    /// An injected alignment frame, which preempts capture.
    Injected,
    /// A captured frame.
    Captured,
    /// Nothing within the silence period.
    Silent,
    /// The capture side is gone.
    Disconnected,
}

/// What the bridge does with an offer.
#[derive(Clone, Copy, Debug, PartialEq, Eq, Structural)]
pub enum LiveAction {
    /// Forward the offered frame.
    Forward,
    /// Forward one frame of silence, announcing a new silent stretch or not.
    ForwardSilence {
        /// Whether the stretch just began.
        announce: bool,
    },
    /// End the bridge.
    Finish,
}

/// How replace-oldest delivery took a frame.
#[derive(Clone, Copy, Debug, PartialEq, Eq, Structural)]
pub enum SendOutcome {
    /// There was room.
    Enqueued,
    /// The oldest queued frame was evicted.
    ReplacedOldest,
    /// The decoder side is gone.
    Disconnected,
}

/// What the bridge does after a delivery.
#[derive(Clone, Copy, Debug, PartialEq, Eq, Structural)]
pub enum SentAction {
    /// Go on.
    Continue,
    /// Publish the pending evictions, then go on.
    Flush,
    /// End the bridge.
    Finish,
}

/// How the lifecycle queue answered a drop report.
#[derive(Clone, Copy, Debug, PartialEq, Eq, Structural)]
pub enum FlushAnswer {
    /// The report was taken.
    Sent,
    /// The queue is full.
    Full,
    /// The consumer is gone.
    Closed,
}

impl PcmBridge {
    /// A bridge that has moved nothing.
    pub open spec fn fresh() -> PcmBridge {
        PcmBridge {
            pending_drops: 0,
            in_eviction_run: false,
            last_frame_was_silence: false,
            dropped_total: 0,
            tone: None,
            tone_active: false,
        }
    }

    /// Whether no more evictions are pending than happened, and a tone's
    /// progress lies within it.
    pub open spec fn sound(self) -> bool {
        &&& self.pending_drops <= self.dropped_total
        &&& self.tone matches Some(tone) ==> tone.offset <= tone.total
    }

    /// Evictions already published.
    pub open spec fn reported(self) -> int {
        self.dropped_total - self.pending_drops
    }

    /// The bridge after taking a tone request: a request cancelled before it
    /// started frees the slot, another one starts playing at once.
    pub open spec fn requested(self, input: TurnInput) -> PcmBridge {
        match (self.tone, input.request) {
            (None, Some(request)) => if request.cancelled {
                PcmBridge { tone_active: false, ..self }
            } else {
                PcmBridge {
                    tone: Some(
                        ToneProgress { offset: 0, total: request.total, next_frame_at: input.now },
                    ),
                    ..self
                }
            },
            _ => self,
        }
    }

    /// The bridge and its action after one turn.
    ///
    /// A playing tone preempts everything and keeps discarding captured
    /// audio, so none is mixed in or bursts out at its end.
    pub open spec fn turned(self, input: TurnInput) -> (PcmBridge, TurnAction) {
        if input.cancelled {
            (self, TurnAction::Finish)
        } else {
            let bridge = self.requested(input);
            match bridge.tone {
                None => (bridge, TurnAction::PollLive),
                Some(tone) => if input.tone_cancelled {
                    (PcmBridge { tone: None, tone_active: false, ..bridge }, TurnAction::Again)
                } else if input.now.nanos < tone.next_frame_at.nanos {
                    let wait = elapsed(input.now, tone.next_frame_at);
                    (
                        bridge,
                        TurnAction::Nap(
                            Duration {
                                nanos: if wait < LISTENING_TONE_NAP_NANOS {
                                    wait
                                } else {
                                    LISTENING_TONE_NAP_NANOS
                                },
                            },
                        ),
                    )
                } else {
                    let end = if tone.total - tone.offset < TONE_FRAME_SAMPLES {
                        tone.total
                    } else {
                        (tone.offset + TONE_FRAME_SAMPLES) as usize
                    };
                    (
                        PcmBridge {
                            tone: Some(ToneProgress { offset: end, ..tone }),
                            last_frame_was_silence: false,
                            ..bridge
                        },
                        TurnAction::SendTone { start: tone.offset, end },
                    )
                },
            }
        }
    }

    /// The bridge once a tone frame was handed on at `now`: the next frame is
    /// scheduled from the actual send time, and a finished tone frees the
    /// slot.
    pub open spec fn tone_sent(self, now: Instant) -> PcmBridge {
        match self.tone {
            Some(tone) => if tone.offset == tone.total {
                PcmBridge { tone: None, tone_active: false, ..self }
            } else {
                PcmBridge {
                    tone: Some(
                        ToneProgress {
                            next_frame_at: instant_after(now, LISTENING_TONE_FRAME_NANOS),
                            ..tone
                        },
                    ),
                    ..self
                }
            },
            None => self,
        }
    }

    /// The bridge and its action for an offer of the live side.
    pub open spec fn offered(self, offer: LiveOffer) -> (PcmBridge, LiveAction) {
        match offer {
            LiveOffer::Injected => (
                PcmBridge { last_frame_was_silence: false, ..self },
                LiveAction::Forward,
            ),
            LiveOffer::Captured => (
                PcmBridge { last_frame_was_silence: false, ..self },
                LiveAction::Forward,
            ),
            LiveOffer::Silent => (
                PcmBridge { last_frame_was_silence: true, ..self },
                LiveAction::ForwardSilence { announce: !self.last_frame_was_silence },
            ),
            LiveOffer::Disconnected => (self, LiveAction::Finish),
        }
    }

    /// The bridge and its action after a delivery: every eviction is counted
    /// at once, but only the edges of an eviction run are published.
    pub open spec fn delivered(self, outcome: SendOutcome) -> (PcmBridge, SentAction) {
        match outcome {
            SendOutcome::Enqueued => if self.in_eviction_run {
                (PcmBridge { in_eviction_run: false, ..self }, SentAction::Flush)
            } else {
                (self, SentAction::Continue)
            },
            SendOutcome::ReplacedOldest => (
                PcmBridge {
                    dropped_total: (self.dropped_total + 1) as u64,
                    pending_drops: (self.pending_drops + 1) as u64,
                    in_eviction_run: true,
                    ..self
                },
                if self.in_eviction_run { SentAction::Continue } else { SentAction::Flush },
            ),
            SendOutcome::Disconnected => (self, SentAction::Finish),
        }
    }

    /// The bridge and its diagnostic after the lifecycle queue answered a
    /// drop report: a full queue keeps the count pending so no eviction is
    /// ever lost from the reports.
    pub open spec fn flushed(self, answer: FlushAnswer) -> (PcmBridge, Option<PayloadView>) {
        if self.pending_drops == 0 {
            (self, None)
        } else {
            match answer {
                FlushAnswer::Sent => (
                    PcmBridge { pending_drops: 0, ..self },
                    Some(PayloadView::PcmDrop { dropped: self.pending_drops }),
                ),
                FlushAnswer::Full => (
                    self,
                    Some(
                        PayloadView::QueueWatermark {
                            depth: LIFECYCLE_QUEUE_CAPACITY,
                            capacity: LIFECYCLE_QUEUE_CAPACITY,
                        },
                    ),
                ),
                FlushAnswer::Closed => (self, None),
            }
        }
    }

    /// A bridge that has moved nothing.
    pub fn new() -> (r: Self)
        ensures
            r == PcmBridge::fresh(),
            r.sound(),
    {
        PcmBridge {
            pending_drops: 0,
            in_eviction_run: false,
            last_frame_was_silence: false,
            dropped_total: 0,
            tone: None,
            tone_active: false,
        }
    }

    /// Claims the tone slot for a request that is not cancelled; at most one
    /// tone is requested or playing at a time.
    pub fn claim_tone(&mut self, cancelled: bool) -> (r: bool)
        ensures
            r == (!cancelled && !old(self).tone_active),
            *final(self) == if r {
                PcmBridge { tone_active: true, ..*old(self) }
            } else {
                *old(self)
            },
    {
        if cancelled || self.tone_active {
            return false;
        }
        self.tone_active = true;
        true
    }

    /// Gives the tone slot back: its request could not be queued, or the
    /// bridge ended.
    pub fn release_tone(&mut self)
        ensures
            *final(self) == (PcmBridge { tone_active: false, ..*old(self) }),
    {
        self.tone_active = false;
    }

    /// Takes one turn.
    pub fn turn(&mut self, input: TurnInput) -> (r: TurnAction)
        requires
            old(self).sound(),
        ensures
            (*final(self), r) == old(self).turned(input),
            final(self).sound(),
    {
        if input.cancelled {
            return TurnAction::Finish;
        }
        if self.tone.is_none() {
            if let Some(request) = input.request {
                if request.cancelled {
                    self.tone_active = false;
                } else {
                    self.tone = Some(ToneProgress {
                        offset: 0,
                        total: request.total,
                        next_frame_at: input.now,
                    });
                }
            }
        }
        match self.tone {
            None => TurnAction::PollLive,
            Some(tone) => {
                if input.tone_cancelled {
                    self.tone = None;
                    self.tone_active = false;
                    return TurnAction::Again;
                }
                if input.now.nanos < tone.next_frame_at.nanos {
                    let wait: Duration = tone.next_frame_at.duration_since(input.now);
                    return TurnAction::Nap(wait.min(Duration { nanos: LISTENING_TONE_NAP_NANOS }));
                }
                let end: usize = if tone.total - tone.offset < TONE_FRAME_SAMPLES {
                    tone.total
                } else {
                    tone.offset + TONE_FRAME_SAMPLES
                };
                self.tone = Some(ToneProgress {
                    offset: end,
                    total: tone.total,
                    next_frame_at: tone.next_frame_at,
                });
                self.last_frame_was_silence = false;
                TurnAction::SendTone { start: tone.offset, end }
            },
        }
    }

    /// Records that a tone frame was handed on at `now`.
    pub fn note_tone_sent(&mut self, now: Instant)
        requires
            old(self).sound(),
        ensures
            *final(self) == old(self).tone_sent(now),
            final(self).sound(),
    {
        if let Some(tone) = self.tone {
            if tone.offset == tone.total {
                self.tone = None;
                self.tone_active = false;
            } else {
                self.tone = Some(ToneProgress {
                    offset: tone.offset,
                    total: tone.total,
                    next_frame_at: now.after(Duration { nanos: LISTENING_TONE_FRAME_NANOS }),
                });
            }
        }
    }

    /// Decides what to do with an offer of the live side.
    pub fn offer(&mut self, offer: LiveOffer) -> (r: LiveAction)
        ensures
            (*final(self), r) == old(self).offered(offer),
    {
        match offer {
            LiveOffer::Injected => {
                self.last_frame_was_silence = false;
                LiveAction::Forward
            },
            LiveOffer::Captured => {
                self.last_frame_was_silence = false;
                LiveAction::Forward
            },
            LiveOffer::Silent => {
                let announce: bool = !self.last_frame_was_silence;
                self.last_frame_was_silence = true;
                LiveAction::ForwardSilence { announce }
            },
            LiveOffer::Disconnected => LiveAction::Finish,
        }
    }

    /// Accounts one delivery.
    pub fn forward(&mut self, outcome: SendOutcome) -> (r: SentAction)
        requires
            old(self).sound(),
            old(self).dropped_total < u64::MAX,
        ensures
            (*final(self), r) == old(self).delivered(outcome),
            final(self).sound(),
    {
        match outcome {
            SendOutcome::Enqueued => {
                if self.in_eviction_run {
                    self.in_eviction_run = false;
                    SentAction::Flush
                } else {
                    SentAction::Continue
                }
            },
            SendOutcome::ReplacedOldest => {
                self.dropped_total = self.dropped_total + 1;
                self.pending_drops = self.pending_drops + 1;
                if self.in_eviction_run {
                    SentAction::Continue
                } else {
                    self.in_eviction_run = true;
                    SentAction::Flush
                }
            },
            SendOutcome::Disconnected => SentAction::Finish,
        }
    }

    /// The lifetime total to report, if evictions are pending.
    pub fn drop_report(&self) -> (r: Option<u64>)
        ensures
            r == if self.pending_drops == 0 { None } else { Some(self.dropped_total) },
    {
        if self.pending_drops == 0 { None } else { Some(self.dropped_total) }
    }

    /// Accounts the lifecycle queue's answer to a drop report.
    pub fn flush_drops(&mut self, answer: FlushAnswer) -> (r: Option<DiagnosticPayload>)
        requires
            old(self).sound(),
        ensures
            *final(self) == old(self).flushed(answer).0,
            match old(self).flushed(answer).1 {
                Some(payload) => r matches Some(p) && p@ == payload,
                None => r is None,
            },
            final(self).sound(),
    {
        if self.pending_drops == 0 {
            return None;
        }
        match answer {
            FlushAnswer::Sent => {
                let dropped: u64 = self.pending_drops;
                self.pending_drops = 0;
                Some(DiagnosticPayload::PcmDrop { dropped })
            },
            FlushAnswer::Full => Some(
                DiagnosticPayload::QueueWatermark {
                    depth: LIFECYCLE_QUEUE_CAPACITY,
                    capacity: LIFECYCLE_QUEUE_CAPACITY,
                },
            ),
            FlushAnswer::Closed => None,
        }
    }
}

/// Every eviction is reported exactly once: a report carries what has happened
/// since the previous one, and after it everything is reported.
pub proof fn law_drop_reports_partition_the_total(bridge: PcmBridge, outcome: SendOutcome)
    requires
        bridge.sound(),
        bridge.dropped_total < u64::MAX,
    ensures
        bridge.delivered(outcome).0.reported() == bridge.reported(),
        bridge.delivered(outcome).0.dropped_total >= bridge.dropped_total,
        bridge.flushed(FlushAnswer::Full).0.reported() == bridge.reported(),
        bridge.flushed(FlushAnswer::Closed).0.reported() == bridge.reported(),
        bridge.flushed(FlushAnswer::Sent).0.reported() == bridge.dropped_total,
        bridge.flushed(FlushAnswer::Sent).1 matches Some(PayloadView::PcmDrop { dropped })
            ==> dropped == bridge.dropped_total - bridge.reported(),
        bridge.flushed(FlushAnswer::Sent).0.dropped_total == bridge.dropped_total,
{
}

/// One thing that concerns the drop counters of the bridge.
pub enum DropTurn {
    /// A frame was offered to the decoder queue.
    Delivered(SendOutcome),
    /// The lifecycle queue answered a drop report.
    Flushed(FlushAnswer),
}

/// Evictions among a run of turns.
pub open spec fn evictions(turns: Seq<DropTurn>) -> int
    decreases turns.len(),
{
    if turns.len() == 0 {
        0
    } else {
        evictions(turns.drop_last()) + if turns.last() == DropTurn::Delivered(
            SendOutcome::ReplacedOldest,
        ) {
            1int
        } else {
            0int
        }
    }
}

/// A fresh bridge after a run of turns, and every drop count it reported.
pub open spec fn drops_ran(turns: Seq<DropTurn>) -> (PcmBridge, Seq<u64>)
    decreases turns.len(),
{
    if turns.len() == 0 {
        (PcmBridge::fresh(), Seq::empty())
    } else {
        let (bridge, reports) = drops_ran(turns.drop_last());
        match turns.last() {
            DropTurn::Delivered(outcome) => (bridge.delivered(outcome).0, reports),
            DropTurn::Flushed(answer) => (
                bridge.flushed(answer).0,
                match bridge.flushed(answer).1 {
                    Some(PayloadView::PcmDrop { dropped }) => reports.push(dropped),
                    _ => reports,
                },
            ),
        }
    }
}

/// The sum of a list of reported counts.
pub open spec fn reported_sum(reports: Seq<u64>) -> int
    decreases reports.len(),
{
    if reports.len() == 0 {
        0
    } else {
        reported_sum(reports.drop_last()) + reports.last()
    }
}

/// In every run the lifetime total is the number of evictions, the reports add
/// up to everything that is no longer pending, and no report is empty.
pub proof fn law_every_run_reports_each_eviction_once(turns: Seq<DropTurn>)
    requires
        turns.len() < u64::MAX,
    ensures
        ({
            let (bridge, reports) = drops_ran(turns);
            &&& bridge.sound()
            &&& bridge.dropped_total == evictions(turns)
            &&& bridge.dropped_total <= turns.len()
            &&& reported_sum(reports) + bridge.pending_drops == bridge.dropped_total
            &&& forall|i: int| 0 <= i < reports.len() ==> #[trigger] reports[i] > 0
        }),
    decreases turns.len(),
{
    if turns.len() > 0 {
        law_every_run_reports_each_eviction_once(turns.drop_last());
        let (before, reports) = drops_ran(turns.drop_last());
        if let DropTurn::Flushed(answer) = turns.last() {
            if let Some(PayloadView::PcmDrop { dropped }) = before.flushed(answer).1 {
                assert(reports.push(dropped).drop_last() =~= reports);
            }
        }
    }
}

/// A sustained run of evictions is published once at its start and once at
/// its end, not once per frame.
pub proof fn law_eviction_runs_publish_only_their_edges(bridge: PcmBridge)
    requires
        bridge.sound(),
        bridge.dropped_total < u64::MAX,
    ensures
        bridge.in_eviction_run
            ==> bridge.delivered(SendOutcome::ReplacedOldest).1 == SentAction::Continue,
        !bridge.in_eviction_run
            ==> bridge.delivered(SendOutcome::ReplacedOldest).1 == SentAction::Flush,
        bridge.delivered(SendOutcome::ReplacedOldest).0.in_eviction_run,
        bridge.in_eviction_run ==> bridge.delivered(SendOutcome::Enqueued).1 == SentAction::Flush,
        !bridge.in_eviction_run
            ==> bridge.delivered(SendOutcome::Enqueued).1 == SentAction::Continue,
        !bridge.delivered(SendOutcome::Enqueued).0.in_eviction_run,
{
}

/// A silent stretch is announced once, when it begins.
pub proof fn law_silence_is_announced_once(bridge: PcmBridge)
    ensures
        ({
            let first = bridge.offered(LiveOffer::Silent);
            let second = first.0.offered(LiveOffer::Silent);
            &&& second.1 == (LiveAction::ForwardSilence { announce: false })
            &&& bridge.offered(LiveOffer::Captured).0.offered(LiveOffer::Silent).1 == (
            LiveAction::ForwardSilence { announce: true })
        }),
{
}

/// A tone is sent from its first sample to its last without gap or overlap,
/// at most one frame per tone period.
pub proof fn law_tone_frames_are_contiguous_and_paced(bridge: PcmBridge, input: TurnInput, sent: Instant)
    requires
        bridge.sound(),
        bridge.tone is Some,
        sent.nanos + LISTENING_TONE_FRAME_NANOS <= u64::MAX,
    ensures
        bridge.turned(input).1 matches TurnAction::SendTone { start, end } ==> {
            let tone = bridge.tone->0;
            let after = bridge.turned(input).0.tone_sent(sent);
            &&& start == tone.offset
            &&& start <= end <= tone.total
            &&& end - start <= TONE_FRAME_SAMPLES
            &&& start < tone.total ==> start < end
            &&& input.now.nanos >= tone.next_frame_at.nanos
            &&& end == tone.total ==> after.tone is None && !after.tone_active
            &&& end < tone.total ==> after.tone == Some(
                ToneProgress {
                    offset: end,
                    total: tone.total,
                    next_frame_at: Instant { nanos: (sent.nanos + LISTENING_TONE_FRAME_NANOS) as u64 },
                },
            )
        },
{
}

/// Cancelling a tone ends it at once and leaves nothing queued for it.
pub proof fn law_cancelled_tone_stops(bridge: PcmBridge, input: TurnInput)
    requires
        bridge.tone is Some,
        input.tone_cancelled,
        !input.cancelled,
    ensures
        bridge.turned(input).0.tone is None,
        !bridge.turned(input).0.tone_active,
        bridge.turned(input).1 == TurnAction::Again,
{
}

/// What one turn of the bridge does. A cancelled session ends it. Without a
/// tone the live side is polled; a request starts its tone at once from the
/// first sample unless it was cancelled, which frees the slot. A playing tone
/// naps, at most two milliseconds, until its next frame is due, and then sends
/// the next twenty milliseconds of it or what is left.
pub proof fn law_each_turn_of_the_bridge_does_one_thing(bridge: PcmBridge, input: TurnInput)
    requires
        bridge.sound(),
    ensures
        ({
            let (after, action) = bridge.turned(input);
            let starts = bridge.tone is None && (input.request matches Some(request)
                && !request.cancelled);
            let tone = if starts {
                Some(
                    ToneProgress {
                        offset: 0,
                        total: input.request->0.total,
                        next_frame_at: input.now,
                    },
                )
            } else {
                bridge.tone
            };
            &&& after.pending_drops == bridge.pending_drops
            &&& after.dropped_total == bridge.dropped_total
            &&& after.in_eviction_run == bridge.in_eviction_run
            &&& input.cancelled ==> after == bridge && action is Finish
            &&& !input.cancelled && tone is None ==> {
                &&& action is PollLive
                &&& after.tone is None
                &&& after.tone_active == (bridge.tone_active && input.request is None)
                &&& after.last_frame_was_silence == bridge.last_frame_was_silence
            }
            &&& !input.cancelled && tone is Some && input.tone_cancelled ==> action is Again
                && after.tone is None && !after.tone_active
            &&& !input.cancelled && tone is Some && !input.tone_cancelled ==> {
                let playing = tone->0;
                let left = playing.total - playing.offset;
                let count = if left < 1_764 { left } else { 1_764 };
                &&& after.tone_active == bridge.tone_active
                &&& input.now.nanos < playing.next_frame_at.nanos ==> {
                    &&& action matches TurnAction::Nap(nap) && nap.nanos <= 2_000_000 && nap.nanos
                        <= playing.next_frame_at.nanos - input.now.nanos && (nap.nanos == 2_000_000
                        || nap.nanos == playing.next_frame_at.nanos - input.now.nanos)
                    &&& after.tone == Some(playing)
                }
                &&& input.now.nanos >= playing.next_frame_at.nanos ==> {
                    &&& action matches TurnAction::SendTone { start, end } && start
                        == playing.offset && end == playing.offset + count
                    &&& after.tone == Some(
                        ToneProgress { offset: (playing.offset + count) as usize, ..playing },
                    )
                    &&& !after.last_frame_was_silence
                }
            }
        }),
{
}

/// Captured and injected frames are forwarded and end a silent stretch; when
/// nothing came in time one frame of silence is forwarded, announced only at
/// the start of the stretch; a gone capture side ends the bridge.
pub proof fn law_every_offer_is_forwarded_or_bridged(bridge: PcmBridge, offer: LiveOffer)
    ensures
        ({
            let (after, action) = bridge.offered(offer);
            &&& after == (PcmBridge {
                last_frame_was_silence: after.last_frame_was_silence,
                ..bridge
            })
            &&& offer is Captured || offer is Injected ==> action is Forward
                && !after.last_frame_was_silence
            &&& offer is Silent ==> action == (LiveAction::ForwardSilence {
                announce: !bridge.last_frame_was_silence,
            }) && after.last_frame_was_silence
            &&& offer is Disconnected ==> action is Finish && after == bridge
        }),
{
}

/// Every eviction counts once, towards the lifetime total and the pending
/// report; a delivered frame counts nothing; and a gone decoder ends the
/// bridge.
pub proof fn law_each_delivery_counts_its_eviction(bridge: PcmBridge, outcome: SendOutcome)
    requires
        bridge.sound(),
        bridge.dropped_total < u64::MAX,
    ensures
        ({
            let (after, action) = bridge.delivered(outcome);
            let evicted = if outcome is ReplacedOldest { 1int } else { 0int };
            &&& after.dropped_total == bridge.dropped_total + evicted
            &&& after.pending_drops == bridge.pending_drops + evicted
            &&& after.tone == bridge.tone
            &&& after.tone_active == bridge.tone_active
            &&& outcome is Disconnected <==> action is Finish
            &&& !(outcome is Disconnected) ==> after.in_eviction_run == (outcome is ReplacedOldest)
            &&& action is Flush <==> !(outcome is Disconnected) && bridge.in_eviction_run != (
            outcome is ReplacedOldest)
        }),
{
}

/// The layout of the pipeline: 44.1 kHz stereo, fifty-millisecond frames.
pub proof fn law_the_pipeline_layout()
    ensures
        CAPTURE_SAMPLE_RATE == 44_100,
        CAPTURE_CHANNELS == 2,
        BRIDGE_FRAME_SAMPLES == 4_410,
        TONE_FRAME_SAMPLES == 1_764,
        LISTENING_TONE_FRAME_NANOS == 20_000_000,
{
}

} // verus!
