//! Capture supervision: endpoint resolution, the worker restart ladder, and
//! the capture generations that outlive no worker.
//!
//! One replaceable worker runs per capture generation. [`CaptureDriver`]
//! decides when a worker is opened, replaced, parked, or retried; the
//! application opens endpoints, runs worker threads, and sleeps on its behalf.

use vstd::prelude::*;

use crate::event::{
    category_of_kind, kind_category, payload_kind, DiagnosticCategory, DiagnosticDraft,
    DiagnosticKind, DiagnosticPayload, DraftView, Generations, PayloadView, Severity,
};
use crate::meter::{window_emptied, window_sample, CaptureInputMeter};
use crate::model::{
    endpoint_view, endpoint_views, unmeasured_source, AudioEndpoint, AudioEndpointPreference,
    AudioSourceSnapshot, AudioSourceState, AudioSourceView, EndpointView, PreferenceView,
    UserFacingError,
};
use crate::text::{
    is_text_before, law_listing_ignores_arrival_order, lemma_bytes_order, lemma_listing_projects,
    listed, lowercase_text, sort_for_listing, text_before, to_lowercase, PublicationOrder, Ranked,
};
use crate::time::{instant_after, wall_after, Duration, Instant, SystemTime};

verus! {

/// Generation of the stable decoder pair; the pair is created once and never
/// replaced while its supervisor lives.
pub const DECODER_GENERATION: u64 = 1;

/// Steps of the worker restart ladder.
pub const CAPTURE_LADDER_LEN: usize = 5;

/// Capacity of the bounded supervisor update queue, as reported.
pub const UPDATE_QUEUE_CAPACITY: u32 = 256;

/// Failure of endpoint enumeration or of a capture worker.
#[derive(Debug, PartialEq, Eq)]
pub enum CaptureError {
    /// Endpoint enumeration failed before a worker could be opened.
    Endpoints(String),
    /// The opened capture worker failed while streaming.
    Worker(String),
}

/// The text a capture error renders as.
pub open spec fn capture_error_text(error: CaptureError) -> Seq<char> {
    match error {
        CaptureError::Endpoints(detail) => "endpoint enumeration failed: "@ + detail@,
        CaptureError::Worker(detail) => "capture worker failed: "@ + detail@,
    }
}

impl CaptureError {
    /// Renders the error.
    pub fn to_string(&self) -> (r: String)
        ensures
            r@ == capture_error_text(*self),
    {
        let (lead, detail): (&str, &String) = match self {
            CaptureError::Endpoints(detail) => ("endpoint enumeration failed: ", detail),
            CaptureError::Worker(detail) => ("capture worker failed: ", detail),
        };
        let mut text: String = lead.to_owned();
        text.append(detail.as_str());
        text
    }
}

/// An enumeration failure with its context.
pub fn endpoints_error(context: &str, error: &str) -> (r: CaptureError)
    ensures
        r matches CaptureError::Endpoints(detail) && detail@ == context@ + ": "@ + error@,
{
    let mut text: String = context.to_owned();
    text.append(": ");
    text.append(error);
    CaptureError::Endpoints(text)
}

/// A worker failure with its context.
pub fn worker_error(context: &str, error: &str) -> (r: CaptureError)
    ensures
        r matches CaptureError::Worker(detail) && detail@ == context@ + ": "@ + error@,
{
    let mut text: String = context.to_owned();
    text.append(": ");
    text.append(error);
    CaptureError::Worker(text)
}

/// Plain-data reference to one resolved render endpoint.
#[derive(Debug, PartialEq, Eq, Hash)]
pub struct WasapiDeviceRef {
    /// Stable endpoint ID.
    pub id: String,
    /// Current friendly name of the endpoint.
    pub name: String,
}

/// Which endpoint a preference asks the system for.
#[derive(Debug, PartialEq, Eq)]
pub enum EndpointQuery {
    /// The system default render endpoint.
    Default,
    /// Exactly the endpoint with this ID.
    ById(String),
}

/// Decides which endpoint a preference asks for.
///
/// The default preference follows the system default render endpoint; an
/// explicit one asks for its stable ID only and never falls back.
pub fn endpoint_query(preference: &AudioEndpointPreference) -> (r: EndpointQuery)
    ensures
        match preference@ {
            PreferenceView::SystemDefault => r is Default,
            PreferenceView::Explicit { id, .. } => r matches EndpointQuery::ById(asked) && asked@ == id,
        },
{
    match preference {
        AudioEndpointPreference::SystemDefault => EndpointQuery::Default,
        AudioEndpointPreference::Explicit { id, .. } => EndpointQuery::ById(id.clone()),
    }
}

/// The endpoint a lookup resolved to; a failed lookup stays a failure.
pub fn resolved_endpoint(
    answer: Result<WasapiDeviceRef, CaptureError>,
) -> (r: Result<AudioEndpoint, CaptureError>)
    ensures
        match answer {
            Ok(device) => r matches Ok(endpoint) && endpoint.id == device.id && endpoint.name == device.name,
            Err(error) => r == Err::<AudioEndpoint, CaptureError>(error),
        },
{
    match answer {
        Ok(device) => Ok(AudioEndpoint { id: device.id, name: device.name }),
        Err(error) => Err(error),
    }
}

/// Whether an endpoint ranks strictly before another: folded name first, then
/// stable ID.
pub open spec fn endpoint_ranks_before(a: EndpointView, b: EndpointView) -> bool {
    if text_before(lowercase_text(a.name), lowercase_text(b.name)) {
        true
    } else if text_before(lowercase_text(b.name), lowercase_text(a.name)) {
        false
    } else {
        text_before(a.id, b.id)
    }
}

proof fn lemma_endpoint_rank_laws(a: EndpointView, b: EndpointView, c: EndpointView)
    ensures
        endpoint_ranks_before(a, b) ==> !endpoint_ranks_before(b, a),
        !endpoint_ranks_before(b, a) && !endpoint_ranks_before(c, b) ==> !endpoint_ranks_before(c, a),
{
    let x = vstd::utf8::encode_utf8(lowercase_text(a.name));
    let y = vstd::utf8::encode_utf8(lowercase_text(b.name));
    let z = vstd::utf8::encode_utf8(lowercase_text(c.name));
    lemma_bytes_order(x, y, z);
    lemma_bytes_order(y, z, x);
    lemma_bytes_order(z, x, y);
    lemma_bytes_order(z, y, x);
    lemma_bytes_order(x, z, y);
    lemma_bytes_order(y, x, z);
    let i = vstd::utf8::encode_utf8(a.id);
    let j = vstd::utf8::encode_utf8(b.id);
    let k = vstd::utf8::encode_utf8(c.id);
    lemma_bytes_order(i, j, k);
    lemma_bytes_order(j, k, i);
    lemma_bytes_order(k, i, j);
    lemma_bytes_order(k, j, i);
    lemma_bytes_order(i, k, j);
    lemma_bytes_order(j, i, k);
}

impl Ranked for EndpointView {
    open spec fn precedes(self, other: Self) -> bool {
        endpoint_ranks_before(self, other)
    }

    proof fn order_laws(a: Self, b: Self, c: Self) {
        lemma_endpoint_rank_laws(a, b, c);
    }
}

impl Ranked for AudioEndpoint {
    open spec fn precedes(self, other: Self) -> bool {
        endpoint_ranks_before(self@, other@)
    }

    proof fn order_laws(a: Self, b: Self, c: Self) {
        lemma_endpoint_rank_laws(a@, b@, c@);
    }
}

impl PublicationOrder for AudioEndpoint {
    fn is_before(&self, other: &Self) -> (r: bool) {
        let mine: String = to_lowercase(self.name.as_str());
        let theirs: String = to_lowercase(other.name.as_str());
        if is_text_before(mine.as_str(), theirs.as_str()) {
            true
        } else if is_text_before(theirs.as_str(), mine.as_str()) {
            false
        } else {
            is_text_before(self.id.as_str(), other.id.as_str())
        }
    }
}

/// The endpoint list never depends on the order of enumeration: the same
/// endpoints, no two of one stable ID, are listed alike.
pub proof fn law_endpoint_listing_ignores_enumeration_order(
    a: Seq<EndpointView>,
    b: Seq<EndpointView>,
)
    requires
        a.to_multiset() == b.to_multiset(),
        forall|i: int, j: int| 0 <= i < j < a.len() ==> (#[trigger] a[i]).id != (#[trigger] a[j]).id,
    ensures
        listed(a) == listed(b),
{
    assert forall|p: EndpointView, q: EndpointView|
        a.contains(p) && a.contains(q) && p != q implies #[trigger] p.precedes(q) || q.precedes(p) by {
        let i = choose|i: int| 0 <= i < a.len() && a[i] == p;
        let j = choose|j: int| 0 <= j < a.len() && a[j] == q;
        assert(p.id != q.id);
        let (x, y) = (vstd::utf8::encode_utf8(p.id), vstd::utf8::encode_utf8(q.id));
        vstd::utf8::encode_utf8_decode_utf8(p.id);
        vstd::utf8::encode_utf8_decode_utf8(q.id);
        lemma_bytes_order(x, y, x);
    }
    law_listing_ignores_arrival_order(a, b);
}

/// Sorts endpoints case-insensitively by name with the stable ID as tiebreak
/// so ordering never depends on enumeration order.
pub fn sort_endpoints(endpoints: &mut Vec<AudioEndpoint>)
    ensures
        endpoint_views(final(endpoints)@) == listed(endpoint_views(old(endpoints)@)),
        final(endpoints)@.to_multiset() == old(endpoints)@.to_multiset(),
{
    let ghost before = endpoints@;
    sort_for_listing(endpoints);
    proof {
        let f = |endpoint: AudioEndpoint| endpoint@;
        lemma_listing_projects(before, f);
        assert(endpoint_views(before) =~= before.map_values(f));
        assert(endpoint_views(endpoints@) =~= endpoints@.map_values(f));
    }
}

/// Supervisor control edges; the newest request always wins.
#[derive(Clone, Copy, Debug, PartialEq, Eq, Structural)]
pub enum CaptureControl {
    /// Cancel the active worker and reopen capture with the latest endpoint
    /// preference; the decoder pair and its generation stay untouched.
    RequestEndpointChange,
    /// Cancel the active worker, hold the bridge on silence, and park until a
    /// [`Self::Resume`] arrives. The update channel stays open.
    Suspend,
    /// Leave the suspended state with a fresh capture generation.
    Resume,
    /// Cancel everything, publish `Stopped`, and close the update channel.
    Stop,
}

/// What a control edge means for the generation currently being built.
#[derive(Clone, Copy, Debug, PartialEq, Eq, Structural)]
pub enum ControlAction {
    /// Cancel this generation and open a fresh one.
    Restart,
    /// Cancel this generation and park until a resume arrives.
    Suspend,
    /// Cancel everything and end supervision.
    Stop,
}

/// The meaning of a control edge; a closed control channel reads as stop, and
/// a resume with no suspend outstanding reopens the endpoint.
pub open spec fn control_action(control: Option<CaptureControl>) -> ControlAction {
    match control {
        Some(CaptureControl::RequestEndpointChange) => ControlAction::Restart,
        Some(CaptureControl::Suspend) => ControlAction::Suspend,
        Some(CaptureControl::Resume) => ControlAction::Restart,
        Some(CaptureControl::Stop) => ControlAction::Stop,
        None => ControlAction::Stop,
    }
}

/// Classifies one control edge.
pub fn action_of(control: Option<CaptureControl>) -> (r: ControlAction)
    ensures
        r == control_action(control),
{
    match control {
        Some(CaptureControl::RequestEndpointChange) => ControlAction::Restart,
        Some(CaptureControl::Suspend) => ControlAction::Suspend,
        Some(CaptureControl::Resume) => ControlAction::Restart,
        Some(CaptureControl::Stop) => ControlAction::Stop,
        None => ControlAction::Stop,
    }
}

/// Generation-tagged supervisor output.
#[derive(Debug, PartialEq, Eq)]
pub enum CaptureUpdate {
    /// A new capture generation started opening a worker.
    Started {
        /// Generation of the stable decoder pair this update belongs to.
        decoder_generation: u64,
        /// Capture generation of the attempt.
        capture_generation: u64,
    },
    /// A worker finished initialization and delivers live audio.
    Ready {
        /// Generation of the stable decoder pair this update belongs to.
        decoder_generation: u64,
        /// Capture generation that became ready.
        capture_generation: u64,
        /// Endpoint resolved by the worker.
        endpoint: AudioEndpoint,
    },
    /// Replace-oldest delivery evicted queued frames.
    FrameDrop {
        /// Generation of the stable decoder pair this update belongs to.
        decoder_generation: u64,
        /// Capture generation active when frames were evicted.
        capture_generation: u64,
        /// Cumulative frames evicted under this decoder pair.
        dropped: u64,
    },
    /// A worker failed; a retry is scheduled on the ladder.
    Recovering {
        /// Generation of the stable decoder pair this update belongs to.
        decoder_generation: u64,
        /// Capture generation that failed.
        capture_generation: u64,
        /// Pre-redacted failure summary.
        error: UserFacingError,
        /// Monotonic deadline of the scheduled retry.
        retry_at: Instant,
    },
    /// Supervision stopped for this decoder-pair generation.
    Stopped {
        /// Decoder-pair generation that was stopped.
        decoder_generation: u64,
    },
    /// Capture is parked for a system suspend; the bridge paces silence.
    Suspended {
        /// Generation of the stable decoder pair this update belongs to.
        decoder_generation: u64,
        /// Capture generation that was cancelled.
        capture_generation: u64,
    },
}

/// What a capture update says.
pub enum CaptureUpdateView {
    /// A generation started.
    Started {
        /// Decoder generation.
        decoder_generation: u64,
        /// Capture generation.
        capture_generation: u64,
    },
    /// A worker is ready.
    Ready {
        /// Decoder generation.
        decoder_generation: u64,
        /// Capture generation.
        capture_generation: u64,
        /// Endpoint.
        endpoint: EndpointView,
    },
    /// Frames were evicted.
    FrameDrop {
        /// Decoder generation.
        decoder_generation: u64,
        /// Capture generation.
        capture_generation: u64,
        /// Lifetime total.
        dropped: u64,
    },
    /// A worker failed.
    Recovering {
        /// Decoder generation.
        decoder_generation: u64,
        /// Capture generation.
        capture_generation: u64,
        /// Summary text.
        error: Seq<char>,
        /// Deadline.
        retry_at: Instant,
    },
    /// Supervision stopped.
    Stopped {
        /// Decoder generation.
        decoder_generation: u64,
    },
    /// Capture is parked.
    Suspended {
        /// Decoder generation.
        decoder_generation: u64,
        /// Capture generation.
        capture_generation: u64,
    },
}

impl View for CaptureUpdate {
    type V = CaptureUpdateView;

    open spec fn view(&self) -> CaptureUpdateView {
        match *self {
            CaptureUpdate::Started { decoder_generation, capture_generation } =>
                CaptureUpdateView::Started { decoder_generation, capture_generation },
            CaptureUpdate::Ready { decoder_generation, capture_generation, endpoint } =>
                CaptureUpdateView::Ready {
                    decoder_generation,
                    capture_generation,
                    endpoint: endpoint@,
                },
            CaptureUpdate::FrameDrop { decoder_generation, capture_generation, dropped } =>
                CaptureUpdateView::FrameDrop { decoder_generation, capture_generation, dropped },
            CaptureUpdate::Recovering { decoder_generation, capture_generation, error, retry_at } =>
                CaptureUpdateView::Recovering {
                    decoder_generation,
                    capture_generation,
                    error: error@,
                    retry_at,
                },
            CaptureUpdate::Stopped { decoder_generation } =>
                CaptureUpdateView::Stopped { decoder_generation },
            CaptureUpdate::Suspended { decoder_generation, capture_generation } =>
                CaptureUpdateView::Suspended { decoder_generation, capture_generation },
        }
    }
}

impl AudioSourceSnapshot {
    /// Snapshot of a capturing system that is itself silent.
    pub fn silent_system() -> (r: Self)
        ensures
            r@ == (AudioSourceView { state: AudioSourceState::SilentSystem, ..unmeasured_source() }),
    {
        let mut source: AudioSourceSnapshot = AudioSourceSnapshot::default();
        source.state = AudioSourceState::SilentSystem;
        source
    }

    /// Snapshot while capture recovery is in progress; the redacted reason
    /// travels through diagnostics, not the presentation snapshot.
    pub fn recovering(_reason: UserFacingError) -> (r: Self)
        ensures
            r@ == (AudioSourceView { state: AudioSourceState::Recovering, ..unmeasured_source() }),
    {
        let mut source: AudioSourceSnapshot = AudioSourceSnapshot::default();
        source.state = AudioSourceState::Recovering;
        source
    }
}

/// Category of a capture diagnostic.
pub fn diagnostic_category(kind: DiagnosticKind) -> (r: DiagnosticCategory)
    ensures
        r == kind_category(kind),
{
    category_of_kind(kind)
}

/// Correlation key of a capture record: the capture counter is this
/// supervisor's own, the other two are read from the shared cell.
pub fn correlate(cell: Generations, capture_generation: u64) -> (r: Generations)
    ensures
        r == (Generations { capture: capture_generation, ..cell }),
{
    Generations { session: cell.session, discovery: cell.discovery, capture: capture_generation }
}

/// A capture diagnostic under the live generations.
pub open spec fn capture_draft(
    cell: Generations,
    capture_generation: u64,
    severity: Severity,
    payload: PayloadView,
) -> DraftView {
    DraftView {
        generations: Generations { capture: capture_generation, ..cell },
        receiver: None,
        severity,
        category: kind_category(payload_kind(payload)),
        payload,
    }
}

/// A capture diagnostic under the live generations.
pub fn draft(
    cell: Generations,
    capture_generation: u64,
    severity: Severity,
    payload: DiagnosticPayload,
) -> (r: DiagnosticDraft)
    ensures
        r@ == capture_draft(cell, capture_generation, severity, payload@),
{
    let category: DiagnosticCategory = diagnostic_category(payload.kind());
    DiagnosticDraft {
        generations: correlate(cell, capture_generation),
        receiver: None,
        severity,
        category,
        payload,
    }
}

/// Delay of a ladder step in nanoseconds: 250 ms, 500 ms, 1 s, 2 s, then
/// every 5 s.
pub open spec fn ladder_nanos(step: int) -> u64 {
    if step <= 0 {
        250_000_000
    } else if step == 1 {
        500_000_000
    } else if step == 2 {
        1_000_000_000
    } else if step == 3 {
        2_000_000_000
    } else {
        5_000_000_000
    }
}

/// Delay of a ladder step.
pub fn ladder_delay(step: usize) -> (r: Duration)
    ensures
        r.nanos == ladder_nanos(step as int),
{
    match step {
        0 => Duration::from_millis(250),
        1 => Duration::from_millis(500),
        2 => Duration::from_millis(1_000),
        3 => Duration::from_millis(2_000),
        _ => Duration::from_millis(5_000),
    }
}

/// Why a worker ended, rendered for presentation.
pub open spec fn worker_failure_text(cause: Option<CaptureError>) -> Seq<char> {
    match cause {
        Some(error) => "audio capture failed: "@ + capture_error_text(error),
        None => "audio capture worker ended unexpectedly"@,
    }
}

fn worker_failure(cause: Option<CaptureError>) -> (r: UserFacingError)
    ensures
        r@ == worker_failure_text(cause),
{
    match cause {
        Some(error) => {
            let mut text: String = "audio capture failed: ".to_owned();
            text.append(error.to_string().as_str());
            UserFacingError::new(text.as_str())
        },
        None => UserFacingError::new("audio capture worker ended unexpectedly"),
    }
}

/// What the supervisor is waiting for.
#[derive(Clone, Copy, Debug, PartialEq, Eq, Structural)]
pub enum CaptureStage {
    /// Its first step.
    Idle,
    /// The queue's answer to a generation start.
    Starting,
    /// The opened worker or a control edge.
    Opening,
    /// The worker's readiness or a control edge.
    Readying,
    /// The queue's answer to a readiness report.
    Announcing,
    /// The worker's end or a control edge.
    Running,
    /// The queue's answer to a failure report.
    Failing {
        /// Delay that follows.
        delay: Duration,
        /// Wall-clock end of the delay.
        wall_deadline: SystemTime,
    },
    /// The end of the ladder delay or a control edge.
    Climbing {
        /// Delay in progress.
        delay: Duration,
    },
    /// A resume.
    Suspended,
    /// Its turn after yielding to the queue's consumer.
    Yielding,
    /// The queue's answer to the final edge, after every worker was joined.
    Finishing,
    /// Nothing any more.
    Stopped,
}

/// How the bounded update queue answered a send.
#[derive(Clone, Copy, Debug, PartialEq, Eq, Structural)]
pub enum QueueAnswer {
    /// The update was taken.
    Sent,
    /// The queue is full.
    Overloaded,
    /// The consumer is gone.
    Closed,
}

/// What happened to the supervisor.
#[derive(Debug)]
pub enum CaptureInput {
    /// Its turn came.
    Proceed,
    /// The update queue answered the latest send.
    Queue(QueueAnswer),
    /// Opening a worker succeeded or failed.
    Opened(Result<(), CaptureError>),
    /// The worker reported readiness, or ended without doing so.
    Ready(Option<AudioEndpoint>),
    /// The worker ended; none means it vanished without a result.
    Ended {
        /// How it ended.
        outcome: Option<Result<(), CaptureError>>,
        /// Whether the newest control edge is an endpoint change.
        endpoint_change_pending: bool,
    },
    /// A control edge arrived; none means the control channel closed.
    Control(Option<CaptureControl>),
    /// The requested sleep elapsed.
    Elapsed,
}

/// What happened to the supervisor, as values.
pub enum CaptureInputView {
    /// Its turn came.
    Proceed,
    /// The queue answered.
    Queue(QueueAnswer),
    /// Opening succeeded, or failed for this reason.
    Opened(Result<(), CaptureError>),
    /// Readiness, or none.
    Ready(Option<EndpointView>),
    /// The worker ended.
    Ended {
        /// How.
        outcome: Option<Result<(), CaptureError>>,
        /// Endpoint change pending.
        endpoint_change_pending: bool,
    },
    /// A control edge.
    Control(Option<CaptureControl>),
    /// The sleep elapsed.
    Elapsed,
}

impl View for CaptureInput {
    type V = CaptureInputView;

    open spec fn view(&self) -> CaptureInputView {
        match *self {
            CaptureInput::Proceed => CaptureInputView::Proceed,
            CaptureInput::Queue(answer) => CaptureInputView::Queue(answer),
            CaptureInput::Opened(result) => CaptureInputView::Opened(result),
            CaptureInput::Ready(endpoint) => CaptureInputView::Ready(endpoint_view(endpoint)),
            CaptureInput::Ended { outcome, endpoint_change_pending } =>
                CaptureInputView::Ended { outcome, endpoint_change_pending },
            CaptureInput::Control(control) => CaptureInputView::Control(control),
            CaptureInput::Elapsed => CaptureInputView::Elapsed,
        }
    }
}

/// Clock readings and shared counters at a step.
#[derive(Clone, Copy, Debug, PartialEq, Eq, Structural)]
pub struct CaptureMoment {
    /// Shared generation counters.
    pub cell: Generations,
    /// Monotonic reading.
    pub now: Instant,
    /// Wall-clock reading.
    pub wall: SystemTime,
}

/// One thing the application does for the supervisor.
#[derive(Debug)]
pub enum CaptureEffect {
    /// Point the input meter and the bridge at this capture generation.
    BeginGeneration(u64),
    /// Create the cancellation token of a new attempt.
    NewChild,
    /// Cancel the current attempt.
    CancelChild,
    /// Forget the current attempt's token.
    DropChild,
    /// Cancel everything and join the bridge and every worker.
    Teardown,
    /// Start the opened worker on its thread.
    SpawnWorker,
    /// Offer an update to the bounded queue and report its answer.
    Send(CaptureUpdate),
    /// Offer an update to the bounded queue; its answer does not matter.
    Offer(CaptureUpdate),
    /// Emit a diagnostic record.
    Emit(DiagnosticDraft),
}

/// One thing the application does, as values.
pub enum CaptureEffectView {
    /// Begin a generation.
    BeginGeneration(u64),
    /// Create a token.
    NewChild,
    /// Cancel the attempt.
    CancelChild,
    /// Forget the token.
    DropChild,
    /// Cancel and join everything.
    Teardown,
    /// Start the worker.
    SpawnWorker,
    /// Offer an update and report.
    Send(CaptureUpdateView),
    /// Offer an update.
    Offer(CaptureUpdateView),
    /// Emit a record.
    Emit(DraftView),
}

impl View for CaptureEffect {
    type V = CaptureEffectView;

    open spec fn view(&self) -> CaptureEffectView {
        match *self {
            CaptureEffect::BeginGeneration(generation) =>
                CaptureEffectView::BeginGeneration(generation),
            CaptureEffect::NewChild => CaptureEffectView::NewChild,
            CaptureEffect::CancelChild => CaptureEffectView::CancelChild,
            CaptureEffect::DropChild => CaptureEffectView::DropChild,
            CaptureEffect::Teardown => CaptureEffectView::Teardown,
            CaptureEffect::SpawnWorker => CaptureEffectView::SpawnWorker,
            CaptureEffect::Send(update) => CaptureEffectView::Send(update@),
            CaptureEffect::Offer(update) => CaptureEffectView::Offer(update@),
            CaptureEffect::Emit(record) => CaptureEffectView::Emit(record@),
        }
    }
}

/// The effects of a list, each as values.
pub open spec fn capture_effects(effects: Seq<CaptureEffect>) -> Seq<CaptureEffectView> {
    effects.map_values(|effect: CaptureEffect| effect@)
}

/// What the supervisor knows.
pub struct CaptureDriverView {
    /// Newest capture generation.
    pub capture_generation: u64,
    /// Next ladder step.
    pub ladder_index: usize,
    /// Availability.
    pub state: AudioSourceState,
    /// Endpoint currently captured.
    pub captured_endpoint: Option<EndpointView>,
    /// Preference used by future opens.
    pub preference: PreferenceView,
    /// What it waits for.
    pub stage: CaptureStage,
}

impl CaptureDriverView {
    /// A state diagnostic of the current generation.
    pub open spec fn transition(
        self,
        at: CaptureMoment,
        severity: Severity,
        state: AudioSourceState,
    ) -> CaptureEffectView {
        CaptureEffectView::Emit(
            capture_draft(
                at.cell,
                self.capture_generation,
                severity,
                PayloadView::CaptureTransition { state },
            ),
        )
    }

    /// The overflow diagnostic of the current generation.
    pub open spec fn watermark(self, at: CaptureMoment) -> CaptureEffectView {
        CaptureEffectView::Emit(
            capture_draft(
                at.cell,
                self.capture_generation,
                Severity::Warning,
                PayloadView::QueueWatermark {
                    depth: UPDATE_QUEUE_CAPACITY,
                    capacity: UPDATE_QUEUE_CAPACITY,
                },
            ),
        )
    }

    /// Opens the next capture generation, after doing `first`.
    pub open spec fn opened(self, first: Seq<CaptureEffectView>) -> (CaptureDriverView, Seq<CaptureEffectView>) {
        let generation = (self.capture_generation + 1) as u64;
        (
            CaptureDriverView { capture_generation: generation, stage: CaptureStage::Starting, ..self },
            first + seq![
                CaptureEffectView::BeginGeneration(generation),
                CaptureEffectView::NewChild,
                CaptureEffectView::Send(
                    CaptureUpdateView::Started {
                        decoder_generation: DECODER_GENERATION,
                        capture_generation: generation,
                    },
                ),
            ],
        )
    }

    /// Parks for a suspend; the edge names the generation just cancelled.
    pub open spec fn parked(self, at: CaptureMoment) -> (CaptureDriverView, Seq<CaptureEffectView>) {
        (
            CaptureDriverView {
                state: AudioSourceState::Unavailable,
                captured_endpoint: None,
                stage: CaptureStage::Suspended,
                ..self
            },
            seq![
                CaptureEffectView::CancelChild,
                CaptureEffectView::DropChild,
                self.transition(at, Severity::Info, AudioSourceState::Unavailable),
                CaptureEffectView::Offer(
                    CaptureUpdateView::Suspended {
                        decoder_generation: DECODER_GENERATION,
                        capture_generation: self.capture_generation,
                    },
                ),
            ],
        )
    }

    /// Ends supervision: everything is cancelled and joined before the final
    /// edge is published.
    pub open spec fn stopped(self, at: CaptureMoment) -> (CaptureDriverView, Seq<CaptureEffectView>) {
        (
            CaptureDriverView { stage: CaptureStage::Finishing, ..self },
            seq![
                CaptureEffectView::DropChild,
                CaptureEffectView::Teardown,
                self.transition(at, Severity::Info, AudioSourceState::Unavailable),
                CaptureEffectView::Send(
                    CaptureUpdateView::Stopped { decoder_generation: DECODER_GENERATION },
                ),
            ],
        )
    }

    /// Obeys a control edge while a generation is being built or runs.
    pub open spec fn controlled(
        self,
        at: CaptureMoment,
        control: Option<CaptureControl>,
    ) -> (CaptureDriverView, Seq<CaptureEffectView>) {
        match control_action(control) {
            ControlAction::Restart => self.opened(seq![CaptureEffectView::CancelChild]),
            ControlAction::Suspend => self.parked(at),
            ControlAction::Stop => self.stopped(at),
        }
    }

    /// Reports a failed worker and schedules the ladder delay.
    pub open spec fn failed(
        self,
        at: CaptureMoment,
        cause: Option<CaptureError>,
    ) -> (CaptureDriverView, Seq<CaptureEffectView>) {
        let delay = ladder_nanos(self.ladder_index as int);
        (
            CaptureDriverView {
                state: AudioSourceState::Recovering,
                captured_endpoint: None,
                stage: CaptureStage::Failing {
                    delay: Duration { nanos: delay },
                    wall_deadline: wall_after(at.wall, delay),
                },
                ..self
            },
            seq![
                CaptureEffectView::Send(
                    CaptureUpdateView::Recovering {
                        decoder_generation: DECODER_GENERATION,
                        capture_generation: self.capture_generation,
                        error: worker_failure_text(cause),
                        retry_at: instant_after(at.now, delay),
                    },
                ),
            ],
        )
    }

    /// The supervisor and what is done for it after one input; an input that
    /// its stage does not wait for changes nothing.
    pub open spec fn after(self, at: CaptureMoment, input: CaptureInputView) -> (
        CaptureDriverView,
        Seq<CaptureEffectView>,
    ) {
        let yielding = (
            CaptureDriverView { stage: CaptureStage::Yielding, ..self },
            seq![self.watermark(at), CaptureEffectView::CancelChild],
        );
        match (self.stage, input) {
            (CaptureStage::Idle, CaptureInputView::Proceed) => self.opened(Seq::empty()),
            (CaptureStage::Yielding, CaptureInputView::Proceed) => self.opened(Seq::empty()),
            (CaptureStage::Starting, CaptureInputView::Queue(QueueAnswer::Sent)) => (
                CaptureDriverView { stage: CaptureStage::Opening, ..self },
                Seq::empty(),
            ),
            (CaptureStage::Starting, CaptureInputView::Queue(QueueAnswer::Overloaded)) => yielding,
            (CaptureStage::Starting, CaptureInputView::Queue(QueueAnswer::Closed)) => self.stopped(at),
            (CaptureStage::Opening, CaptureInputView::Opened(Ok(_))) => (
                CaptureDriverView { stage: CaptureStage::Readying, ..self },
                seq![CaptureEffectView::SpawnWorker],
            ),
            (CaptureStage::Opening, CaptureInputView::Opened(Err(error))) => self.failed(at, Some(error)),
            (CaptureStage::Opening, CaptureInputView::Control(control)) => self.controlled(at, control),
            (CaptureStage::Readying, CaptureInputView::Ready(None)) => self.failed(at, None),
            (CaptureStage::Readying, CaptureInputView::Ready(Some(endpoint))) => (
                CaptureDriverView {
                    state: AudioSourceState::Capturing,
                    captured_endpoint: Some(endpoint),
                    ladder_index: 0,
                    stage: CaptureStage::Announcing,
                    ..self
                },
                seq![
                    self.transition(at, Severity::Info, AudioSourceState::Capturing),
                    CaptureEffectView::Send(
                        CaptureUpdateView::Ready {
                            decoder_generation: DECODER_GENERATION,
                            capture_generation: self.capture_generation,
                            endpoint,
                        },
                    ),
                ],
            ),
            (CaptureStage::Readying, CaptureInputView::Control(control)) => self.controlled(at, control),
            (CaptureStage::Announcing, CaptureInputView::Queue(QueueAnswer::Sent)) => (
                CaptureDriverView { stage: CaptureStage::Running, ..self },
                Seq::empty(),
            ),
            (CaptureStage::Announcing, CaptureInputView::Queue(QueueAnswer::Overloaded)) => yielding,
            (CaptureStage::Announcing, CaptureInputView::Queue(QueueAnswer::Closed)) => self.stopped(at),
            (CaptureStage::Running, CaptureInputView::Ended { outcome, endpoint_change_pending }) =>
                match outcome {
                    Some(Ok(_)) => if endpoint_change_pending {
                        self.opened(seq![CaptureEffectView::CancelChild])
                    } else {
                        self.failed(at, None)
                    },
                    Some(Err(error)) => self.failed(at, Some(error)),
                    None => self.failed(at, None),
                },
            (CaptureStage::Running, CaptureInputView::Control(control)) => self.controlled(at, control),
            (CaptureStage::Failing { delay, wall_deadline }, CaptureInputView::Queue(QueueAnswer::Sent)) => (
                CaptureDriverView {
                    ladder_index: if self.ladder_index >= CAPTURE_LADDER_LEN {
                        CAPTURE_LADDER_LEN
                    } else {
                        (self.ladder_index + 1) as usize
                    },
                    stage: CaptureStage::Climbing { delay },
                    ..self
                },
                seq![
                    self.transition(at, Severity::Warning, AudioSourceState::Recovering),
                    CaptureEffectView::Emit(
                        capture_draft(
                            at.cell,
                            self.capture_generation,
                            Severity::Warning,
                            PayloadView::Retry {
                                receiver: None,
                                attempt: self.ladder_index as u32,
                                next_at: wall_deadline,
                            },
                        ),
                    ),
                ],
            ),
            (CaptureStage::Failing { .. }, CaptureInputView::Queue(QueueAnswer::Overloaded)) =>
                self.opened(seq![self.watermark(at), CaptureEffectView::CancelChild]),
            (CaptureStage::Failing { .. }, CaptureInputView::Queue(QueueAnswer::Closed)) => self.stopped(at),
            (CaptureStage::Climbing { .. }, CaptureInputView::Elapsed) => self.opened(Seq::empty()),
            (CaptureStage::Climbing { .. }, CaptureInputView::Control(control)) => self.controlled(at, control),
            (CaptureStage::Suspended, CaptureInputView::Control(control)) => match control {
                Some(CaptureControl::Resume) =>
                    CaptureDriverView { ladder_index: 0, ..self }.opened(Seq::empty()),
                Some(CaptureControl::RequestEndpointChange) => (self, Seq::empty()),
                Some(CaptureControl::Suspend) => (self, Seq::empty()),
                Some(CaptureControl::Stop) => self.stopped(at),
                None => self.stopped(at),
            },
            (CaptureStage::Finishing, CaptureInputView::Queue(QueueAnswer::Overloaded)) => (
                CaptureDriverView { stage: CaptureStage::Stopped, ..self },
                seq![self.watermark(at)],
            ),
            (CaptureStage::Finishing, CaptureInputView::Queue(_)) => (
                CaptureDriverView { stage: CaptureStage::Stopped, ..self },
                Seq::empty(),
            ),
            _ => (self, Seq::empty()),
        }
    }
}

/// The supervisor before its first turn.
pub open spec fn unstarted() -> CaptureDriverView {
    CaptureDriverView {
        capture_generation: 0,
        ladder_index: 0,
        state: AudioSourceState::Unavailable,
        captured_endpoint: None,
        preference: PreferenceView::SystemDefault,
        stage: CaptureStage::Idle,
    }
}

/// Supervises capture generations.
#[derive(Debug)]
pub struct CaptureDriver {
    capture_generation: u64,
    ladder_index: usize,
    state: AudioSourceState,
    captured_endpoint: Option<AudioEndpoint>,
    preference: AudioEndpointPreference,
    stage: CaptureStage,
}

impl View for CaptureDriver {
    type V = CaptureDriverView;

    closed spec fn view(&self) -> CaptureDriverView {
        CaptureDriverView {
            capture_generation: self.capture_generation,
            ladder_index: self.ladder_index,
            state: self.state,
            captured_endpoint: endpoint_view(self.captured_endpoint),
            preference: self.preference@,
            stage: self.stage,
        }
    }
}

impl CaptureDriver {
    /// A supervisor that has not started.
    pub fn new() -> (r: Self)
        ensures
            r@ == unstarted(),
    {
        CaptureDriver {
            capture_generation: 0,
            ladder_index: 0,
            state: AudioSourceState::Unavailable,
            captured_endpoint: None,
            preference: AudioEndpointPreference::default(),
            stage: CaptureStage::Idle,
        }
    }

    /// Current capture generation.
    pub fn capture_generation(&self) -> (r: u64)
        ensures
            r == self@.capture_generation,
    {
        self.capture_generation
    }

    /// What the supervisor waits for.
    pub fn stage(&self) -> (r: CaptureStage)
        ensures
            r == self@.stage,
    {
        self.stage
    }

    /// Preference used by the next open.
    pub fn preference(&self) -> (r: AudioEndpointPreference)
        ensures
            r@ == self@.preference,
    {
        self.preference.clone()
    }

    /// Replaces the endpoint preference used by future opens.
    pub fn set_preference(&mut self, preference: AudioEndpointPreference)
        ensures
            final(self)@ == (CaptureDriverView { preference: preference@, ..old(self)@ }),
    {
        self.preference = preference;
    }

    /// Builds the render-model view of the audio source.
    pub fn snapshot(&self, active_endpoints: Vec<AudioEndpoint>) -> (r: AudioSourceSnapshot)
        ensures
            r@ == (AudioSourceView {
                refresh_failed: false,
                active_endpoints: Some(endpoint_views(active_endpoints@)),
                preference: self@.preference,
                captured_endpoint: self@.captured_endpoint,
                state: self@.state,
                windows_input_peak_permille: None,
                pcm_frames_dropped_total: 0,
            }),
    {
        AudioSourceSnapshot {
            refresh_failed: false,
            active_endpoints: Some(active_endpoints),
            preference: self.preference.clone(),
            captured_endpoint: match &self.captured_endpoint {
                Some(endpoint) => Some(endpoint.clone()),
                None => None,
            },
            state: self.state,
            windows_input_peak_permille: None,
            pcm_frames_dropped_total: 0,
        }
    }

    /// Consumes the newest input-meter window and pairs it with the lifetime
    /// eviction total. Only a capturing worker's window is presented; any
    /// other window is discarded.
    pub fn take_input_telemetry(
        &self,
        meter: &mut CaptureInputMeter,
        now: Instant,
        dropped_total: u64,
    ) -> (r: (Option<u16>, u64))
        ensures
            r.1 == dropped_total,
            r.0 == if self@.state == AudioSourceState::Capturing {
                window_sample(*old(meter), self@.capture_generation, now)
            } else {
                None
            },
            *final(meter) == if old(meter).generation == Some(self@.capture_generation)
                && (self@.state != AudioSourceState::Capturing || old(meter).observed) {
                window_emptied(*old(meter))
            } else {
                *old(meter)
            },
    {
        let peak: Option<u16> = match self.state {
            AudioSourceState::Capturing => meter.take_window_at(self.capture_generation, now),
            _ => {
                meter.discard_window(self.capture_generation);
                None
            },
        };
        (peak, dropped_total)
    }

    /// Prepares the meter for a control request: a suspend or stop withdraws
    /// the running generation's observations at once.
    pub fn note_control_request(&self, control: CaptureControl, meter: &mut CaptureInputMeter)
        ensures
            *final(meter) == if (control == CaptureControl::Suspend || control == CaptureControl::Stop)
                && old(meter).generation == Some(self@.capture_generation) {
                crate::meter::idle_meter()
            } else {
                *old(meter)
            },
    {
        match control {
            CaptureControl::Suspend => meter.invalidate_generation(self.capture_generation),
            CaptureControl::Stop => meter.invalidate_generation(self.capture_generation),
            _ => {},
        }
    }

    /// Takes one input and returns, in order, what has to be done.
    pub fn step(&mut self, at: CaptureMoment, input: CaptureInput) -> (r: Vec<CaptureEffect>)
        requires
            old(self)@.capture_generation < u64::MAX,
            old(self)@.ladder_index <= CAPTURE_LADDER_LEN,
        ensures
            (final(self)@, capture_effects(r@)) == old(self)@.after(at, input@),
            final(self)@.ladder_index <= CAPTURE_LADDER_LEN,
    {
        let mut out: Vec<CaptureEffect> = Vec::new();
        assert(capture_effects(out@) =~= Seq::empty());
        match (self.stage, input) {
            (CaptureStage::Idle, CaptureInput::Proceed) => self.open(&mut out),
            (CaptureStage::Yielding, CaptureInput::Proceed) => self.open(&mut out),
            (CaptureStage::Starting, CaptureInput::Queue(QueueAnswer::Sent)) => {
                self.stage = CaptureStage::Opening;
            },
            (CaptureStage::Starting, CaptureInput::Queue(QueueAnswer::Overloaded)) => {
                self.overflow(at, &mut out);
                self.stage = CaptureStage::Yielding;
            },
            (CaptureStage::Starting, CaptureInput::Queue(QueueAnswer::Closed)) =>
                self.stop(at, &mut out),
            (CaptureStage::Opening, CaptureInput::Opened(Ok(_))) => {
                self.stage = CaptureStage::Readying;
                out.push(CaptureEffect::SpawnWorker);
            },
            (CaptureStage::Opening, CaptureInput::Opened(Err(error))) =>
                self.climb_ladder(at, Some(error), &mut out),
            (CaptureStage::Opening, CaptureInput::Control(control)) =>
                self.obey(at, control, &mut out),
            (CaptureStage::Readying, CaptureInput::Ready(None)) =>
                self.climb_ladder(at, None, &mut out),
            (CaptureStage::Readying, CaptureInput::Ready(Some(endpoint))) => {
                self.state = AudioSourceState::Capturing;
                self.captured_endpoint = Some(endpoint.clone());
                self.ladder_index = 0;
                self.stage = CaptureStage::Announcing;
                out.push(CaptureEffect::Emit(draft(
                    at.cell,
                    self.capture_generation,
                    Severity::Info,
                    DiagnosticPayload::CaptureTransition { state: AudioSourceState::Capturing },
                )));
                out.push(CaptureEffect::Send(CaptureUpdate::Ready {
                    decoder_generation: DECODER_GENERATION,
                    capture_generation: self.capture_generation,
                    endpoint,
                }));
            },
            (CaptureStage::Readying, CaptureInput::Control(control)) =>
                self.obey(at, control, &mut out),
            (CaptureStage::Announcing, CaptureInput::Queue(QueueAnswer::Sent)) => {
                self.stage = CaptureStage::Running;
            },
            (CaptureStage::Announcing, CaptureInput::Queue(QueueAnswer::Overloaded)) => {
                self.overflow(at, &mut out);
                self.stage = CaptureStage::Yielding;
            },
            (CaptureStage::Announcing, CaptureInput::Queue(QueueAnswer::Closed)) =>
                self.stop(at, &mut out),
            (CaptureStage::Running, CaptureInput::Ended { outcome, endpoint_change_pending }) => {
                match outcome {
                    Some(Ok(_)) => {
                        if endpoint_change_pending {
                            out.push(CaptureEffect::CancelChild);
                            self.open(&mut out);
                        } else {
                            self.climb_ladder(at, None, &mut out);
                        }
                    },
                    Some(Err(error)) => self.climb_ladder(at, Some(error), &mut out),
                    None => self.climb_ladder(at, None, &mut out),
                }
            },
            (CaptureStage::Running, CaptureInput::Control(control)) =>
                self.obey(at, control, &mut out),
            (
                CaptureStage::Failing { delay, wall_deadline },
                CaptureInput::Queue(QueueAnswer::Sent),
            ) => {
                out.push(CaptureEffect::Emit(draft(
                    at.cell,
                    self.capture_generation,
                    Severity::Warning,
                    DiagnosticPayload::CaptureTransition { state: AudioSourceState::Recovering },
                )));
                out.push(CaptureEffect::Emit(draft(
                    at.cell,
                    self.capture_generation,
                    Severity::Warning,
                    DiagnosticPayload::Retry {
                        receiver: None,
                        attempt: self.ladder_index as u32,
                        next_at: wall_deadline,
                    },
                )));
                self.ladder_index = if self.ladder_index >= CAPTURE_LADDER_LEN {
                    CAPTURE_LADDER_LEN
                } else {
                    self.ladder_index + 1
                };
                self.stage = CaptureStage::Climbing { delay };
            },
            (CaptureStage::Failing { .. }, CaptureInput::Queue(QueueAnswer::Overloaded)) => {
                self.overflow(at, &mut out);
                self.open(&mut out);
            },
            (CaptureStage::Failing { .. }, CaptureInput::Queue(QueueAnswer::Closed)) =>
                self.stop(at, &mut out),
            (CaptureStage::Climbing { .. }, CaptureInput::Elapsed) => self.open(&mut out),
            (CaptureStage::Climbing { .. }, CaptureInput::Control(control)) =>
                self.obey(at, control, &mut out),
            (CaptureStage::Suspended, CaptureInput::Control(control)) => {
                match control {
                    Some(CaptureControl::Resume) => {
                        self.ladder_index = 0;
                        self.open(&mut out);
                    },
                    Some(CaptureControl::RequestEndpointChange) => {},
                    Some(CaptureControl::Suspend) => {},
                    Some(CaptureControl::Stop) => self.stop(at, &mut out),
                    None => self.stop(at, &mut out),
                }
            },
            (CaptureStage::Finishing, CaptureInput::Queue(QueueAnswer::Overloaded)) => {
                self.stage = CaptureStage::Stopped;
                out.push(self.watermark(at));
            },
            (CaptureStage::Finishing, CaptureInput::Queue(_)) => {
                self.stage = CaptureStage::Stopped;
            },
            _ => {},
        }
        proof {
            assert(capture_effects(out@) =~= old(self)@.after(at, input@).1);
        }
        out
    }

    fn watermark(&self, at: CaptureMoment) -> (r: CaptureEffect)
        ensures
            r@ == self@.watermark(at),
    {
        CaptureEffect::Emit(draft(
            at.cell,
            self.capture_generation,
            Severity::Warning,
            DiagnosticPayload::QueueWatermark {
                depth: UPDATE_QUEUE_CAPACITY,
                capacity: UPDATE_QUEUE_CAPACITY,
            },
        ))
    }

    /// Reports a full queue and cancels the attempt.
    fn overflow(&mut self, at: CaptureMoment, out: &mut Vec<CaptureEffect>)
        requires
            old(out)@.len() == 0,
        ensures
            *final(self) == *old(self),
            capture_effects(final(out)@) == seq![
                old(self)@.watermark(at),
                CaptureEffectView::CancelChild,
            ],
    {
        out.push(self.watermark(at));
        out.push(CaptureEffect::CancelChild);
        assert(capture_effects(out@) =~= seq![self@.watermark(at), CaptureEffectView::CancelChild]);
    }

    fn open(&mut self, out: &mut Vec<CaptureEffect>)
        requires
            old(self)@.capture_generation < u64::MAX,
        ensures
            (final(self)@, capture_effects(final(out)@)) == old(self)@.opened(
                capture_effects(old(out)@),
            ),
    {
        let ghost first = capture_effects(out@);
        let generation: u64 = self.capture_generation + 1;
        self.capture_generation = generation;
        self.stage = CaptureStage::Starting;
        out.push(CaptureEffect::BeginGeneration(generation));
        out.push(CaptureEffect::NewChild);
        out.push(CaptureEffect::Send(CaptureUpdate::Started {
            decoder_generation: DECODER_GENERATION,
            capture_generation: generation,
        }));
        proof {
            assert(capture_effects(out@) =~= old(self)@.opened(first).1);
        }
    }

    fn park(&mut self, at: CaptureMoment, out: &mut Vec<CaptureEffect>)
        requires
            old(out)@.len() == 0,
        ensures
            (final(self)@, capture_effects(final(out)@)) == old(self)@.parked(at),
    {
        self.state = AudioSourceState::Unavailable;
        self.captured_endpoint = None;
        self.stage = CaptureStage::Suspended;
        out.push(CaptureEffect::CancelChild);
        out.push(CaptureEffect::DropChild);
        out.push(CaptureEffect::Emit(draft(
            at.cell,
            self.capture_generation,
            Severity::Info,
            DiagnosticPayload::CaptureTransition { state: AudioSourceState::Unavailable },
        )));
        out.push(CaptureEffect::Offer(CaptureUpdate::Suspended {
            decoder_generation: DECODER_GENERATION,
            capture_generation: self.capture_generation,
        }));
        proof {
            assert(capture_effects(out@) =~= old(self)@.parked(at).1);
        }
    }

    fn stop(&mut self, at: CaptureMoment, out: &mut Vec<CaptureEffect>)
        requires
            old(out)@.len() == 0,
        ensures
            (final(self)@, capture_effects(final(out)@)) == old(self)@.stopped(at),
    {
        self.stage = CaptureStage::Finishing;
        out.push(CaptureEffect::DropChild);
        out.push(CaptureEffect::Teardown);
        out.push(CaptureEffect::Emit(draft(
            at.cell,
            self.capture_generation,
            Severity::Info,
            DiagnosticPayload::CaptureTransition { state: AudioSourceState::Unavailable },
        )));
        out.push(CaptureEffect::Send(CaptureUpdate::Stopped {
            decoder_generation: DECODER_GENERATION,
        }));
        proof {
            assert(capture_effects(out@) =~= old(self)@.stopped(at).1);
        }
    }

    fn obey(
        &mut self,
        at: CaptureMoment,
        control: Option<CaptureControl>,
        out: &mut Vec<CaptureEffect>,
    )
        requires
            old(out)@.len() == 0,
            old(self)@.capture_generation < u64::MAX,
        ensures
            (final(self)@, capture_effects(final(out)@)) == old(self)@.controlled(at, control),
    {
        match action_of(control) {
            ControlAction::Restart => {
                out.push(CaptureEffect::CancelChild);
                assert(capture_effects(out@) =~= seq![CaptureEffectView::CancelChild]);
                self.open(out);
            },
            ControlAction::Suspend => self.park(at, out),
            ControlAction::Stop => self.stop(at, out),
        }
    }

    /// Reports a failed worker and schedules the ladder delay.
    fn climb_ladder(
        &mut self,
        at: CaptureMoment,
        cause: Option<CaptureError>,
        out: &mut Vec<CaptureEffect>,
    )
        requires
            old(out)@.len() == 0,
        ensures
            (final(self)@, capture_effects(final(out)@)) == old(self)@.failed(at, cause),
    {
        let delay: Duration = ladder_delay(self.ladder_index);
        self.state = AudioSourceState::Recovering;
        self.captured_endpoint = None;
        out.push(CaptureEffect::Send(CaptureUpdate::Recovering {
            decoder_generation: DECODER_GENERATION,
            capture_generation: self.capture_generation,
            error: worker_failure(cause),
            retry_at: at.now.after(delay),
        }));
        self.stage = CaptureStage::Failing { delay, wall_deadline: at.wall.after(delay) };
        proof {
            assert(capture_effects(out@) =~= old(self)@.failed(at, cause).1);
        }
    }
}

/// A capture generation is spent once: the counter never goes back, and every
/// generation opened is newer than the one before.
pub proof fn law_capture_generations_only_grow(
    driver: CaptureDriverView,
    at: CaptureMoment,
    input: CaptureInputView,
)
    requires
        driver.capture_generation < u64::MAX,
    ensures
        driver.after(at, input).0.capture_generation >= driver.capture_generation,
        driver.after(at, input).0.stage == CaptureStage::Starting && driver.stage != CaptureStage::Starting
            ==> driver.after(at, input).0.capture_generation == driver.capture_generation + 1,
{
}

/// A suspend names the generation it cancelled, whichever stage that
/// generation was in, and the resume mints the next one.
pub proof fn law_suspend_names_the_cancelled_generation(driver: CaptureDriverView, at: CaptureMoment)
    requires
        driver.capture_generation < u64::MAX,
        driver.stage is Opening || driver.stage is Readying || driver.stage is Running
            || driver.stage is Climbing,
    ensures
        ({
            let parked = driver.after(at, CaptureInputView::Control(Some(CaptureControl::Suspend)));
            let resumed = parked.0.after(at, CaptureInputView::Control(Some(CaptureControl::Resume)));
            &&& parked.0.stage == CaptureStage::Suspended
            &&& parked.1.last() == CaptureEffectView::Offer(
                CaptureUpdateView::Suspended {
                    decoder_generation: DECODER_GENERATION,
                    capture_generation: driver.capture_generation,
                },
            )
            &&& resumed.0.capture_generation == driver.capture_generation + 1
            &&& resumed.0.ladder_index == 0
        }),
{
}

/// While suspended, only a resume or a stop has any effect.
pub proof fn law_suspended_capture_waits_for_a_resume(
    driver: CaptureDriverView,
    at: CaptureMoment,
    input: CaptureInputView,
)
    requires
        driver.stage == CaptureStage::Suspended,
        !(input matches CaptureInputView::Control(Some(CaptureControl::Resume))),
        !(input matches CaptureInputView::Control(Some(CaptureControl::Stop))),
        !(input matches CaptureInputView::Control(None)),
    ensures
        driver.after(at, input) == (driver, Seq::<CaptureEffectView>::empty()),
{
}

/// Consecutive failures climb the ladder to its last step and stay there; a
/// worker that becomes ready starts it over.
pub proof fn law_ladder_climbs_and_resets(
    driver: CaptureDriverView,
    at: CaptureMoment,
    endpoint: EndpointView,
)
    requires
        driver.ladder_index <= CAPTURE_LADDER_LEN,
    ensures
        driver.stage is Failing ==> {
            let next = driver.after(at, CaptureInputView::Queue(QueueAnswer::Sent)).0;
            &&& next.ladder_index == if driver.ladder_index < CAPTURE_LADDER_LEN {
                driver.ladder_index + 1
            } else {
                CAPTURE_LADDER_LEN as int
            }
            &&& ladder_nanos(next.ladder_index as int) >= ladder_nanos(driver.ladder_index as int)
        },
        driver.stage == CaptureStage::Readying
            ==> driver.after(at, CaptureInputView::Ready(Some(endpoint))).0.ladder_index == 0,
{
}

/// A closed control channel is a stop, in every stage that listens to it.
pub proof fn law_closed_control_channel_stops(driver: CaptureDriverView, at: CaptureMoment)
    requires
        driver.stage is Opening || driver.stage is Readying || driver.stage is Running
            || driver.stage is Climbing || driver.stage is Suspended,
    ensures
        driver.after(at, CaptureInputView::Control(None)).0.stage == CaptureStage::Finishing,
        driver.after(at, CaptureInputView::Control(None))
            == driver.after(at, CaptureInputView::Control(Some(CaptureControl::Stop))),
{
}

} // verus!
