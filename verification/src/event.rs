//! Low-volume shell events and the bounded diagnostic feed.
//!
//! [`BackendEvent`] carries only shell-visible edges; snapshots stay
//! authoritative when its broadcast lags. [`DiagnosticEvent`] is the typed,
//! redaction-safe feed, and a lagging receiver of it is told of its loss by a
//! synthetic record instead of an error.

use vstd::prelude::*;

use crate::calibration::CalibrationApplyState;
use crate::ids::ReceiverId;
use crate::model::{
    error_text, AudioSourceState, DiscoveryPhase, LifecycleView, PersistenceSnapshot, PhaseView,
    ReceiverLifecycle, RestartReason, SessionPhase, SetupPhase, UserFacingError,
};
use crate::time::{Duration, SystemTime};

verus! {

/// Fixed capacity of the low-volume shell event broadcast.
pub const BACKEND_EVENT_CAPACITY: usize = 256;

/// Fixed capacity of the diagnostic ring.
pub const DIAGNOSTIC_CAPACITY: usize = 2_048;

/// Fixed per-supervisor capacity for supervisor-to-actor events.
pub const SUPERVISOR_CAPACITY: usize = 256;

/// Fixed capacity of the newest-data live PCM bridge in frames.
pub const PCM_CAPACITY: usize = 32;

/// Presentation severity of a backend notice or diagnostic event.
#[derive(Clone, Copy, Debug, PartialEq, Eq, Structural)]
pub enum Severity {
    /// Purely informational.
    Info,
    /// Degraded but recovering; user attention optional.
    Warning,
    /// An operation failed in a way the user should know about.
    Error,
}

/// Stable machine-readable code carried by [`BackendEvent::Notice`].
#[derive(Clone, Copy, Debug, PartialEq, Eq, Structural)]
pub enum NoticeCode {
    /// Discovery supervision could not maintain a browse generation.
    DiscoveryFailed,
    /// The session could not be kept running after best-effort recovery.
    SessionFailed,
    /// No usable capture source is currently available.
    CaptureUnavailable,
    /// Persisting device state failed and the change was therefore not
    /// applied; the previous durable and in-memory state both stand.
    PersistenceWrite,
    /// A lifecycle queue rejected work because it is overloaded.
    QueueOverloaded,
}

/// Backend domain a notice belongs to.
#[derive(Clone, Copy, Debug, PartialEq, Eq, Structural)]
pub enum ErrorScope {
    /// Discovery supervision and receiver inventory.
    Discovery,
    /// AirPlay session setup, streaming, and recovery.
    Session,
    /// System capture and the live PCM bridge.
    Capture,
    /// Durable device-state persistence.
    Persistence,
    /// Internal lifecycle queues.
    Queue,
}

/// Low-volume shell notifications; snapshots stay authoritative if this feed
/// lags.
#[derive(Clone, Debug, PartialEq, Eq)]
pub enum BackendEvent {
    /// The command with this ID was applied successfully.
    CommandCompleted {
        /// Handle-allocated ID echoed from the command.
        id: u64,
    },
    /// The command with this ID was rejected or failed.
    CommandFailed {
        /// Handle-allocated ID echoed from the command.
        id: u64,
        /// Pre-redacted, shell-safe reason.
        error: UserFacingError,
    },
    /// A user-visible condition that is not tied to one command.
    Notice {
        /// Presentation severity.
        severity: Severity,
        /// Stable machine-readable code.
        code: NoticeCode,
        /// Backend domain responsible for the notice.
        scope: ErrorScope,
        /// Pre-redacted human-readable message.
        message: String,
    },
}

/// What a shell notification says.
pub enum EventView {
    /// A command was applied.
    CommandCompleted {
        /// Command ID.
        id: u64,
    },
    /// A command was rejected or failed.
    CommandFailed {
        /// Command ID.
        id: u64,
        /// Reason text.
        error: Seq<char>,
    },
    /// A user-visible condition.
    Notice {
        /// Severity.
        severity: Severity,
        /// Code.
        code: NoticeCode,
        /// Domain.
        scope: ErrorScope,
        /// Message text.
        message: Seq<char>,
    },
}

impl View for BackendEvent {
    type V = EventView;

    open spec fn view(&self) -> EventView {
        match *self {
            BackendEvent::CommandCompleted { id } => EventView::CommandCompleted { id },
            BackendEvent::CommandFailed { id, error } =>
                EventView::CommandFailed { id, error: error@ },
            BackendEvent::Notice { severity, code, scope, message } =>
                EventView::Notice { severity, code, scope, message: message@ },
        }
    }
}

/// Coarse domain of a diagnostic event, derived from its payload kind.
#[derive(Clone, Copy, Debug, PartialEq, Eq, Structural)]
pub enum DiagnosticCategory {
    /// Free-form redacted summaries.
    General,
    /// Discovery supervision and inventory changes.
    Discovery,
    /// Command acceptance, coalescing, completion, and failure.
    Command,
    /// Per-receiver lifecycle and setup progress.
    Receiver,
    /// Whole-session phases and restarts.
    Session,
    /// Scheduled retries for receivers or discovery.
    Retry,
    /// Capture state, PCM drops, and silence bridging.
    Capture,
    /// Per-receiver feedback probe results.
    Probe,
    /// Durable state load, write, migration, and recovery.
    Persistence,
    /// Queue watermarks and lag losses.
    Queue,
    /// Worker cancellations and shutdown durations.
    Worker,
}

/// Fine-grained identity of a [`DiagnosticPayload`] variant.
///
/// One-to-one with payload variants so consumers can filter without matching
/// payload contents.
#[derive(Clone, Copy, Debug, PartialEq, Eq, Structural)]
pub enum DiagnosticKind {
    /// Pre-redacted free-form summary.
    Message,
    /// Discovery generation start/stop/error edge.
    DiscoveryGeneration,
    /// Receiver added to or removed from discovery inventory.
    DiscoveryReceiver,
    /// Command completed or failed.
    CommandResult,
    /// Commands merged away during pre-setup coalescing.
    CommandCoalesced,
    /// Receiver lifecycle transition destination.
    ReceiverTransition,
    /// Measured duration of one setup phase.
    SetupPhaseDuration,
    /// Whole-session phase transition destination.
    SessionTransition,
    /// Announced full-session restart.
    SessionRestart,
    /// Retry scheduled for a receiver or discovery generation.
    Retry,
    /// Capture availability transition.
    CaptureTransition,
    /// Live PCM frames dropped by the newest-data bridge.
    PcmDrop,
    /// Silence paced by the bridge instead of live capture.
    SilenceBridge,
    /// Per-receiver feedback probe result.
    Probe,
    /// Persistence operation outcome.
    Persistence,
    /// Observed queue high-water mark.
    QueueWatermark,
    /// Typed gap after dropped diagnostic events.
    QueueLag,
    /// Worker cancellation shutdown duration.
    WorkerShutdown,
    /// Platform sleep or network transition applied by the controller.
    SystemTransition,
    /// Manual calibration apply lifecycle edge.
    CalibrationState,
}

/// Platform edge the controller acted on.
///
/// Carries verdicts, never addresses.
#[derive(Clone, Copy, Debug, PartialEq, Eq, Hash, Structural)]
pub enum SystemTransition {
    /// Suspend accepted; capture and the session are being stopped.
    Suspending,
    /// The resume interface-settle period elapsed and generations were
    /// recreated.
    Resumed,
    /// One coalesced network-change burst was applied.
    NetworkChanged {
        /// Whether an active local binding/address moved.
        local_binding_changed: bool,
    },
}

/// Typed, presentation-safe diagnostic content.
///
/// Every variant stores only stable IDs, enum states, counts, durations,
/// retry attempt/deadline values, resolved latency numbers, and pre-redacted
/// error summaries.
#[derive(Clone, Debug, PartialEq, Eq)]
pub enum DiagnosticPayload {
    /// Pre-redacted user-safe summary text only.
    Message(String),
    /// Discovery supervisor generation lifecycle edge.
    DiscoveryGeneration {
        /// Generation the edge belongs to.
        generation: u64,
        /// Supervisor phase reached.
        phase: DiscoveryPhase,
    },
    /// A receiver entered or left the discovery inventory.
    DiscoveryReceiver {
        /// Stable receiver identity.
        receiver: ReceiverId,
        /// Whether the receiver is now present.
        present: bool,
    },
    /// Command completed or failed; `None` marks success.
    CommandResult {
        /// Handle-allocated command ID.
        id: u64,
        /// Pre-redacted failure summary, if any.
        error: Option<UserFacingError>,
    },
    /// Commands merged away during coalescing before reconciliation.
    CommandCoalesced {
        /// How many commands were superseded.
        dropped: u32,
    },
    /// Receiver lifecycle transition destination.
    ReceiverTransition {
        /// Stable receiver identity.
        receiver: ReceiverId,
        /// Lifecycle state entered.
        to: ReceiverLifecycle,
    },
    /// Measured duration of one transport-reported setup phase.
    SetupPhaseDuration {
        /// Stable receiver identity.
        receiver: ReceiverId,
        /// Phase that completed.
        phase: SetupPhase,
        /// Time spent in the phase.
        duration: Duration,
    },
    /// Whole-session phase transition destination.
    SessionTransition {
        /// Phase entered, including its generation tag.
        phase: SessionPhase,
        /// Receivers active when the transition committed.
        active_members: u32,
    },
    /// Announced full-session restart.
    SessionRestart {
        /// Generation being torn down and replaced.
        generation: u64,
        /// Matrix reason driving the restart.
        reason: RestartReason,
    },
    /// Retry scheduled for a receiver or for a discovery generation.
    Retry {
        /// Target receiver, or none for discovery-level retries.
        receiver: Option<ReceiverId>,
        /// Zero-based attempt number that will be performed.
        attempt: u32,
        /// Wall-clock deadline of the pending retry.
        next_at: SystemTime,
    },
    /// Capture availability transition destination.
    CaptureTransition {
        /// Availability/capture-recovery state entered.
        state: AudioSourceState,
    },
    /// Live PCM frames dropped by the newest-data bridge.
    PcmDrop {
        /// Number of frames dropped since the last report.
        dropped: u64,
    },
    /// Duration the bridge paced silence instead of live capture.
    SilenceBridge {
        /// Accumulated silence interval.
        duration: Duration,
    },
    /// Per-receiver feedback probe result.
    Probe {
        /// Whether the receiver answered within bounds.
        healthy: bool,
        /// Resolved control-request latency in milliseconds.
        latency_ms: u64,
    },
    /// Persistence operation outcome.
    Persistence {
        /// Health of the latest persistence cycle.
        outcome: PersistenceSnapshot,
    },
    /// Observed queue high-water mark.
    QueueWatermark {
        /// Deepest observed occupancy.
        depth: u32,
        /// Fixed capacity of the observed queue.
        capacity: u32,
    },
    /// Typed gap replacing events lost to receiver lag.
    QueueLag {
        /// Number of diagnostic events dropped.
        dropped: u64,
    },
    /// Worker cancellation shutdown duration.
    WorkerShutdown {
        /// Time from cancellation signal to joined workers.
        duration: Duration,
        /// Whether at least one bounded drain hit its budget instead of
        /// finishing.
        timed_out: bool,
    },
    /// Platform sleep or network transition applied by the controller.
    SystemTransition {
        /// Edge that was applied.
        transition: SystemTransition,
    },
    /// Manual calibration apply lifecycle edge.
    ///
    /// Carries the lifecycle state only. The profile, its receivers, and its
    /// values are user configuration, not diagnostic material.
    CalibrationState(CalibrationApplyState),
}

/// What a diagnostic payload says.
pub enum PayloadView {
    /// Summary text.
    Message(Seq<char>),
    /// Discovery generation edge.
    DiscoveryGeneration {
        /// Generation.
        generation: u64,
        /// Phase reached.
        phase: DiscoveryPhase,
    },
    /// Inventory change.
    DiscoveryReceiver {
        /// Receiver.
        receiver: ReceiverId,
        /// Presence.
        present: bool,
    },
    /// Command result.
    CommandResult {
        /// Command ID.
        id: u64,
        /// Failure text.
        error: Option<Seq<char>>,
    },
    /// Coalesced commands.
    CommandCoalesced {
        /// Superseded commands.
        dropped: u32,
    },
    /// Lifecycle destination.
    ReceiverTransition {
        /// Receiver.
        receiver: ReceiverId,
        /// State entered.
        to: LifecycleView,
    },
    /// Setup phase duration.
    SetupPhaseDuration {
        /// Receiver.
        receiver: ReceiverId,
        /// Phase.
        phase: SetupPhase,
        /// Duration.
        duration: Duration,
    },
    /// Session phase destination.
    SessionTransition {
        /// Phase entered.
        phase: PhaseView,
        /// Active receivers.
        active_members: u32,
    },
    /// Announced restart.
    SessionRestart {
        /// Generation.
        generation: u64,
        /// Reason.
        reason: RestartReason,
    },
    /// Scheduled retry.
    Retry {
        /// Receiver.
        receiver: Option<ReceiverId>,
        /// Attempt.
        attempt: u32,
        /// Deadline.
        next_at: SystemTime,
    },
    /// Capture state.
    CaptureTransition {
        /// State entered.
        state: AudioSourceState,
    },
    /// Dropped frames.
    PcmDrop {
        /// Count.
        dropped: u64,
    },
    /// Paced silence.
    SilenceBridge {
        /// Duration.
        duration: Duration,
    },
    /// Probe result.
    Probe {
        /// Health.
        healthy: bool,
        /// Latency.
        latency_ms: u64,
    },
    /// Persistence outcome.
    Persistence {
        /// Health.
        outcome: PersistenceSnapshot,
    },
    /// Queue watermark.
    QueueWatermark {
        /// Depth.
        depth: u32,
        /// Capacity.
        capacity: u32,
    },
    /// Loss record.
    QueueLag {
        /// Lost events.
        dropped: u64,
    },
    /// Shutdown record.
    WorkerShutdown {
        /// Duration.
        duration: Duration,
        /// Budget overrun.
        timed_out: bool,
    },
    /// Platform edge.
    SystemTransition {
        /// Edge.
        transition: SystemTransition,
    },
    /// Calibration edge.
    CalibrationState(CalibrationApplyState),
}

impl View for DiagnosticPayload {
    type V = PayloadView;

    open spec fn view(&self) -> PayloadView {
        match *self {
            DiagnosticPayload::Message(text) => PayloadView::Message(text@),
            DiagnosticPayload::DiscoveryGeneration { generation, phase } =>
                PayloadView::DiscoveryGeneration { generation, phase },
            DiagnosticPayload::DiscoveryReceiver { receiver, present } =>
                PayloadView::DiscoveryReceiver { receiver, present },
            DiagnosticPayload::CommandResult { id, error } =>
                PayloadView::CommandResult { id, error: error_text(error) },
            DiagnosticPayload::CommandCoalesced { dropped } =>
                PayloadView::CommandCoalesced { dropped },
            DiagnosticPayload::ReceiverTransition { receiver, to } =>
                PayloadView::ReceiverTransition { receiver, to: to@ },
            DiagnosticPayload::SetupPhaseDuration { receiver, phase, duration } =>
                PayloadView::SetupPhaseDuration { receiver, phase, duration },
            DiagnosticPayload::SessionTransition { phase, active_members } =>
                PayloadView::SessionTransition { phase: phase@, active_members },
            DiagnosticPayload::SessionRestart { generation, reason } =>
                PayloadView::SessionRestart { generation, reason },
            DiagnosticPayload::Retry { receiver, attempt, next_at } =>
                PayloadView::Retry { receiver, attempt, next_at },
            DiagnosticPayload::CaptureTransition { state } =>
                PayloadView::CaptureTransition { state },
            DiagnosticPayload::PcmDrop { dropped } => PayloadView::PcmDrop { dropped },
            DiagnosticPayload::SilenceBridge { duration } =>
                PayloadView::SilenceBridge { duration },
            DiagnosticPayload::Probe { healthy, latency_ms } =>
                PayloadView::Probe { healthy, latency_ms },
            DiagnosticPayload::Persistence { outcome } => PayloadView::Persistence { outcome },
            DiagnosticPayload::QueueWatermark { depth, capacity } =>
                PayloadView::QueueWatermark { depth, capacity },
            DiagnosticPayload::QueueLag { dropped } => PayloadView::QueueLag { dropped },
            DiagnosticPayload::WorkerShutdown { duration, timed_out } =>
                PayloadView::WorkerShutdown { duration, timed_out },
            DiagnosticPayload::SystemTransition { transition } =>
                PayloadView::SystemTransition { transition },
            DiagnosticPayload::CalibrationState(state) => PayloadView::CalibrationState(state),
        }
    }
}

/// The fine-grained kind of a payload.
pub open spec fn payload_kind(payload: PayloadView) -> DiagnosticKind {
    match payload {
        PayloadView::Message(_) => DiagnosticKind::Message,
        PayloadView::DiscoveryGeneration { .. } => DiagnosticKind::DiscoveryGeneration,
        PayloadView::DiscoveryReceiver { .. } => DiagnosticKind::DiscoveryReceiver,
        PayloadView::CommandResult { .. } => DiagnosticKind::CommandResult,
        PayloadView::CommandCoalesced { .. } => DiagnosticKind::CommandCoalesced,
        PayloadView::ReceiverTransition { .. } => DiagnosticKind::ReceiverTransition,
        PayloadView::SetupPhaseDuration { .. } => DiagnosticKind::SetupPhaseDuration,
        PayloadView::SessionTransition { .. } => DiagnosticKind::SessionTransition,
        PayloadView::SessionRestart { .. } => DiagnosticKind::SessionRestart,
        PayloadView::Retry { .. } => DiagnosticKind::Retry,
        PayloadView::CaptureTransition { .. } => DiagnosticKind::CaptureTransition,
        PayloadView::PcmDrop { .. } => DiagnosticKind::PcmDrop,
        PayloadView::SilenceBridge { .. } => DiagnosticKind::SilenceBridge,
        PayloadView::Probe { .. } => DiagnosticKind::Probe,
        PayloadView::Persistence { .. } => DiagnosticKind::Persistence,
        PayloadView::QueueWatermark { .. } => DiagnosticKind::QueueWatermark,
        PayloadView::QueueLag { .. } => DiagnosticKind::QueueLag,
        PayloadView::WorkerShutdown { .. } => DiagnosticKind::WorkerShutdown,
        PayloadView::SystemTransition { .. } => DiagnosticKind::SystemTransition,
        PayloadView::CalibrationState(_) => DiagnosticKind::CalibrationState,
    }
}

impl DiagnosticPayload {
    /// Returns the fine-grained kind of this payload.
    pub fn kind(&self) -> (r: DiagnosticKind)
        ensures
            r == payload_kind(self@),
    {
        match self {
            DiagnosticPayload::Message(_) => DiagnosticKind::Message,
            DiagnosticPayload::DiscoveryGeneration { .. } => DiagnosticKind::DiscoveryGeneration,
            DiagnosticPayload::DiscoveryReceiver { .. } => DiagnosticKind::DiscoveryReceiver,
            DiagnosticPayload::CommandResult { .. } => DiagnosticKind::CommandResult,
            DiagnosticPayload::CommandCoalesced { .. } => DiagnosticKind::CommandCoalesced,
            DiagnosticPayload::ReceiverTransition { .. } => DiagnosticKind::ReceiverTransition,
            DiagnosticPayload::SetupPhaseDuration { .. } => DiagnosticKind::SetupPhaseDuration,
            DiagnosticPayload::SessionTransition { .. } => DiagnosticKind::SessionTransition,
            DiagnosticPayload::SessionRestart { .. } => DiagnosticKind::SessionRestart,
            DiagnosticPayload::Retry { .. } => DiagnosticKind::Retry,
            DiagnosticPayload::CaptureTransition { .. } => DiagnosticKind::CaptureTransition,
            DiagnosticPayload::PcmDrop { .. } => DiagnosticKind::PcmDrop,
            DiagnosticPayload::SilenceBridge { .. } => DiagnosticKind::SilenceBridge,
            DiagnosticPayload::Probe { .. } => DiagnosticKind::Probe,
            DiagnosticPayload::Persistence { .. } => DiagnosticKind::Persistence,
            DiagnosticPayload::QueueWatermark { .. } => DiagnosticKind::QueueWatermark,
            DiagnosticPayload::QueueLag { .. } => DiagnosticKind::QueueLag,
            DiagnosticPayload::WorkerShutdown { .. } => DiagnosticKind::WorkerShutdown,
            DiagnosticPayload::SystemTransition { .. } => DiagnosticKind::SystemTransition,
            DiagnosticPayload::CalibrationState(_) => DiagnosticKind::CalibrationState,
        }
    }
}

/// Coarse domain associated with a diagnostic kind.
pub open spec fn kind_category(kind: DiagnosticKind) -> DiagnosticCategory {
    match kind {
        DiagnosticKind::Message => DiagnosticCategory::General,
        DiagnosticKind::DiscoveryGeneration => DiagnosticCategory::Discovery,
        DiagnosticKind::DiscoveryReceiver => DiagnosticCategory::Discovery,
        DiagnosticKind::CommandResult => DiagnosticCategory::Command,
        DiagnosticKind::CommandCoalesced => DiagnosticCategory::Command,
        DiagnosticKind::ReceiverTransition => DiagnosticCategory::Receiver,
        DiagnosticKind::SetupPhaseDuration => DiagnosticCategory::Receiver,
        DiagnosticKind::SessionTransition => DiagnosticCategory::Session,
        DiagnosticKind::SessionRestart => DiagnosticCategory::Session,
        DiagnosticKind::Retry => DiagnosticCategory::Retry,
        DiagnosticKind::CaptureTransition => DiagnosticCategory::Capture,
        DiagnosticKind::PcmDrop => DiagnosticCategory::Capture,
        DiagnosticKind::SilenceBridge => DiagnosticCategory::Capture,
        DiagnosticKind::Probe => DiagnosticCategory::Probe,
        DiagnosticKind::Persistence => DiagnosticCategory::Persistence,
        DiagnosticKind::QueueWatermark => DiagnosticCategory::Queue,
        DiagnosticKind::QueueLag => DiagnosticCategory::Queue,
        DiagnosticKind::WorkerShutdown => DiagnosticCategory::Worker,
        DiagnosticKind::SystemTransition => DiagnosticCategory::Worker,
        DiagnosticKind::CalibrationState => DiagnosticCategory::Session,
    }
}

/// Coarse domain associated with a diagnostic kind.
///
/// Calibration is a session-setup input and its apply is a session edge; it
/// needs no category of its own.
pub fn category_of_kind(kind: DiagnosticKind) -> (r: DiagnosticCategory)
    ensures
        r == kind_category(kind),
{
    match kind {
        DiagnosticKind::Message => DiagnosticCategory::General,
        DiagnosticKind::DiscoveryGeneration => DiagnosticCategory::Discovery,
        DiagnosticKind::DiscoveryReceiver => DiagnosticCategory::Discovery,
        DiagnosticKind::CommandResult => DiagnosticCategory::Command,
        DiagnosticKind::CommandCoalesced => DiagnosticCategory::Command,
        DiagnosticKind::ReceiverTransition => DiagnosticCategory::Receiver,
        DiagnosticKind::SetupPhaseDuration => DiagnosticCategory::Receiver,
        DiagnosticKind::SessionTransition => DiagnosticCategory::Session,
        DiagnosticKind::SessionRestart => DiagnosticCategory::Session,
        DiagnosticKind::Retry => DiagnosticCategory::Retry,
        DiagnosticKind::CaptureTransition => DiagnosticCategory::Capture,
        DiagnosticKind::PcmDrop => DiagnosticCategory::Capture,
        DiagnosticKind::SilenceBridge => DiagnosticCategory::Capture,
        DiagnosticKind::Probe => DiagnosticCategory::Probe,
        DiagnosticKind::Persistence => DiagnosticCategory::Persistence,
        DiagnosticKind::QueueWatermark => DiagnosticCategory::Queue,
        DiagnosticKind::QueueLag => DiagnosticCategory::Queue,
        DiagnosticKind::WorkerShutdown => DiagnosticCategory::Worker,
        DiagnosticKind::SystemTransition => DiagnosticCategory::Worker,
        DiagnosticKind::CalibrationState => DiagnosticCategory::Session,
    }
}

/// The three generation counters that correlate one diagnostic record with
/// the browse, the capture worker, and the session it was written under.
///
/// Zero is not a generation: it means "none was live here".
#[derive(Clone, Copy, Debug, PartialEq, Eq, Structural)]
pub struct Generations {
    /// Session generation live at emission, or zero while none runs.
    pub session: u64,
    /// Discovery browse generation live at emission, or zero before the
    /// first browse started.
    pub discovery: u64,
    /// Capture generation live at emission, or zero while none runs.
    pub capture: u64,
}

impl Default for Generations {
    fn default() -> (r: Self)
        ensures
            r == (Generations { session: 0, discovery: 0, capture: 0 }),
    {
        Generations { session: 0, discovery: 0, capture: 0 }
    }
}

/// View of the live generation counters.
///
/// Each counter is written by the component that owns it: the controller
/// publishes session and capture, the discovery supervisor publishes its own
/// browse generation. Routing the browse generation through the controller
/// would leave every record written before it processed the start claiming
/// that no browse was running.
#[derive(Debug)]
pub struct GenerationCell {
    current: Generations,
}

impl View for GenerationCell {
    type V = Generations;

    closed spec fn view(&self) -> Generations {
        self.current
    }
}

impl GenerationCell {
    /// A cell with every counter at zero, i.e. nothing running yet.
    pub fn new() -> (r: Self)
        ensures
            r@ == (Generations { session: 0, discovery: 0, capture: 0 }),
    {
        GenerationCell { current: Generations::default() }
    }

    /// The generations most recently published by their owners.
    pub fn get(&self) -> (r: Generations)
        ensures
            r == self@,
    {
        self.current
    }

    /// Publishes the two counters the controller owns.
    ///
    /// The discovery field of `generations` is ignored: it belongs to
    /// [`Self::publish_discovery`], and writing the controller's mirror of it
    /// here would push the value backwards for as long as a browse start has
    /// not reached the controller yet.
    pub fn publish_controller(&mut self, generations: Generations)
        ensures
            final(self)@ == (Generations { discovery: old(self)@.discovery, ..generations }),
    {
        self.current = Generations {
            session: generations.session,
            discovery: self.current.discovery,
            capture: generations.capture,
        };
    }

    /// Publishes the browse generation the discovery supervisor just opened.
    pub fn publish_discovery(&mut self, generation: u64)
        ensures
            final(self)@ == (Generations { discovery: generation, ..old(self)@ }),
    {
        self.current = Generations {
            session: self.current.session,
            discovery: generation,
            capture: self.current.capture,
        };
    }
}

/// One redaction-safe diagnostic record.
#[derive(Clone, Debug, PartialEq, Eq)]
pub struct DiagnosticEvent {
    /// Process-relative monotonic timestamp in nanoseconds.
    pub monotonic_ns: u64,
    /// Wall-clock timestamp.
    pub wall_time: SystemTime,
    /// Session generation active at emission.
    pub session_generation: u64,
    /// Discovery generation active at emission.
    pub discovery_generation: u64,
    /// Capture generation active at emission.
    pub capture_generation: u64,
    /// Affected receiver, if the event is receiver-scoped.
    pub receiver: Option<ReceiverId>,
    /// Presentation severity.
    pub severity: Severity,
    /// Coarse domain of the event.
    pub category: DiagnosticCategory,
    /// Typed, redaction-safe content.
    pub payload: DiagnosticPayload,
}

impl DiagnosticEvent {
    /// Builds the synthetic loss event substituted when the feed lags: zero
    /// generation values, no receiver, warning severity, queue category.
    pub fn queue_lag(dropped: u64, monotonic_ns: u64, wall_time: SystemTime) -> (r: Self)
        ensures
            r == (DiagnosticEvent {
                monotonic_ns,
                wall_time,
                session_generation: 0,
                discovery_generation: 0,
                capture_generation: 0,
                receiver: None,
                severity: Severity::Warning,
                category: DiagnosticCategory::Queue,
                payload: DiagnosticPayload::QueueLag { dropped },
            }),
    {
        DiagnosticEvent {
            monotonic_ns,
            wall_time,
            session_generation: 0,
            discovery_generation: 0,
            capture_generation: 0,
            receiver: None,
            severity: Severity::Warning,
            category: category_of_kind(DiagnosticKind::QueueLag),
            payload: DiagnosticPayload::QueueLag { dropped },
        }
    }
}

/// A diagnostic record before its timestamps are read.
#[derive(Debug, PartialEq, Eq)]
pub struct DiagnosticDraft {
    /// Generations live at emission.
    pub generations: Generations,
    /// Affected receiver, if any.
    pub receiver: Option<ReceiverId>,
    /// Presentation severity.
    pub severity: Severity,
    /// Coarse domain.
    pub category: DiagnosticCategory,
    /// Content.
    pub payload: DiagnosticPayload,
}

/// What a diagnostic draft says.
pub struct DraftView {
    /// Generations live at emission.
    pub generations: Generations,
    /// Affected receiver, if any.
    pub receiver: Option<ReceiverId>,
    /// Severity.
    pub severity: Severity,
    /// Coarse domain.
    pub category: DiagnosticCategory,
    /// Content.
    pub payload: PayloadView,
}

impl View for DiagnosticDraft {
    type V = DraftView;

    open spec fn view(&self) -> DraftView {
        DraftView {
            generations: self.generations,
            receiver: self.receiver,
            severity: self.severity,
            category: self.category,
            payload: self.payload@,
        }
    }
}

impl DiagnosticDraft {
    /// Stamps the draft with the clock readings of its emission.
    pub fn stamp(self, monotonic_ns: u64, wall_time: SystemTime) -> (r: DiagnosticEvent)
        ensures
            r == (DiagnosticEvent {
                monotonic_ns,
                wall_time,
                session_generation: self.generations.session,
                discovery_generation: self.generations.discovery,
                capture_generation: self.generations.capture,
                receiver: self.receiver,
                severity: self.severity,
                category: self.category,
                payload: self.payload,
            }),
    {
        DiagnosticEvent {
            monotonic_ns,
            wall_time,
            session_generation: self.generations.session,
            discovery_generation: self.generations.discovery,
            capture_generation: self.generations.capture,
            receiver: self.receiver,
            severity: self.severity,
            category: self.category,
            payload: self.payload,
        }
    }
}

/// Error of the awaiting diagnostic receive path.
///
/// Lag never surfaces here; it becomes a typed loss record.
#[derive(Clone, Copy, Debug, PartialEq, Eq, Structural)]
pub enum DiagnosticRecvError {
    /// All senders are gone and the backlog is drained.
    Closed,
}

/// Error of the non-blocking diagnostic receive path.
#[derive(Clone, Copy, Debug, PartialEq, Eq, Structural)]
pub enum DiagnosticTryRecvError {
    /// No event is currently buffered.
    Empty,
    /// All senders are gone and the backlog is drained.
    Closed,
}

impl DiagnosticRecvError {
    /// Renders the error.
    pub fn to_string(&self) -> (r: String)
        ensures
            r@ == "diagnostic feed is closed"@,
    {
        "diagnostic feed is closed".to_owned()
    }
}

impl DiagnosticTryRecvError {
    /// Renders the error.
    pub fn to_string(&self) -> (r: String)
        ensures
            r@ == match *self {
                DiagnosticTryRecvError::Empty => "no diagnostic event available"@,
                DiagnosticTryRecvError::Closed => "diagnostic feed is closed"@,
            },
    {
        match self {
            DiagnosticTryRecvError::Empty => "no diagnostic event available".to_owned(),
            DiagnosticTryRecvError::Closed => "diagnostic feed is closed".to_owned(),
        }
    }
}

/// What the diagnostic ring answered.
#[derive(Debug)]
pub enum FeedAnswer {
    /// The next event.
    Event(DiagnosticEvent),
    /// This many events were overwritten before they were read.
    Lagged(u64),
    /// Nothing is buffered.
    Empty,
    /// All senders are gone and the backlog is drained.
    Closed,
}

/// Turns an answer of the ring into the result of a non-blocking receive;
/// lag becomes a typed loss record stamped with the given clock readings.
pub fn try_recv_result(
    answer: FeedAnswer,
    monotonic_ns: u64,
    wall_time: SystemTime,
) -> (r: Result<DiagnosticEvent, DiagnosticTryRecvError>)
    ensures
        answer matches FeedAnswer::Event(event)
            ==> r == Ok::<DiagnosticEvent, DiagnosticTryRecvError>(event),
        answer matches FeedAnswer::Lagged(dropped) ==> (r matches Ok(event)
            && is_loss_record(event, dropped, monotonic_ns, wall_time)),
        answer is Empty
            ==> r == Err::<DiagnosticEvent, DiagnosticTryRecvError>(DiagnosticTryRecvError::Empty),
        answer is Closed
            ==> r == Err::<DiagnosticEvent, DiagnosticTryRecvError>(DiagnosticTryRecvError::Closed),
{
    match answer {
        FeedAnswer::Event(event) => Ok(event),
        FeedAnswer::Lagged(dropped) =>
            Ok(DiagnosticEvent::queue_lag(dropped, monotonic_ns, wall_time)),
        FeedAnswer::Empty => Err(DiagnosticTryRecvError::Empty),
        FeedAnswer::Closed => Err(DiagnosticTryRecvError::Closed),
    }
}

/// Turns an answer of the ring into the result of an awaiting receive.
///
/// `None` means nothing is buffered and the caller keeps waiting.
pub fn recv_result(
    answer: FeedAnswer,
    monotonic_ns: u64,
    wall_time: SystemTime,
) -> (r: Option<Result<DiagnosticEvent, DiagnosticRecvError>>)
    ensures
        answer matches FeedAnswer::Event(event)
            ==> r == Some(Ok::<DiagnosticEvent, DiagnosticRecvError>(event)),
        answer matches FeedAnswer::Lagged(dropped) ==> (r matches Some(Ok(event))
            && is_loss_record(event, dropped, monotonic_ns, wall_time)),
        answer is Empty ==> r is None,
        answer is Closed
            ==> r == Some(Err::<DiagnosticEvent, DiagnosticRecvError>(DiagnosticRecvError::Closed)),
{
    match answer {
        FeedAnswer::Event(event) => Some(Ok(event)),
        FeedAnswer::Lagged(dropped) =>
            Some(Ok(DiagnosticEvent::queue_lag(dropped, monotonic_ns, wall_time))),
        FeedAnswer::Empty => None,
        FeedAnswer::Closed => Some(Err(DiagnosticRecvError::Closed)),
    }
}

/// Whether `event` reports a loss of `dropped` events and nothing else.
pub open spec fn is_loss_record(
    event: DiagnosticEvent,
    dropped: u64,
    monotonic_ns: u64,
    wall_time: SystemTime,
) -> bool {
    &&& event.monotonic_ns == monotonic_ns
    &&& event.wall_time == wall_time
    &&& event.session_generation == 0
    &&& event.discovery_generation == 0
    &&& event.capture_generation == 0
    &&& event.receiver is None
    &&& event.severity == Severity::Warning
    &&& event.category == DiagnosticCategory::Queue
    &&& event.payload == (DiagnosticPayload::QueueLag { dropped })
}

} // verus!
