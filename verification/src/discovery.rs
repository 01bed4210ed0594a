//! Continuous dual-service discovery supervision.
//!
//! One cancellable browse generation runs at a time. A failed daemon restarts
//! with deterministic backoff, a network change settles for exactly two
//! seconds while the inventory is marked unknown, and an overflowing update
//! queue resynchronizes with a fresh generation. [`DiscoveryDriver`] makes the
//! decisions; the application browses, sleeps, and sends on its behalf.

use vstd::prelude::*;

use crate::event::{
    category_of_kind, kind_category, payload_kind, DiagnosticCategory, DiagnosticDraft,
    DiagnosticKind, DiagnosticPayload, DraftView, Generations, PayloadView, Severity,
};
use crate::idmap::{ascending, value_views, IdMap};
use crate::ids::ReceiverId;
use crate::model::{
    DiscoveryPhase, DiscoverySnapshot, LifecycleView, ReceiverLifecycle, ReceiverSnapshot, RowView,
    UserFacingError,
};
use crate::recovery::{discovery_retry_delay, law_discovery_delays_are_bounded, RetryPolicy};
use crate::time::{instant_after, wall_after, Duration, Instant, SystemTime};

verus! {

/// Interface-settle period observed after a network change before a fresh
/// discovery generation starts, in nanoseconds.
pub const DISCOVERY_SETTLE_NANOS: u64 = 2_000_000_000;

/// Capacity of the bounded supervisor update queue, as reported.
pub const UPDATE_QUEUE_CAPACITY: u32 = 256;

/// Supervisor control edges; the newest request always wins.
#[derive(Clone, Copy, Debug, PartialEq, Eq, Structural)]
pub enum DiscoveryControl {
    /// Cancel the active browse, mark all known receivers unknown, settle
    /// exactly two seconds, then start a fresh generation.
    RestartAfterNetworkChange,
    /// Stop the child token and close the update channel.
    Shutdown,
}

/// The socket address a service record resolves to.
#[derive(Clone, Copy, Debug, PartialEq, Eq, Structural)]
pub enum ServiceAddress {
    /// An IPv4 address, most significant octet first.
    V4 {
        /// The four octets.
        bits: u32,
        /// Port of the service.
        port: u16,
    },
    /// An IPv6 address, most significant octet first.
    V6 {
        /// The sixteen octets.
        bits: u128,
        /// Port of the service.
        port: u16,
    },
}

/// A receiver as its service record describes it.
#[derive(Debug, PartialEq, Eq)]
pub struct Device {
    /// Stable identity.
    pub id: ReceiverId,
    /// Display name.
    pub name: String,
    /// Hardware identifier.
    pub model: String,
    /// Whether the record announces AirPlay 2.
    pub supports_airplay2: bool,
    /// Socket address the record resolves to, where it has one.
    pub address: Option<ServiceAddress>,
    /// The record's property data, as the transport reads it.
    pub properties: Vec<u8>,
}

/// What a service record says.
pub struct DeviceView {
    /// Stable identity.
    pub id: ReceiverId,
    /// Display name.
    pub name: Seq<char>,
    /// Hardware identifier.
    pub model: Seq<char>,
    /// AirPlay 2 support.
    pub supports_airplay2: bool,
    /// Socket address.
    pub address: Option<ServiceAddress>,
    /// Property data.
    pub properties: Seq<u8>,
}

impl View for Device {
    type V = DeviceView;

    open spec fn view(&self) -> DeviceView {
        DeviceView {
            id: self.id,
            name: self.name@,
            model: self.model@,
            supports_airplay2: self.supports_airplay2,
            address: self.address,
            properties: self.properties@,
        }
    }
}

impl Clone for Device {
    fn clone(&self) -> (r: Self)
        ensures
            r@ == self@,
    {
        Device {
            id: self.id,
            name: self.name.clone(),
            model: self.model.clone(),
            supports_airplay2: self.supports_airplay2,
            address: self.address,
            properties: self.properties.clone(),
        }
    }
}

/// The records of a list, each as values.
pub open spec fn device_views(devices: Seq<Device>) -> Seq<DeviceView> {
    devices.map_values(|device: Device| device@)
}

/// Whether a receiver can be cast to.
pub open spec fn castable_device(device: DeviceView) -> bool {
    device.supports_airplay2 && device.address is Some && device.address->0 is V4
}

/// A receiver is castable only with AirPlay 2 support and a usable IPv4
/// address; non-castable records remain visible for presentation.
pub fn is_castable(device: &Device) -> (r: bool)
    ensures
        r == castable_device(device@),
{
    device.supports_airplay2 && matches!(device.address, Some(ServiceAddress::V4 { .. }))
}

/// One change reported by a browse stream.
#[derive(Debug, PartialEq, Eq)]
pub enum BrowseEvent {
    /// A receiver appeared.
    Added(Device),
    /// A receiver's record changed.
    Updated(Device),
    /// A receiver's record expired.
    Removed(ReceiverId),
}

/// What a browse event says.
pub enum BrowseView {
    /// A receiver appeared.
    Added(DeviceView),
    /// A receiver's record changed.
    Updated(DeviceView),
    /// A receiver's record expired.
    Removed(ReceiverId),
}

impl View for BrowseEvent {
    type V = BrowseView;

    open spec fn view(&self) -> BrowseView {
        match *self {
            BrowseEvent::Added(device) => BrowseView::Added(device@),
            BrowseEvent::Updated(device) => BrowseView::Updated(device@),
            BrowseEvent::Removed(id) => BrowseView::Removed(id),
        }
    }
}

/// The receiver a browse event is about.
pub open spec fn browse_receiver(event: BrowseView) -> ReceiverId {
    match event {
        BrowseView::Added(device) => device.id,
        BrowseView::Updated(device) => device.id,
        BrowseView::Removed(id) => id,
    }
}

/// The receiver a browse event is about; every event carries one, a removal
/// exactly like the others.
pub fn event_receiver(event: &BrowseEvent) -> (r: ReceiverId)
    ensures
        r == browse_receiver(event@),
{
    match event {
        BrowseEvent::Added(device) => device.id,
        BrowseEvent::Updated(device) => device.id,
        BrowseEvent::Removed(id) => *id,
    }
}

/// Renders a browse failure as a shell-safe summary.
pub fn redact_discovery_error(error: &str) -> (r: UserFacingError)
    ensures
        r@ == "mDNS discovery failed: "@ + error@,
{
    let mut text: String = "mDNS discovery failed: ".to_owned();
    text.append(error);
    UserFacingError::new(text.as_str())
}

/// Generation-tagged supervisor output.
#[derive(Debug, PartialEq, Eq)]
pub enum DiscoveryUpdate {
    /// A new browse generation started.
    Started {
        /// Generation that just started.
        generation: u64,
    },
    /// A receiver entered, changed, or left the discovery inventory.
    Receiver {
        /// Owning generation; older events are stale.
        generation: u64,
        /// The underlying browse event.
        event: BrowseEvent,
    },
    /// The daemon failed; a retry is scheduled via policy backoff.
    Failed {
        /// Generation that failed.
        generation: u64,
        /// Pre-redacted failure summary.
        error: UserFacingError,
        /// Monotonic deadline of the scheduled restart.
        retry_at: Instant,
    },
}

/// What a discovery update says.
pub enum UpdateView {
    /// A generation started.
    Started {
        /// Generation.
        generation: u64,
    },
    /// The inventory changed.
    Receiver {
        /// Generation.
        generation: u64,
        /// Change.
        event: BrowseView,
    },
    /// The daemon failed.
    Failed {
        /// Generation.
        generation: u64,
        /// Summary text.
        error: Seq<char>,
        /// Deadline.
        retry_at: Instant,
    },
}

impl View for DiscoveryUpdate {
    type V = UpdateView;

    open spec fn view(&self) -> UpdateView {
        match *self {
            DiscoveryUpdate::Started { generation } => UpdateView::Started { generation },
            DiscoveryUpdate::Receiver { generation, event } =>
                UpdateView::Receiver { generation, event: event@ },
            DiscoveryUpdate::Failed { generation, error, retry_at } =>
                UpdateView::Failed { generation, error: error@, retry_at },
        }
    }
}

/// One known receiver retained by the inventory.
///
/// Non-castable records stay cached for display; availability flips to
/// unknown on removals and network changes instead of dropping the row.
#[derive(Debug)]
pub struct KnownReceiver {
    /// Display name.
    pub name: String,
    /// Hardware identifier; empty until a sighting carries one.
    pub model: String,
    /// Whether the record can be cast to.
    pub castable: bool,
    /// Whether the record is currently present.
    pub available: bool,
}

/// What is known of a receiver.
pub struct KnownView {
    /// Display name.
    pub name: Seq<char>,
    /// Hardware identifier.
    pub model: Seq<char>,
    /// Castable.
    pub castable: bool,
    /// Present.
    pub available: bool,
}

impl View for KnownReceiver {
    type V = KnownView;

    open spec fn view(&self) -> KnownView {
        KnownView {
            name: self.name@,
            model: self.model@,
            castable: self.castable,
            available: self.available,
        }
    }
}

/// What the discovery state holds.
pub struct StateView {
    /// Current generation.
    pub generation: u64,
    /// Supervisor phase.
    pub phase: DiscoveryPhase,
    /// Inventory.
    pub receivers: Map<ReceiverId, KnownView>,
}

impl StateView {
    /// The state after a receiver was seen: its record is replaced.
    pub open spec fn sighted(self, device: DeviceView) -> StateView {
        StateView {
            receivers: self.receivers.insert(
                device.id,
                KnownView {
                    name: device.name,
                    model: device.model,
                    castable: castable_device(device),
                    available: true,
                },
            ),
            ..self
        }
    }

    /// The state after one browse event of the current generation: a sighting
    /// replaces the record, a removal only withdraws its availability.
    pub open spec fn folded(self, event: BrowseView) -> StateView {
        match event {
            BrowseView::Added(device) => self.sighted(device),
            BrowseView::Updated(device) => self.sighted(device),
            BrowseView::Removed(id) => if self.receivers.contains_key(id) {
                StateView {
                    receivers: self.receivers.insert(
                        id,
                        KnownView { available: false, ..self.receivers[id] },
                    ),
                    ..self
                }
            } else {
                self
            },
        }
    }

    /// Whether an update belongs to the current generation or a newer one.
    pub open spec fn accepts(self, update: UpdateView) -> bool {
        update_generation(update) >= self.generation
    }

    /// The state after an update; a stale one changes nothing.
    pub open spec fn updated(self, update: UpdateView) -> StateView {
        if !self.accepts(update) {
            self
        } else {
            match update {
                UpdateView::Started { generation } =>
                    StateView { generation, phase: DiscoveryPhase::Running, ..self },
                UpdateView::Receiver { event, .. } => self.folded(event),
                UpdateView::Failed { .. } => self,
            }
        }
    }

    /// The state with every record kept but marked unknown.
    pub open spec fn unknown(self) -> StateView {
        StateView {
            receivers: Map::new(
                |id: ReceiverId| self.receivers.contains_key(id),
                |id: ReceiverId| KnownView { available: false, ..self.receivers[id] },
            ),
            ..self
        }
    }

    /// The state with an empty inventory.
    pub open spec fn cleared(self) -> StateView {
        StateView { receivers: Map::empty(), ..self }
    }
}

/// The generation an update is tagged with.
pub open spec fn update_generation(update: UpdateView) -> u64 {
    match update {
        UpdateView::Started { generation } => generation,
        UpdateView::Receiver { generation, .. } => generation,
        UpdateView::Failed { generation, .. } => generation,
    }
}

/// The row of a known receiver.
pub open spec fn known_row(id: ReceiverId, known: KnownView) -> RowView {
    RowView {
        id,
        name: known.name,
        model: known.model,
        lifecycle: if known.available && known.castable {
            LifecycleView::Discovered
        } else {
            LifecycleView::Unavailable
        },
    }
}

/// Internal supervisor state; updates from older generations cannot alter
/// newer state.
#[derive(Debug)]
pub struct DiscoveryState {
    generation: u64,
    phase: DiscoveryPhase,
    receivers: IdMap<KnownReceiver>,
}

impl View for DiscoveryState {
    type V = StateView;

    closed spec fn view(&self) -> StateView {
        StateView {
            generation: self.generation,
            phase: self.phase,
            receivers: value_views(self.receivers@),
        }
    }
}

impl DiscoveryState {
    /// Creates state anchored at the given generation.
    pub fn at_generation(generation: u64) -> (r: Self)
        ensures
            r@ == (StateView {
                generation,
                phase: DiscoveryPhase::Stopped,
                receivers: Map::empty(),
            }),
    {
        let r = DiscoveryState {
            generation,
            phase: DiscoveryPhase::Stopped,
            receivers: IdMap::new(),
        };
        assert(r@.receivers =~= Map::empty());
        r
    }

    /// Applies a supervisor update as the canonical reducer.
    ///
    /// Returns false when the update belongs to an older generation and was
    /// discarded; stale updates never change the inventory or phase.
    pub fn apply_update(&mut self, update: &DiscoveryUpdate) -> (r: bool)
        ensures
            r == old(self)@.accepts(update@),
            final(self)@ == old(self)@.updated(update@),
    {
        match update {
            DiscoveryUpdate::Started { generation } => {
                if *generation < self.generation {
                    return false;
                }
                self.generation = *generation;
                self.phase = DiscoveryPhase::Running;
                true
            },
            DiscoveryUpdate::Receiver { generation, event } => {
                if *generation < self.generation {
                    return false;
                }
                self.apply_event(event);
                true
            },
            DiscoveryUpdate::Failed { generation, .. } => *generation >= self.generation,
        }
    }

    /// Folds one browse event into the inventory.
    fn apply_event(&mut self, event: &BrowseEvent)
        ensures
            final(self)@ == old(self)@.folded(event@),
    {
        match event {
            BrowseEvent::Added(device) => {
                self.note_sighting(device);
            },
            BrowseEvent::Updated(device) => {
                self.note_sighting(device);
            },
            BrowseEvent::Removed(id) => {
                let known: Option<KnownReceiver> = self.receivers.take(*id);
                match known {
                    Some(mut entry) => {
                        entry.available = false;
                        self.receivers.insert(*id, entry);
                    },
                    None => {},
                }
                proof {
                    assert(self@.receivers =~= old(self)@.folded(event@).receivers);
                }
            },
        }
    }

    fn note_sighting(&mut self, device: &Device)
        ensures
            final(self)@ == old(self)@.sighted(device@),
    {
        self.receivers.insert(
            device.id,
            KnownReceiver {
                name: device.name.clone(),
                model: device.model.clone(),
                castable: is_castable(device),
                available: true,
            },
        );
        proof {
            assert(self@.receivers =~= old(self)@.sighted(device@).receivers);
        }
    }

    /// Network-change semantics: keep every record but mark it unknown.
    pub fn mark_all_unknown(&mut self)
        ensures
            final(self)@ == old(self)@.unknown(),
    {
        let ghost known = self.receivers@;
        let len: usize = self.receivers.len();
        let mut ids: Vec<ReceiverId> = Vec::new();
        let ghost order = self.receivers.order();
        let mut i: usize = 0;
        while i < len
            invariant
                i <= len,
                len == order.len(),
                order == self.receivers.order(),
                ids@ == order.take(i as int),
            decreases len - i,
        {
            ids.push(self.receivers.key_at(i));
            i = i + 1;
            assert(ids@ =~= order.take(i as int));
        }
        assert(ids@ =~= order);
        let mut k: usize = 0;
        let ghost generation = self.generation;
        let ghost phase = self.phase;
        while k < ids.len()
            invariant
                k <= ids@.len(),
                ids@ == order,
                ascending(order),
                order.to_set() == known.dom(),
                self.generation == generation,
                self.phase == phase,
                self.receivers@.dom() == known.dom(),
                forall|j: int| 0 <= j < k ==> self.receivers@[#[trigger] order[j]]@
                    == (KnownView { available: false, ..known[order[j]]@ }),
                forall|j: int| k <= j < order.len() ==> self.receivers@[#[trigger] order[j]] == known[order[j]],
            decreases ids@.len() - k,
        {
            let id: ReceiverId = ids[k];
            let ghost before = self.receivers@;
            proof {
                assert(order.contains(order[k as int]));
                assert(order.to_set().contains(id));
            }
            let entry: Option<KnownReceiver> = self.receivers.take(id);
            if let Some(mut held) = entry {
                held.available = false;
                self.receivers.insert(id, held);
            }
            proof {
                assert(self.receivers@.dom() =~= known.dom());
                assert forall|j: int| 0 <= j < order.len() && j != k implies
                    #[trigger] order[j] != id by {
                    if j < k {
                        assert(order[j].key() < order[k as int].key());
                    } else {
                        assert(order[k as int].key() < order[j].key());
                    }
                }
            }
            k = k + 1;
        }
        proof {
            assert forall|id: ReceiverId| known.contains_key(id) implies
                self.receivers@[id]@ == (KnownView { available: false, ..known[id]@ }) by {
                assert(order.to_set().contains(id));
                let j = order.index_of(id);
                assert(order[j] == id);
            }
            assert(self@.receivers =~= old(self)@.unknown().receivers);
        }
    }

    /// Daemon-recreation semantics: cache state is scoped to one generation.
    pub fn clear_inventory(&mut self)
        ensures
            final(self)@ == old(self)@.cleared(),
    {
        self.receivers = IdMap::new();
        proof {
            assert(self@.receivers =~= Map::empty());
        }
    }

    /// Records a scheduled discovery restart for snapshot rendering.
    pub fn note_retrying(&mut self, attempt: u32, retry_at: SystemTime)
        ensures
            final(self)@ == (StateView {
                phase: DiscoveryPhase::Retrying { attempt, retry_at },
                ..old(self)@
            }),
    {
        self.phase = DiscoveryPhase::Retrying { attempt, retry_at };
    }

    /// Records that supervision stopped.
    pub fn note_stopped(&mut self)
        ensures
            final(self)@ == (StateView { phase: DiscoveryPhase::Stopped, ..old(self)@ }),
    {
        self.phase = DiscoveryPhase::Stopped;
    }

    /// Receiver rows sorted by stable identity for rendering.
    pub fn receivers(&self) -> (r: Vec<ReceiverSnapshot>)
        ensures
            ascending(Seq::new(r@.len(), |i: int| r@[i].id)),
            Seq::new(r@.len(), |i: int| r@[i].id).to_set() == self@.receivers.dom(),
            forall|i: int| 0 <= i < r@.len() ==>
                (#[trigger] r@[i])@ == known_row(r@[i].id, self@.receivers[r@[i].id]),
    {
        let len: usize = self.receivers.len();
        let mut rows: Vec<ReceiverSnapshot> = Vec::new();
        let mut i: usize = 0;
        while i < len
            invariant
                i <= len,
                len == self.receivers.order().len(),
                self.receivers.order().to_set() == self.receivers@.dom(),
                rows@.len() == i,
                forall|k: int| 0 <= k < i ==> (#[trigger] rows@[k]).id == self.receivers.order()[k]
                    && rows@[k]@ == known_row(rows@[k].id, self@.receivers[rows@[k].id]),
            decreases len - i,
        {
            let id: ReceiverId = self.receivers.key_at(i);
            let known: &KnownReceiver = self.receivers.value_at(i);
            rows.push(ReceiverSnapshot {
                id,
                name: known.name.clone(),
                model: known.model.clone(),
                lifecycle: if known.available && known.castable {
                    ReceiverLifecycle::Discovered
                } else {
                    ReceiverLifecycle::Unavailable
                },
            });
            i = i + 1;
        }
        proof {
            let ids = Seq::new(rows@.len(), |k: int| rows@[k].id);
            assert(ids =~= self.receivers.order());
            assert(self@.receivers.dom() =~= self.receivers@.dom());
        }
        rows
    }

    /// Current snapshot view (generation plus supervisor phase).
    pub fn snapshot(&self) -> (r: DiscoverySnapshot)
        ensures
            r == (DiscoverySnapshot { generation: self@.generation, phase: self@.phase }),
    {
        let mut snapshot: DiscoverySnapshot = match self.phase {
            DiscoveryPhase::Running => DiscoverySnapshot::running_empty(),
            DiscoveryPhase::Retrying { attempt, retry_at } =>
                DiscoverySnapshot::failed(attempt, retry_at),
            DiscoveryPhase::Stopped => DiscoverySnapshot::default(),
        };
        snapshot.generation = self.generation;
        snapshot
    }
}

impl DiscoverySnapshot {
    /// Snapshot of a running browse generation with an empty inventory.
    pub fn running_empty() -> (r: Self)
        ensures
            r == (DiscoverySnapshot { generation: 0, phase: DiscoveryPhase::Running }),
    {
        DiscoverySnapshot { generation: 0, phase: DiscoveryPhase::Running }
    }

    /// Snapshot of a failed daemon waiting to restart after `retry_at`.
    pub fn failed(attempt: u32, retry_at: SystemTime) -> (r: Self)
        ensures
            r == (DiscoverySnapshot {
                generation: 0,
                phase: DiscoveryPhase::Retrying { attempt, retry_at },
            }),
    {
        DiscoverySnapshot { generation: 0, phase: DiscoveryPhase::Retrying { attempt, retry_at } }
    }
}

/// An update of an older generation changes neither inventory nor phase.
pub proof fn law_stale_updates_change_nothing(state: StateView, update: UpdateView)
    requires
        update_generation(update) < state.generation,
    ensures
        !state.accepts(update),
        state.updated(update) == state,
{
}

/// A removal keeps the record, and a network change keeps every record; both
/// only withdraw availability.
pub proof fn law_removal_and_network_change_keep_records(state: StateView, id: ReceiverId)
    ensures
        state.folded(BrowseView::Removed(id)).receivers.dom() =~= state.receivers.dom(),
        state.receivers.contains_key(id) ==> {
            let known = state.folded(BrowseView::Removed(id)).receivers[id];
            &&& known.name == state.receivers[id].name
            &&& known.model == state.receivers[id].model
            &&& known_row(id, known).lifecycle is Unavailable
        },
        state.unknown().receivers.dom() =~= state.receivers.dom(),
        state.receivers.contains_key(id)
            ==> known_row(id, state.unknown().receivers[id]).lifecycle is Unavailable,
{
}

/// Category of a discovery diagnostic.
pub fn diagnostic_category(kind: DiagnosticKind) -> (r: DiagnosticCategory)
    ensures
        r == kind_category(kind),
{
    category_of_kind(kind)
}

/// Why a browse generation ended.
#[derive(Clone, Copy, Debug, PartialEq, Eq, Structural)]
pub enum GenerationExit {
    /// Control requested shutdown.
    Shutdown,
    /// Control requested a network-change restart.
    NetworkChanged,
}

/// What a control edge means for the running generation; a closed control
/// channel means shutdown.
pub fn on_control(control: Option<DiscoveryControl>) -> (r: GenerationExit)
    ensures
        r == if control == Some(DiscoveryControl::RestartAfterNetworkChange) {
            GenerationExit::NetworkChanged
        } else {
            GenerationExit::Shutdown
        },
{
    match control {
        Some(DiscoveryControl::RestartAfterNetworkChange) => GenerationExit::NetworkChanged,
        _ => GenerationExit::Shutdown,
    }
}

/// What the supervisor is waiting for.
#[derive(Clone, Copy, Debug, PartialEq, Eq, Structural)]
pub enum DiscoveryStage {
    /// Its first step.
    Idle,
    /// The queue's answer to a generation start.
    Starting,
    /// The browse stream.
    Opening,
    /// A browse event or a control edge.
    Listening,
    /// The queue's answer to a forwarded browse event.
    Forwarding,
    /// The queue's answer to a failure report.
    Failing {
        /// Backoff that follows.
        delay: Duration,
        /// Wall-clock end of the backoff.
        wall_deadline: SystemTime,
    },
    /// The end of the backoff or a control edge.
    BackingOff {
        /// Backoff in progress.
        delay: Duration,
    },
    /// The end of the settle period or a control edge.
    Settling,
    /// Its turn after yielding to the queue's consumer.
    Yielding,
    /// Nothing any more.
    Stopped,
}

/// How the bounded update queue answered a send.
#[derive(Clone, Copy, Debug, PartialEq, Eq, Structural)]
pub enum QueueAnswer {
    /// The update was taken.
    Sent,
    /// The queue is full.
    Overloaded,
    /// The consumer is gone.
    Closed,
}

/// What happened to the supervisor.
#[derive(Debug)]
pub enum DiscoveryInput {
    /// Its turn came.
    Proceed,
    /// The update queue answered the latest send.
    Queue(QueueAnswer),
    /// The browse stream opened.
    Opened,
    /// Browsing failed, or its stream did, at the given clock readings.
    Failed {
        /// Pre-redacted failure summary.
        error: UserFacingError,
        /// Monotonic reading.
        now: Instant,
        /// Wall-clock reading.
        wall: SystemTime,
    },
    /// The browse stream ended at the given clock readings.
    Ended {
        /// Monotonic reading.
        now: Instant,
        /// Wall-clock reading.
        wall: SystemTime,
    },
    /// The browse stream reported a change.
    Browsed(BrowseEvent),
    /// A control edge arrived; none means the control channel closed.
    Control(Option<DiscoveryControl>),
    /// The requested sleep elapsed.
    Elapsed,
}

/// What happened to the supervisor, as values.
pub enum InputView {
    /// Its turn came.
    Proceed,
    /// The queue answered.
    Queue(QueueAnswer),
    /// The stream opened.
    Opened,
    /// Browsing failed.
    Failed {
        /// Summary text.
        error: Seq<char>,
        /// Monotonic reading.
        now: Instant,
        /// Wall-clock reading.
        wall: SystemTime,
    },
    /// The stream ended.
    Ended {
        /// Monotonic reading.
        now: Instant,
        /// Wall-clock reading.
        wall: SystemTime,
    },
    /// The stream reported a change.
    Browsed(BrowseView),
    /// A control edge.
    Control(Option<DiscoveryControl>),
    /// The sleep elapsed.
    Elapsed,
}

impl View for DiscoveryInput {
    type V = InputView;

    open spec fn view(&self) -> InputView {
        match *self {
            DiscoveryInput::Proceed => InputView::Proceed,
            DiscoveryInput::Queue(answer) => InputView::Queue(answer),
            DiscoveryInput::Opened => InputView::Opened,
            DiscoveryInput::Failed { error, now, wall } =>
                InputView::Failed { error: error@, now, wall },
            DiscoveryInput::Ended { now, wall } => InputView::Ended { now, wall },
            DiscoveryInput::Browsed(event) => InputView::Browsed(event@),
            DiscoveryInput::Control(control) => InputView::Control(control),
            DiscoveryInput::Elapsed => InputView::Elapsed,
        }
    }
}

/// One thing the application does for the supervisor.
#[derive(Debug)]
pub enum DiscoveryEffect {
    /// Publish the browse generation that just opened.
    PublishGeneration(u64),
    /// Create the cancellation token of a new browse.
    NewChild,
    /// Cancel the current browse.
    CancelChild,
    /// Offer an update to the bounded queue and report its answer.
    Send(DiscoveryUpdate),
    /// Emit a diagnostic record.
    Emit(DiagnosticDraft),
}

/// One thing the application does, as values.
pub enum DiscoveryEffectView {
    /// Publish a generation.
    PublishGeneration(u64),
    /// Create a token.
    NewChild,
    /// Cancel the browse.
    CancelChild,
    /// Offer an update.
    Send(UpdateView),
    /// Emit a record.
    Emit(DraftView),
}

impl View for DiscoveryEffect {
    type V = DiscoveryEffectView;

    open spec fn view(&self) -> DiscoveryEffectView {
        match *self {
            DiscoveryEffect::PublishGeneration(generation) =>
                DiscoveryEffectView::PublishGeneration(generation),
            DiscoveryEffect::NewChild => DiscoveryEffectView::NewChild,
            DiscoveryEffect::CancelChild => DiscoveryEffectView::CancelChild,
            DiscoveryEffect::Send(update) => DiscoveryEffectView::Send(update@),
            DiscoveryEffect::Emit(draft) => DiscoveryEffectView::Emit(draft@),
        }
    }
}

/// The effects of a list, each as values.
pub open spec fn effect_views(effects: Seq<DiscoveryEffect>) -> Seq<DiscoveryEffectView> {
    effects.map_values(|effect: DiscoveryEffect| effect@)
}

/// What the supervisor knows.
pub struct DriverView {
    /// Inventory, phase, and generation.
    pub state: StateView,
    /// Consecutive failures since the latest network change.
    pub failures: u32,
    /// Whether the next generation keeps the marked-unknown inventory.
    pub preserve_unknown: bool,
    /// What it waits for.
    pub stage: DiscoveryStage,
    /// Restart policy.
    pub policy: RetryPolicy,
}

/// A discovery diagnostic under the live generations; the browse counter is
/// this supervisor's own.
pub open spec fn discovery_draft(
    cell: Generations,
    generation: u64,
    receiver: Option<ReceiverId>,
    severity: Severity,
    payload: PayloadView,
) -> DraftView {
    DraftView {
        generations: Generations { discovery: generation, ..cell },
        receiver,
        severity,
        category: kind_category(payload_kind(payload)),
        payload,
    }
}

/// `n` plus one, stopping at the largest value.
pub open spec fn next_generation(n: u64) -> u64 {
    if n == u64::MAX { n } else { (n + 1) as u64 }
}

impl DriverView {
    /// Opens the next browse generation and announces it.
    ///
    /// After a network change the marked-unknown inventory survives; otherwise
    /// the inventory belongs to the old daemon and is cleared.
    pub open spec fn opened(self) -> (DriverView, Seq<DiscoveryEffectView>) {
        let generation = next_generation(self.state.generation);
        let started = StateView { generation, phase: DiscoveryPhase::Running, ..self.state };
        (
            DriverView {
                state: if self.preserve_unknown { started.unknown() } else { started.cleared() },
                preserve_unknown: false,
                stage: DiscoveryStage::Starting,
                ..self
            },
            seq![
                DiscoveryEffectView::PublishGeneration(generation),
                DiscoveryEffectView::NewChild,
                DiscoveryEffectView::Send(UpdateView::Started { generation }),
            ],
        )
    }

    /// Stops supervision.
    pub open spec fn stopped(self, cell: Generations) -> (DriverView, Seq<DiscoveryEffectView>) {
        (
            DriverView {
                state: StateView { phase: DiscoveryPhase::Stopped, ..self.state },
                stage: DiscoveryStage::Stopped,
                ..self
            },
            seq![
                DiscoveryEffectView::Emit(
                    discovery_draft(
                        cell,
                        self.state.generation,
                        None,
                        Severity::Info,
                        PayloadView::DiscoveryGeneration {
                            generation: self.state.generation,
                            phase: DiscoveryPhase::Stopped,
                        },
                    ),
                ),
                DiscoveryEffectView::CancelChild,
            ],
        )
    }

    /// The queue overflowed: the browse is cancelled and, after its consumer
    /// had a turn, a fresh generation resynchronizes.
    pub open spec fn overloaded(self, cell: Generations) -> (DriverView, Seq<DiscoveryEffectView>) {
        (
            DriverView { stage: DiscoveryStage::Yielding, ..self },
            seq![
                DiscoveryEffectView::Emit(
                    discovery_draft(
                        cell,
                        self.state.generation,
                        None,
                        Severity::Warning,
                        PayloadView::QueueWatermark {
                            depth: UPDATE_QUEUE_CAPACITY,
                            capacity: UPDATE_QUEUE_CAPACITY,
                        },
                    ),
                ),
                DiscoveryEffectView::CancelChild,
            ],
        )
    }

    /// The daemon failed: the restart is scheduled and reported.
    pub open spec fn failed(
        self,
        error: Seq<char>,
        now: Instant,
        wall: SystemTime,
    ) -> (DriverView, Seq<DiscoveryEffectView>) {
        let delay = discovery_retry_delay(self.policy, self.state.generation, self.failures) as u64;
        let wall_deadline = wall_after(wall, delay);
        (
            DriverView {
                state: StateView {
                    phase: DiscoveryPhase::Retrying {
                        attempt: self.failures,
                        retry_at: wall_deadline,
                    },
                    ..self.state
                },
                stage: DiscoveryStage::Failing { delay: Duration { nanos: delay }, wall_deadline },
                ..self
            },
            seq![
                DiscoveryEffectView::Send(
                    UpdateView::Failed {
                        generation: self.state.generation,
                        error,
                        retry_at: instant_after(now, delay),
                    },
                ),
            ],
        )
    }

    /// A control edge ended the generation. A network change cancels the
    /// browse, marks the inventory unknown, and settles.
    pub open spec fn controlled(
        self,
        cell: Generations,
        control: Option<DiscoveryControl>,
    ) -> (DriverView, Seq<DiscoveryEffectView>) {
        if control == Some(DiscoveryControl::RestartAfterNetworkChange) {
            (
                DriverView {
                    state: self.state.unknown(),
                    failures: 0,
                    preserve_unknown: true,
                    stage: DiscoveryStage::Settling,
                    ..self
                },
                seq![DiscoveryEffectView::CancelChild],
            )
        } else {
            self.stopped(cell)
        }
    }

    /// The supervisor and what is done for it after one input; an input that
    /// its stage does not wait for changes nothing.
    pub open spec fn after(self, cell: Generations, input: InputView) -> (DriverView, Seq<
        DiscoveryEffectView,
    >) {
        match (self.stage, input) {
            (DiscoveryStage::Idle, InputView::Proceed) => self.opened(),
            (DiscoveryStage::Yielding, InputView::Proceed) => self.opened(),
            (DiscoveryStage::Starting, InputView::Queue(QueueAnswer::Sent)) => (
                DriverView { stage: DiscoveryStage::Opening, ..self },
                seq![
                    DiscoveryEffectView::Emit(
                        discovery_draft(
                            cell,
                            self.state.generation,
                            None,
                            Severity::Info,
                            PayloadView::DiscoveryGeneration {
                                generation: self.state.generation,
                                phase: DiscoveryPhase::Running,
                            },
                        ),
                    ),
                ],
            ),
            (DiscoveryStage::Forwarding, InputView::Queue(QueueAnswer::Sent)) => (
                DriverView { stage: DiscoveryStage::Listening, ..self },
                Seq::empty(),
            ),
            (DiscoveryStage::Failing { delay, wall_deadline }, InputView::Queue(QueueAnswer::Sent)) => (
                DriverView {
                    failures: (self.failures + 1) as u32,
                    stage: DiscoveryStage::BackingOff { delay },
                    ..self
                },
                seq![
                    DiscoveryEffectView::Emit(
                        discovery_draft(
                            cell,
                            self.state.generation,
                            None,
                            Severity::Warning,
                            PayloadView::Retry {
                                receiver: None,
                                attempt: self.failures,
                                next_at: wall_deadline,
                            },
                        ),
                    ),
                ],
            ),
            (DiscoveryStage::Starting, InputView::Queue(QueueAnswer::Overloaded)) => self.overloaded(cell),
            (DiscoveryStage::Forwarding, InputView::Queue(QueueAnswer::Overloaded)) => self.overloaded(cell),
            (DiscoveryStage::Failing { .. }, InputView::Queue(QueueAnswer::Overloaded)) => self.overloaded(cell),
            (DiscoveryStage::Starting, InputView::Queue(QueueAnswer::Closed)) => self.stopped(cell),
            (DiscoveryStage::Forwarding, InputView::Queue(QueueAnswer::Closed)) => self.stopped(cell),
            (DiscoveryStage::Failing { .. }, InputView::Queue(QueueAnswer::Closed)) => self.stopped(cell),
            (DiscoveryStage::Opening, InputView::Opened) => (
                DriverView { stage: DiscoveryStage::Listening, ..self },
                Seq::empty(),
            ),
            (DiscoveryStage::Opening, InputView::Failed { error, now, wall }) => self.failed(error, now, wall),
            (DiscoveryStage::Listening, InputView::Failed { error, now, wall }) => self.failed(error, now, wall),
            (DiscoveryStage::Listening, InputView::Ended { now, wall }) =>
                self.failed("discovery stream ended unexpectedly"@, now, wall),
            (DiscoveryStage::Listening, InputView::Browsed(event)) => (
                DriverView {
                    state: self.state.folded(event),
                    stage: DiscoveryStage::Forwarding,
                    ..self
                },
                seq![
                    DiscoveryEffectView::Emit(
                        discovery_draft(
                            cell,
                            self.state.generation,
                            Some(browse_receiver(event)),
                            Severity::Info,
                            PayloadView::DiscoveryReceiver {
                                receiver: browse_receiver(event),
                                present: !(event is Removed),
                            },
                        ),
                    ),
                    DiscoveryEffectView::Send(
                        UpdateView::Receiver { generation: self.state.generation, event },
                    ),
                ],
            ),
            (DiscoveryStage::Listening, InputView::Control(control)) => self.controlled(cell, control),
            (DiscoveryStage::BackingOff { .. }, InputView::Control(control)) => self.controlled(cell, control),
            (DiscoveryStage::BackingOff { .. }, InputView::Elapsed) => self.opened(),
            (DiscoveryStage::Settling, InputView::Elapsed) => self.opened(),
            (DiscoveryStage::Settling, InputView::Control(control)) =>
                if control == Some(DiscoveryControl::RestartAfterNetworkChange) {
                    self.opened()
                } else {
                    self.stopped(cell)
                },
            _ => (self, Seq::empty()),
        }
    }
}

/// The supervisor before its first turn.
pub open spec fn unstarted(policy: RetryPolicy) -> DriverView {
    DriverView {
        state: StateView {
            generation: 0,
            phase: DiscoveryPhase::Stopped,
            receivers: Map::empty(),
        },
        failures: 0,
        preserve_unknown: false,
        stage: DiscoveryStage::Idle,
        policy,
    }
}

/// Supervises browse generations.
#[derive(Debug)]
pub struct DiscoveryDriver {
    state: DiscoveryState,
    failures: u32,
    preserve_unknown: bool,
    stage: DiscoveryStage,
    policy: RetryPolicy,
}

impl View for DiscoveryDriver {
    type V = DriverView;

    closed spec fn view(&self) -> DriverView {
        DriverView {
            state: self.state@,
            failures: self.failures,
            preserve_unknown: self.preserve_unknown,
            stage: self.stage,
            policy: self.policy,
        }
    }
}

impl DiscoveryDriver {
    /// A supervisor that has not started.
    pub fn new(policy: RetryPolicy) -> (r: Self)
        ensures
            r@ == unstarted(policy),
    {
        DiscoveryDriver {
            state: DiscoveryState::at_generation(0),
            failures: 0,
            preserve_unknown: false,
            stage: DiscoveryStage::Idle,
            policy,
        }
    }

    /// Inventory, phase, and generation.
    pub fn state(&self) -> (r: &DiscoveryState)
        ensures
            r@ == self@.state,
    {
        &self.state
    }

    /// Consecutive failures since the latest network change.
    pub fn failures(&self) -> (r: u32)
        ensures
            r == self@.failures,
    {
        self.failures
    }

    /// What the supervisor waits for.
    pub fn stage(&self) -> (r: DiscoveryStage)
        ensures
            r == self@.stage,
    {
        self.stage
    }

    /// Takes one input and returns, in order, what has to be done.
    ///
    /// `cell` is the current reading of the shared generation counters.
    pub fn step(&mut self, cell: Generations, input: DiscoveryInput) -> (r: Vec<DiscoveryEffect>)
        requires
            old(self)@.policy.sound(),
            old(self)@.failures < u32::MAX,
        ensures
            (final(self)@, effect_views(r@)) == old(self)@.after(cell, input@),
    {
        let mut out: Vec<DiscoveryEffect> = Vec::new();
        assert(effect_views(out@) =~= Seq::empty());
        match (self.stage, input) {
            (DiscoveryStage::Idle, DiscoveryInput::Proceed) => self.open(&mut out),
            (DiscoveryStage::Yielding, DiscoveryInput::Proceed) => self.open(&mut out),
            (DiscoveryStage::Starting, DiscoveryInput::Queue(QueueAnswer::Sent)) => {
                let generation: u64 = self.state.generation;
                self.stage = DiscoveryStage::Opening;
                out.push(emit(
                    cell,
                    generation,
                    None,
                    Severity::Info,
                    DiagnosticPayload::DiscoveryGeneration {
                        generation,
                        phase: DiscoveryPhase::Running,
                    },
                ));
            },
            (DiscoveryStage::Forwarding, DiscoveryInput::Queue(QueueAnswer::Sent)) => {
                self.stage = DiscoveryStage::Listening;
            },
            (
                DiscoveryStage::Failing { delay, wall_deadline },
                DiscoveryInput::Queue(QueueAnswer::Sent),
            ) => {
                out.push(emit(
                    cell,
                    self.state.generation,
                    None,
                    Severity::Warning,
                    DiagnosticPayload::Retry {
                        receiver: None,
                        attempt: self.failures,
                        next_at: wall_deadline,
                    },
                ));
                self.failures = self.failures + 1;
                self.stage = DiscoveryStage::BackingOff { delay };
            },
            (DiscoveryStage::Starting, DiscoveryInput::Queue(QueueAnswer::Overloaded)) =>
                self.overload(cell, &mut out),
            (DiscoveryStage::Forwarding, DiscoveryInput::Queue(QueueAnswer::Overloaded)) =>
                self.overload(cell, &mut out),
            (DiscoveryStage::Failing { .. }, DiscoveryInput::Queue(QueueAnswer::Overloaded)) =>
                self.overload(cell, &mut out),
            (DiscoveryStage::Starting, DiscoveryInput::Queue(QueueAnswer::Closed)) =>
                self.stop(cell, &mut out),
            (DiscoveryStage::Forwarding, DiscoveryInput::Queue(QueueAnswer::Closed)) =>
                self.stop(cell, &mut out),
            (DiscoveryStage::Failing { .. }, DiscoveryInput::Queue(QueueAnswer::Closed)) =>
                self.stop(cell, &mut out),
            (DiscoveryStage::Opening, DiscoveryInput::Opened) => {
                self.stage = DiscoveryStage::Listening;
            },
            (DiscoveryStage::Opening, DiscoveryInput::Failed { error, now, wall }) =>
                self.schedule_failure(error, now, wall, &mut out),
            (DiscoveryStage::Listening, DiscoveryInput::Failed { error, now, wall }) =>
                self.schedule_failure(error, now, wall, &mut out),
            (DiscoveryStage::Listening, DiscoveryInput::Ended { now, wall }) =>
                self.schedule_failure(
                    UserFacingError::new("discovery stream ended unexpectedly"),
                    now,
                    wall,
                    &mut out,
                ),
            (DiscoveryStage::Listening, DiscoveryInput::Browsed(event)) => {
                let generation: u64 = self.state.generation;
                let receiver: ReceiverId = event_receiver(&event);
                let present: bool = match &event {
                    BrowseEvent::Removed(_) => false,
                    _ => true,
                };
                self.state.apply_event(&event);
                self.stage = DiscoveryStage::Forwarding;
                out.push(emit(
                    cell,
                    generation,
                    Some(receiver),
                    Severity::Info,
                    DiagnosticPayload::DiscoveryReceiver { receiver, present },
                ));
                out.push(DiscoveryEffect::Send(DiscoveryUpdate::Receiver { generation, event }));
            },
            (DiscoveryStage::Listening, DiscoveryInput::Control(control)) =>
                self.obey(cell, control, &mut out),
            (DiscoveryStage::BackingOff { .. }, DiscoveryInput::Control(control)) =>
                self.obey(cell, control, &mut out),
            (DiscoveryStage::BackingOff { .. }, DiscoveryInput::Elapsed) => self.open(&mut out),
            (DiscoveryStage::Settling, DiscoveryInput::Elapsed) => self.open(&mut out),
            (DiscoveryStage::Settling, DiscoveryInput::Control(control)) => {
                match on_control(control) {
                    GenerationExit::NetworkChanged => self.open(&mut out),
                    GenerationExit::Shutdown => self.stop(cell, &mut out),
                }
            },
            _ => {},
        }
        proof {
            assert(effect_views(out@) =~= old(self)@.after(cell, input@).1);
        }
        out
    }

    fn open(&mut self, out: &mut Vec<DiscoveryEffect>)
        requires
            old(out)@.len() == 0,
        ensures
            (final(self)@, effect_views(final(out)@)) == old(self)@.opened(),
    {
        let generation: u64 = self.state.generation.saturating_add(1);
        self.state.generation = generation;
        self.state.phase = DiscoveryPhase::Running;
        if self.preserve_unknown {
            self.state.mark_all_unknown();
        } else {
            self.state.clear_inventory();
        }
        self.preserve_unknown = false;
        self.stage = DiscoveryStage::Starting;
        out.push(DiscoveryEffect::PublishGeneration(generation));
        out.push(DiscoveryEffect::NewChild);
        out.push(DiscoveryEffect::Send(DiscoveryUpdate::Started { generation }));
        proof {
            assert(effect_views(out@) =~= old(self)@.opened().1);
        }
    }

    fn stop(&mut self, cell: Generations, out: &mut Vec<DiscoveryEffect>)
        requires
            old(out)@.len() == 0,
        ensures
            (final(self)@, effect_views(final(out)@)) == old(self)@.stopped(cell),
    {
        let generation: u64 = self.state.generation;
        out.push(emit(
            cell,
            generation,
            None,
            Severity::Info,
            DiagnosticPayload::DiscoveryGeneration { generation, phase: DiscoveryPhase::Stopped },
        ));
        self.state.note_stopped();
        out.push(DiscoveryEffect::CancelChild);
        self.stage = DiscoveryStage::Stopped;
        proof {
            assert(effect_views(out@) =~= old(self)@.stopped(cell).1);
        }
    }

    fn overload(&mut self, cell: Generations, out: &mut Vec<DiscoveryEffect>)
        requires
            old(out)@.len() == 0,
        ensures
            (final(self)@, effect_views(final(out)@)) == old(self)@.overloaded(cell),
    {
        out.push(emit(
            cell,
            self.state.generation,
            None,
            Severity::Warning,
            DiagnosticPayload::QueueWatermark {
                depth: UPDATE_QUEUE_CAPACITY,
                capacity: UPDATE_QUEUE_CAPACITY,
            },
        ));
        out.push(DiscoveryEffect::CancelChild);
        self.stage = DiscoveryStage::Yielding;
        proof {
            assert(effect_views(out@) =~= old(self)@.overloaded(cell).1);
        }
    }

    /// Reports a failure and schedules the policy backoff.
    fn schedule_failure(
        &mut self,
        error: UserFacingError,
        now: Instant,
        wall: SystemTime,
        out: &mut Vec<DiscoveryEffect>,
    )
        requires
            old(out)@.len() == 0,
            old(self)@.policy.sound(),
        ensures
            (final(self)@, effect_views(final(out)@)) == old(self)@.failed(error@, now, wall),
    {
        proof {
            law_discovery_delays_are_bounded(self.policy, self.state.generation, self.failures);
        }
        let delay: Duration = self.policy.discovery_delay(self.state.generation, self.failures);
        let wall_deadline: SystemTime = wall.after(delay);
        self.state.note_retrying(self.failures, wall_deadline);
        out.push(DiscoveryEffect::Send(DiscoveryUpdate::Failed {
            generation: self.state.generation,
            error,
            retry_at: now.after(delay),
        }));
        self.stage = DiscoveryStage::Failing { delay, wall_deadline };
        proof {
            assert(effect_views(out@) =~= old(self)@.failed(error@, now, wall).1);
        }
    }

    /// Ends the generation as a control edge asks.
    fn obey(
        &mut self,
        cell: Generations,
        control: Option<DiscoveryControl>,
        out: &mut Vec<DiscoveryEffect>,
    )
        requires
            old(out)@.len() == 0,
        ensures
            (final(self)@, effect_views(final(out)@)) == old(self)@.controlled(cell, control),
    {
        match on_control(control) {
            GenerationExit::NetworkChanged => {
                out.push(DiscoveryEffect::CancelChild);
                self.state.mark_all_unknown();
                self.failures = 0;
                self.preserve_unknown = true;
                self.stage = DiscoveryStage::Settling;
                proof {
                    assert(effect_views(out@) =~= old(self)@.controlled(cell, control).1);
                }
            },
            GenerationExit::Shutdown => self.stop(cell, out),
        }
    }
}

/// A discovery diagnostic under the live generations.
fn emit(
    cell: Generations,
    generation: u64,
    receiver: Option<ReceiverId>,
    severity: Severity,
    payload: DiagnosticPayload,
) -> (r: DiscoveryEffect)
    ensures
        r@ == DiscoveryEffectView::Emit(
            discovery_draft(cell, generation, receiver, severity, payload@),
        ),
{
    let category: DiagnosticCategory = diagnostic_category(payload.kind());
    DiscoveryEffect::Emit(DiagnosticDraft {
        generations: Generations {
            session: cell.session,
            discovery: generation,
            capture: cell.capture,
        },
        receiver,
        severity,
        category,
        payload,
    })
}

/// Supervision never moves back to an older generation, and every generation
/// it opens is newer than the one before.
pub proof fn law_generations_never_go_back(driver: DriverView, cell: Generations, input: InputView)
    ensures
        driver.after(cell, input).0.state.generation >= driver.state.generation,
        driver.after(cell, input).0.stage == DiscoveryStage::Starting
            && driver.stage != DiscoveryStage::Starting
            && driver.state.generation < u64::MAX
            ==> driver.after(cell, input).0.state.generation == driver.state.generation + 1,
{
}

/// A network change marks every known receiver unknown, keeps the record, and
/// restarts the backoff; the next generation still shows those records.
pub proof fn law_network_change_keeps_the_inventory(driver: DriverView, cell: Generations)
    requires
        driver.stage == DiscoveryStage::Listening,
    ensures
        ({
            let changed = driver.after(
                cell,
                InputView::Control(Some(DiscoveryControl::RestartAfterNetworkChange)),
            ).0;
            let reopened = changed.after(cell, InputView::Elapsed).0;
            &&& changed.stage == DiscoveryStage::Settling
            &&& changed.failures == 0
            &&& changed.state.receivers.dom() =~= driver.state.receivers.dom()
            &&& reopened.state.receivers.dom() =~= driver.state.receivers.dom()
            &&& reopened.stage == DiscoveryStage::Starting
            &&& forall|id: ReceiverId| #[trigger] reopened.state.receivers.contains_key(id)
                ==> !reopened.state.receivers[id].available
        }),
{
}

/// A stopped supervisor stays stopped, whatever reaches it.
pub proof fn law_stopped_is_final(driver: DriverView, cell: Generations, input: InputView)
    requires
        driver.stage == DiscoveryStage::Stopped,
    ensures
        driver.after(cell, input) == (driver, Seq::<DiscoveryEffectView>::empty()),
{
}

/// A full queue loses no receiver for good: the browse is cancelled, the
/// overflow is reported, and the next generation starts over.
pub proof fn law_overflow_resynchronizes(driver: DriverView, cell: Generations)
    requires
        driver.stage == DiscoveryStage::Forwarding,
    ensures
        ({
            let full = driver.after(cell, InputView::Queue(QueueAnswer::Overloaded));
            &&& full.1.contains(DiscoveryEffectView::CancelChild)
            &&& full.0.after(cell, InputView::Proceed).0.stage == DiscoveryStage::Starting
            &&& full.0.after(cell, InputView::Proceed).1.contains(
                DiscoveryEffectView::Send(
                    UpdateView::Started { generation: next_generation(driver.state.generation) },
                ),
            )
        }),
{
    let full = driver.after(cell, InputView::Queue(QueueAnswer::Overloaded));
    assert(full.1[1] == DiscoveryEffectView::CancelChild);
    let reopened = full.0.after(cell, InputView::Proceed);
    assert(reopened.1[2] == DiscoveryEffectView::Send(
        UpdateView::Started { generation: next_generation(driver.state.generation) },
    ));
}

} // verus!
