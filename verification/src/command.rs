//! Commands between the shell and the device backend: the command set, exact
//! receipts, and typed send failures.
//!
//! Command IDs are allocated by the handle before enqueueing so completion
//! and failure events can echo them even under contention.

use vstd::prelude::*;

use crate::calibration::CalibrationCommand;
use crate::idmap::IdSet;
use crate::ids::ReceiverId;
use crate::listening_check::ListeningTestGuard;
use crate::model::{
    AudioEndpointPreference, CommandFailure, LatencyPreset, RunIntent, SavedGroupId,
    SavedGroupMember, Volume,
};

verus! {

/// Fixed capacity of the shell-to-actor command queue.
pub const COMMAND_CAPACITY: usize = 64;

/// A shell-issued command paired with its handle-allocated identity.
///
/// `R` is the exact receipt's sending side; dropping it unanswered tells the
/// receipt that its command was lost.
#[derive(Debug)]
pub struct CommandEnvelope<R> {
    /// Monotonically increasing allocation order; echoed in completion events.
    pub id: u64,
    /// The command itself.
    pub command: BackendCommand,
    /// Optional exact receipt; dropping unexecuted/coalesced work closes it.
    pub confirmation: Option<R>,
}

/// Exact terminal result, readable only after the accompanying state is
/// projected.
#[derive(Clone, Copy, Debug, PartialEq, Eq, Structural)]
pub struct CommandConfirmation {
    /// First snapshot revision guaranteed to include this operation's state.
    pub revision: u64,
    /// None means the command succeeded, not that playback has started.
    pub error: Option<CommandFailure>,
    /// Earliest backend session attempt that may answer a successful group
    /// start; durable success alone is not session evidence.
    pub session_generation_floor: Option<u64>,
}

/// What a receipt's channel answered.
#[derive(Clone, Copy, Debug, PartialEq, Eq, Structural)]
pub enum ReceiptAnswer {
    /// The result arrived.
    Confirmed(CommandConfirmation),
    /// No result yet.
    Empty,
    /// The producer disappeared without a result.
    Closed,
}

/// Current state of an exact receipt.
#[derive(Clone, Copy, Debug, PartialEq, Eq, Structural)]
pub enum ReceiptState {
    /// Still executing, or its state revision has not yet been observed.
    Pending,
    /// Definitive completion after state publication.
    Completed(Option<CommandFailure>),
    /// The producer disappeared without a result; execution is uncertain.
    Lost,
}

/// Bounded, one-result receipt independent of allocation order and broadcast
/// lag.
#[derive(Debug)]
pub struct CommandReceipt {
    confirmed: Option<CommandConfirmation>,
}

impl View for CommandReceipt {
    type V = Option<CommandConfirmation>;

    closed spec fn view(&self) -> Option<CommandConfirmation> {
        self.confirmed
    }
}

/// The result a receipt holds after its channel answered: the first result
/// stays, later answers are not consulted.
pub open spec fn receipt_after(
    confirmed: Option<CommandConfirmation>,
    answer: ReceiptAnswer,
) -> Option<CommandConfirmation> {
    match (confirmed, answer) {
        (Some(held), _) => Some(held),
        (None, ReceiptAnswer::Confirmed(confirmation)) => Some(confirmation),
        (None, _) => None,
    }
}

/// What a receipt reports at a projected revision.
pub open spec fn receipt_state(
    confirmed: Option<CommandConfirmation>,
    answer: ReceiptAnswer,
    projected_revision: u64,
) -> ReceiptState {
    match receipt_after(confirmed, answer) {
        Some(confirmation) => if projected_revision < confirmation.revision {
            ReceiptState::Pending
        } else {
            ReceiptState::Completed(confirmation.error)
        },
        None => if answer == ReceiptAnswer::Closed {
            ReceiptState::Lost
        } else {
            ReceiptState::Pending
        },
    }
}

impl CommandReceipt {
    /// A receipt whose command has not answered yet.
    pub fn new() -> (r: Self)
        ensures
            r@ is None,
    {
        CommandReceipt { confirmed: None }
    }

    /// Whether the channel still has to be asked for the result.
    pub fn awaits_result(&self) -> (r: bool)
        ensures
            r == (self@ is None),
    {
        self.confirmed.is_none()
    }

    /// Causal session floor, available only once this receipt's state is
    /// observable.
    pub fn session_generation_floor(&self, projected_revision: u64) -> (r: Option<u64>)
        ensures
            r == (match self@ {
                Some(confirmation) => if confirmation.revision <= projected_revision {
                    confirmation.session_generation_floor
                } else {
                    None
                },
                None => None,
            }),
    {
        match self.confirmed {
            Some(confirmation) => {
                if confirmation.revision <= projected_revision {
                    confirmation.session_generation_floor
                } else {
                    None
                }
            },
            None => None,
        }
    }

    /// Takes the channel's answer without blocking and retains the result
    /// across repeated polls.
    pub fn poll(&mut self, answer: ReceiptAnswer, projected_revision: u64) -> (r: ReceiptState)
        ensures
            final(self)@ == receipt_after(old(self)@, answer),
            r == receipt_state(old(self)@, answer, projected_revision),
    {
        if self.confirmed.is_none() {
            match answer {
                ReceiptAnswer::Confirmed(confirmation) => {
                    self.confirmed = Some(confirmation);
                },
                ReceiptAnswer::Empty => {
                    return ReceiptState::Pending;
                },
                ReceiptAnswer::Closed => {
                    return ReceiptState::Lost;
                },
            }
        }
        match self.confirmed {
            Some(confirmation) => {
                if projected_revision < confirmation.revision {
                    ReceiptState::Pending
                } else {
                    ReceiptState::Completed(confirmation.error)
                }
            },
            None => ReceiptState::Pending,
        }
    }
}

/// Once a receipt has completed it reports the same result at every later
/// revision, whatever its channel answers.
pub proof fn law_receipt_remembers_its_result(
    confirmed: Option<CommandConfirmation>,
    answer: ReceiptAnswer,
    revision: u64,
    later_answer: ReceiptAnswer,
    later_revision: u64,
)
    requires
        receipt_state(confirmed, answer, revision) is Completed,
        revision <= later_revision,
    ensures
        receipt_state(receipt_after(confirmed, answer), later_answer, later_revision)
            == receipt_state(confirmed, answer, revision),
{
}

/// A receipt completes only at a revision that includes its command's state,
/// and is lost only when its own producer disappeared without a result.
pub proof fn law_receipt_waits_for_its_projection(
    confirmed: Option<CommandConfirmation>,
    answer: ReceiptAnswer,
    revision: u64,
)
    ensures
        receipt_state(confirmed, answer, revision) is Completed
            ==> receipt_after(confirmed, answer) is Some
                && receipt_after(confirmed, answer)->0.revision <= revision,
        receipt_state(confirmed, answer, revision) is Lost
            <==> confirmed is None && answer is Closed,
{
}

/// Every operation the shell may request from the device backend.
///
/// Deliberately transport-free: no connection handles, addresses, or protocol
/// values appear here. Membership is always a complete replacement set.
#[derive(Debug)]
pub enum BackendCommand {
    /// One finite test tone, bound to the exact already-connected
    /// configuration.
    RunListeningTest(ListeningTestGuard),
    /// Explicit selection apply, retained in arrival order with an outcome.
    /// Unlike slider-style desired updates this command cannot be coalesced
    /// away.
    ApplyDesiredMembers {
        /// Complete membership, including offline receivers.
        members: IdSet,
    },
    /// Replaces the committed desired membership as a complete set.
    SetDesiredMembers {
        /// The new desired receiver set.
        members: IdSet,
    },
    /// Sets whether audio should run; independent of desired membership.
    SetRunIntent(RunIntent),
    /// Sets the validated master volume.
    SetMasterVolume(Volume),
    /// Mutes or unmutes while preserving configured volumes.
    SetMuted(bool),
    /// Sets one receiver's balance within the group.
    SetReceiverLevel {
        /// Target receiver.
        receiver: ReceiverId,
        /// Validated per-receiver level.
        level: Volume,
    },
    /// Selects the render endpoint preference for capture.
    SetAudioEndpoint(AudioEndpointPreference),
    /// Applies an enabled latency preset.
    SetLatencyPreset(LatencyPreset),
    /// Enables or disables auto-connect after initial discovery stability.
    SetAutoConnect(bool),
    /// Creates or updates a saved group in one durable step.
    SaveGroup {
        /// Existing group ID when editing, or none to allocate a fresh one.
        id: Option<SavedGroupId>,
        /// Trimmed display name, unique case-insensitively.
        name: String,
        /// Complete member list with intended levels.
        members: Vec<SavedGroupMember>,
    },
    /// Deletes one saved group; desired membership stays untouched.
    DeleteGroup(SavedGroupId),
    /// Atomically loads a saved group as the desired set, optionally running.
    ActivateSavedGroup {
        /// Group to activate.
        id: SavedGroupId,
        /// Whether to also set [`RunIntent::Running`].
        start: bool,
    },
    /// Clears backoff state for one receiver and retries immediately.
    RetryReceiver(ReceiverId),
    /// Reports a platform edge discovered outside the backend.
    NotifySystem(SystemEvent),
    /// Applies, resets, or exercises the manual presentation calibration.
    ///
    /// An edge, never a coalesced scalar: each apply is guarded by the
    /// desired revision the caller decided against, and merging two applies
    /// would silently discard the guard of the one that lost.
    Calibration(CalibrationCommand),
    /// Requests the bounded full teardown of the backend.
    Shutdown,
}

/// Platform edges reported through [`BackendCommand::NotifySystem`].
#[derive(Clone, Copy, Debug, PartialEq, Eq, Structural)]
pub enum SystemEvent {
    /// The system is about to suspend.
    Suspending,
    /// The system resumed from suspend.
    Resumed,
    /// One coalesced local network-interface change was observed.
    NetworkChanged {
        /// Whether an active local binding/address actually moved.
        local_binding_changed: bool,
    },
}

/// Whether a command is a lifecycle edge rather than a coalesced setting.
pub open spec fn is_edge_command(command: BackendCommand) -> bool {
    ||| command is ApplyDesiredMembers
    ||| command is SaveGroup
    ||| command is DeleteGroup
    ||| command is ActivateSavedGroup
    ||| command is RetryReceiver
    ||| command is NotifySystem
    ||| command is Calibration
    ||| command is RunListeningTest
    ||| command is Shutdown
}

impl BackendCommand {
    /// Whether this command marks a lifecycle edge the shell should observe
    /// even across event lag, as opposed to continuously coalesced settings.
    pub fn is_edge(&self) -> (r: bool)
        ensures
            r == is_edge_command(*self),
    {
        match self {
            BackendCommand::ApplyDesiredMembers { .. } => true,
            BackendCommand::SaveGroup { .. } => true,
            BackendCommand::DeleteGroup(_) => true,
            BackendCommand::ActivateSavedGroup { .. } => true,
            BackendCommand::RetryReceiver(_) => true,
            BackendCommand::NotifySystem(_) => true,
            BackendCommand::Calibration(_) => true,
            BackendCommand::RunListeningTest(_) => true,
            BackendCommand::Shutdown => true,
            _ => false,
        }
    }
}

/// Typed failure of a non-blocking or awaiting command send.
#[derive(Clone, Copy, Debug, PartialEq, Eq, Structural)]
pub enum BackendSendError {
    /// The fixed-capacity command queue is currently full.
    Busy,
    /// The backend actor is gone and can no longer receive commands.
    Closed,
}

impl BackendSendError {
    /// Renders the error.
    pub fn to_string(&self) -> (r: String)
        ensures
            r@ == match *self {
                BackendSendError::Busy => "backend queue is busy"@,
                BackendSendError::Closed => "backend is closed"@,
            },
    {
        match self {
            BackendSendError::Busy => "backend queue is busy".to_owned(),
            BackendSendError::Closed => "backend is closed".to_owned(),
        }
    }
}

} // verus!
