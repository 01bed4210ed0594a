//! Values exchanged with the session supervisor.

use vstd::prelude::*;

use crate::calibration::{CalibrationProfile, CalibrationView};
use crate::discovery::{device_views, Device, DeviceView};
use crate::idmap::IdSet;
use crate::ids::ReceiverId;
use crate::model::{LatencyConfig, RestartReason, SetupPhase, UserFacingError, Volume};

verus! {

/// Teardown budget of the whole group, in nanoseconds.
pub const TEARDOWN_GROUP_NANOS: u64 = 4_000_000_000;

/// Rows of the full-restart matrix.
#[derive(Clone, Copy, Debug, PartialEq, Eq, Structural)]
pub enum ReconfigureCause {
    /// The desired membership changed.
    Membership,
    /// The latency preset changed.
    LatencyChanged,
    /// A secondary rejoins.
    SecondaryRejoin,
    /// The primary was lost.
    PrimaryFailure,
    /// A secondary was lost.
    SecondaryFailure,
    /// The system resumed.
    Resume,
    /// An active local binding moved.
    NetworkRebind,
    /// A calibration was applied or reset.
    CalibrationChanged,
}

impl ReconfigureCause {
    /// Whether the row demands a full restart: losing a secondary leaves the
    /// survivors streaming, everything else rebuilds the group.
    pub open spec fn restarts(self) -> bool {
        self != ReconfigureCause::SecondaryFailure
    }

    /// Whether the row demands a full restart.
    pub fn requires_full_restart(self) -> (r: bool)
        ensures
            r == self.restarts(),
    {
        match self {
            ReconfigureCause::SecondaryFailure => false,
            _ => true,
        }
    }
}

/// The volume to apply downstream.
#[derive(Clone, Copy, Debug)]
pub enum Gain {
    /// Silence.
    Silent,
    /// The product of master volume and receiver level.
    Product {
        /// Master volume.
        master: Volume,
        /// Receiver level.
        level: Volume,
    },
}

/// One receiver that best-effort setup left out.
#[derive(Clone, Copy, Debug, PartialEq, Eq, Structural)]
pub struct MemberFailure {
    /// The receiver.
    pub receiver: ReceiverId,
    /// Setup phase that failed.
    pub phase: SetupPhase,
    /// Whether ordinary policy may retry.
    pub retryable: bool,
}

/// What the session supervisor reports.
#[derive(Debug)]
pub enum SessionUpdate {
    /// Setup of a generation began.
    Starting {
        /// Generation performing the setup.
        generation: u64,
    },
    /// A generation is live.
    Active {
        /// Generation holding the stream.
        generation: u64,
        /// Clock source.
        primary: ReceiverId,
        /// Connected members.
        members: IdSet,
        /// Receivers that were left out.
        partial_failures: Vec<MemberFailure>,
    },
    /// A control request to one member failed; the stream is untouched.
    MemberControlFailed {
        /// Generation it belongs to.
        generation: u64,
        /// The member.
        receiver: ReceiverId,
        /// Pre-redacted reason.
        error: UserFacingError,
    },
    /// A member was lost.
    MemberFailed {
        /// Generation it belongs to.
        generation: u64,
        /// The member.
        receiver: ReceiverId,
        /// Whether it was the primary.
        primary: bool,
        /// Pre-redacted reason.
        error: UserFacingError,
    },
    /// A generation is being replaced.
    Recovering {
        /// Generation being torn down and replaced.
        generation: u64,
        /// Why.
        reason: RestartReason,
    },
    /// No generation is live any more.
    Stopped {
        /// Generation that ended.
        generation: u64,
    },
}

/// What a session update says.
pub enum SessionUpdateView {
    /// Setup began.
    Starting {
        /// Generation.
        generation: u64,
    },
    /// A generation is live.
    Active {
        /// Generation.
        generation: u64,
        /// Clock source.
        primary: ReceiverId,
        /// Members.
        members: Set<ReceiverId>,
        /// Left out.
        partial_failures: Seq<MemberFailure>,
    },
    /// A control request failed.
    MemberControlFailed {
        /// Generation.
        generation: u64,
        /// Member.
        receiver: ReceiverId,
        /// Reason text.
        error: Seq<char>,
    },
    /// A member was lost.
    MemberFailed {
        /// Generation.
        generation: u64,
        /// Member.
        receiver: ReceiverId,
        /// Was primary.
        primary: bool,
        /// Reason text.
        error: Seq<char>,
    },
    /// A generation is being replaced.
    Recovering {
        /// Generation.
        generation: u64,
        /// Why.
        reason: RestartReason,
    },
    /// Nothing is live.
    Stopped {
        /// Generation.
        generation: u64,
    },
}

impl View for SessionUpdate {
    type V = SessionUpdateView;

    open spec fn view(&self) -> SessionUpdateView {
        match *self {
            SessionUpdate::Starting { generation } => SessionUpdateView::Starting { generation },
            SessionUpdate::Active { generation, primary, members, partial_failures } =>
                SessionUpdateView::Active {
                    generation,
                    primary,
                    members: members@,
                    partial_failures: partial_failures@,
                },
            SessionUpdate::MemberControlFailed { generation, receiver, error } =>
                SessionUpdateView::MemberControlFailed { generation, receiver, error: error@ },
            SessionUpdate::MemberFailed { generation, receiver, primary, error } =>
                SessionUpdateView::MemberFailed { generation, receiver, primary, error: error@ },
            SessionUpdate::Recovering { generation, reason } =>
                SessionUpdateView::Recovering { generation, reason },
            SessionUpdate::Stopped { generation } => SessionUpdateView::Stopped { generation },
        }
    }
}

/// What the session supervisor is asked for.
#[derive(Debug)]
pub enum SessionRequest {
    /// Rebuild the session.
    Reconcile {
        /// Generation of the rebuild.
        generation: u64,
        /// Service records of the receivers to connect, in identity order.
        desired: Vec<Device>,
        /// Primary to prefer.
        preferred_primary: Option<ReceiverId>,
        /// Timing configuration.
        latency: LatencyConfig,
        /// Presentation calibration.
        calibration: CalibrationProfile,
        /// Whether no session is wanted at all.
        teardown_only: bool,
    },
    /// Tear down for a suspend.
    Suspend,
    /// Set one receiver's volume on the running stream.
    SetVolume {
        /// The receiver.
        receiver: ReceiverId,
        /// The volume.
        gain: Gain,
    },
}

/// What the session supervisor is asked for, as values.
pub enum SessionRequestView {
    /// Rebuild the session.
    Reconcile {
        /// Generation.
        generation: u64,
        /// Service records.
        desired: Seq<DeviceView>,
        /// Preferred primary.
        preferred_primary: Option<ReceiverId>,
        /// Timing.
        latency: LatencyConfig,
        /// Calibration.
        calibration: CalibrationView,
        /// No session wanted.
        teardown_only: bool,
    },
    /// Tear down for a suspend.
    Suspend,
    /// Set a volume.
    SetVolume {
        /// Receiver.
        receiver: ReceiverId,
        /// Volume.
        gain: Gain,
    },
}

impl View for SessionRequest {
    type V = SessionRequestView;

    open spec fn view(&self) -> SessionRequestView {
        match *self {
            SessionRequest::Reconcile {
                generation,
                desired,
                preferred_primary,
                latency,
                calibration,
                teardown_only,
            } => SessionRequestView::Reconcile {
                generation,
                desired: device_views(desired@),
                preferred_primary,
                latency,
                calibration: calibration@,
                teardown_only,
            },
            SessionRequest::Suspend => SessionRequestView::Suspend,
            SessionRequest::SetVolume { receiver, gain } =>
                SessionRequestView::SetVolume { receiver, gain },
        }
    }
}

/// Name of a setup phase.
pub open spec fn phase_name(phase: SetupPhase) -> Seq<char> {
    match phase {
        SetupPhase::Connect => "Connect"@,
        SetupPhase::Pair => "Pair"@,
        SetupPhase::PrimaryTiming => "PrimaryTiming"@,
        SetupPhase::RtspSetup => "RtspSetup"@,
        SetupPhase::SetPeers => "SetPeers"@,
        SetupPhase::BuildSender => "BuildSender"@,
        SetupPhase::StartAudio => "StartAudio"@,
    }
}

/// Summary of a setup failure.
pub open spec fn setup_failure_text(failure: MemberFailure) -> Seq<char> {
    "receiver rejected "@ + phase_name(failure.phase) + " during setup"@
}

/// Renders one best-effort setup failure as a pre-redacted summary.
pub fn setup_failure_error(failure: &MemberFailure) -> (r: UserFacingError)
    ensures
        r@ == setup_failure_text(*failure),
{
    let name: &str = match failure.phase {
        SetupPhase::Connect => "Connect",
        SetupPhase::Pair => "Pair",
        SetupPhase::PrimaryTiming => "PrimaryTiming",
        SetupPhase::RtspSetup => "RtspSetup",
        SetupPhase::SetPeers => "SetPeers",
        SetupPhase::BuildSender => "BuildSender",
        SetupPhase::StartAudio => "StartAudio",
    };
    let mut text: String = "receiver rejected ".to_owned();
    text.append(name);
    text.append(" during setup");
    UserFacingError::new(text.as_str())
}

} // verus!
