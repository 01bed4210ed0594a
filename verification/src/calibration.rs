//! Manual presentation calibration: requested relative delays per receiver.

use vstd::prelude::*;

use crate::idmap::IdMap;
use crate::ids::ReceiverId;

verus! {

/// What a calibration section or profile holds.
#[verifier::ext_equal]
pub struct CalibrationView {
    /// Reference receiver.
    pub reference: Option<ReceiverId>,
    /// Requested relative delay per receiver in nanoseconds.
    pub delays_ns: Map<ReceiverId, i64>,
}

/// A calibration that aligns nothing.
pub open spec fn no_calibration() -> CalibrationView {
    CalibrationView { reference: None, delays_ns: Map::empty() }
}

/// Calibration section persisted inside the device-state document
/// (introduced by schema version 2).
///
/// Stored values are the raw user-requested signed relative delays keyed by
/// stable [`ReceiverId`]; validation against an active selection happens at
/// apply time, not at load time.
#[derive(Debug, PartialEq, Eq)]
pub struct CalibrationStateV2 {
    /// Reference receiver the relative delays are judged against, if chosen.
    pub reference: Option<ReceiverId>,
    /// Signed requested relative delay per receiver in nanoseconds.
    pub delays_ns: IdMap<i64>,
}

impl View for CalibrationStateV2 {
    type V = CalibrationView;

    open spec fn view(&self) -> CalibrationView {
        CalibrationView { reference: self.reference, delays_ns: self.delays_ns@ }
    }
}

impl Default for CalibrationStateV2 {
    fn default() -> (r: Self)
        ensures
            r@ == no_calibration(),
    {
        CalibrationStateV2 { reference: None, delays_ns: IdMap::new() }
    }
}

impl Clone for CalibrationStateV2 {
    fn clone(&self) -> (r: Self)
        ensures
            r@ == self@,
    {
        CalibrationStateV2 { reference: self.reference, delays_ns: self.delays_ns.copied() }
    }
}

/// The calibration the running backend applies.
#[derive(Debug, PartialEq, Eq)]
pub struct CalibrationProfile {
    /// Reference receiver the relative delays are judged against, if chosen.
    pub reference: Option<ReceiverId>,
    /// Signed requested relative delay per receiver in nanoseconds.
    pub delays_ns: IdMap<i64>,
}

impl View for CalibrationProfile {
    type V = CalibrationView;

    open spec fn view(&self) -> CalibrationView {
        CalibrationView { reference: self.reference, delays_ns: self.delays_ns@ }
    }
}

impl Default for CalibrationProfile {
    fn default() -> (r: Self)
        ensures
            r@ == no_calibration(),
    {
        CalibrationProfile { reference: None, delays_ns: IdMap::new() }
    }
}

impl Clone for CalibrationProfile {
    fn clone(&self) -> (r: Self)
        ensures
            r@ == self@,
    {
        CalibrationProfile { reference: self.reference, delays_ns: self.delays_ns.copied() }
    }
}

impl CalibrationProfile {
    /// The profile a stored section describes.
    pub fn from_section(section: &CalibrationStateV2) -> (r: Self)
        ensures
            r@ == section@,
    {
        CalibrationProfile { reference: section.reference, delays_ns: section.delays_ns.copied() }
    }

    /// The section that stores this profile.
    pub fn to_section(&self) -> (r: CalibrationStateV2)
        ensures
            r@ == self@,
    {
        CalibrationStateV2 { reference: self.reference, delays_ns: self.delays_ns.copied() }
    }
}

/// Requests about the manual calibration.
#[derive(Debug)]
pub enum CalibrationCommand {
    /// Stores and applies a profile.
    ApplyCalibrationProfile {
        /// Selection revision the profile was authored against.
        expected_desired_revision: u64,
        /// The profile.
        profile: CalibrationProfile,
    },
    /// Clears the stored profile.
    ResetCalibration {
        /// Selection revision the reset was decided against.
        expected_desired_revision: u64,
    },
    /// Plays the shared alignment click pattern.
    RunCalibrationClickTest,
}

/// Lifecycle of one calibration apply.
#[derive(Clone, Copy, Debug, PartialEq, Eq, Structural)]
pub enum CalibrationApplyState {
    /// Stored; the restart that applies it is still outstanding.
    PendingRestart,
    /// A session built with it is live.
    Applied,
    /// Rejected or not stored.
    Failed,
}

} // verus!
