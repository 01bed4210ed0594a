//! Copies and comparisons of snapshot parts.

use std::collections::VecDeque;

use vstd::prelude::*;

use crate::model::{
    clone_members, endpoint_views, group_row_views, preset_views, row_views, AudioEndpoint,
    AudioSourceSnapshot, CommandFailure, CommandOutcomes, DeviceSnapshot,
    LatencyPresetOption, ReceiverSnapshot, SavedGroupSnapshot, SessionPhase,
    SessionSnapshot, UserFacingError,
};

verus! {

/// Whether both phases say the same.
pub fn same_phase(a: &SessionPhase, b: &SessionPhase) -> (r: bool)
    ensures
        r <==> a@ == b@,
{
    match (a, b) {
        (SessionPhase::Stopped, SessionPhase::Stopped) => true,
        (SessionPhase::Starting { generation: x }, SessionPhase::Starting { generation: y }) => *x == *y,
        (SessionPhase::Streaming { generation: x }, SessionPhase::Streaming { generation: y }) => *x == *y,
        (SessionPhase::Degraded { generation: x }, SessionPhase::Degraded { generation: y }) => *x == *y,
        (
            SessionPhase::Restarting { generation: x, reason: p },
            SessionPhase::Restarting { generation: y, reason: q },
        ) => *x == *y && *p == *q,
        (SessionPhase::Stopping { generation: x }, SessionPhase::Stopping { generation: y }) => *x == *y,
        (
            SessionPhase::Failed { generation: x, error: e },
            SessionPhase::Failed { generation: y, error: f },
        ) => *x == *y && e.same_as(f),
        _ => false,
    }
}

/// Whether both optional receivers are the same.
fn same_primary(a: &Option<crate::ids::ReceiverId>, b: &Option<crate::ids::ReceiverId>) -> (r: bool)
    ensures
        r <==> *a == *b,
{
    match (a, b) {
        (None, None) => true,
        (Some(x), Some(y)) => *x == *y,
        _ => false,
    }
}

impl SessionSnapshot {
    /// Whether both snapshots show the same session.
    pub fn same_as(&self, other: &Self) -> (r: bool)
        ensures
            r <==> self@ == other@,
    {
        same_phase(&self.phase, &other.phase) && self.desired.same_as(&other.desired)
            && self.active.same_as(&other.active) && self.failed.same_as(&other.failed)
            && self.retry_waiting.same_as(&other.retry_waiting)
            && same_primary(&self.primary, &other.primary) && self.audio_flow == other.audio_flow
            && self.resume_pending == other.resume_pending
    }
}

/// Whether both row lists show the same, row by row.
pub fn same_rows(a: &Vec<ReceiverSnapshot>, b: &Vec<ReceiverSnapshot>) -> (r: bool)
    ensures
        r <==> row_views(a@) == row_views(b@),
{
    if a.len() != b.len() {
        assert(row_views(a@).len() != row_views(b@).len());
        return false;
    }
    let mut i: usize = 0;
    while i < a.len()
        invariant
            i <= a@.len(),
            a@.len() == b@.len(),
            forall|j: int| 0 <= j < i ==> (#[trigger] a@[j])@ == b@[j]@,
        decreases a@.len() - i,
    {
        let x: &ReceiverSnapshot = &a[i];
        let y: &ReceiverSnapshot = &b[i];
        if x.id != y.id || x.name != y.name || x.model != y.model
            || !x.lifecycle.same_as(&y.lifecycle) {
            assert(row_views(a@)[i as int] == x@ && row_views(b@)[i as int] == y@);
            return false;
        }
        i = i + 1;
    }
    assert(row_views(a@) =~= row_views(b@));
    true
}

fn same_endpoints(a: &Vec<AudioEndpoint>, b: &Vec<AudioEndpoint>) -> (r: bool)
    ensures
        r <==> endpoint_views(a@) == endpoint_views(b@),
{
    if a.len() != b.len() {
        assert(endpoint_views(a@).len() != endpoint_views(b@).len());
        return false;
    }
    let mut i: usize = 0;
    while i < a.len()
        invariant
            i <= a@.len(),
            a@.len() == b@.len(),
            forall|j: int| 0 <= j < i ==> (#[trigger] a@[j])@ == b@[j]@,
        decreases a@.len() - i,
    {
        if a[i].id != b[i].id || a[i].name != b[i].name {
            assert(endpoint_views(a@)[i as int] == a@[i as int]@);
            assert(endpoint_views(b@)[i as int] == b@[i as int]@);
            return false;
        }
        i = i + 1;
    }
    assert(endpoint_views(a@) =~= endpoint_views(b@));
    true
}

impl AudioSourceSnapshot {
    /// Whether both snapshots show the same source.
    pub fn same_as(&self, other: &Self) -> (r: bool)
        ensures
            r <==> self@ == other@,
    {
        let endpoints: bool = match (&self.active_endpoints, &other.active_endpoints) {
            (None, None) => true,
            (Some(a), Some(b)) => same_endpoints(a, b),
            _ => false,
        };
        let captured: bool = match (&self.captured_endpoint, &other.captured_endpoint) {
            (None, None) => true,
            (Some(a), Some(b)) => a.id == b.id && a.name == b.name,
            _ => false,
        };
        let peak: bool = match (self.windows_input_peak_permille, other.windows_input_peak_permille) {
            (None, None) => true,
            (Some(a), Some(b)) => a == b,
            _ => false,
        };
        endpoints && captured && peak && self.refresh_failed == other.refresh_failed
            && self.preference.same_as(&other.preference) && self.state == other.state
            && self.pcm_frames_dropped_total == other.pcm_frames_dropped_total
    }
}

/// A copy of an endpoint list.
pub fn clone_endpoints(endpoints: &Vec<AudioEndpoint>) -> (r: Vec<AudioEndpoint>)
    ensures
        r@ == endpoints@,
{
    let mut out: Vec<AudioEndpoint> = Vec::new();
    let mut i: usize = 0;
    while i < endpoints.len()
        invariant
            i <= endpoints@.len(),
            out@ == endpoints@.take(i as int),
        decreases endpoints@.len() - i,
    {
        out.push(endpoints[i].clone());
        i = i + 1;
        assert(out@ =~= endpoints@.take(i as int));
    }
    assert(out@ =~= endpoints@);
    out
}

impl Clone for AudioSourceSnapshot {
    fn clone(&self) -> (r: Self)
        ensures
            r@ == self@,
    {
        AudioSourceSnapshot {
            active_endpoints: match &self.active_endpoints {
                Some(list) => Some(clone_endpoints(list)),
                None => None,
            },
            refresh_failed: self.refresh_failed,
            preference: self.preference.clone(),
            captured_endpoint: match &self.captured_endpoint {
                Some(endpoint) => Some(endpoint.clone()),
                None => None,
            },
            state: self.state,
            windows_input_peak_permille: self.windows_input_peak_permille,
            pcm_frames_dropped_total: self.pcm_frames_dropped_total,
        }
    }
}

/// A copy of a row list.
pub fn clone_rows(rows: &Vec<ReceiverSnapshot>) -> (r: Vec<ReceiverSnapshot>)
    ensures
        r@ == rows@,
{
    let mut out: Vec<ReceiverSnapshot> = Vec::new();
    let mut i: usize = 0;
    while i < rows.len()
        invariant
            i <= rows@.len(),
            out@ == rows@.take(i as int),
        decreases rows@.len() - i,
    {
        out.push(rows[i].clone());
        i = i + 1;
        assert(out@ =~= rows@.take(i as int));
    }
    assert(out@ =~= rows@);
    out
}

fn clone_group_rows(rows: &Vec<SavedGroupSnapshot>) -> (r: Vec<SavedGroupSnapshot>)
    ensures
        group_row_views(r@) == group_row_views(rows@),
{
    let mut out: Vec<SavedGroupSnapshot> = Vec::new();
    let mut i: usize = 0;
    while i < rows.len()
        invariant
            i <= rows@.len(),
            out@.len() == i,
            forall|j: int| 0 <= j < i ==> (#[trigger] out@[j])@ == rows@[j]@,
        decreases rows@.len() - i,
    {
        out.push(SavedGroupSnapshot {
            id: rows[i].id,
            name: rows[i].name.clone(),
            members: clone_members(&rows[i].members),
        });
        i = i + 1;
    }
    assert(group_row_views(out@) =~= group_row_views(rows@));
    out
}

fn clone_presets(rows: &Vec<LatencyPresetOption>) -> (r: Vec<LatencyPresetOption>)
    ensures
        preset_views(r@) == preset_views(rows@),
{
    let mut out: Vec<LatencyPresetOption> = Vec::new();
    let mut i: usize = 0;
    while i < rows.len()
        invariant
            i <= rows@.len(),
            out@ == rows@.take(i as int),
        decreases rows@.len() - i,
    {
        let reason: Option<UserFacingError> = match &rows[i].disabled_reason {
            Some(error) => Some(error.clone()),
            None => None,
        };
        out.push(LatencyPresetOption { preset: rows[i].preset, disabled_reason: reason });
        i = i + 1;
        assert(out@ =~= rows@.take(i as int));
    }
    assert(out@ =~= rows@);
    out
}

impl Clone for CommandOutcomes {
    fn clone(&self) -> (r: Self)
        ensures
            r@ == self@,
    {
        let mut recent: VecDeque<(u64, Option<CommandFailure>)> = VecDeque::new();
        let mut i: usize = 0;
        while i < self.recent.len()
            invariant
                i <= self.recent@.len(),
                recent@ == self.recent@.take(i as int),
            decreases self.recent@.len() - i,
        {
            let entry: &(u64, Option<CommandFailure>) = &self.recent[i];
            recent.push_back((entry.0, entry.1));
            i = i + 1;
            assert(recent@ =~= self.recent@.take(i as int));
        }
        assert(recent@ =~= self.recent@);
        CommandOutcomes { recent, evicted_through: self.evicted_through }
    }
}

impl CommandOutcomes {
    /// Whether both histories hold the same.
    pub fn same_as(&self, other: &Self) -> (r: bool)
        ensures
            r <==> self@ == other@,
    {
        if self.evicted_through != other.evicted_through || self.recent.len() != other.recent.len() {
            return false;
        }
        let mut i: usize = 0;
        while i < self.recent.len()
            invariant
                i <= self.recent@.len(),
                self.recent@.len() == other.recent@.len(),
                forall|j: int| 0 <= j < i ==> self.recent@[j] == other.recent@[j],
            decreases self.recent@.len() - i,
        {
            let a: &(u64, Option<CommandFailure>) = &self.recent[i];
            let b: &(u64, Option<CommandFailure>) = &other.recent[i];
            let same: bool = a.0 == b.0 && match (a.1, b.1) {
                (None, None) => true,
                (Some(x), Some(y)) => x == y,
                _ => false,
            };
            if !same {
                assert(self.recent@[i as int] != other.recent@[i as int]);
                return false;
            }
            i = i + 1;
        }
        assert(self.recent@ =~= other.recent@);
        true
    }

    /// The retained result of command `id`, the oldest one if several are
    /// retained.
    pub fn result_of(&self, id: u64) -> (r: Option<Option<CommandFailure>>)
        ensures
            r == retained_result(self@.recent, id),
    {
        let mut i: usize = 0;
        assert(self.recent@.skip(0) =~= self.recent@);
        while i < self.recent.len()
            invariant
                i <= self.recent@.len(),
                retained_result(self.recent@, id) == retained_result(self.recent@.skip(i as int), id),
            decreases self.recent@.len() - i,
        {
            let entry: &(u64, Option<CommandFailure>) = &self.recent[i];
            proof {
                assert(self.recent@.skip(i as int)[0] == self.recent@[i as int]);
                assert(self.recent@.skip(i as int).drop_first() =~= self.recent@.skip(i + 1));
            }
            if entry.0 == id {
                return Some(entry.1);
            }
            i = i + 1;
        }
        assert(self.recent@.skip(i as int) =~= Seq::empty());
        None
    }
}

/// The first retained result of command `id`.
pub open spec fn retained_result(
    recent: Seq<(u64, Option<CommandFailure>)>,
    id: u64,
) -> Option<Option<CommandFailure>>
    decreases recent.len(),
{
    if recent.len() == 0 {
        None
    } else if recent[0].0 == id {
        Some(recent[0].1)
    } else {
        retained_result(recent.drop_first(), id)
    }
}

impl Clone for DeviceSnapshot {
    fn clone(&self) -> (r: Self)
        ensures
            r@ == self@,
    {
        DeviceSnapshot {
            command_outcomes: self.command_outcomes.clone(),
            revision: self.revision,
            desired_revision: self.desired_revision,
            discovery: self.discovery,
            receivers: clone_rows(&self.receivers),
            saved_groups: clone_group_rows(&self.saved_groups),
            desired_members: self.desired_members.copied(),
            run_intent: self.run_intent,
            session: self.session.clone(),
            audio_source: self.audio_source.clone(),
            master_volume: self.master_volume,
            receiver_levels: self.receiver_levels.copied(),
            muted: self.muted,
            latency_preset: self.latency_preset,
            latency_presets: clone_presets(&self.latency_presets),
            auto_connect: self.auto_connect,
            persistence: self.persistence,
        }
    }
}

} // verus!
