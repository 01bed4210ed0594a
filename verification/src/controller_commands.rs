//! Command processing: durable changes, lifecycle edges, and batches.
//!
//! A command that has to be written first hands out what it waits for and is
//! continued with the answer; everything else runs at once.

use vstd::prelude::*;

use crate::actor_model::{
    announced, without_group, ActorView, AnnounceView, CommitOutcome, CommitView, ReconcileCause,
};
use crate::batch::PendingBatch;
use crate::batch_model::{
    batch_work, find_group, level_work, levels_with, member_ids, name_taken, run_of, slot_work,
    starts_group, edge_work, CommandInputs, FollowView, RunView, StepView, WorkItem,
};
use crate::calibration::{CalibrationApplyState, CalibrationCommand, CalibrationProfile};
use crate::capture::CaptureControl;
use crate::command::{BackendCommand, CommandConfirmation, CommandEnvelope};
use crate::controller::{ControllerActor, Effect};
use crate::controller_updates::collect_saved_names;
use crate::event::{BackendEvent, DiagnosticPayload, ErrorScope, NoticeCode, Severity};
use crate::idmap::{ascending, ascending_list, IdMap, IdSet};
use crate::ids::ReceiverId;
use crate::listening_check::ListeningTestGuard;
use crate::model::{
    clone_members, group_row_views, group_views, member_views, AudioEndpointPreference,
    CommandFailure, DeviceSnapshot, LatencyPreset, PersistenceSnapshot, RunIntent, SavedGroup, SavedGroupId,
    SavedGroupMember, SavedGroupSnapshot, SnapshotView, UserFacingError, Volume,
};
use crate::persistence::{find_repeat, PersistedStateV1};
use crate::text::{eq_ignore_ascii_case, lemma_listing_projects, sort_for_listing, trim};
use crate::time::Instant;

verus! {

/// What a committed change announces on the snapshot.
#[derive(Debug)]
pub enum Announce {
    /// Nothing beyond the levels.
    Nothing,
    /// New membership, counted as a change or not.
    Members {
        /// Members.
        members: IdSet,
        /// Whether the membership revision advances.
        counts: bool,
    },
    /// New master volume.
    MasterVolume(Volume),
    /// New mute flag.
    Muted(bool),
    /// New endpoint preference.
    Endpoint(AudioEndpointPreference),
    /// New latency preset.
    Latency(LatencyPreset),
    /// New auto-connect policy.
    AutoConnect(bool),
    /// A group was saved.
    GroupSaved(SavedGroupSnapshot),
    /// A group was deleted.
    GroupDeleted(SavedGroupId),
}

impl View for Announce {
    type V = AnnounceView;

    open spec fn view(&self) -> AnnounceView {
        match *self {
            Announce::Nothing => AnnounceView::Nothing,
            Announce::Members { members, counts } => AnnounceView::Members {
                members: members@,
                counts,
            },
            Announce::MasterVolume(volume) => AnnounceView::MasterVolume(volume),
            Announce::Muted(muted) => AnnounceView::Muted(muted),
            Announce::Endpoint(preference) => AnnounceView::Endpoint(preference@),
            Announce::Latency(preset) => AnnounceView::Latency(preset),
            Announce::AutoConnect(enabled) => AnnounceView::AutoConnect(enabled),
            Announce::GroupSaved(group) => AnnounceView::GroupSaved(group@),
            Announce::GroupDeleted(id) => AnnounceView::GroupDeleted(id),
        }
    }
}

/// A persist-before-publish transaction waiting for its write.
#[derive(Debug)]
pub struct DurableCommit {
    /// Command it belongs to.
    pub id: u64,
    /// State to write.
    pub candidate: PersistedStateV1,
    /// What a successful write announces.
    pub announce: Announce,
    /// Whether rows are rebuilt afterwards.
    pub refresh_rows: bool,
    /// Whether saved names are refreshed afterwards.
    pub sync_names: bool,
}

impl View for DurableCommit {
    type V = CommitView;

    open spec fn view(&self) -> CommitView {
        CommitView {
            id: self.id,
            candidate: self.candidate@,
            announce: self.announce@,
            refresh_rows: self.refresh_rows,
            sync_names: self.sync_names,
        }
    }
}

/// What follows a durable change.
#[derive(Debug)]
pub enum FollowUp {
    /// Nothing.
    Nothing,
    /// An applied change owes a membership reconcile.
    Membership,
    /// An applied change owes a volume update.
    Volumes,
    /// An applied change reopens capture on this endpoint.
    Endpoint(AudioEndpointPreference),
    /// An applied change owes a latency reconcile.
    Latency,
    /// A saved group was activated, to be started or not.
    Activation {
        /// Whether to start playback.
        start: bool,
    },
}

impl View for FollowUp {
    type V = FollowView;

    open spec fn view(&self) -> FollowView {
        match *self {
            FollowUp::Nothing => FollowView::Nothing,
            FollowUp::Membership => FollowView::Membership,
            FollowUp::Volumes => FollowView::Volumes,
            FollowUp::Endpoint(preference) => FollowView::Endpoint(preference@),
            FollowUp::Latency => FollowView::Latency,
            FollowUp::Activation { start } => FollowView::Activation { start },
        }
    }
}

/// What a command waits for.
#[derive(Debug)]
pub enum CommandStep {
    /// Nothing; it ran.
    Done,
    /// The write of a durable change.
    Save(DurableCommit, FollowUp),
    /// The write of a calibration section.
    SaveCalibration {
        /// Command.
        id: u64,
        /// Profile to apply once written.
        profile: CalibrationProfile,
        /// Whether the stored section is cleared.
        clearing: bool,
    },
    /// The start of a listening tone.
    StartTone {
        /// Command.
        id: u64,
        /// Configuration the tone is bound to.
        guard: ListeningTestGuard,
    },
}

impl View for CommandStep {
    type V = StepView;

    open spec fn view(&self) -> StepView {
        match *self {
            CommandStep::Done => StepView::Done,
            CommandStep::Save(commit, follow) => StepView::Save(commit@, follow@),
            CommandStep::SaveCalibration { id, profile, clearing } => StepView::SaveCalibration {
                id,
                profile: profile@,
                clearing,
            },
            CommandStep::StartTone { id, guard } => StepView::StartTone { id, guard: guard@ },
        }
    }
}

/// What a batch has decided so far, and what is left of it.
#[derive(Debug)]
pub struct BatchRun<R> {
    /// Cause of the reconcile owed at its end.
    pub reconcile: Option<ReconcileCause>,
    /// Whether volumes have to be forwarded at its end.
    pub volumes_changed: bool,
    /// Whether shutdown was requested.
    pub shutdown: bool,
    /// Receipts of group starts, answered once the batch owns a generation.
    pub group_starts: Vec<R>,
    /// Work not yet begun.
    pub work: Vec<WorkItem<R>>,
}

impl<R> View for BatchRun<R> {
    type V = RunView<R>;

    open spec fn view(&self) -> RunView<R> {
        RunView {
            reconcile: self.reconcile,
            volumes_changed: self.volumes_changed,
            shutdown: self.shutdown,
            group_starts: self.group_starts@,
            work: self.work@,
        }
    }
}

/// The groups without the one with `id`, in order.
fn keep_other_rows(rows: &Vec<SavedGroupSnapshot>, id: SavedGroupId) -> (r: Vec<
    SavedGroupSnapshot,
>)
    ensures
        group_row_views(r@) == without_group(group_row_views(rows@), id),
{
    let ghost views = group_row_views(rows@);
    let mut kept: Vec<SavedGroupSnapshot> = Vec::new();
    let mut i: usize = 0;
    assert(views.take(0) =~= Seq::empty());
    assert(group_row_views(kept@) =~= Seq::empty());
    while i < rows.len()
        invariant
            i <= rows@.len(),
            views == group_row_views(rows@),
            group_row_views(kept@) == without_group(views.take(i as int), id),
        decreases rows@.len() - i,
    {
        let row: &SavedGroupSnapshot = &rows[i];
        proof {
            assert(views.take(i + 1).drop_last() =~= views.take(i as int));
            assert(views.take(i + 1).last() == row@);
        }
        if row.id != id {
            let ghost before = kept@;
            kept.push(SavedGroupSnapshot {
                id: row.id,
                name: row.name.clone(),
                members: clone_members(&row.members),
            });
            assert(group_row_views(kept@) =~= group_row_views(before).push(row@));
        }
        i = i + 1;
    }
    assert(views.take(views.len() as int) =~= views);
    kept
}

/// The groups without the one with `id`, in order.
fn keep_other_groups(groups: &Vec<SavedGroup>, id: SavedGroupId) -> (r: Vec<SavedGroup>)
    ensures
        group_views(r@) == without_group(group_views(groups@), id),
{
    let ghost views = group_views(groups@);
    let mut kept: Vec<SavedGroup> = Vec::new();
    let mut i: usize = 0;
    assert(views.take(0) =~= Seq::empty());
    assert(group_views(kept@) =~= Seq::empty());
    while i < groups.len()
        invariant
            i <= groups@.len(),
            views == group_views(groups@),
            group_views(kept@) == without_group(views.take(i as int), id),
        decreases groups@.len() - i,
    {
        let group: &SavedGroup = &groups[i];
        proof {
            assert(views.take(i + 1).drop_last() =~= views.take(i as int));
            assert(views.take(i + 1).last() == group@);
        }
        if group.id != id {
            let ghost before = kept@;
            kept.push(group.clone());
            assert(group_views(kept@) =~= group_views(before).push(group@));
        }
        i = i + 1;
    }
    assert(views.take(views.len() as int) =~= views);
    kept
}

/// Applies an announcement to the snapshot.
fn announce_on(snapshot: &mut DeviceSnapshot, announce: Announce)
    ensures
        final(snapshot)@ == announced(old(snapshot)@, announce@),
        final(snapshot).revision == old(snapshot).revision,
        final(snapshot).run_intent == old(snapshot).run_intent,
{
    match announce {
        Announce::Nothing => {},
        Announce::Members { members, counts } => {
            snapshot.desired_members = members;
            if counts {
                snapshot.desired_revision = snapshot.desired_revision.saturating_add(1);
            }
        },
        Announce::MasterVolume(volume) => {
            snapshot.master_volume = volume;
        },
        Announce::Muted(muted) => {
            snapshot.muted = muted;
        },
        Announce::Endpoint(preference) => {
            snapshot.audio_source.preference = preference;
        },
        Announce::Latency(preset) => {
            snapshot.latency_preset = preset;
        },
        Announce::AutoConnect(enabled) => {
            snapshot.auto_connect = enabled;
        },
        Announce::GroupSaved(group) => {
            let ghost view = group@;
            let mut rows: Vec<SavedGroupSnapshot> = keep_other_rows(
                &snapshot.saved_groups,
                group.id,
            );
            let ghost kept = rows@;
            rows.push(group);
            proof {
                assert(group_row_views(rows@) =~= group_row_views(kept).push(view));
            }
            snapshot.saved_groups = rows;
        },
        Announce::GroupDeleted(id) => {
            snapshot.saved_groups = keep_other_rows(&snapshot.saved_groups, id);
        },
    }
}

impl ControllerActor {
    /// Records a command's success and reports it.
    pub fn complete(&mut self, id: u64)
        ensures
            final(self)@ == old(self)@.completed(id),
            final(self).snapshot.revision == old(self).snapshot.revision,
            final(self).snapshot.run_intent == old(self).snapshot.run_intent,
            final(self).policy == old(self).policy,
    {
        self.snapshot.command_outcomes.record(id, None);
        self.push_effect(Effect::Event(BackendEvent::CommandCompleted { id }));
        self.emit_diagnostics(
            None,
            Severity::Info,
            DiagnosticPayload::CommandResult { id, error: None },
        );
    }

    /// Records a command's rejection and reports it.
    pub fn fail(&mut self, id: u64, message: &str)
        ensures
            final(self)@ == old(self)@.rejecting(id, message@),
            final(self).snapshot.revision == old(self).snapshot.revision,
            final(self).snapshot.run_intent == old(self).snapshot.run_intent,
            final(self).policy == old(self).policy,
    {
        self.fail_with_kind(id, message, CommandFailure::Rejected);
    }

    /// Records a command's failure and reports it.
    pub fn fail_with_kind(&mut self, id: u64, message: &str, kind: CommandFailure)
        ensures
            final(self)@ == old(self)@.failing(id, message@, kind),
            final(self).snapshot.revision == old(self).snapshot.revision,
            final(self).snapshot.run_intent == old(self).snapshot.run_intent,
            final(self).policy == old(self).policy,
    {
        let error: UserFacingError = UserFacingError::new(message);
        self.snapshot.command_outcomes.record(id, Some(kind));
        self.push_effect(Effect::Event(BackendEvent::CommandFailed { id, error: error.clone() }));
        self.emit_diagnostics(
            None,
            Severity::Warning,
            DiagnosticPayload::CommandResult { id, error: Some(error) },
        );
    }

    /// Reports a failed save. The feeds carry a summary only, so no user path
    /// ever crosses them.
    pub fn note_persistence_failure(&mut self, id: u64)
        ensures
            final(self)@ == old(self)@.save_failed(id),
            final(self).snapshot.revision == old(self).snapshot.revision,
            final(self).snapshot.run_intent == old(self).snapshot.run_intent,
            final(self).policy == old(self).policy,
    {
        proof {
            reveal(ActorView::save_failed);
        }
        self.snapshot.persistence = PersistenceSnapshot::Error;
        self.push_effect(Effect::Event(BackendEvent::Notice {
            severity: Severity::Error,
            code: NoticeCode::PersistenceWrite,
            scope: ErrorScope::Persistence,
            message: "saving device state failed; the change was not applied".to_owned(),
        }));
        self.fail_with_kind(
            id,
            "the change could not be saved to disk",
            CommandFailure::Persistence,
        );
        self.emit_diagnostics(
            None,
            Severity::Error,
            DiagnosticPayload::Persistence { outcome: PersistenceSnapshot::Error },
        );
    }

    /// Makes `candidate` the durable state and announces the change.
    fn store_change(&mut self, candidate: PersistedStateV1, announce: Announce)
        ensures
            final(self)@ == old(self)@.change_stored(candidate@, announce@),
            final(self).snapshot.revision == old(self).snapshot.revision,
            final(self).snapshot.run_intent == old(self).snapshot.run_intent,
            final(self).policy == old(self).policy,
    {
        proof {
            reveal(ActorView::change_stored);
        }
        self.snapshot.persistence = PersistenceSnapshot::Healthy;
        self.snapshot.receiver_levels = candidate.receiver_levels.copied();
        self.persisted = candidate;
        announce_on(&mut self.snapshot, announce);
    }

    /// Refreshes the last-known names from the stored groups.
    pub fn sync_saved_names(&mut self)
        ensures
            final(self)@ == old(self)@.names_synced(),
            final(self).snapshot == old(self).snapshot,
            final(self).policy == old(self).policy,
    {
        self.saved_names = collect_saved_names(&self.persisted.saved_groups);
    }

    /// Rebuilds the snapshot's rows from the machines, without publishing.
    fn rebuild_receiver_rows(&mut self)
        ensures
            final(self)@ == old(self)@.rows_rebuilt(),
            final(self).snapshot.revision == old(self).snapshot.revision,
            final(self).snapshot.run_intent == old(self).snapshot.run_intent,
            final(self).policy == old(self).policy,
    {
        proof {
            reveal(ActorView::rows_rebuilt);
        }
        let ghost start = self@;
        self.realign();
        proof {
            assert(self@.machines.dom() =~= self@.scope());
        }
        let rows = self.build_rows();
        let waiting: IdSet = self.machines_where(true);
        let ghost aligned = self@;
        self.snapshot.receivers = rows;
        self.snapshot.session.retry_waiting = waiting;
        proof {
            assert(self@.snapshot =~= aligned.with_rows(start.snapshot));
        }
    }

    /// Ends the transaction with the answer of its write.
    ///
    /// A successful write commits the durable value, announces it, and
    /// completes the command; a failed one keeps the previous durable value,
    /// flags the persistence error, and fails the command. Either way exactly
    /// one publication leaves the controller.
    pub fn finish_commit(&mut self, commit: DurableCommit, saved: bool) -> (r: CommitOutcome)
        requires
            old(self).snapshot.revision < u64::MAX,
        ensures
            final(self)@ == old(self)@.committed(commit@, saved),
            r == (if saved { CommitOutcome::Applied } else { CommitOutcome::Failed }),
            final(self).snapshot.revision == old(self).snapshot.revision + 1,
            final(self).snapshot.run_intent == old(self).snapshot.run_intent,
            final(self).policy == old(self).policy,
    {
        proof {
            reveal(ActorView::committed);
        }
        if !saved {
            self.note_persistence_failure(commit.id);
            self.publish();
            return CommitOutcome::Failed;
        }
        let DurableCommit { id, candidate, announce, refresh_rows, sync_names } = commit;
        self.store_change(candidate, announce);
        if refresh_rows {
            self.rebuild_receiver_rows();
        }
        if sync_names {
            self.sync_saved_names();
        }
        self.complete(id);
        self.publish();
        CommitOutcome::Applied
    }

    /// Starts playback of an activated group, unless it already runs.
    fn start_activated(&mut self) -> (r: bool)
        requires
            old(self).snapshot.revision < u64::MAX,
        ensures
            r == (old(self).snapshot.run_intent != RunIntent::Running),
            final(self)@ == (if r {
                ActorView {
                    snapshot: SnapshotView { run_intent: RunIntent::Running, ..old(self)@.snapshot },
                    ..old(self)@
                }.published()
            } else {
                old(self)@
            }),
            final(self).snapshot.revision <= old(self).snapshot.revision + 1,
            final(self).policy == old(self).policy,
    {
        if self.snapshot.run_intent == RunIntent::Running {
            return false;
        }
        self.snapshot.run_intent = RunIntent::Running;
        self.publish();
        true
    }

    /// Applies what follows a durable change that ended with `outcome`.
    ///
    /// In-memory effects that belong to the same intent run when nothing
    /// needed writing, but not when a write was attempted and failed.
    #[verifier::rlimit(40)]
    pub fn settle<R>(&mut self, run: &mut BatchRun<R>, follow: FollowUp, outcome: CommitOutcome)
        requires
            old(self).snapshot.revision < u64::MAX,
        ensures
            (final(self)@, final(run)@) == old(self)@.settled(old(run)@, follow@, outcome),
            final(self).snapshot.revision <= old(self).snapshot.revision + 1,
            final(self).policy == old(self).policy,
    {
        proof {
            reveal(ActorView::settled);
        }
        let applied: bool = outcome.applied();
        match follow {
            FollowUp::Nothing => {},
            FollowUp::Membership => {
                if applied {
                    run.reconcile = Some(ReconcileCause::Membership);
                }
            },
            FollowUp::Volumes => {
                run.volumes_changed = run.volumes_changed || applied;
            },
            FollowUp::Endpoint(preference) => {
                if applied {
                    self.push_effect(Effect::ScanEndpoints);
                    self.push_effect(Effect::CapturePreference(preference));
                    self.push_effect(Effect::Capture(CaptureControl::RequestEndpointChange));
                }
            },
            FollowUp::Latency => {
                if applied {
                    run.reconcile = Some(ReconcileCause::LatencyPreset);
                }
            },
            FollowUp::Activation { start } => {
                if !start && outcome.state_is_intended() {
                    self.startup_auto_connect_until = None;
                }
                let mut committed: bool = applied;
                if start && outcome.state_is_intended() {
                    let started: bool = self.start_activated();
                    committed = committed || started;
                }
                if committed && run.reconcile.is_none() {
                    run.reconcile = Some(ReconcileCause::SavedGroup);
                }
            },
        }
    }

    /// Opens the persist-before-publish transaction of one durable command.
    ///
    /// An invalid candidate is rejected and an unchanged one is an accepted
    /// no-op; any other one is handed out to be written.
    fn commit_durable<R>(
        &mut self,
        run: &mut BatchRun<R>,
        commit: DurableCommit,
        follow: FollowUp,
    ) -> (r: CommandStep)
        requires
            old(self).snapshot.revision < u64::MAX,
        ensures
            (final(self)@, final(run)@, r@) == old(self)@.proposed(old(run)@, commit@, follow@),
            final(self).snapshot.revision <= old(self).snapshot.revision + 1,
            final(self).policy == old(self).policy,
    {
        proof {
            reveal(ActorView::proposed);
        }
        if commit.candidate.validate().is_err() {
            self.fail(commit.id, "the requested change could not be applied");
            self.settle(run, follow, CommitOutcome::Rejected);
            return CommandStep::Done;
        }
        if commit.candidate.same_as(&self.persisted) {
            self.complete(commit.id);
            self.settle(run, follow, CommitOutcome::Unchanged);
            return CommandStep::Done;
        }
        CommandStep::Save(commit, follow)
    }

    /// Continues a durable change with the answer of its write.
    pub fn answer_save<R>(
        &mut self,
        run: &mut BatchRun<R>,
        commit: DurableCommit,
        follow: FollowUp,
        saved: bool,
    )
        requires
            old(self).snapshot.revision < u64::MAX - 1,
        ensures
            (final(self)@, final(run)@) == old(self)@.save_answered(
                old(run)@,
                commit@,
                follow@,
                saved,
            ),
            final(self).snapshot.revision <= old(self).snapshot.revision + 2,
            final(self).policy == old(self).policy,
    {
        proof {
            reveal(ActorView::save_answered);
        }
        let outcome: CommitOutcome = self.finish_commit(commit, saved);
        self.settle(run, follow, outcome);
    }
}

/// Position of the first group with `id`.
fn position_of_group(groups: &Vec<SavedGroup>, id: SavedGroupId) -> (r: Option<usize>)
    ensures
        match r {
            Some(i) => i < groups@.len() && find_group(group_views(groups@), id) == Some(
                groups@[i as int]@,
            ),
            None => find_group(group_views(groups@), id) is None,
        },
{
    let ghost views = group_views(groups@);
    let mut i: usize = 0;
    assert(views.skip(0) =~= views);
    while i < groups.len()
        invariant
            i <= groups@.len(),
            views == group_views(groups@),
            find_group(views, id) == find_group(views.skip(i as int), id),
        decreases groups@.len() - i,
    {
        proof {
            assert(views.skip(i as int)[0] == groups@[i as int]@);
            assert(views.skip(i as int).drop_first() =~= views.skip(i + 1));
        }
        if groups[i].id == id {
            return Some(i);
        }
        i = i + 1;
    }
    assert(views.skip(i as int) =~= Seq::empty());
    None
}

/// Whether a group other than the edited one already has this name.
fn is_name_taken(groups: &Vec<SavedGroup>, name: &str, edited: Option<SavedGroupId>) -> (r: bool)
    ensures
        r == name_taken(group_views(groups@), name@, edited),
{
    let ghost views = group_views(groups@);
    let mut i: usize = 0;
    while i < groups.len()
        invariant
            i <= groups@.len(),
            views == group_views(groups@),
            forall|k: int| 0 <= k < i ==> !(crate::text::same_ignoring_ascii_case(
                (#[trigger] views[k]).name,
                name@,
            ) && edited != Some(views[k].id)),
        decreases groups@.len() - i,
    {
        assert(views[i as int] == groups@[i as int]@);
        let other: bool = match edited {
            Some(id) => groups[i].id != id,
            None => true,
        };
        if other && eq_ignore_ascii_case(&groups[i].name, name) {
            return true;
        }
        i = i + 1;
    }
    false
}

/// The receivers of a member list.
fn ids_of_members(members: &Vec<SavedGroupMember>) -> (r: IdSet)
    ensures
        r@ == member_ids(member_views(members@)),
{
    let ghost views = member_views(members@);
    let mut ids: IdSet = IdSet::new();
    let mut i: usize = 0;
    while i < members.len()
        invariant
            i <= members@.len(),
            views == member_views(members@),
            forall|id: ReceiverId| #[trigger] ids@.contains(id) <==> exists|k: int|
                0 <= k < i && (#[trigger] views[k]).receiver == id,
        decreases members@.len() - i,
    {
        let ghost before = ids@;
        ids.insert(members[i].receiver);
        proof {
            assert(views[i as int].receiver == members@[i as int].receiver);
            assert forall|id: ReceiverId| #[trigger] ids@.contains(id) <==> exists|k: int|
                0 <= k < i + 1 && (#[trigger] views[k]).receiver == id by {
                if before.contains(id) {
                    let k = choose|k: int| 0 <= k < i && (#[trigger] views[k]).receiver == id;
                    assert(0 <= k < i + 1 && views[k].receiver == id);
                }
            }
        }
        i = i + 1;
    }
    assert(ids@ =~= member_ids(views));
    ids
}

/// Writes the levels of a member list over `levels`, in order.
fn overlay_levels(levels: IdMap<Volume>, members: &Vec<SavedGroupMember>) -> (r: IdMap<Volume>)
    ensures
        r@ == levels_with(levels@, member_views(members@)),
{
    let ghost start = levels@;
    let ghost views = member_views(members@);
    let mut levels: IdMap<Volume> = levels;
    let mut i: usize = 0;
    assert(views.take(0) =~= Seq::empty());
    while i < members.len()
        invariant
            i <= members@.len(),
            views == member_views(members@),
            levels@ == levels_with(start, views.take(i as int)),
        decreases members@.len() - i,
    {
        proof {
            assert(views.take(i + 1).drop_last() =~= views.take(i as int));
            assert(views.take(i + 1).last() == members@[i as int]@);
        }
        levels.insert(members[i].receiver, members[i].level);
        i = i + 1;
    }
    assert(views.take(views.len() as int) =~= views);
    levels
}

impl ControllerActor {
    /// Replaces the desired membership.
    fn replace_members<R>(&mut self, run: &mut BatchRun<R>, id: u64, members: IdSet) -> (r: CommandStep)
        requires
            old(self).snapshot.revision < u64::MAX,
        ensures
            (final(self)@, final(run)@, r@) == old(self)@.members_requested(
                old(run)@,
                id,
                members@,
            ),
            final(self).snapshot.revision <= old(self).snapshot.revision + 1,
            final(self).policy == old(self).policy,
    {
        if members.same_as(&self.persisted.last_desired_members) {
            self.complete(id);
            return CommandStep::Done;
        }
        let mut candidate: PersistedStateV1 = self.persisted.clone();
        candidate.last_desired_members = members.copied();
        self.commit_durable(
            run,
            DurableCommit {
                id,
                candidate,
                announce: Announce::Members { members, counts: true },
                refresh_rows: true,
                sync_names: false,
            },
            FollowUp::Membership,
        )
    }

    /// Sets the run intent, which is deliberately not durable: every launch
    /// starts stopped unless auto-connect applies.
    fn set_intent<R>(&mut self, run: &mut BatchRun<R>, id: u64, intent: RunIntent)
        requires
            old(self).snapshot.revision < u64::MAX,
        ensures
            (final(self)@, final(run)@, StepView::Done) == old(self)@.intent_requested(
                old(run)@,
                id,
                intent,
            ),
            final(self).snapshot.revision <= old(self).snapshot.revision + 1,
            final(self).policy == old(self).policy,
    {
        proof {
            reveal(ActorView::intent_requested);
        }
        self.startup_auto_connect_until = None;
        if intent == self.snapshot.run_intent {
            self.complete(id);
            return;
        }
        self.snapshot.run_intent = intent;
        self.complete(id);
        self.publish();
        run.reconcile = Some(ReconcileCause::Membership);
    }

    /// Proposes a change that needs neither rows nor names afterwards.
    fn begin_scalar<R>(
        &mut self,
        run: &mut BatchRun<R>,
        id: u64,
        candidate: PersistedStateV1,
        announce: Announce,
        follow: FollowUp,
    ) -> (r: CommandStep)
        requires
            old(self).snapshot.revision < u64::MAX,
        ensures
            (final(self)@, final(run)@, r@) == old(self)@.scalar_proposed(
                old(run)@,
                id,
                candidate@,
                announce@,
                follow@,
            ),
            final(self).snapshot.revision <= old(self).snapshot.revision + 1,
            final(self).policy == old(self).policy,
    {
        self.commit_durable(
            run,
            DurableCommit { id, candidate, announce, refresh_rows: false, sync_names: false },
            follow,
        )
    }

    /// Creates or updates a saved group in one durable step.
    #[verifier::rlimit(40)]
    fn handle_save_group<R>(
        &mut self,
        run: &mut BatchRun<R>,
        id: u64,
        edited: Option<SavedGroupId>,
        fresh: SavedGroupId,
        name: String,
        members: Vec<SavedGroupMember>,
    ) -> (r: CommandStep)
        requires
            old(self).snapshot.revision < u64::MAX,
        ensures
            (final(self)@, final(run)@, r@) == old(self)@.group_save_requested(
                old(run)@,
                id,
                edited,
                fresh,
                name@,
                member_views(members@),
            ),
            final(self).snapshot.revision <= old(self).snapshot.revision + 1,
            final(self).policy == old(self).policy,
    {
        let name: String = trim(&name);
        let len: usize = name.as_str().unicode_len();
        if len == 0 || len > 64 {
            self.fail(id, "group names need 1-64 characters");
            return CommandStep::Done;
        }
        if is_name_taken(&self.persisted.saved_groups, &name, edited) {
            self.fail(id, "a group with that name already exists");
            return CommandStep::Done;
        }
        if find_repeat(&members).is_some() {
            self.fail(id, "each receiver may appear once per group");
            return CommandStep::Done;
        }
        if members.len() == 0 {
            self.fail(id, "a saved group needs at least one receiver");
            return CommandStep::Done;
        }
        let resolved: SavedGroupId = match edited {
            Some(held) => held,
            None => fresh,
        };
        let stored = SavedGroup {
            id: resolved,
            name: name.clone(),
            members: clone_members(&members),
        };
        let shown = SavedGroupSnapshot { id: resolved, name, members };
        let ghost view = stored@;
        let mut groups: Vec<SavedGroup> = keep_other_groups(&self.persisted.saved_groups, resolved);
        let ghost kept = groups@;
        groups.push(stored);
        let ghost unsorted = groups@;
        sort_for_listing(&mut groups);
        proof {
            lemma_listing_projects(unsorted, |group: SavedGroup| group@);
            assert(unsorted.map_values(|group: SavedGroup| group@) =~= group_views(kept).push(view));
            assert(groups@.map_values(|group: SavedGroup| group@) =~= group_views(groups@));
        }
        let mut candidate: PersistedStateV1 = self.persisted.clone();
        candidate.saved_groups = groups;
        self.commit_durable(
            run,
            DurableCommit {
                id,
                candidate,
                announce: Announce::GroupSaved(shown),
                refresh_rows: false,
                sync_names: true,
            },
            FollowUp::Nothing,
        )
    }

    /// Deletes one saved group; desired membership stays untouched.
    fn handle_delete_group<R>(
        &mut self,
        run: &mut BatchRun<R>,
        id: u64,
        group: SavedGroupId,
    ) -> (r: CommandStep)
        requires
            old(self).snapshot.revision < u64::MAX,
        ensures
            (final(self)@, final(run)@, r@) == old(self)@.group_delete_requested(
                old(run)@,
                id,
                group,
            ),
            final(self).snapshot.revision <= old(self).snapshot.revision + 1,
            final(self).policy == old(self).policy,
    {
        if position_of_group(&self.persisted.saved_groups, group).is_none() {
            self.complete(id);
            return CommandStep::Done;
        }
        let mut candidate: PersistedStateV1 = self.persisted.clone();
        candidate.saved_groups = keep_other_groups(&self.persisted.saved_groups, group);
        self.commit_durable(
            run,
            DurableCommit {
                id,
                candidate,
                announce: Announce::GroupDeleted(group),
                refresh_rows: false,
                sync_names: true,
            },
            FollowUp::Nothing,
        )
    }

    /// Loads a saved group as the desired set: members and levels are written
    /// as one durable candidate.
    fn handle_activate_group<R>(
        &mut self,
        run: &mut BatchRun<R>,
        id: u64,
        group: SavedGroupId,
        start: bool,
    ) -> (r: CommandStep)
        requires
            old(self).snapshot.revision < u64::MAX,
        ensures
            (final(self)@, final(run)@, r@) == old(self)@.activation_requested(
                old(run)@,
                id,
                group,
                start,
            ),
            final(self).snapshot.revision <= old(self).snapshot.revision + 1,
            final(self).policy == old(self).policy,
    {
        let position: usize = match position_of_group(&self.persisted.saved_groups, group) {
            Some(position) => position,
            None => {
                self.fail(id, "that saved group no longer exists");
                return CommandStep::Done;
            },
        };
        let found: &SavedGroup = &self.persisted.saved_groups[position];
        let members: IdSet = ids_of_members(&found.members);
        let levels: IdMap<Volume> = overlay_levels(
            self.persisted.receiver_levels.copied(),
            &found.members,
        );
        let counts: bool = !members.same_as(&self.persisted.last_desired_members);
        let mut candidate: PersistedStateV1 = self.persisted.clone();
        candidate.last_desired_members = members.copied();
        candidate.receiver_levels = levels;
        self.commit_durable(
            run,
            DurableCommit {
                id,
                candidate,
                announce: Announce::Members { members, counts },
                refresh_rows: true,
                sync_names: false,
            },
            FollowUp::Activation { start },
        )
    }
}

impl ControllerActor {
    /// Refuses a calibration command.
    fn refuse_calibration(&mut self, id: u64, message: &str)
        ensures
            final(self)@ == old(self)@.calibration_refused(id, message@),
            final(self).snapshot.revision == old(self).snapshot.revision,
            final(self).policy == old(self).policy,
    {
        self.fail(id, message);
        self.note_calibration_state(CalibrationApplyState::Failed);
    }

    /// Applies or clears the manual calibration.
    ///
    /// A clear is the recovery action and carries no profile to judge, so it
    /// is never withheld because of the selection's size.
    fn handle_calibration(
        &mut self,
        id: u64,
        expected_revision: u64,
        profile: CalibrationProfile,
        clearing: bool,
        fits: bool,
    ) -> (r: CommandStep)
        ensures
            (final(self)@, r@) == old(self)@.calibration_requested(
                id,
                expected_revision,
                profile@,
                clearing,
                fits,
            ),
            final(self).snapshot.revision == old(self).snapshot.revision,
            final(self).policy == old(self).policy,
    {
        if expected_revision != self.snapshot.desired_revision {
            self.refuse_calibration(
                id,
                "the receiver selection changed while calibrating; review it and apply again",
            );
            return CommandStep::Done;
        }
        if !clearing {
            if self.snapshot.desired_members.len() < 2 {
                self.refuse_calibration(id, "calibration needs at least two selected receivers");
                return CommandStep::Done;
            }
            if !fits {
                self.refuse_calibration(id, "the calibration values could not be applied");
                return CommandStep::Done;
            }
        }
        CommandStep::SaveCalibration { id, profile, clearing }
    }

    /// Rejects or accepts the shared alignment click test, which changes no
    /// setup input and costs no restart.
    fn handle_calibration_click_test(&mut self, id: u64)
        ensures
            final(self)@ == old(self)@.clicks_requested(id),
            final(self).snapshot.revision == old(self).snapshot.revision,
            final(self).policy == old(self).policy,
    {
        if self.active.len() < 2 {
            self.fail(id, "the alignment test needs at least two connected receivers");
            return;
        }
        self.push_effect(Effect::InjectClicks);
        self.complete(id);
    }

    /// Continues a calibration with the answer of its write.
    ///
    /// An alignment that could not be written does not reach the speakers.
    pub fn answer_calibration<R>(
        &mut self,
        run: &mut BatchRun<R>,
        id: u64,
        profile: CalibrationProfile,
        saved: bool,
    )
        requires
            old(self).snapshot.revision < u64::MAX,
        ensures
            (final(self)@, final(run)@) == old(self)@.calibration_answered(
                old(run)@,
                id,
                profile@,
                saved,
            ),
            final(self).snapshot.revision <= old(self).snapshot.revision + 1,
            final(self).policy == old(self).policy,
    {
        proof {
            reveal(ActorView::calibration_answered);
        }
        if !saved {
            self.note_persistence_failure(id);
            self.note_calibration_state(CalibrationApplyState::Failed);
            self.publish();
            return;
        }
        self.calibration = profile;
        self.snapshot.persistence = PersistenceSnapshot::Healthy;
        self.complete(id);
        self.note_calibration_state(CalibrationApplyState::PendingRestart);
        run.reconcile = Some(ReconcileCause::CalibrationChanged);
    }

    /// Checks a listening test against the exact configuration it was
    /// authorized for.
    fn handle_listening_test(&mut self, id: u64, guard: ListeningTestGuard) -> (r: CommandStep)
        ensures
            (final(self)@, r@) == old(self)@.tone_requested(id, guard@),
            final(self).snapshot.revision == old(self).snapshot.revision,
            final(self).policy == old(self).policy,
    {
        let used: bool = match self.last_listening_test_generation {
            Some(generation) => generation == guard.generation(),
            None => false,
        };
        if used || !guard.matches(&self.snapshot) {
            self.fail(id, "the listening test configuration changed or was already used");
            return CommandStep::Done;
        }
        CommandStep::StartTone { id, guard }
    }

    /// Continues a listening test with the audio source's answer.
    pub fn answer_tone(&mut self, id: u64, guard: ListeningTestGuard, started: bool)
        ensures
            final(self)@ == old(self)@.tone_answered(id, guard@, started),
            final(self).snapshot.revision == old(self).snapshot.revision,
            final(self).policy == old(self).policy,
    {
        if started {
            self.last_listening_test_generation = Some(guard.generation());
            self.listening_test = Some(guard);
            self.complete(id);
        } else {
            self.fail(id, "the listening test audio source is busy");
        }
    }

    /// Cancels a playing tone; nothing plays on once the controller is gone.
    pub fn silence_tone(&mut self)
        ensures
            final(self)@ == old(self)@.tone_silenced(),
            final(self).snapshot.revision == old(self).snapshot.revision,
            final(self).policy == old(self).policy,
    {
        if self.listening_test.is_some() {
            self.listening_test = None;
            self.push_effect(Effect::CancelTone);
        }
    }

    /// Cancels a playing tone and accepts the shutdown.
    fn handle_shutdown(&mut self, id: u64)
        ensures
            final(self)@ == old(self)@.shutdown_requested(id),
            final(self).snapshot.revision == old(self).snapshot.revision,
            final(self).policy == old(self).policy,
    {
        self.silence_tone();
        self.complete(id);
    }

    /// Clears exactly one receiver's backoff; the reconciliation that follows
    /// produces no additional restart.
    fn handle_retry(&mut self, id: u64, receiver: ReceiverId)
        requires
            old(self).snapshot.revision < u64::MAX,
        ensures
            final(self)@ == old(self)@.retried(receiver).rows_republished().completed(id),
            final(self).snapshot.revision <= old(self).snapshot.revision + 1,
            final(self).policy == old(self).policy,
    {
        self.release_receiver(receiver);
        self.republish_rows();
        self.complete(id);
    }

    /// Sets the master volume.
    fn begin_master<R>(&mut self, run: &mut BatchRun<R>, id: u64, volume: Volume) -> (r: CommandStep)
        requires
            old(self).snapshot.revision < u64::MAX,
        ensures
            (final(self)@, final(run)@, r@) == old(self)@.setting_begun(
                old(run)@,
                id,
                BackendCommand::SetMasterVolume(volume),
            ),
            final(self).snapshot.revision <= old(self).snapshot.revision + 1,
            final(self).policy == old(self).policy,
    {
        if volume == self.persisted.master_volume {
            self.complete(id);
            return CommandStep::Done;
        }
        let mut candidate: PersistedStateV1 = self.persisted.clone();
        candidate.master_volume = volume;
        self.begin_scalar(run, id, candidate, Announce::MasterVolume(volume), FollowUp::Volumes)
    }

    /// Mutes or unmutes.
    fn begin_muted<R>(&mut self, run: &mut BatchRun<R>, id: u64, muted: bool) -> (r: CommandStep)
        requires
            old(self).snapshot.revision < u64::MAX,
        ensures
            (final(self)@, final(run)@, r@) == old(self)@.setting_begun(
                old(run)@,
                id,
                BackendCommand::SetMuted(muted),
            ),
            final(self).snapshot.revision <= old(self).snapshot.revision + 1,
            final(self).policy == old(self).policy,
    {
        if muted == self.persisted.muted {
            self.complete(id);
            return CommandStep::Done;
        }
        let mut candidate: PersistedStateV1 = self.persisted.clone();
        candidate.muted = muted;
        self.begin_scalar(run, id, candidate, Announce::Muted(muted), FollowUp::Volumes)
    }

    /// Selects the capture endpoint.
    fn begin_endpoint<R>(
        &mut self,
        run: &mut BatchRun<R>,
        id: u64,
        preference: AudioEndpointPreference,
    ) -> (r: CommandStep)
        requires
            old(self).snapshot.revision < u64::MAX,
        ensures
            (final(self)@, final(run)@, r@) == old(self)@.setting_begun(
                old(run)@,
                id,
                BackendCommand::SetAudioEndpoint(preference),
            ),
            final(self).snapshot.revision <= old(self).snapshot.revision + 1,
            final(self).policy == old(self).policy,
    {
        if preference.same_as(&self.persisted.audio_endpoint) {
            self.complete(id);
            return CommandStep::Done;
        }
        let mut candidate: PersistedStateV1 = self.persisted.clone();
        candidate.audio_endpoint = preference.clone();
        let announce: Announce = Announce::Endpoint(preference.clone());
        self.begin_scalar(run, id, candidate, announce, FollowUp::Endpoint(preference))
    }

    /// Applies a latency preset; a gated one is refused with the text its row
    /// carries.
    fn begin_latency<R>(
        &mut self,
        run: &mut BatchRun<R>,
        id: u64,
        preset: LatencyPreset,
    ) -> (r: CommandStep)
        requires
            old(self).snapshot.revision < u64::MAX,
        ensures
            (final(self)@, final(run)@, r@) == old(self)@.setting_begun(
                old(run)@,
                id,
                BackendCommand::SetLatencyPreset(preset),
            ),
            final(self).snapshot.revision <= old(self).snapshot.revision + 1,
            final(self).policy == old(self).policy,
    {
        if let Some(reason) = preset.disabled_reason() {
            self.fail(id, reason.as_str());
            return CommandStep::Done;
        }
        if preset == self.persisted.latency_preset {
            self.complete(id);
            return CommandStep::Done;
        }
        let mut candidate: PersistedStateV1 = self.persisted.clone();
        candidate.latency_preset = preset;
        self.begin_scalar(run, id, candidate, Announce::Latency(preset), FollowUp::Latency)
    }

    /// Sets the auto-connect policy of later launches. Enabling it does not
    /// arm the running process, and disabling it cancels a start this launch
    /// has not spent yet.
    fn begin_auto_connect<R>(
        &mut self,
        run: &mut BatchRun<R>,
        id: u64,
        enabled: bool,
    ) -> (r: CommandStep)
        requires
            old(self).snapshot.revision < u64::MAX,
        ensures
            (final(self)@, final(run)@, r@) == old(self)@.setting_begun(
                old(run)@,
                id,
                BackendCommand::SetAutoConnect(enabled),
            ),
            final(self).snapshot.revision <= old(self).snapshot.revision + 1,
            final(self).policy == old(self).policy,
    {
        if !enabled {
            self.startup_auto_connect_until = None;
        }
        if enabled == self.persisted.auto_connect {
            self.complete(id);
            return CommandStep::Done;
        }
        let mut candidate: PersistedStateV1 = self.persisted.clone();
        candidate.auto_connect = enabled;
        self.begin_scalar(run, id, candidate, Announce::AutoConnect(enabled), FollowUp::Nothing)
    }

    /// Sets one receiver's level.
    fn begin_level<R>(
        &mut self,
        run: &mut BatchRun<R>,
        id: u64,
        receiver: ReceiverId,
        level: Volume,
    ) -> (r: CommandStep)
        requires
            old(self).snapshot.revision < u64::MAX,
        ensures
            (final(self)@, final(run)@, r@) == old(self)@.setting_begun(
                old(run)@,
                id,
                BackendCommand::SetReceiverLevel { receiver, level },
            ),
            final(self).snapshot.revision <= old(self).snapshot.revision + 1,
            final(self).policy == old(self).policy,
    {
        let held: bool = match self.persisted.receiver_levels.get(receiver) {
            Some(current) => *current == level,
            None => false,
        };
        if held {
            self.complete(id);
            return CommandStep::Done;
        }
        let mut candidate: PersistedStateV1 = self.persisted.clone();
        let mut levels: IdMap<Volume> = self.persisted.receiver_levels.copied();
        levels.insert(receiver, level);
        candidate.receiver_levels = levels;
        self.begin_scalar(run, id, candidate, Announce::Nothing, FollowUp::Volumes)
    }

    /// Begins a setting.
    fn begin_setting<R>(
        &mut self,
        run: &mut BatchRun<R>,
        id: u64,
        command: BackendCommand,
    ) -> (r: CommandStep)
        requires
            old(self).snapshot.revision < u64::MAX,
        ensures
            (final(self)@, final(run)@, r@) == old(self)@.setting_begun(old(run)@, id, command),
            final(self).snapshot.revision <= old(self).snapshot.revision + 1,
            final(self).policy == old(self).policy,
    {
        match command {
            BackendCommand::SetDesiredMembers { members } => self.replace_members(run, id, members),
            BackendCommand::SetRunIntent(intent) => {
                self.set_intent(run, id, intent);
                CommandStep::Done
            },
            BackendCommand::SetMasterVolume(volume) => self.begin_master(run, id, volume),
            BackendCommand::SetMuted(muted) => self.begin_muted(run, id, muted),
            BackendCommand::SetAudioEndpoint(preference) => self.begin_endpoint(run, id, preference),
            BackendCommand::SetLatencyPreset(preset) => self.begin_latency(run, id, preset),
            BackendCommand::SetAutoConnect(enabled) => self.begin_auto_connect(run, id, enabled),
            BackendCommand::SetReceiverLevel { receiver, level } =>
                self.begin_level(run, id, receiver, level),
            _ => CommandStep::Done,
        }
    }

    /// Begins a calibration request.
    fn begin_calibration(&mut self, id: u64, request: CalibrationCommand, fits: bool) -> (r: CommandStep)
        ensures
            (final(self)@, r@) == old(self)@.calibration_begun(id, request, fits),
            final(self).snapshot.revision == old(self).snapshot.revision,
            final(self).policy == old(self).policy,
    {
        match request {
            CalibrationCommand::ApplyCalibrationProfile { expected_desired_revision, profile } =>
                self.handle_calibration(id, expected_desired_revision, profile, false, fits),
            CalibrationCommand::ResetCalibration { expected_desired_revision } =>
                self.handle_calibration(
                    id,
                    expected_desired_revision,
                    CalibrationProfile::default(),
                    true,
                    fits,
                ),
            CalibrationCommand::RunCalibrationClickTest => {
                self.handle_calibration_click_test(id);
                CommandStep::Done
            },
        }
    }

    /// Begins one command and hands out what it waits for.
    pub fn begin_command<R>(
        &mut self,
        run: &mut BatchRun<R>,
        id: u64,
        command: BackendCommand,
        inputs: CommandInputs,
    ) -> (r: CommandStep)
        requires
            old(self).snapshot.revision < u64::MAX,
        ensures
            (final(self)@, final(run)@, r@) == old(self)@.command_begun(
                old(run)@,
                id,
                command,
                inputs,
            ),
            final(self).snapshot.revision <= old(self).snapshot.revision + 1,
            final(self).policy == old(self).policy,
    {
        match command {
            BackendCommand::ApplyDesiredMembers { members } => self.replace_members(run, id, members),
            BackendCommand::SaveGroup { id: edited, name, members } =>
                self.handle_save_group(run, id, edited, inputs.fresh_group, name, members),
            BackendCommand::DeleteGroup(group) => self.handle_delete_group(run, id, group),
            BackendCommand::ActivateSavedGroup { id: group, start } =>
                self.handle_activate_group(run, id, group, start),
            BackendCommand::RetryReceiver(receiver) => {
                self.handle_retry(id, receiver);
                run.reconcile = Some(ReconcileCause::Retry);
                CommandStep::Done
            },
            BackendCommand::NotifySystem(event) => {
                self.handle_system_event(event, inputs.now);
                self.complete(id);
                CommandStep::Done
            },
            BackendCommand::Calibration(request) =>
                self.begin_calibration(id, request, inputs.calibration_fits),
            BackendCommand::RunListeningTest(guard) => self.handle_listening_test(id, guard),
            BackendCommand::Shutdown => {
                self.handle_shutdown(id);
                run.shutdown = true;
                CommandStep::Done
            },
            other => self.begin_setting(run, id, other),
        }
    }

    /// Ends one command: its receipt is answered with the retained result, or
    /// kept for the end of the batch when it started a group.
    ///
    /// The answer names the revision of the publication that follows it, so
    /// even a reader woken at once sees the result.
    pub fn close_command<R>(
        &mut self,
        run: &mut BatchRun<R>,
        id: u64,
        starts: bool,
        receipt: Option<R>,
    ) -> (r: Option<(R, CommandConfirmation)>)
        requires
            old(self).snapshot.revision < u64::MAX,
        ensures
            (final(self)@, final(run)@, r) == old(self)@.closed(old(run)@, id, starts, receipt),
            final(self).snapshot.revision <= old(self).snapshot.revision + 1,
            final(self).policy == old(self).policy,
    {
        let sender: R = match receipt {
            Some(sender) => sender,
            None => {
                return None;
            },
        };
        let mut answer: Option<(R, CommandConfirmation)> = None;
        if let Some(error) = self.snapshot.command_outcomes.result_of(id) {
            if starts && error.is_none() {
                run.group_starts.push(sender);
            } else {
                let revision: u64 = self.snapshot.revision + 1;
                answer = Some(
                    (sender, CommandConfirmation { revision, error, session_generation_floor: None }),
                );
            }
        }
        self.publish();
        answer
    }

    /// Applies what a batch decided: volumes first, then one reconcile.
    fn apply_batch<R>(&mut self, run: &BatchRun<R>)
        requires
            old(self).snapshot.revision < u64::MAX,
        ensures
            final(self)@ == old(self)@.batch_applied(run@),
            final(self).snapshot.revision <= old(self).snapshot.revision + 1,
            final(self).policy == old(self).policy,
    {
        proof {
            reveal(ActorView::batch_applied);
        }
        if run.volumes_changed {
            self.remember_effective_volumes();
            self.forward_effective_volumes();
        }
        if let Some(cause) = run.reconcile {
            self.request_reconcile(cause);
        }
    }

    /// Finishes a batch and answers the receipts of its group starts.
    pub fn finish_batch<R>(&mut self, run: BatchRun<R>) -> (r: Vec<(R, CommandConfirmation)>)
        requires
            old(self).snapshot.revision < u64::MAX - 2,
        ensures
            final(self)@ == old(self)@.batch_finished(run@),
            r@ == run.group_starts@.map_values(
                |sender: R| (sender, old(self)@.batch_applied(run@).start_answer()),
            ),
            final(self).policy == old(self).policy,
            final(self).snapshot.revision <= old(self).snapshot.revision + 3,
    {
        proof {
            reveal(ActorView::batch_finished);
        }
        self.apply_batch(&run);
        let ghost applied = self@;
        let ghost starts = run.group_starts@;
        let mut senders: Vec<R> = run.group_starts;
        let mut answers: Vec<(R, CommandConfirmation)> = Vec::new();
        let floor: u64 = if self.suspended || !self.session_open {
            self.session_generation.saturating_add(1)
        } else {
            self.session_generation
        };
        let answer = CommandConfirmation {
            revision: self.snapshot.revision + 1,
            error: None,
            session_generation_floor: Some(floor),
        };
        let waiting: bool = senders.len() > 0;
        while senders.len() > 0
            invariant
                senders@.len() <= starts.len(),
                senders@ == starts.skip(starts.len() - senders@.len()),
                answers@.len() == starts.len() - senders@.len(),
                forall|i: int| 0 <= i < answers@.len() ==> #[trigger] answers@[i] == (starts[i], answer),
            decreases senders@.len(),
        {
            answers.push((senders.remove(0), answer));
        }
        if waiting {
            self.publish();
        }
        if !self.published_outcomes.same_as(&self.snapshot.command_outcomes) {
            self.publish();
        }
        answers
    }
}

/// Appends the work of a filled scalar slot.
fn push_slot<R>(
    work: &mut Vec<WorkItem<R>>,
    slot: Option<CommandEnvelope<R>>,
    receipt: Option<R>,
)
    ensures
        final(work)@ == old(work)@ + slot_work(slot, receipt),
{
    if let Some(envelope) = slot {
        work.push(WorkItem { id: envelope.id, command: envelope.command, receipt });
    }
    assert(work@ =~= old(work)@ + slot_work(slot, receipt));
}

/// The work of the level slots, in identity order.
fn take_levels<R>(levels: IdMap<CommandEnvelope<R>>) -> (r: Vec<WorkItem<R>>)
    ensures
        r@ == level_work(levels@, ascending_list(levels@.dom())),
{
    let ghost all = levels@;
    let mut levels: IdMap<CommandEnvelope<R>> = levels;
    let ids: Vec<ReceiverId> = levels.keys();
    let mut work: Vec<WorkItem<R>> = Vec::new();
    let mut i: usize = 0;
    while i < ids.len()
        invariant
            i <= ids@.len(),
            work@.len() == i,
            ascending(ids@),
            ids@.to_set() == all.dom(),
            forall|k: int| i <= k < ids@.len() ==> levels@.contains_key(#[trigger] ids@[k])
                && levels@[ids@[k]] == all[ids@[k]],
            forall|k: int| 0 <= k < i ==> #[trigger] work@[k] == (WorkItem {
                id: all[ids@[k]].id,
                command: all[ids@[k]].command,
                receipt: None::<R>,
            }),
        decreases ids@.len() - i,
    {
        let taken: Option<CommandEnvelope<R>> = levels.take(ids[i]);
        if let Some(envelope) = taken {
            work.push(WorkItem { id: envelope.id, command: envelope.command, receipt: None });
        }
        i = i + 1;
    }
    assert(work@ =~= level_work(all, ids@));
    work
}

/// The work of the edges, in arrival order.
fn take_edges<R>(edges: Vec<CommandEnvelope<R>>) -> (r: Vec<WorkItem<R>>)
    ensures
        r@ == edge_work(edges@),
{
    let ghost all = edges@;
    let mut edges: Vec<CommandEnvelope<R>> = edges;
    let mut work: Vec<WorkItem<R>> = Vec::new();
    while edges.len() > 0
        invariant
            edges@.len() <= all.len(),
            edges@ == all.skip(all.len() - edges@.len()),
            work@ == edge_work(all.take(all.len() - edges@.len())),
        decreases edges@.len(),
    {
        let ghost at = all.len() - edges@.len();
        let CommandEnvelope { id, command, confirmation } = edges.remove(0);
        work.push(WorkItem { id, command, receipt: confirmation });
        assert(edges@ =~= all.skip(at + 1));
        assert(work@ =~= edge_work(all.take(at + 1)));
    }
    assert(all.take(all.len() as int) =~= all);
    work
}

impl<R> WorkItem<R> {
    /// Whether the command asks for a saved group to be started.
    pub fn starts_group(&self) -> (r: bool)
        ensures
            r == starts_group(self.command),
    {
        match &self.command {
            BackendCommand::ActivateSavedGroup { start, .. } => *start,
            _ => false,
        }
    }
}

impl<R> BatchRun<R> {
    /// Lays out a drained batch: scalars first, each slot once, then levels
    /// by receiver, then edges strictly in arrival order.
    pub fn new(pending: PendingBatch<R>) -> (r: Self)
        ensures
            r@ == run_of(pending@),
    {
        let PendingBatch {
            desired_members,
            run_intent,
            master_volume,
            master_receipt,
            muted,
            endpoint,
            latency_preset,
            auto_connect,
            levels,
            edges,
            drained_total: _,
        } = pending;
        let mut work: Vec<WorkItem<R>> = Vec::new();
        push_slot(&mut work, desired_members, None);
        push_slot(&mut work, run_intent, None);
        push_slot(&mut work, master_volume, master_receipt);
        push_slot(&mut work, muted, None);
        push_slot(&mut work, endpoint, None);
        push_slot(&mut work, latency_preset, None);
        push_slot(&mut work, auto_connect, None);
        let mut level_items: Vec<WorkItem<R>> = take_levels(levels);
        work.append(&mut level_items);
        let mut edge_items: Vec<WorkItem<R>> = take_edges(edges);
        work.append(&mut edge_items);
        assert(work@ =~= batch_work(pending@));
        let r = BatchRun {
            reconcile: None,
            volumes_changed: false,
            shutdown: false,
            group_starts: Vec::new(),
            work,
        };
        assert(r@ =~= run_of(pending@));
        r
    }

    /// The next work item; nothing runs after a shutdown.
    pub fn next(&mut self) -> (r: Option<WorkItem<R>>)
        ensures
            if old(self)@.shutdown || old(self)@.work.len() == 0 {
                r is None && final(self)@ == old(self)@
            } else {
                r == Some(old(self)@.work[0]) && final(self)@ == (RunView {
                    work: old(self)@.work.skip(1),
                    ..old(self)@
                })
            },
    {
        if self.shutdown || self.work.len() == 0 {
            return None;
        }
        let ghost before = self.work@;
        let item: WorkItem<R> = self.work.remove(0);
        assert(self.work@ =~= before.skip(1));
        Some(item)
    }
}

} // verus!
