//! Mathematical model of command processing: what each command proposes, how
//! a save ends it, and how a batch is finished.

use vstd::prelude::*;

use crate::actor_model::{
    next_count, without_group, ActorView, AnnounceView, CommitOutcome, CommitView, EffectView,
    ReconcileCause,
};
use crate::batch::BatchView;
use crate::calibration::{no_calibration, CalibrationApplyState, CalibrationCommand, CalibrationView};
use crate::capture::CaptureControl;
use crate::command::{BackendCommand, CommandConfirmation, CommandEnvelope};
use crate::idmap::ascending_list;
use crate::ids::ReceiverId;
use crate::listening_check::{guard_holds, GuardView};
use crate::model::{
    member_views, preset_disabled_text, CommandFailure, GroupView, MemberView,
    PersistenceSnapshot, PreferenceView,
    RunIntent, SavedGroupId, SnapshotView, Volume,
};
use crate::persistence::{repeats_within, PersistedView};
use crate::snapshot::retained_result;
use crate::text::{listed, same_ignoring_ascii_case, trimmed};
use crate::time::Instant;

verus! {

/// What a batch has decided so far.
#[verifier::ext_equal]
pub struct RunView<R> {
    /// Cause of the reconcile owed at its end.
    pub reconcile: Option<ReconcileCause>,
    /// Whether volumes have to be forwarded at its end.
    pub volumes_changed: bool,
    /// Whether shutdown was requested.
    pub shutdown: bool,
    /// Receipts of group starts, answered once the batch owns a generation.
    pub group_starts: Seq<R>,
    /// Work not yet begun.
    pub work: Seq<WorkItem<R>>,
}

/// A batch nothing of which has run.
pub open spec fn run_of<R>(batch: BatchView<R>) -> RunView<R> {
    RunView {
        reconcile: None,
        volumes_changed: false,
        shutdown: false,
        group_starts: Seq::empty(),
        work: batch_work(batch),
    }
}

/// Whether a command asks for a saved group to be started.
pub open spec fn starts_group(command: BackendCommand) -> bool {
    command matches BackendCommand::ActivateSavedGroup { start: true, .. }
}

/// What follows a durable change.
pub enum FollowView {
    /// Nothing.
    Nothing,
    /// An applied change owes a membership reconcile.
    Membership,
    /// An applied change owes a volume update.
    Volumes,
    /// An applied change reopens capture on this endpoint.
    Endpoint(PreferenceView),
    /// An applied change owes a latency reconcile.
    Latency,
    /// A saved group was activated, to be started or not.
    Activation {
        /// Whether to start playback.
        start: bool,
    },
}

/// What a command waits for.
pub enum StepView {
    /// Nothing; it ran.
    Done,
    /// The write of a durable change.
    Save(CommitView, FollowView),
    /// The write of a calibration section.
    SaveCalibration {
        /// Command.
        id: u64,
        /// Profile to apply once written.
        profile: CalibrationView,
        /// Whether the stored section is cleared.
        clearing: bool,
    },
    /// The start of a listening tone.
    StartTone {
        /// Command.
        id: u64,
        /// Configuration the tone is bound to.
        guard: GuardView,
    },
}

/// What a command is decided against besides the controller's own state.
#[derive(Clone, Copy, Debug)]
pub struct CommandInputs {
    /// Identity for a group that has none yet.
    pub fresh_group: SavedGroupId,
    /// Whether the profile of a calibration command fits the selection.
    pub calibration_fits: bool,
    /// Monotonic reading.
    pub now: Instant,
}

/// One unit of work of a drained batch.
#[derive(Debug)]
pub struct WorkItem<R> {
    /// Command ID.
    pub id: u64,
    /// The command.
    pub command: BackendCommand,
    /// Receipt answered when the command has run.
    pub receipt: Option<R>,
}

/// The work of a filled scalar slot; its own receipt, if any, is dropped.
pub open spec fn slot_work<R>(slot: Option<CommandEnvelope<R>>, receipt: Option<R>) -> Seq<WorkItem<R>> {
    match slot {
        Some(envelope) => seq![
            WorkItem { id: envelope.id, command: envelope.command, receipt },
        ],
        None => Seq::empty(),
    }
}

/// The work of the level slots, in identity order.
pub open spec fn level_work<R>(
    levels: Map<ReceiverId, CommandEnvelope<R>>,
    ids: Seq<ReceiverId>,
) -> Seq<WorkItem<R>> {
    Seq::new(
        ids.len(),
        |i: int| WorkItem { id: levels[ids[i]].id, command: levels[ids[i]].command, receipt: None },
    )
}

/// The work of the edges, in arrival order.
pub open spec fn edge_work<R>(edges: Seq<CommandEnvelope<R>>) -> Seq<WorkItem<R>> {
    Seq::new(
        edges.len(),
        |i: int| WorkItem {
            id: edges[i].id,
            command: edges[i].command,
            receipt: edges[i].confirmation,
        },
    )
}

/// The work of a batch: scalars first, each slot once, then levels by
/// receiver, then edges strictly in arrival order.
pub open spec fn batch_work<R>(batch: BatchView<R>) -> Seq<WorkItem<R>> {
    slot_work(batch.desired_members, None) + slot_work(batch.run_intent, None) + slot_work(
        batch.master_volume,
        batch.master_receipt,
    ) + slot_work(batch.muted, None) + slot_work(batch.endpoint, None) + slot_work(
        batch.latency_preset,
        None,
    ) + slot_work(batch.auto_connect, None) + level_work(
        batch.levels,
        ascending_list(batch.levels.dom()),
    ) + edge_work(batch.edges)
}

/// The first group with `id`.
pub open spec fn find_group(groups: Seq<GroupView>, id: SavedGroupId) -> Option<GroupView>
    decreases groups.len(),
{
    if groups.len() == 0 {
        None
    } else if groups[0].id == id {
        Some(groups[0])
    } else {
        find_group(groups.drop_first(), id)
    }
}

/// The receivers of a member list.
pub open spec fn member_ids(members: Seq<MemberView>) -> Set<ReceiverId> {
    Set::new(|id: ReceiverId| exists|i: int|
        0 <= i < members.len() && (#[trigger] members[i]).receiver == id)
}

/// Levels with those of a member list written over them, in order.
pub open spec fn levels_with(
    levels: Map<ReceiverId, Volume>,
    members: Seq<MemberView>,
) -> Map<ReceiverId, Volume>
    decreases members.len(),
{
    if members.len() == 0 {
        levels
    } else {
        levels_with(levels, members.drop_last()).insert(
            members.last().receiver,
            members.last().level,
        )
    }
}

/// Whether a group other than the edited one already has this name.
pub open spec fn name_taken(
    groups: Seq<GroupView>,
    name: Seq<char>,
    edited: Option<SavedGroupId>,
) -> bool {
    exists|i: int| 0 <= i < groups.len() && same_ignoring_ascii_case(
        (#[trigger] groups[i]).name,
        name,
    ) && edited != Some(groups[i].id)
}

/// Why a group cannot be saved, if it cannot.
pub open spec fn group_refusal(
    groups: Seq<GroupView>,
    edited: Option<SavedGroupId>,
    name: Seq<char>,
    members: Seq<MemberView>,
) -> Option<Seq<char>> {
    let trimmed_name = trimmed(name);
    if trimmed_name.len() == 0 || trimmed_name.len() > 64 {
        Some("group names need 1-64 characters"@)
    } else if name_taken(groups, trimmed_name, edited) {
        Some("a group with that name already exists"@)
    } else if repeats_within(members, members.len() as int) {
        Some("each receiver may appear once per group"@)
    } else if members.len() == 0 {
        Some("a saved group needs at least one receiver"@)
    } else {
        None
    }
}

impl ActorView {
    /// The controller and batch after a durable change ended with `outcome`.
    #[verifier::opaque]
    pub open spec fn settled<R>(
        self,
        run: RunView<R>,
        follow: FollowView,
        outcome: CommitOutcome,
    ) -> (ActorView, RunView<R>) {
        let applied = outcome == CommitOutcome::Applied;
        match follow {
            FollowView::Nothing => (self, run),
            FollowView::Membership => (
                self,
                if applied {
                    RunView { reconcile: Some(ReconcileCause::Membership), ..run }
                } else {
                    run
                },
            ),
            FollowView::Volumes => (
                self,
                RunView { volumes_changed: run.volumes_changed || applied, ..run },
            ),
            FollowView::Endpoint(preference) => (
                if applied {
                    self.doing(EffectView::ScanEndpoints).doing(
                        EffectView::CapturePreference(preference),
                    ).doing(EffectView::Capture(CaptureControl::RequestEndpointChange))
                } else {
                    self
                },
                run,
            ),
            FollowView::Latency => (
                self,
                if applied {
                    RunView { reconcile: Some(ReconcileCause::LatencyPreset), ..run }
                } else {
                    run
                },
            ),
            FollowView::Activation { start } => {
                let disarmed = if !start && outcome.intended() {
                    ActorView { startup_auto_connect_until: None, ..self }
                } else {
                    self
                };
                let starts = start && outcome.intended()
                    && disarmed.snapshot.run_intent != RunIntent::Running;
                let started = if starts {
                    ActorView {
                        snapshot: SnapshotView { run_intent: RunIntent::Running, ..disarmed.snapshot },
                        ..disarmed
                    }.published()
                } else {
                    disarmed
                };
                (
                    started,
                    if (starts || applied) && run.reconcile is None {
                        RunView { reconcile: Some(ReconcileCause::SavedGroup), ..run }
                    } else {
                        run
                    },
                )
            },
        }
    }

    /// The controller, batch, and what is waited for after a durable change
    /// was proposed.
    #[verifier::opaque]
    pub open spec fn proposed<R>(
        self,
        run: RunView<R>,
        commit: CommitView,
        follow: FollowView,
    ) -> (ActorView, RunView<R>, StepView) {
        match self.early_outcome(commit.candidate) {
            Some(outcome) => {
                let ended = self.proposing(commit.id, commit.candidate).settled(
                    run,
                    follow,
                    outcome,
                );
                (ended.0, ended.1, StepView::Done)
            },
            None => (self, run, StepView::Save(commit, follow)),
        }
    }

    /// The controller and batch after the write of a durable change was
    /// answered.
    #[verifier::opaque]
    pub open spec fn save_answered<R>(
        self,
        run: RunView<R>,
        commit: CommitView,
        follow: FollowView,
        saved: bool,
    ) -> (ActorView, RunView<R>) {
        self.committed(commit, saved).settled(
            run,
            follow,
            if saved { CommitOutcome::Applied } else { CommitOutcome::Failed },
        )
    }

    /// A command that ran without waiting for anything.
    pub open spec fn done<R>(self, run: RunView<R>) -> (ActorView, RunView<R>, StepView) {
        (self, run, StepView::Done)
    }

    /// Replaces the desired membership.
    pub open spec fn members_requested<R>(
        self,
        run: RunView<R>,
        id: u64,
        members: Set<ReceiverId>,
    ) -> (ActorView, RunView<R>, StepView) {
        if members == self.persisted.last_desired_members {
            self.completed(id).done(run)
        } else {
            self.proposed(
                run,
                CommitView {
                    id,
                    candidate: PersistedView { last_desired_members: members, ..self.persisted },
                    announce: AnnounceView::Members { members, counts: true },
                    refresh_rows: true,
                    sync_names: false,
                },
                FollowView::Membership,
            )
        }
    }

    /// Sets the run intent. The user answered the question auto-connect
    /// exists to answer, so the launch policy is spent either way.
    #[verifier::opaque]
    pub open spec fn intent_requested<R>(
        self,
        run: RunView<R>,
        id: u64,
        intent: RunIntent,
    ) -> (ActorView, RunView<R>, StepView) {
        let answered = ActorView { startup_auto_connect_until: None, ..self };
        if intent == self.snapshot.run_intent {
            answered.completed(id).done(run)
        } else {
            ActorView {
                snapshot: SnapshotView { run_intent: intent, ..answered.snapshot },
                ..answered
            }.completed(id).published().done(
                RunView { reconcile: Some(ReconcileCause::Membership), ..run },
            )
        }
    }

    /// Proposes a change that needs neither rows nor names afterwards.
    pub open spec fn scalar_proposed<R>(
        self,
        run: RunView<R>,
        id: u64,
        candidate: PersistedView,
        announce: AnnounceView,
        follow: FollowView,
    ) -> (ActorView, RunView<R>, StepView) {
        self.proposed(
            run,
            CommitView { id, candidate, announce, refresh_rows: false, sync_names: false },
            follow,
        )
    }

    /// Saves or edits a group; membership and session stay untouched.
    pub open spec fn group_save_requested<R>(
        self,
        run: RunView<R>,
        id: u64,
        edited: Option<SavedGroupId>,
        fresh: SavedGroupId,
        name: Seq<char>,
        members: Seq<MemberView>,
    ) -> (ActorView, RunView<R>, StepView) {
        match group_refusal(self.persisted.saved_groups, edited, name, members) {
            Some(message) => self.rejecting(id, message).done(run),
            None => {
                let group = GroupView {
                    id: match edited {
                        Some(held) => held,
                        None => fresh,
                    },
                    name: trimmed(name),
                    members,
                };
                self.proposed(
                    run,
                    CommitView {
                        id,
                        candidate: PersistedView {
                            saved_groups: listed(
                                without_group(self.persisted.saved_groups, group.id).push(group),
                            ),
                            ..self.persisted
                        },
                        announce: AnnounceView::GroupSaved(group),
                        refresh_rows: false,
                        sync_names: true,
                    },
                    FollowView::Nothing,
                )
            },
        }
    }

    /// Deletes a group; deleting one that is gone is an accepted no-op.
    pub open spec fn group_delete_requested<R>(
        self,
        run: RunView<R>,
        id: u64,
        group: SavedGroupId,
    ) -> (ActorView, RunView<R>, StepView) {
        if find_group(self.persisted.saved_groups, group) is None {
            self.completed(id).done(run)
        } else {
            self.proposed(
                run,
                CommitView {
                    id,
                    candidate: PersistedView {
                        saved_groups: without_group(self.persisted.saved_groups, group),
                        ..self.persisted
                    },
                    announce: AnnounceView::GroupDeleted(group),
                    refresh_rows: false,
                    sync_names: true,
                },
                FollowView::Nothing,
            )
        }
    }

    /// Activates a saved group: members and levels become one durable
    /// candidate.
    pub open spec fn activation_requested<R>(
        self,
        run: RunView<R>,
        id: u64,
        group: SavedGroupId,
        start: bool,
    ) -> (ActorView, RunView<R>, StepView) {
        match find_group(self.persisted.saved_groups, group) {
            None => self.rejecting(id, "that saved group no longer exists"@).done(run),
            Some(found) => {
                let members = member_ids(found.members);
                self.proposed(
                    run,
                    CommitView {
                        id,
                        candidate: PersistedView {
                            last_desired_members: members,
                            receiver_levels: levels_with(
                                self.persisted.receiver_levels,
                                found.members,
                            ),
                            ..self.persisted
                        },
                        announce: AnnounceView::Members {
                            members,
                            counts: members != self.persisted.last_desired_members,
                        },
                        refresh_rows: true,
                        sync_names: false,
                    },
                    FollowView::Activation { start },
                )
            },
        }
    }

    /// A calibration command that was refused.
    pub open spec fn calibration_refused(self, id: u64, message: Seq<char>) -> ActorView {
        self.rejecting(id, message).calibration_noted(CalibrationApplyState::Failed)
    }

    /// Applies or clears a calibration. The selection must not have moved
    /// since it was authored; a profile, but not a clear, also needs at least
    /// two receivers and values that fit.
    pub open spec fn calibration_requested(
        self,
        id: u64,
        expected_revision: u64,
        profile: CalibrationView,
        clearing: bool,
        fits: bool,
    ) -> (ActorView, StepView) {
        if expected_revision != self.snapshot.desired_revision {
            (
                self.calibration_refused(
                    id,
                    "the receiver selection changed while calibrating; review it and apply again"@,
                ),
                StepView::Done,
            )
        } else if !clearing && self.snapshot.desired_members.len() < 2 {
            (
                self.calibration_refused(
                    id,
                    "calibration needs at least two selected receivers"@,
                ),
                StepView::Done,
            )
        } else if !clearing && !fits {
            (
                self.calibration_refused(id, "the calibration values could not be applied"@),
                StepView::Done,
            )
        } else {
            (self, StepView::SaveCalibration { id, profile, clearing })
        }
    }

    /// The controller and batch after the write of a calibration was
    /// answered. Order is persist-then-apply.
    #[verifier::opaque]
    pub open spec fn calibration_answered<R>(
        self,
        run: RunView<R>,
        id: u64,
        profile: CalibrationView,
        saved: bool,
    ) -> (ActorView, RunView<R>) {
        if saved {
            (
                ActorView {
                    calibration: profile,
                    snapshot: SnapshotView {
                        persistence: PersistenceSnapshot::Healthy,
                        ..self.snapshot
                    },
                    ..self
                }.completed(id).calibration_noted(
                    CalibrationApplyState::PendingRestart,
                ),
                RunView { reconcile: Some(ReconcileCause::CalibrationChanged), ..run },
            )
        } else {
            (
                self.save_failed(id).calibration_noted(CalibrationApplyState::Failed).published(),
                run,
            )
        }
    }

    /// Plays the shared alignment clicks, which needs something to align.
    pub open spec fn clicks_requested(self, id: u64) -> ActorView {
        if self.active.len() < 2 {
            self.rejecting(id, "the alignment test needs at least two connected receivers"@)
        } else {
            self.doing(EffectView::InjectClicks).completed(id)
        }
    }

    /// Asks for a listening tone, which must fit the exact configuration it
    /// was authorized for and plays at most once per session generation.
    pub open spec fn tone_requested(self, id: u64, guard: GuardView) -> (ActorView, StepView) {
        if !guard_holds(guard, self.snapshot)
            || self.last_listening_test_generation == Some(guard.generation) {
            (
                self.rejecting(
                    id,
                    "the listening test configuration changed or was already used"@,
                ),
                StepView::Done,
            )
        } else {
            (self, StepView::StartTone { id, guard })
        }
    }

    /// The controller after the audio source answered a tone request.
    pub open spec fn tone_answered(self, id: u64, guard: GuardView, started: bool) -> ActorView {
        if started {
            ActorView {
                last_listening_test_generation: Some(guard.generation),
                listening_test: Some(guard),
                ..self
            }.completed(id)
        } else {
            self.rejecting(id, "the listening test audio source is busy"@)
        }
    }

    /// The controller with a playing tone cancelled.
    pub open spec fn tone_silenced(self) -> ActorView {
        if self.listening_test is Some {
            ActorView { listening_test: None, ..self }.doing(EffectView::CancelTone)
        } else {
            self
        }
    }

    /// The controller after a shutdown request.
    pub open spec fn shutdown_requested(self, id: u64) -> ActorView {
        self.tone_silenced().completed(id)
    }

    /// What a setting does: the controller, batch, and what is waited for.
    pub open spec fn setting_begun<R>(
        self,
        run: RunView<R>,
        id: u64,
        command: BackendCommand,
    ) -> (ActorView, RunView<R>, StepView) {
        let stored = self.persisted;
        match command {
            BackendCommand::SetDesiredMembers { members } => self.members_requested(run, id, members@),
            BackendCommand::SetRunIntent(intent) => self.intent_requested(run, id, intent),
            BackendCommand::SetMasterVolume(volume) =>
                if volume.units() == stored.master_volume.units() {
                    self.completed(id).done(run)
                } else {
                    self.scalar_proposed(
                        run,
                        id,
                        PersistedView { master_volume: volume, ..stored },
                        AnnounceView::MasterVolume(volume),
                        FollowView::Volumes,
                    )
                },
            BackendCommand::SetMuted(muted) => if muted == stored.muted {
                self.completed(id).done(run)
            } else {
                self.scalar_proposed(
                    run,
                    id,
                    PersistedView { muted, ..stored },
                    AnnounceView::Muted(muted),
                    FollowView::Volumes,
                )
            },
            BackendCommand::SetAudioEndpoint(preference) =>
                if preference@ == stored.audio_endpoint {
                    self.completed(id).done(run)
                } else {
                    self.scalar_proposed(
                        run,
                        id,
                        PersistedView { audio_endpoint: preference@, ..stored },
                        AnnounceView::Endpoint(preference@),
                        FollowView::Endpoint(preference@),
                    )
                },
            BackendCommand::SetLatencyPreset(preset) => match preset_disabled_text(preset) {
                Some(reason) => self.rejecting(id, reason).done(run),
                None => if preset == stored.latency_preset {
                    self.completed(id).done(run)
                } else {
                    self.scalar_proposed(
                        run,
                        id,
                        PersistedView { latency_preset: preset, ..stored },
                        AnnounceView::Latency(preset),
                        FollowView::Latency,
                    )
                },
            },
            BackendCommand::SetAutoConnect(enabled) => {
                let armed = if enabled {
                    self
                } else {
                    ActorView { startup_auto_connect_until: None, ..self }
                };
                if enabled == stored.auto_connect {
                    armed.completed(id).done(run)
                } else {
                    armed.scalar_proposed(
                        run,
                        id,
                        PersistedView { auto_connect: enabled, ..stored },
                        AnnounceView::AutoConnect(enabled),
                        FollowView::Nothing,
                    )
                }
            },
            BackendCommand::SetReceiverLevel { receiver, level } =>
                if stored.receiver_levels.contains_key(receiver)
                    && stored.receiver_levels[receiver].units() == level.units() {
                    self.completed(id).done(run)
                } else {
                    self.scalar_proposed(
                        run,
                        id,
                        PersistedView {
                            receiver_levels: stored.receiver_levels.insert(receiver, level),
                            ..stored
                        },
                        AnnounceView::Nothing,
                        FollowView::Volumes,
                    )
                },
            _ => self.done(run),
        }
    }

    /// The controller and what is waited for after a calibration request.
    pub open spec fn calibration_begun(self, id: u64, request: CalibrationCommand, fits: bool) -> (
        ActorView,
        StepView,
    ) {
        match request {
            CalibrationCommand::ApplyCalibrationProfile { expected_desired_revision, profile } =>
                self.calibration_requested(id, expected_desired_revision, profile@, false, fits),
            CalibrationCommand::ResetCalibration { expected_desired_revision } =>
                self.calibration_requested(
                    id,
                    expected_desired_revision,
                    no_calibration(),
                    true,
                    fits,
                ),
            CalibrationCommand::RunCalibrationClickTest => (self.clicks_requested(id), StepView::Done),
        }
    }

    /// The controller, batch, and what is waited for after a command began.
    pub open spec fn command_begun<R>(
        self,
        run: RunView<R>,
        id: u64,
        command: BackendCommand,
        inputs: CommandInputs,
    ) -> (ActorView, RunView<R>, StepView) {
        match command {
            BackendCommand::ApplyDesiredMembers { members } => self.members_requested(run, id, members@),
            BackendCommand::SaveGroup { id: edited, name, members } =>
                self.group_save_requested(
                    run,
                    id,
                    edited,
                    inputs.fresh_group,
                    name@,
                    member_views(members@),
                ),
            BackendCommand::DeleteGroup(group) => self.group_delete_requested(run, id, group),
            BackendCommand::ActivateSavedGroup { id: group, start } =>
                self.activation_requested(run, id, group, start),
            BackendCommand::RetryReceiver(receiver) =>
                self.retried(receiver).rows_republished().completed(id).done(
                    RunView { reconcile: Some(ReconcileCause::Retry), ..run },
                ),
            BackendCommand::NotifySystem(event) =>
                self.system_handled(event, inputs.now).completed(id).done(run),
            BackendCommand::Calibration(request) => {
                let asked = self.calibration_begun(id, request, inputs.calibration_fits);
                (asked.0, run, asked.1)
            },
            BackendCommand::RunListeningTest(guard) => {
                let asked = self.tone_requested(id, guard@);
                (asked.0, run, asked.1)
            },
            BackendCommand::Shutdown => self.shutdown_requested(id).done(
                RunView { shutdown: true, ..run },
            ),
            _ => self.setting_begun(run, id, command),
        }
    }

    /// Whether a command that started a group waits for the batch's
    /// generation with its receipt.
    pub open spec fn receipt_deferred(self, id: u64, starts_group: bool) -> bool {
        starts_group && retained_result(self.snapshot.command_outcomes.recent, id) == Some(
            None::<CommandFailure>,
        )
    }

    /// The answer to a receipt, if its command's result is retained.
    pub open spec fn receipt_answer(self, id: u64) -> Option<CommandConfirmation> {
        match retained_result(self.snapshot.command_outcomes.recent, id) {
            Some(error) => Some(
                CommandConfirmation {
                    revision: (self.snapshot.revision + 1) as u64,
                    error,
                    session_generation_floor: None,
                },
            ),
            None => None,
        }
    }

    /// The controller, batch, and answer after a command that ended: its
    /// receipt is answered with the retained result, or kept for the end of
    /// the batch when it started a group. Either way a publication follows.
    pub open spec fn closed<R>(
        self,
        run: RunView<R>,
        id: u64,
        starts: bool,
        receipt: Option<R>,
    ) -> (ActorView, RunView<R>, Option<(R, CommandConfirmation)>) {
        match receipt {
            None => (self, run, None),
            Some(sender) => if self.receipt_deferred(id, starts) {
                (
                    self.published(),
                    RunView { group_starts: run.group_starts.push(sender), ..run },
                    None,
                )
            } else {
                (
                    self.published(),
                    run,
                    match self.receipt_answer(id) {
                        Some(answer) => Some((sender, answer)),
                        None => None,
                    },
                )
            },
        }
    }

    /// The controller and batch at the end of a batch, before receipts of
    /// group starts are answered.
    #[verifier::opaque]
    pub open spec fn batch_applied<R>(self, run: RunView<R>) -> ActorView {
        let heard = if run.volumes_changed { self.remembering().forwarding() } else { self };
        match run.reconcile {
            Some(cause) => heard.reconciled(cause),
            None => heard,
        }
    }

    /// Earliest session attempt that may answer a group start: a suspended
    /// start cannot reuse the current attempt.
    pub open spec fn start_floor(self) -> u64 {
        if self.suspended || !self.session_open {
            next_count(self.session_generation)
        } else {
            self.session_generation
        }
    }

    /// The answer to every receipt of a group start.
    pub open spec fn start_answer(self) -> CommandConfirmation {
        CommandConfirmation {
            revision: (self.snapshot.revision + 1) as u64,
            error: None,
            session_generation_floor: Some(self.start_floor()),
        }
    }

    /// The controller after a batch: results that changed no durable state are
    /// published too.
    #[verifier::opaque]
    pub open spec fn batch_finished<R>(self, run: RunView<R>) -> ActorView {
        let applied = self.batch_applied(run);
        let answered = if run.group_starts.len() > 0 { applied.published() } else { applied };
        if answered.published_outcomes == answered.snapshot.command_outcomes {
            answered
        } else {
            answered.published()
        }
    }
}

} // verus!
