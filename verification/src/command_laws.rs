//! What commands promise: stored before shown, and answered exactly once.

use vstd::prelude::*;

use crate::actor_model::{
    launched, without_group, ActorView, AnnounceView, CommitOutcome, CommitView,
    ControllerEventView, EffectView, Moment, OpView, ReconcileCause,
};
use crate::batch_driver::BatchDriverView;
use crate::batch_model::{
    find_group, group_refusal, levels_with, member_ids, starts_group, CommandInputs, FollowView,
    RunView, StepView,
};
use crate::calibration::{CalibrationApplyState, CalibrationCommand, CalibrationView};
use crate::command::{BackendCommand, SystemEvent};
use crate::controller_laws::{
    law_events_keep_what_the_user_decided, law_platform_edges_keep_what_the_user_decided,
    lemma_driven_keeps, lemma_published_keeps, lemma_reconciled_keeps, lemma_showing_rows_keeps,
    lemma_volumes_keep, same_settings,
};
use crate::idmap::ascending_list;
use crate::ids::ReceiverId;
use crate::listening_check::{guard_holds, GuardView};
use crate::model::{
    member_views, outcome_recorded, preset_disabled_text, CommandFailure, GroupView, MemberView,
    OutcomesView, PersistenceSnapshot, RunIntent, SavedGroupId, SnapshotView,
};
use crate::persistence::PersistedView;
use crate::recovery::{deadline_cleared, RetryPolicy};
use crate::restart_laws::law_launch_policy_starts_at_most_once;
use crate::text::{law_listing_sorts, listed, trimmed};
use crate::time::Instant;

verus! {

impl ActorView {
    /// Whether the settings shown are exactly the settings stored; saved
    /// groups may be listed in another order.
    pub open spec fn mirrors(self) -> bool {
        &&& self.snapshot.desired_members == self.persisted.last_desired_members
        &&& self.snapshot.master_volume == self.persisted.master_volume
        &&& self.snapshot.receiver_levels == self.persisted.receiver_levels
        &&& self.snapshot.muted == self.persisted.muted
        &&& self.snapshot.latency_preset == self.persisted.latency_preset
        &&& self.snapshot.auto_connect == self.persisted.auto_connect
        &&& self.snapshot.audio_source.preference == self.persisted.audio_endpoint
        &&& self.snapshot.saved_groups.to_multiset() == self.persisted.saved_groups.to_multiset()
    }
}

/// A launch shows exactly what was stored.
pub proof fn law_launch_shows_what_is_stored(
    persisted: PersistedView,
    policy: RetryPolicy,
    now: Instant,
)
    ensures
        launched(persisted, policy, now).mirrors(),
{
    law_listing_sorts(persisted.saved_groups);
}

/// No event of the main loop lets the settings shown drift from the settings
/// stored.
pub proof fn law_events_show_what_is_stored(a: ActorView, event: ControllerEventView, at: Moment)
    requires
        a.mirrors(),
    ensures
        a.event_handled(event, at).mirrors(),
{
    if event is AutoConnectDue {
        law_launch_policy_starts_at_most_once(a, at.now);
    } else {
        law_events_keep_what_the_user_decided(a, event, at);
    }
}

proof fn lemma_without_group_counts(groups: Seq<GroupView>, id: SavedGroupId, group: GroupView)
    ensures
        without_group(groups, id).to_multiset().count(group) == (if group.id == id {
            0
        } else {
            groups.to_multiset().count(group)
        }),
    decreases groups.len(),
{
    broadcast use vstd::seq_lib::group_to_multiset_ensures;

    if groups.len() > 0 {
        let front = groups.drop_last();
        lemma_without_group_counts(front, id, group);
        assert(groups =~= front.push(groups.last()));
    }
}

proof fn lemma_without_group_multisets(a: Seq<GroupView>, b: Seq<GroupView>, id: SavedGroupId)
    requires
        a.to_multiset() == b.to_multiset(),
    ensures
        without_group(a, id).to_multiset() == without_group(b, id).to_multiset(),
{
    let x = without_group(a, id).to_multiset();
    let y = without_group(b, id).to_multiset();
    assert forall|group: GroupView| x.count(group) == y.count(group) by {
        lemma_without_group_counts(a, id, group);
        lemma_without_group_counts(b, id, group);
    }
    assert(x =~= y);
}

proof fn lemma_saved_group_multisets(a: Seq<GroupView>, b: Seq<GroupView>, group: GroupView)
    requires
        a.to_multiset() == b.to_multiset(),
    ensures
        without_group(a, group.id).push(group).to_multiset() == listed(
            without_group(b, group.id).push(group),
        ).to_multiset(),
{
    broadcast use vstd::seq_lib::group_to_multiset_ensures;

    lemma_without_group_multisets(a, b, group.id);
    law_listing_sorts(without_group(b, group.id).push(group));
}

/// The history after `id` ended, in whichever way.
pub open spec fn answered_once(before: OutcomesView, after: OutcomesView, id: u64) -> bool {
    exists|error: Option<CommandFailure>| after == #[trigger] outcome_recorded(before, id, error)
}

/// Whether writing a change would leave shown and stored settings equal.
pub open spec fn commit_mirrors(a: ActorView, commit: CommitView) -> bool {
    a.change_stored(commit.candidate, commit.announce).mirrors()
}

/// What a step keeps until it is answered: a change waiting for its write is
/// visible nowhere, and anything else has its result.
pub open spec fn step_sound<R>(
    a: ActorView,
    id: u64,
    after: (ActorView, RunView<R>, StepView),
) -> bool {
    &&& a.mirrors() ==> after.0.mirrors()
    &&& match after.2 {
        StepView::Done => answered_once(
            a.snapshot.command_outcomes,
            after.0.snapshot.command_outcomes,
            id,
        ),
        StepView::Save(commit, _) => {
            &&& commit.id == id
            &&& after.0.snapshot == a.snapshot
            &&& after.0.persisted == a.persisted
            &&& after.0.effects == a.effects
            &&& a.mirrors() ==> commit_mirrors(after.0, commit)
        },
        StepView::SaveCalibration { id: held, .. } => held == id && after.0 == a,
        StepView::StartTone { id: held, .. } => held == id && after.0 == a,
    }
}

proof fn lemma_settled<R>(
    a: ActorView,
    run: RunView<R>,
    follow: FollowView,
    outcome: CommitOutcome,
)
    ensures
        same_settings(a.snapshot, a.settled(run, follow, outcome).0.snapshot),
        a.settled(run, follow, outcome).0.persisted == a.persisted,
        a.settled(run, follow, outcome).0.snapshot.command_outcomes == a.snapshot.command_outcomes,
        a.settled(run, follow, outcome).0.snapshot.persistence == a.snapshot.persistence,
{
    reveal(ActorView::settled);
    if let FollowView::Activation { start } = follow {
        let disarmed = if !start && outcome.intended() {
            ActorView { startup_auto_connect_until: None, ..a }
        } else {
            a
        };
        lemma_published_keeps(
            ActorView {
                snapshot: SnapshotView { run_intent: RunIntent::Running, ..disarmed.snapshot },
                ..disarmed
            },
        );
    }
}

proof fn lemma_proposed<R>(
    a: ActorView,
    run: RunView<R>,
    commit: CommitView,
    follow: FollowView,
)
    requires
        a.mirrors() ==> commit_mirrors(a, commit),
    ensures
        step_sound(a, commit.id, a.proposed(run, commit, follow)),
        a.proposed(run, commit, follow).2 is Done || a.proposed(run, commit, follow).2 is Save,
{
    reveal(ActorView::proposed);
    if let Some(outcome) = a.early_outcome(commit.candidate) {
        let told = a.proposing(commit.id, commit.candidate);
        lemma_settled(told, run, follow, outcome);
        assert(told.snapshot.command_outcomes == outcome_recorded(
            a.snapshot.command_outcomes,
            commit.id,
            if outcome == CommitOutcome::Rejected {
                Some(CommandFailure::Rejected)
            } else {
                None
            },
        ));
    }
}

proof fn lemma_completed<R>(a: ActorView, run: RunView<R>, id: u64)
    ensures
        step_sound(a, id, a.completed(id).done(run)),
{
    assert(a.completed(id).snapshot.command_outcomes == outcome_recorded(
        a.snapshot.command_outcomes,
        id,
        None,
    ));
}

proof fn lemma_rejected<R>(a: ActorView, run: RunView<R>, id: u64, message: Seq<char>)
    ensures
        step_sound(a, id, a.rejecting(id, message).done(run)),
{
    assert(a.rejecting(id, message).snapshot.command_outcomes == outcome_recorded(
        a.snapshot.command_outcomes,
        id,
        Some(CommandFailure::Rejected),
    ));
}

proof fn lemma_scalar<R>(
    a: ActorView,
    run: RunView<R>,
    id: u64,
    candidate: PersistedView,
    announce: AnnounceView,
    follow: FollowView,
)
    requires
        a.mirrors() ==> a.change_stored(candidate, announce).mirrors(),
    ensures
        step_sound(a, id, a.scalar_proposed(run, id, candidate, announce, follow)),
        a.scalar_proposed(run, id, candidate, announce, follow).2 is Done || a.scalar_proposed(
            run,
            id,
            candidate,
            announce,
            follow,
        ).2 is Save,
{
    lemma_proposed(
        a,
        run,
        CommitView { id, candidate, announce, refresh_rows: false, sync_names: false },
        follow,
    );
}

proof fn lemma_intent<R>(a: ActorView, run: RunView<R>, id: u64, intent: RunIntent)
    ensures
        step_sound(a, id, a.intent_requested(run, id, intent)),
{
    reveal(ActorView::intent_requested);
    let answered = ActorView { startup_auto_connect_until: None, ..a };
    lemma_completed(answered, run, id);
    let shown = ActorView {
        snapshot: SnapshotView { run_intent: intent, ..answered.snapshot },
        ..answered
    };
    lemma_completed(shown, run, id);
    lemma_published_keeps(shown.completed(id));
}

proof fn lemma_settings<R>(a: ActorView, run: RunView<R>, id: u64, command: BackendCommand)
    requires
        command is SetDesiredMembers || command is SetRunIntent || command is SetMasterVolume
            || command is SetMuted || command is SetAudioEndpoint || command is SetLatencyPreset
            || command is SetAutoConnect || command is SetReceiverLevel,
    ensures
        step_sound(a, id, a.setting_begun(run, id, command)),
{
    reveal(ActorView::change_stored);
    lemma_completed(a, run, id);
    let stored = a.persisted;
    match command {
        BackendCommand::SetDesiredMembers { members } => lemma_members(a, run, id, members@),
        BackendCommand::SetRunIntent(intent) => lemma_intent(a, run, id, intent),
        BackendCommand::SetMasterVolume(volume) => lemma_scalar(
            a,
            run,
            id,
            PersistedView { master_volume: volume, ..stored },
            AnnounceView::MasterVolume(volume),
            FollowView::Volumes,
        ),
        BackendCommand::SetMuted(muted) => lemma_scalar(
            a,
            run,
            id,
            PersistedView { muted, ..stored },
            AnnounceView::Muted(muted),
            FollowView::Volumes,
        ),
        BackendCommand::SetAudioEndpoint(preference) => lemma_scalar(
            a,
            run,
            id,
            PersistedView { audio_endpoint: preference@, ..stored },
            AnnounceView::Endpoint(preference@),
            FollowView::Endpoint(preference@),
        ),
        BackendCommand::SetLatencyPreset(preset) => {
            if let Some(reason) = preset_disabled_text(preset) {
                lemma_rejected(a, run, id, reason);
            }
            lemma_scalar(
                a,
                run,
                id,
                PersistedView { latency_preset: preset, ..stored },
                AnnounceView::Latency(preset),
                FollowView::Latency,
            );
        },
        BackendCommand::SetAutoConnect(enabled) => {
            let armed = if enabled {
                a
            } else {
                ActorView { startup_auto_connect_until: None, ..a }
            };
            lemma_completed(armed, run, id);
            lemma_scalar(
                armed,
                run,
                id,
                PersistedView { auto_connect: enabled, ..stored },
                AnnounceView::AutoConnect(enabled),
                FollowView::Nothing,
            );
        },
        BackendCommand::SetReceiverLevel { receiver, level } => lemma_scalar(
            a,
            run,
            id,
            PersistedView {
                receiver_levels: stored.receiver_levels.insert(receiver, level),
                ..stored
            },
            AnnounceView::Nothing,
            FollowView::Volumes,
        ),
        _ => {},
    }
}

proof fn lemma_members<R>(a: ActorView, run: RunView<R>, id: u64, members: Set<ReceiverId>)
    ensures
        step_sound(a, id, a.members_requested(run, id, members)),
{
    reveal(ActorView::change_stored);
    lemma_completed(a, run, id);
    lemma_proposed(
        a,
        run,
        CommitView {
            id,
            candidate: PersistedView { last_desired_members: members, ..a.persisted },
            announce: AnnounceView::Members { members, counts: true },
            refresh_rows: true,
            sync_names: false,
        },
        FollowView::Membership,
    );
}

proof fn lemma_group_saved<R>(
    a: ActorView,
    run: RunView<R>,
    id: u64,
    edited: Option<SavedGroupId>,
    fresh: SavedGroupId,
    name: Seq<char>,
    members: Seq<MemberView>,
)
    ensures
        step_sound(a, id, a.group_save_requested(run, id, edited, fresh, name, members)),
{
    reveal(ActorView::change_stored);
    match group_refusal(a.persisted.saved_groups, edited, name, members) {
        Some(message) => lemma_rejected(a, run, id, message),
        None => {
            let group = GroupView {
                id: match edited {
                    Some(held) => held,
                    None => fresh,
                },
                name: trimmed(name),
                members,
            };
            if a.mirrors() {
                lemma_saved_group_multisets(
                    a.snapshot.saved_groups,
                    a.persisted.saved_groups,
                    group,
                );
            }
            lemma_proposed(
                a,
                run,
                CommitView {
                    id,
                    candidate: PersistedView {
                        saved_groups: listed(
                            without_group(a.persisted.saved_groups, group.id).push(group),
                        ),
                        ..a.persisted
                    },
                    announce: AnnounceView::GroupSaved(group),
                    refresh_rows: false,
                    sync_names: true,
                },
                FollowView::Nothing,
            );
        },
    }
}

proof fn lemma_group_deleted<R>(a: ActorView, run: RunView<R>, id: u64, group: SavedGroupId)
    ensures
        step_sound(a, id, a.group_delete_requested(run, id, group)),
{
    reveal(ActorView::change_stored);
    lemma_completed(a, run, id);
    if a.mirrors() {
        lemma_without_group_multisets(a.snapshot.saved_groups, a.persisted.saved_groups, group);
    }
    lemma_proposed(
        a,
        run,
        CommitView {
            id,
            candidate: PersistedView {
                saved_groups: without_group(a.persisted.saved_groups, group),
                ..a.persisted
            },
            announce: AnnounceView::GroupDeleted(group),
            refresh_rows: false,
            sync_names: true,
        },
        FollowView::Nothing,
    );
}

proof fn lemma_group_activated<R>(
    a: ActorView,
    run: RunView<R>,
    id: u64,
    group: SavedGroupId,
    start: bool,
)
    ensures
        step_sound(a, id, a.activation_requested(run, id, group, start)),
{
    reveal(ActorView::change_stored);
    match find_group(a.persisted.saved_groups, group) {
        None => lemma_rejected(a, run, id, "that saved group no longer exists"@),
        Some(found) => {
            let members = member_ids(found.members);
            lemma_proposed(
                a,
                run,
                CommitView {
                    id,
                    candidate: PersistedView {
                        last_desired_members: members,
                        receiver_levels: levels_with(a.persisted.receiver_levels, found.members),
                        ..a.persisted
                    },
                    announce: AnnounceView::Members {
                        members,
                        counts: members != a.persisted.last_desired_members,
                    },
                    refresh_rows: true,
                    sync_names: false,
                },
                FollowView::Activation { start },
            );
        },
    }
}

proof fn lemma_retry<R>(a: ActorView, run: RunView<R>, id: u64, receiver: ReceiverId)
    ensures
        step_sound(a, id, a.retried(receiver).rows_republished().completed(id).done(run)),
{
    let cleared = ActorView { retry: deadline_cleared(a.retry, receiver), ..a };
    lemma_driven_keeps(cleared, receiver, OpView::Retry);
    let retried = a.retried(receiver);
    lemma_showing_rows_keeps(retried, retried.snapshot);
    lemma_completed(retried.rows_republished(), run, id);
}

proof fn lemma_notified<R>(
    a: ActorView,
    run: RunView<R>,
    id: u64,
    event: SystemEvent,
    now: Instant,
)
    ensures
        step_sound(a, id, a.system_handled(event, now).completed(id).done(run)),
{
    law_platform_edges_keep_what_the_user_decided(a, event, now);
    lemma_completed(a.system_handled(event, now), run, id);
}

proof fn lemma_calibrated<R>(
    a: ActorView,
    run: RunView<R>,
    id: u64,
    request: CalibrationCommand,
    fits: bool,
)
    ensures
        step_sound(
            a,
            id,
            (
                a.calibration_begun(id, request, fits).0,
                run,
                a.calibration_begun(id, request, fits).1,
            ),
        ),
{
    let stale = "the receiver selection changed while calibrating; review it and apply again"@;
    let single = "calibration needs at least two selected receivers"@;
    let misfit = "the calibration values could not be applied"@;
    let lonely = "the alignment test needs at least two connected receivers"@;
    lemma_rejected(a, run, id, stale);
    lemma_rejected(a, run, id, single);
    lemma_rejected(a, run, id, misfit);
    lemma_rejected(a, run, id, lonely);
    lemma_completed(a.doing(EffectView::InjectClicks), run, id);
}

proof fn lemma_tone<R>(a: ActorView, run: RunView<R>, id: u64, guard: GuardView)
    ensures
        step_sound(a, id, (a.tone_requested(id, guard).0, run, a.tone_requested(id, guard).1)),
{
    lemma_rejected(
        a,
        run,
        id,
        "the listening test configuration changed or was already used"@,
    );
}

proof fn lemma_shutdown<R>(a: ActorView, run: RunView<R>, id: u64)
    ensures
        step_sound(a, id, a.shutdown_requested(id).done(run)),
{
    lemma_completed(a, run, id);
    lemma_completed(
        ActorView { listening_test: None, ..a }.doing(EffectView::CancelTone),
        run,
        id,
    );
}

/// A command that needs a write shows nothing, stores nothing, and asks for
/// nothing before the write; any other command has exactly one result at
/// once. Either way the settings shown stay the settings stored.
pub proof fn law_commands_store_before_they_show<R>(
    a: ActorView,
    run: RunView<R>,
    id: u64,
    command: BackendCommand,
    inputs: CommandInputs,
)
    ensures
        step_sound(a, id, a.command_begun(run, id, command, inputs)),
{
    match command {
        BackendCommand::ApplyDesiredMembers { members } => lemma_members(a, run, id, members@),
        BackendCommand::SaveGroup { id: edited, name, members } => lemma_group_saved(
            a,
            run,
            id,
            edited,
            inputs.fresh_group,
            name@,
            member_views(members@),
        ),
        BackendCommand::DeleteGroup(group) => lemma_group_deleted(a, run, id, group),
        BackendCommand::ActivateSavedGroup { id: group, start } =>
            lemma_group_activated(a, run, id, group, start),
        BackendCommand::RetryReceiver(receiver) => lemma_retry(
            a,
            RunView { reconcile: Some(ReconcileCause::Retry), ..run },
            id,
            receiver,
        ),
        BackendCommand::NotifySystem(event) => lemma_notified(a, run, id, event, inputs.now),
        BackendCommand::Calibration(request) =>
            lemma_calibrated(a, run, id, request, inputs.calibration_fits),
        BackendCommand::RunListeningTest(guard) => lemma_tone(a, run, id, guard@),
        BackendCommand::Shutdown => lemma_shutdown(a, RunView { shutdown: true, ..run }, id),
        _ => lemma_settings(a, run, id, command),
    }
}

proof fn lemma_rows_rebuilt(a: ActorView)
    ensures
        same_settings(a.snapshot, a.rows_rebuilt().snapshot),
        a.rows_rebuilt().persisted == a.persisted,
        a.rows_rebuilt().snapshot.command_outcomes == a.snapshot.command_outcomes,
        a.rows_rebuilt().snapshot.persistence == a.snapshot.persistence,
{
    reveal(ActorView::rows_rebuilt);
}

pub(crate) proof fn lemma_committed(a: ActorView, commit: CommitView)
    ensures
        a.committed(commit, true).persisted == commit.candidate,
        commit_mirrors(a, commit) ==> a.committed(commit, true).mirrors(),
        a.committed(commit, true).snapshot.persistence == PersistenceSnapshot::Healthy,
        a.committed(commit, true).snapshot.command_outcomes == outcome_recorded(
            a.snapshot.command_outcomes,
            commit.id,
            None,
        ),
{
    reveal(ActorView::committed);
    reveal(ActorView::change_stored);
    let stored = a.change_stored(commit.candidate, commit.announce);
    lemma_rows_rebuilt(stored);
    let rowed = if commit.refresh_rows { stored.rows_rebuilt() } else { stored };
    let named = if commit.sync_names { rowed.names_synced() } else { rowed };
    lemma_published_keeps(named.completed(commit.id));
}

/// A change that could not be written is applied nowhere: settings, run
/// intent, stored state, and launch policy all stand, the persistence error
/// is flagged, and the command is answered with it.
pub proof fn law_failed_write_changes_nothing<R>(
    a: ActorView,
    run: RunView<R>,
    commit: CommitView,
    follow: FollowView,
)
    ensures
        same_settings(a.snapshot, a.save_answered(run, commit, follow, false).0.snapshot),
        a.save_answered(run, commit, follow, false).0.snapshot.run_intent == a.snapshot.run_intent,
        a.save_answered(run, commit, follow, false).0.persisted == a.persisted,
        a.save_answered(run, commit, follow, false).0.startup_auto_connect_until
            == a.startup_auto_connect_until,
        a.save_answered(run, commit, follow, false).0.saved_names == a.saved_names,
        a.save_answered(run, commit, follow, false).0.session_generation == a.session_generation,
        a.save_answered(run, commit, follow, false).0.snapshot.persistence
            == PersistenceSnapshot::Error,
        a.save_answered(run, commit, follow, false).0.snapshot.command_outcomes
            == outcome_recorded(
            a.snapshot.command_outcomes,
            commit.id,
            Some(CommandFailure::Persistence),
        ),
        a.save_answered(run, commit, follow, false).1 == run,
{
    reveal(ActorView::save_answered);
    reveal(ActorView::committed);
    reveal(ActorView::settled);
    reveal(ActorView::save_failed);
    lemma_published_keeps(a.save_failed(commit.id));
    assert(a.committed(commit, false).snapshot.persistence == PersistenceSnapshot::Error
        && a.committed(commit, false).session_generation == a.session_generation) by {
        reveal(ActorView::published);
    }
}

/// A change that was written is exactly what is stored and shown afterwards,
/// its command succeeded, and persistence is healthy again even if an earlier
/// write had failed.
pub proof fn law_written_change_is_stored_and_shown<R>(
    a: ActorView,
    run: RunView<R>,
    commit: CommitView,
    follow: FollowView,
)
    requires
        commit_mirrors(a, commit),
    ensures
        a.save_answered(run, commit, follow, true).0.persisted == commit.candidate,
        a.save_answered(run, commit, follow, true).0.mirrors(),
        a.save_answered(run, commit, follow, true).0.snapshot.persistence
            == PersistenceSnapshot::Healthy,
        a.save_answered(run, commit, follow, true).0.snapshot.command_outcomes == outcome_recorded(
            a.snapshot.command_outcomes,
            commit.id,
            None,
        ),
{
    reveal(ActorView::save_answered);
    lemma_committed(a, commit);
    lemma_settled(a.committed(commit, true), run, follow, CommitOutcome::Applied);
}

/// Whatever the store answers, every command ends with exactly one result and
/// with the settings shown equal to the settings stored.
pub proof fn law_every_durable_command_is_answered_once<R>(
    a: ActorView,
    run: RunView<R>,
    id: u64,
    command: BackendCommand,
    inputs: CommandInputs,
    saved: bool,
)
    requires
        a.mirrors(),
    ensures
        match a.command_begun(run, id, command, inputs) {
            (begun, left, StepView::Save(commit, follow)) => {
                let after = begun.save_answered(left, commit, follow, saved).0;
                after.mirrors() && answered_once(
                    a.snapshot.command_outcomes,
                    after.snapshot.command_outcomes,
                    id,
                )
            },
            (begun, _, StepView::Done) => begun.mirrors() && answered_once(
                a.snapshot.command_outcomes,
                begun.snapshot.command_outcomes,
                id,
            ),
            _ => true,
        },
{
    law_commands_store_before_they_show(a, run, id, command, inputs);
    let (begun, left, step) = a.command_begun(run, id, command, inputs);
    if let StepView::Save(commit, follow) = step {
        if saved {
            law_written_change_is_stored_and_shown(begun, left, commit, follow);
        } else {
            law_failed_write_changes_nothing(begun, left, commit, follow);
        }
    }
}

/// Applying a calibration never changes settings; the profile is in force only
/// if its section was written, and then exactly one restart is owed.
pub proof fn law_calibration_is_stored_before_it_applies<R>(
    a: ActorView,
    run: RunView<R>,
    id: u64,
    profile: CalibrationView,
    saved: bool,
)
    ensures
        a.calibration_answered(run, id, profile, saved).0.calibration == (if saved {
            profile
        } else {
            a.calibration
        }),
        a.calibration_answered(run, id, profile, saved).1 == (if saved {
            RunView { reconcile: Some(ReconcileCause::CalibrationChanged), ..run }
        } else {
            run
        }),
        same_settings(a.snapshot, a.calibration_answered(run, id, profile, saved).0.snapshot),
        a.calibration_answered(run, id, profile, saved).0.snapshot.persistence == (if saved {
            PersistenceSnapshot::Healthy
        } else {
            PersistenceSnapshot::Error
        }),
        answered_once(
            a.snapshot.command_outcomes,
            a.calibration_answered(run, id, profile, saved).0.snapshot.command_outcomes,
            id,
        ),
{
    reveal(ActorView::calibration_answered);
    reveal(ActorView::save_failed);
    let failed = a.save_failed(id).calibration_noted(
        CalibrationApplyState::Failed,
    );
    lemma_published_keeps(failed);
    assert(failed.snapshot.command_outcomes == outcome_recorded(
        a.snapshot.command_outcomes,
        id,
        Some(CommandFailure::Persistence),
    ));
    let applied = ActorView { calibration: profile, ..a }.completed(id);
    assert(applied.snapshot.command_outcomes == outcome_recorded(
        a.snapshot.command_outcomes,
        id,
        None,
    ));
}

/// A tone plays at most once per session generation, and only in the exact
/// configuration it was authorized for.
pub proof fn law_tone_plays_once_per_generation(a: ActorView, id: u64, guard: GuardView, next: u64)
    ensures
        a.tone_requested(id, guard).1 is StartTone ==> guard_holds(
            guard,
            a.snapshot,
        ),
        !(a.tone_answered(id, guard, true).tone_requested(next, guard).1 is StartTone),
{
}

/// The answer to a receipt names the revision of the very publication that
/// follows it.
pub proof fn law_receipts_name_the_next_publication(a: ActorView, id: u64)
    requires
        a.snapshot.revision < u64::MAX,
    ensures
        a.receipt_answer(id) matches Some(answer) ==> answer.revision
            == a.published().snapshot.revision,
        a.start_answer().revision == a.published().snapshot.revision,
{
    reveal(ActorView::published);
}

/// A group start is answered by an attempt that can still carry it: a
/// suspended start waits for a generation newer than the current one.
pub proof fn law_suspended_start_waits_for_a_new_generation(a: ActorView)
    requires
        a.session_generation < u64::MAX,
    ensures
        a.suspended ==> a.start_floor() > a.session_generation,
        !a.suspended && a.session_open ==> a.start_floor() == a.session_generation,
{
}

/// The end of a batch forwards volumes, reconciles, and answers; it changes
/// nothing the user decided.
pub proof fn law_batch_end_keeps_what_the_user_decided<R>(a: ActorView, run: RunView<R>)
    ensures
        a.keeps(a.batch_finished(run)),
{
    reveal(ActorView::batch_finished);
    reveal(ActorView::batch_applied);
    lemma_volumes_keep(a, ascending_list(a.snapshot.desired_members));
    let remembered = a.remembering();
    lemma_volumes_keep(remembered, ascending_list(remembered.active));
    let heard = if run.volumes_changed { remembered.forwarding() } else { a };
    assert(a.keeps(heard));
    if let Some(cause) = run.reconcile {
        lemma_reconciled_keeps(heard, cause);
    }
    let applied = a.batch_applied(run);
    assert(a.keeps(applied));
    lemma_published_keeps(applied);
    let answered = if run.group_starts.len() > 0 { applied.published() } else { applied };
    assert(a.keeps(answered));
    lemma_published_keeps(answered);
}

/// Saving or deleting a group touches neither the membership nor the levels,
/// and owes no restart.
pub proof fn law_editing_groups_restarts_nothing<R>(
    a: ActorView,
    run: RunView<R>,
    id: u64,
    command: BackendCommand,
    inputs: CommandInputs,
)
    requires
        command is SaveGroup || command is DeleteGroup,
    ensures
        a.command_begun(run, id, command, inputs).1 == run,
        match a.command_begun(run, id, command, inputs).2 {
            StepView::Save(commit, follow) => {
                &&& follow is Nothing
                &&& commit.candidate.last_desired_members == a.persisted.last_desired_members
                &&& commit.candidate.receiver_levels == a.persisted.receiver_levels
                &&& a.save_answered(run, commit, follow, true).1 == run
            },
            _ => true,
        },
{
    reveal(ActorView::proposed);
    reveal(ActorView::settled);
    reveal(ActorView::save_answered);
}

/// Starting the group the selection already equals starts it, although there
/// is nothing to write; declining to start one spends the launch policy.
pub proof fn law_activation_acts_without_a_write<R>(a: ActorView, run: RunView<R>)
    ensures
        a.settled(
            run,
            FollowView::Activation { start: true },
            CommitOutcome::Unchanged,
        ).0.snapshot.run_intent == RunIntent::Running,
        a.snapshot.run_intent == RunIntent::Stopped && run.reconcile is None ==> a.settled(
            run,
            FollowView::Activation { start: true },
            CommitOutcome::Unchanged,
        ).1.reconcile == Some(ReconcileCause::SavedGroup),
        a.settled(
            run,
            FollowView::Activation { start: false },
            CommitOutcome::Unchanged,
        ).0.startup_auto_connect_until is None,
{
    reveal(ActorView::settled);
    lemma_published_keeps(
        ActorView {
            snapshot: SnapshotView { run_intent: RunIntent::Running, ..a.snapshot },
            ..a
        },
    );
}

impl<R> BatchDriverView<R> {
    /// Whether the settings shown are the settings stored, and stay so
    /// whatever the write that is waited for answers.
    pub open spec fn sound(self, actor: ActorView) -> bool {
        &&& actor.mirrors()
        &&& match self.waiting {
            Some(held) => match held.step {
                StepView::Save(commit, _) => commit.id == held.id && commit_mirrors(actor, commit),
                _ => true,
            },
            None => true,
        }
    }
}

proof fn lemma_closed_mirrors<R>(
    a: ActorView,
    run: RunView<R>,
    id: u64,
    starts: bool,
    receipt: Option<R>,
)
    requires
        a.mirrors(),
    ensures
        a.closed(run, id, starts, receipt).0.mirrors(),
        a.closed(run, id, starts, receipt).1.work == run.work,
{
    lemma_published_keeps(a);
}

/// Every step of a batch keeps the settings shown equal to the settings
/// stored, whatever is written, refused, or fails.
pub proof fn law_batches_show_what_is_stored<R>(
    driver: BatchDriverView<R>,
    actor: ActorView,
    inputs: CommandInputs,
    succeeded: bool,
)
    requires
        driver.sound(actor),
    ensures
        driver.proceeded(actor, inputs).1.sound(driver.proceeded(actor, inputs).0),
        driver.answered(actor, succeeded).1.sound(driver.answered(actor, succeeded).0),
{
    if !driver.finished && driver.waiting is None {
        if driver.run.shutdown || driver.run.work.len() == 0 {
            law_batch_end_keeps_what_the_user_decided(actor, driver.run);
        } else {
            let item = driver.run.work[0];
            let rest = RunView { work: driver.run.work.skip(1), ..driver.run };
            law_commands_store_before_they_show(actor, rest, item.id, item.command, inputs);
            let (begun, left, step) = actor.command_begun(rest, item.id, item.command, inputs);
            if step is Done {
                lemma_closed_mirrors(
                    begun,
                    left,
                    item.id,
                    starts_group(item.command),
                    item.receipt,
                );
            }
        }
    }
    if let Some(held) = driver.waiting {
        match held.step {
            StepView::Done => lemma_closed_mirrors(
                actor,
                driver.run,
                held.id,
                held.starts,
                held.receipt,
            ),
            StepView::Save(commit, follow) => {
                if succeeded {
                    law_written_change_is_stored_and_shown(actor, driver.run, commit, follow);
                } else {
                    law_failed_write_changes_nothing(actor, driver.run, commit, follow);
                }
                let (ended, left) = actor.save_answered(driver.run, commit, follow, succeeded);
                lemma_closed_mirrors(ended, left, held.id, held.starts, held.receipt);
            },
            StepView::SaveCalibration { id, profile, .. } => {
                law_calibration_is_stored_before_it_applies(
                    actor,
                    driver.run,
                    id,
                    profile,
                    succeeded,
                );
                reveal(ActorView::calibration_answered);
                reveal(ActorView::save_failed);
                let (ended, left) = actor.calibration_answered(driver.run, id, profile, succeeded);
                lemma_published_keeps(
                    actor.save_failed(id).calibration_noted(CalibrationApplyState::Failed),
                );
                lemma_closed_mirrors(ended, left, held.id, held.starts, held.receipt);
            },
            StepView::StartTone { id, guard } => {
                let ended = actor.tone_answered(id, guard, succeeded);
                lemma_closed_mirrors(ended, driver.run, held.id, held.starts, held.receipt);
            },
        }
    }
}

proof fn lemma_work_untouched<R>(
    a: ActorView,
    run: RunView<R>,
    id: u64,
    command: BackendCommand,
    inputs: CommandInputs,
)
    ensures
        a.command_begun(run, id, command, inputs).1.work == run.work,
{
    assert forall|x: ActorView, commit: CommitView, follow: FollowView|
        (#[trigger] x.proposed(run, commit, follow)).1.work == run.work by {
        reveal(ActorView::proposed);
        reveal(ActorView::settled);
    }
    assert forall|intent: RunIntent|
        (#[trigger] a.intent_requested(run, id, intent)).1.work == run.work by {
        reveal(ActorView::intent_requested);
    }
}

/// Every command of a batch runs exactly once: beginning one takes it from
/// the work left, answering one takes nothing, and a batch without work left
/// ends.
pub proof fn law_every_command_runs_once<R>(
    driver: BatchDriverView<R>,
    actor: ActorView,
    inputs: CommandInputs,
    succeeded: bool,
)
    ensures
        !driver.finished && driver.waiting is None && !driver.run.shutdown
            && driver.run.work.len() > 0 ==> driver.proceeded(actor, inputs).1.run.work
            == driver.run.work.skip(1),
        !driver.finished && driver.waiting is None && (driver.run.shutdown
            || driver.run.work.len() == 0) ==> driver.proceeded(actor, inputs).1.finished,
        driver.answered(actor, succeeded).1.run.work == driver.run.work,
        driver.finished ==> driver.proceeded(actor, inputs).0 == actor,
{
    if driver.run.work.len() > 0 {
        let item = driver.run.work[0];
        let rest = RunView { work: driver.run.work.skip(1), ..driver.run };
        lemma_work_untouched(actor, rest, item.id, item.command, inputs);
    }
    reveal(ActorView::save_answered);
    reveal(ActorView::settled);
    reveal(ActorView::calibration_answered);
}

} // verus!
