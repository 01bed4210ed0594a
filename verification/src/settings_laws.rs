//! What the settings commands do once their write succeeded.

use vstd::prelude::*;

use crate::actor_model::{ActorView, CommitOutcome, CommitView, ReconcileCause};
use crate::batch_model::{
    find_group, levels_with, CommandInputs, FollowView, RunView, StepView,
};
use crate::capture::CaptureControl;
use crate::command::BackendCommand;
use crate::command_laws::lemma_committed;
use crate::ids::ReceiverId;
use crate::model::{
    member_views, outcome_recorded, AudioEndpointPreference, CommandFailure, GroupView,
    LatencyPreset, MemberView, OutcomesView, RunIntent, SavedGroupId, Volume,
};
use crate::idmap::IdSet;
use crate::persistence::{
    document_problem, law_validation_accepts_exactly_valid_preferences, PersistedView,
};
use crate::requests::{asked, lemma_requested_push, Requests};
use crate::transport_laws::{
    lemma_published_asks_nothing, lemma_results_ask_nothing,
};

verus! {

broadcast use lemma_requested_push;

/// A command run to its end, its write answered with `saved`. A command that
/// waits for something other than a durable change is left waiting.
pub open spec fn carried_out<R>(
    a: ActorView,
    run: RunView<R>,
    id: u64,
    command: BackendCommand,
    inputs: CommandInputs,
    saved: bool,
) -> (ActorView, RunView<R>) {
    let (begun, left, step) = a.command_begun(run, id, command, inputs);
    match step {
        StepView::Save(commit, follow) => begun.save_answered(left, commit, follow, saved),
        _ => (begun, left),
    }
}

/// Whether the newest command result is that of `id`, and how it ended.
pub open spec fn ended(b: ActorView, id: u64, error: Option<CommandFailure>) -> bool {
    &&& b.snapshot.command_outcomes.recent.len() > 0
    &&& b.snapshot.command_outcomes.recent.last() == (id, error)
}

pub(crate) proof fn lemma_recorded_last(history: OutcomesView, id: u64, error: Option<CommandFailure>)
    ensures
        outcome_recorded(history, id, error).recent.len() > 0,
        outcome_recorded(history, id, error).recent.last() == (id, error),
{
}

/// What `settled` leaves alone.
proof fn lemma_settled_frame<R>(
    a: ActorView,
    run: RunView<R>,
    follow: FollowView,
    outcome: CommitOutcome,
)
    ensures
        ({
            let (b, r) = a.settled(run, follow, outcome);
            &&& b.persisted == a.persisted
            &&& b.snapshot.command_outcomes == a.snapshot.command_outcomes
            &&& b.snapshot.desired_members == a.snapshot.desired_members
            &&& b.snapshot.desired_revision == a.snapshot.desired_revision
            &&& !(follow is Activation) ==> b.snapshot == a.snapshot
                && b.startup_auto_connect_until == a.startup_auto_connect_until
            &&& !(follow is Endpoint) ==> asked(b) == asked(a)
            &&& r.shutdown == run.shutdown
            &&& r.group_starts == run.group_starts
            &&& r.work == run.work
        }),
{
    reveal(ActorView::settled);
    if let FollowView::Activation { start } = follow {
        let disarmed = if !start && outcome.intended() {
            ActorView { startup_auto_connect_until: None, ..a }
        } else {
            a
        };
        let started = ActorView {
            snapshot: crate::model::SnapshotView {
                run_intent: RunIntent::Running,
                ..disarmed.snapshot
            },
            ..disarmed
        };
        lemma_published_asks_nothing(started);
        reveal(ActorView::published);
    }
}

proof fn lemma_committed_frame(a: ActorView, commit: CommitView)
    ensures
        ({
            let b = a.committed(commit, true);
            &&& b.persisted == commit.candidate
            &&& ended(b, commit.id, None)
            &&& asked(b) == asked(a)
            &&& b.snapshot.run_intent == a.snapshot.run_intent
            &&& b.startup_auto_connect_until == a.startup_auto_connect_until
            &&& b.snapshot.desired_revision == crate::actor_model::announced(
                a.snapshot,
                commit.announce,
            ).desired_revision
            &&& b.session_open == a.session_open
            &&& b.suspended == a.suspended
        }),
{
    lemma_committed(a, commit);
    lemma_recorded_last(a.snapshot.command_outcomes, commit.id, None);
    reveal(ActorView::committed);
    reveal(ActorView::change_stored);
    reveal(ActorView::rows_rebuilt);
    let stored = a.change_stored(commit.candidate, commit.announce);
    let rowed = if commit.refresh_rows { stored.rows_rebuilt() } else { stored };
    let named = if commit.sync_names { rowed.names_synced() } else { rowed };
    lemma_results_ask_nothing(named, commit.id, Seq::empty(), CommandFailure::Rejected);
    lemma_published_asks_nothing(named.completed(commit.id));
    reveal(ActorView::published);
}

/// A proposed change whose write succeeds ends as its candidate; one that
/// changes nothing is accepted as it stands.
pub(crate) proof fn lemma_proposal<R>(a: ActorView, run: RunView<R>, commit: CommitView, follow: FollowView)
    requires
        document_problem(commit.candidate, 1) is None,
    ensures
        ({
            let (begun, left, step) = a.proposed(run, commit, follow);
            let unchanged = crate::persistence::same_state(commit.candidate, a.persisted);
            &&& unchanged ==> step is Done && (begun, left) == a.completed(commit.id).settled(
                run,
                follow,
                CommitOutcome::Unchanged,
            )
            &&& !unchanged ==> step == StepView::Save(commit, follow) && begun == a && left == run
            &&& !unchanged ==> begun.save_answered(left, commit, follow, true) == a.committed(
                commit,
                true,
            ).settled(run, follow, CommitOutcome::Applied)
        }),
{
    reveal(ActorView::proposed);
    reveal(ActorView::save_answered);
}

proof fn lemma_completed_frame(a: ActorView, id: u64)
    ensures
        ended(a.completed(id), id, None),
        asked(a.completed(id)) == asked(a),
        a.completed(id).persisted == a.persisted,
{
    lemma_recorded_last(a.snapshot.command_outcomes, id, None);
}

/// Whether two stored states agree in all but their volumes and levels.
pub open spec fn same_but_volumes(a: PersistedView, b: PersistedView) -> bool {
    &&& a.version == b.version
    &&& a.saved_groups == b.saved_groups
    &&& a.last_desired_members == b.last_desired_members
    &&& a.audio_endpoint == b.audio_endpoint
    &&& a.latency_preset == b.latency_preset
    &&& a.auto_connect == b.auto_connect
}

/// Setting the master volume stores exactly that number, touches nothing else
/// that is stored, succeeds, and owes the receivers a volume update exactly if
/// the number changed.
pub proof fn law_master_volume_is_stored_as_set<R>(
    a: ActorView,
    run: RunView<R>,
    id: u64,
    volume: Volume,
    inputs: CommandInputs,
)
    requires
        document_problem(a.persisted, 1) is None,
    ensures
        ({
            let (b, r) = carried_out(
                a,
                run,
                id,
                BackendCommand::SetMasterVolume(volume),
                inputs,
                true,
            );
            let changes = volume.units() != a.persisted.master_volume.units();
            &&& b.persisted.master_volume.units() == volume.units()
            &&& same_but_volumes(b.persisted, a.persisted)
            &&& b.persisted.muted == a.persisted.muted
            &&& b.persisted.receiver_levels == a.persisted.receiver_levels
            &&& ended(b, id, None)
            &&& asked(b) == asked(a)
            &&& r.volumes_changed <==> run.volumes_changed || changes
            &&& r.reconcile == run.reconcile
        }),
{
    let commit = CommitView {
        id,
        candidate: PersistedView { master_volume: volume, ..a.persisted },
        announce: crate::actor_model::AnnounceView::MasterVolume(volume),
        refresh_rows: false,
        sync_names: false,
    };
    lemma_proposal(a, run, commit, FollowView::Volumes);
    lemma_committed_frame(a, commit);
    lemma_completed_frame(a, id);
    lemma_settled_frame(a.committed(commit, true), run, FollowView::Volumes, CommitOutcome::Applied);
    reveal(ActorView::settled);
}

/// Muting and unmuting store the flag and keep every volume and level; the
/// receivers are owed a volume update exactly if the flag changed.
pub proof fn law_muting_keeps_every_volume<R>(
    a: ActorView,
    run: RunView<R>,
    id: u64,
    muted: bool,
    inputs: CommandInputs,
)
    requires
        document_problem(a.persisted, 1) is None,
    ensures
        ({
            let (b, r) = carried_out(a, run, id, BackendCommand::SetMuted(muted), inputs, true);
            &&& b.persisted.muted == muted
            &&& same_but_volumes(b.persisted, a.persisted)
            &&& b.persisted.master_volume == a.persisted.master_volume
            &&& b.persisted.receiver_levels == a.persisted.receiver_levels
            &&& ended(b, id, None)
            &&& asked(b) == asked(a)
            &&& r.volumes_changed <==> run.volumes_changed || muted != a.persisted.muted
            &&& r.reconcile == run.reconcile
        }),
{
    let commit = CommitView {
        id,
        candidate: PersistedView { muted, ..a.persisted },
        announce: crate::actor_model::AnnounceView::Muted(muted),
        refresh_rows: false,
        sync_names: false,
    };
    lemma_proposal(a, run, commit, FollowView::Volumes);
    lemma_committed_frame(a, commit);
    lemma_completed_frame(a, id);
    lemma_settled_frame(a.committed(commit, true), run, FollowView::Volumes, CommitOutcome::Applied);
    reveal(ActorView::settled);
}

/// Setting one receiver's level stores exactly that number for it and keeps
/// every other receiver's level and everything else.
pub proof fn law_a_level_is_stored_for_its_receiver_alone<R>(
    a: ActorView,
    run: RunView<R>,
    id: u64,
    receiver: ReceiverId,
    level: Volume,
    inputs: CommandInputs,
    other: ReceiverId,
)
    requires
        document_problem(a.persisted, 1) is None,
    ensures
        ({
            let (b, r) = carried_out(
                a,
                run,
                id,
                BackendCommand::SetReceiverLevel { receiver, level },
                inputs,
                true,
            );
            let held = a.persisted.receiver_levels;
            let changes = !held.contains_key(receiver) || held[receiver].units() != level.units();
            &&& b.persisted.receiver_levels.contains_key(receiver)
            &&& b.persisted.receiver_levels[receiver].units() == level.units()
            &&& other != receiver ==> {
                &&& b.persisted.receiver_levels.contains_key(other) <==> held.contains_key(other)
                &&& held.contains_key(other) ==> b.persisted.receiver_levels[other] == held[other]
            }
            &&& same_but_volumes(b.persisted, a.persisted)
            &&& b.persisted.master_volume == a.persisted.master_volume
            &&& b.persisted.muted == a.persisted.muted
            &&& ended(b, id, None)
            &&& asked(b) == asked(a)
            &&& r.volumes_changed <==> run.volumes_changed || changes
            &&& r.reconcile == run.reconcile
        }),
{
    let commit = CommitView {
        id,
        candidate: PersistedView {
            receiver_levels: a.persisted.receiver_levels.insert(receiver, level),
            ..a.persisted
        },
        announce: crate::actor_model::AnnounceView::Nothing,
        refresh_rows: false,
        sync_names: false,
    };
    lemma_proposal(a, run, commit, FollowView::Volumes);
    lemma_committed_frame(a, commit);
    lemma_completed_frame(a, id);
    lemma_settled_frame(a.committed(commit, true), run, FollowView::Volumes, CommitOutcome::Applied);
    assert(commit.candidate.receiver_levels[receiver] == level);
    if crate::persistence::same_state(commit.candidate, a.persisted) {
        assert(commit.candidate.receiver_levels.contains_key(receiver));
        assert(a.persisted.receiver_levels.dom() == commit.candidate.receiver_levels.dom());
    }
    reveal(ActorView::settled);
}

/// Choosing a playback device stores it and, exactly if it is another one,
/// hands it to capture, asks capture to reopen on it, and scans the endpoints;
/// the session is not touched.
pub proof fn law_choosing_a_device_moves_capture_to_it<R>(
    a: ActorView,
    run: RunView<R>,
    id: u64,
    preference: AudioEndpointPreference,
    inputs: CommandInputs,
)
    requires
        document_problem(a.persisted, 1) is None,
    ensures
        ({
            let (b, r) = carried_out(
                a,
                run,
                id,
                BackendCommand::SetAudioEndpoint(preference),
                inputs,
                true,
            );
            &&& b.persisted.audio_endpoint == preference@
            &&& b.persisted == (PersistedView {
                audio_endpoint: b.persisted.audio_endpoint,
                ..a.persisted
            })
            &&& ended(b, id, None)
            &&& preference@ == a.persisted.audio_endpoint ==> asked(b) == asked(a)
            &&& preference@ != a.persisted.audio_endpoint ==> asked(b) == (Requests {
                preferences: asked(a).preferences.push(preference@),
                ..asked(a).with_scan().with_capture(CaptureControl::RequestEndpointChange)
            })
            &&& r == run
        }),
{
    let commit = CommitView {
        id,
        candidate: PersistedView { audio_endpoint: preference@, ..a.persisted },
        announce: crate::actor_model::AnnounceView::Endpoint(preference@),
        refresh_rows: false,
        sync_names: false,
    };
    lemma_proposal(a, run, commit, FollowView::Endpoint(preference@));
    lemma_committed_frame(a, commit);
    lemma_completed_frame(a, id);
    lemma_settled_frame(
        a.committed(commit, true),
        run,
        FollowView::Endpoint(preference@),
        CommitOutcome::Applied,
    );
    reveal(ActorView::settled);
}

/// Only the normal latency preset can be selected; any other is rejected and
/// changes nothing.
pub proof fn law_only_the_normal_latency_preset_is_accepted<R>(
    a: ActorView,
    run: RunView<R>,
    id: u64,
    preset: LatencyPreset,
    inputs: CommandInputs,
)
    requires
        document_problem(a.persisted, 1) is None,
    ensures
        ({
            let (b, r) = carried_out(
                a,
                run,
                id,
                BackendCommand::SetLatencyPreset(preset),
                inputs,
                true,
            );
            &&& preset == LatencyPreset::Normal ==> ended(b, id, None)
                && b.persisted.latency_preset == preset
            &&& preset != LatencyPreset::Normal ==> ended(b, id, Some(CommandFailure::Rejected))
            &&& b.persisted == a.persisted
            &&& asked(b) == asked(a)
            &&& r == run
        }),
{
    lemma_completed_frame(a, id);
    lemma_recorded_last(a.snapshot.command_outcomes, id, Some(CommandFailure::Rejected));
}

/// The auto-connect policy is stored for later launches: turning it on never
/// arms the running process, turning it off disarms it.
pub proof fn law_auto_connect_is_for_later_launches<R>(
    a: ActorView,
    run: RunView<R>,
    id: u64,
    enabled: bool,
    inputs: CommandInputs,
)
    requires
        document_problem(a.persisted, 1) is None,
    ensures
        ({
            let (b, r) = carried_out(
                a,
                run,
                id,
                BackendCommand::SetAutoConnect(enabled),
                inputs,
                true,
            );
            &&& b.persisted.auto_connect == enabled
            &&& b.persisted == (PersistedView { auto_connect: enabled, ..a.persisted })
            &&& b.startup_auto_connect_until == if enabled {
                a.startup_auto_connect_until
            } else {
                None
            }
            &&& b.snapshot.run_intent == a.snapshot.run_intent
            &&& ended(b, id, None)
            &&& asked(b) == asked(a)
            &&& r == run
        }),
{
    let armed = if enabled { a } else { ActorView { startup_auto_connect_until: None, ..a } };
    let commit = CommitView {
        id,
        candidate: PersistedView { auto_connect: enabled, ..a.persisted },
        announce: crate::actor_model::AnnounceView::AutoConnect(enabled),
        refresh_rows: false,
        sync_names: false,
    };
    lemma_proposal(armed, run, commit, FollowView::Nothing);
    lemma_committed_frame(armed, commit);
    lemma_completed_frame(armed, id);
    lemma_settled_frame(
        armed.committed(commit, true),
        run,
        FollowView::Nothing,
        CommitOutcome::Applied,
    );
    reveal(ActorView::settled);
}

/// Whether a command replaces the selection by `members`.
pub open spec fn selects(command: BackendCommand, members: IdSet) -> bool {
    command == (BackendCommand::SetDesiredMembers { members }) || command == (
    BackendCommand::ApplyDesiredMembers { members })
}

/// A selection is stored whole. Exactly if it differs from the stored one the
/// membership revision advances by one and a rebuild is owed.
pub proof fn law_a_selection_replaces_the_whole_membership<R>(
    a: ActorView,
    run: RunView<R>,
    id: u64,
    members: IdSet,
    command: BackendCommand,
    inputs: CommandInputs,
)
    requires
        document_problem(a.persisted, 1) is None,
        selects(command, members),
    ensures
        ({
            let (b, r) = carried_out(a, run, id, command, inputs, true);
            let changes = members@ != a.persisted.last_desired_members;
            &&& b.persisted.last_desired_members == members@
            &&& b.persisted == (PersistedView { last_desired_members: members@, ..a.persisted })
            &&& ended(b, id, None)
            &&& asked(b) == asked(a)
            &&& r.reconcile == if changes { Some(ReconcileCause::Membership) } else { run.reconcile }
            &&& r.volumes_changed == run.volumes_changed
            &&& a.snapshot.desired_revision < u64::MAX ==> b.snapshot.desired_revision
                == a.snapshot.desired_revision + if changes { 1int } else { 0int }
        }),
{
    let commit = CommitView {
        id,
        candidate: PersistedView { last_desired_members: members@, ..a.persisted },
        announce: crate::actor_model::AnnounceView::Members { members: members@, counts: true },
        refresh_rows: true,
        sync_names: false,
    };
    lemma_proposal(a, run, commit, FollowView::Membership);
    lemma_committed_frame(a, commit);
    lemma_completed_frame(a, id);
    lemma_settled_frame(
        a.committed(commit, true),
        run,
        FollowView::Membership,
        CommitOutcome::Applied,
    );
    reveal(ActorView::settled);
}

/// Start and Stop take effect at once, spend the launch policy either way,
/// and owe a rebuild exactly if the intent changed; nothing is stored.
pub proof fn law_start_and_stop_take_effect_at_once<R>(
    a: ActorView,
    run: RunView<R>,
    id: u64,
    intent: RunIntent,
    inputs: CommandInputs,
)
    ensures
        ({
            let (b, r) = carried_out(a, run, id, BackendCommand::SetRunIntent(intent), inputs, true);
            let changes = intent != a.snapshot.run_intent;
            &&& b.snapshot.run_intent == intent
            &&& b.startup_auto_connect_until is None
            &&& b.persisted == a.persisted
            &&& b.snapshot.desired_members == a.snapshot.desired_members
            &&& ended(b, id, None)
            &&& asked(b) == asked(a)
            &&& r.reconcile == if changes { Some(ReconcileCause::Membership) } else { run.reconcile }
            &&& r.volumes_changed == run.volumes_changed
            &&& changes && a.snapshot.revision < u64::MAX ==> b.snapshot.revision
                == a.snapshot.revision + 1
        }),
{
    reveal(ActorView::intent_requested);
    reveal(ActorView::published);
    lemma_recorded_last(a.snapshot.command_outcomes, id, None);
    let answered = ActorView { startup_auto_connect_until: None, ..a };
    let meant = ActorView {
        snapshot: crate::model::SnapshotView { run_intent: intent, ..answered.snapshot },
        ..answered
    };
    lemma_published_asks_nothing(meant.completed(id));
}

proof fn lemma_levels_with(levels: Map<ReceiverId, Volume>, members: Seq<MemberView>, id: ReceiverId)
    requires
        forall|i: int, j: int|
            0 <= i < j < members.len() ==> (#[trigger] members[i]).receiver != (
            #[trigger] members[j]).receiver,
    ensures
        forall|i: int|
            0 <= i < members.len() ==> levels_with(levels, members).contains_key(
                (#[trigger] members[i]).receiver,
            ) && levels_with(levels, members)[members[i].receiver] == members[i].level,
        (forall|i: int| 0 <= i < members.len() ==> (#[trigger] members[i]).receiver != id) ==> (
        levels_with(levels, members).contains_key(id) <==> levels.contains_key(id)) && levels_with(
            levels,
            members,
        )[id] == levels[id],
    decreases members.len(),
{
    if members.len() > 0 {
        let front = members.drop_last();
        assert forall|i: int, j: int| 0 <= i < j < front.len() implies (
        #[trigger] front[i]).receiver != (#[trigger] front[j]).receiver by {
            assert(members[i].receiver != members[j].receiver);
        }
        lemma_levels_with(levels, front, id);
        assert forall|i: int| 0 <= i < members.len() implies levels_with(
            levels,
            members,
        ).contains_key((#[trigger] members[i]).receiver) && levels_with(
            levels,
            members,
        )[members[i].receiver] == members[i].level by {
            if i < front.len() {
                assert(front[i] == members[i]);
                assert(members[i].receiver != members[members.len() - 1].receiver);
            }
        }
        if forall|i: int| 0 <= i < members.len() ==> (#[trigger] members[i]).receiver != id {
            assert forall|i: int| 0 <= i < front.len() implies (#[trigger] front[i]).receiver
                != id by {
                assert(members[i].receiver != id);
            }
            assert(members[members.len() - 1].receiver != id);
        }
    }
}

proof fn lemma_found_group(groups: Seq<GroupView>, id: SavedGroupId, k: int)
    requires
        0 <= k < groups.len(),
        groups[k].id == id,
        forall|j: int| 0 <= j < k ==> (#[trigger] groups[j]).id != id,
    ensures
        find_group(groups, id) == Some(groups[k]),
    decreases k,
{
    if k > 0 {
        assert(groups[0].id != id);
        let rest = groups.drop_first();
        assert(rest[k - 1] == groups[k]);
        assert forall|j: int| 0 <= j < k - 1 implies (#[trigger] rest[j]).id != id by {
            assert(groups[j + 1].id != id);
        }
        lemma_found_group(rest, id, k - 1);
    }
}

/// Activating a saved group selects exactly its members and gives each of them
/// its own saved level, leaves every other receiver's level and everything
/// else that is stored alone, starts playback only if asked to, and otherwise
/// spends the launch policy. A rebuild is owed exactly if it starts or changes
/// something, and the membership revision advances exactly if the selection
/// changed.
pub proof fn law_an_activated_group_brings_its_members_and_their_levels<R>(
    a: ActorView,
    run: RunView<R>,
    id: u64,
    group: SavedGroupId,
    start: bool,
    inputs: CommandInputs,
    k: int,
    other: ReceiverId,
)
    requires
        document_problem(a.persisted, 1) is None,
        0 <= k < a.persisted.saved_groups.len(),
        a.persisted.saved_groups[k].id == group,
        forall|j: int| 0 <= j < k ==> (#[trigger] a.persisted.saved_groups[j]).id != group,
    ensures
        ({
            let (b, r) = carried_out(
                a,
                run,
                id,
                BackendCommand::ActivateSavedGroup { id: group, start },
                inputs,
                true,
            );
            let members = a.persisted.saved_groups[k].members;
            let levels = b.persisted.receiver_levels;
            let outside = forall|i: int|
                0 <= i < members.len() ==> (#[trigger] members[i]).receiver != other;
            let reselects = b.persisted.last_desired_members != a.persisted.last_desired_members;
            let starts = start && a.snapshot.run_intent != RunIntent::Running;
            let writes = reselects || exists|i: int|
                0 <= i < members.len() && !(a.persisted.receiver_levels.contains_key(
                    (#[trigger] members[i]).receiver,
                ) && a.persisted.receiver_levels[members[i].receiver].units()
                    == members[i].level.units());
            &&& b.persisted.last_desired_members.contains(other) <==> !outside
            &&& forall|i: int|
                0 <= i < members.len() ==> levels.contains_key((#[trigger] members[i]).receiver)
                    && levels[members[i].receiver].units() == members[i].level.units()
            &&& outside ==> (levels.contains_key(other)
                <==> a.persisted.receiver_levels.contains_key(other)) && levels[other]
                == a.persisted.receiver_levels[other]
            &&& b.persisted == (PersistedView {
                last_desired_members: b.persisted.last_desired_members,
                receiver_levels: b.persisted.receiver_levels,
                ..a.persisted
            })
            &&& ended(b, id, None)
            &&& asked(b) == asked(a)
            &&& b.snapshot.run_intent == if start { RunIntent::Running } else { a.snapshot.run_intent }
            &&& b.startup_auto_connect_until == if start {
                a.startup_auto_connect_until
            } else {
                None
            }
            &&& r.reconcile == if run.reconcile is None && (starts || writes) {
                Some(ReconcileCause::SavedGroup)
            } else {
                run.reconcile
            }
            &&& r.volumes_changed == run.volumes_changed
            &&& a.snapshot.desired_revision < u64::MAX ==> b.snapshot.desired_revision
                == a.snapshot.desired_revision + if reselects { 1int } else { 0int }
        }),
{
    let groups = a.persisted.saved_groups;
    lemma_found_group(groups, group, k);
    law_validation_accepts_exactly_valid_preferences(a.persisted.latency_preset, groups);
    let found = groups[k];
    assert(crate::persistence::group_valid(found));
    let members = found.members;
    lemma_levels_with(a.persisted.receiver_levels, members, other);
    let selected = crate::batch_model::member_ids(members);
    let candidate = PersistedView {
        last_desired_members: selected,
        receiver_levels: levels_with(a.persisted.receiver_levels, members),
        ..a.persisted
    };
    let commit = CommitView {
        id,
        candidate,
        announce: crate::actor_model::AnnounceView::Members {
            members: selected,
            counts: selected != a.persisted.last_desired_members,
        },
        refresh_rows: true,
        sync_names: false,
    };
    let follow = FollowView::Activation { start };
    lemma_proposal(a, run, commit, follow);
    lemma_committed_frame(a, commit);
    lemma_completed_frame(a, id);
    lemma_settled_frame(a.committed(commit, true), run, follow, CommitOutcome::Applied);
    lemma_settled_frame(a.completed(id), run, follow, CommitOutcome::Unchanged);
    lemma_activation_settled(a.committed(commit, true), run, start, CommitOutcome::Applied);
    lemma_activation_settled(a.completed(id), run, start, CommitOutcome::Unchanged);
    let unchanged = crate::persistence::same_state(candidate, a.persisted);
    let held = a.persisted.receiver_levels;
    if !unchanged {
        if selected == a.persisted.last_desired_members && forall|i: int|
            0 <= i < members.len() ==> held.contains_key((#[trigger] members[i]).receiver)
                && held[members[i].receiver].units() == members[i].level.units() {
            assert(candidate.receiver_levels.dom() =~= held.dom()) by {
                assert forall|x: ReceiverId| candidate.receiver_levels.contains_key(x)
                    <==> held.contains_key(x) by {
                    lemma_levels_with(held, members, x);
                }
            }
            assert forall|x: ReceiverId| candidate.receiver_levels.contains_key(x) implies (
            #[trigger] candidate.receiver_levels[x]).units() == held[x].units() by {
                lemma_levels_with(held, members, x);
            }
            assert(crate::persistence::same_levels(candidate.receiver_levels, held));
            assert forall|i: int| 0 <= i < groups.len() implies crate::persistence::same_group(
                #[trigger] groups[i],
                groups[i],
            ) by {}
            assert(false);
        }
    } else {
        assert forall|i: int| 0 <= i < members.len() implies held.contains_key(
            (#[trigger] members[i]).receiver,
        ) && held[members[i].receiver].units() == members[i].level.units() by {
            assert(candidate.receiver_levels.contains_key(members[i].receiver));
            assert(candidate.receiver_levels[members[i].receiver].units()
                == held[members[i].receiver].units());
        }
    }
}

proof fn lemma_activation_settled<R>(
    a: ActorView,
    run: RunView<R>,
    start: bool,
    outcome: CommitOutcome,
)
    requires
        outcome == CommitOutcome::Applied || outcome == CommitOutcome::Unchanged,
    ensures
        ({
            let (b, r) = a.settled(run, FollowView::Activation { start }, outcome);
            let starts = start && a.snapshot.run_intent != RunIntent::Running;
            &&& b.snapshot.run_intent == if start { RunIntent::Running } else { a.snapshot.run_intent }
            &&& b.startup_auto_connect_until == if start {
                a.startup_auto_connect_until
            } else {
                None
            }
            &&& r.reconcile == if run.reconcile is None && (starts || outcome
                == CommitOutcome::Applied) {
                Some(ReconcileCause::SavedGroup)
            } else {
                run.reconcile
            }
            &&& r.volumes_changed == run.volumes_changed
        }),
{
    reveal(ActorView::settled);
    reveal(ActorView::published);
}

pub(crate) proof fn lemma_without_group(groups: Seq<GroupView>, id: SavedGroupId, group: GroupView)
    ensures
        crate::actor_model::without_group(groups, id).to_multiset().count(group) == if group.id == id {
            0
        } else {
            groups.to_multiset().count(group)
        },
        forall|i: int|
            0 <= i < crate::actor_model::without_group(groups, id).len() ==> (
            #[trigger] crate::actor_model::without_group(groups, id)[i]).id != id,
    decreases groups.len(),
{
    groups.to_multiset_ensures();
    let kept = crate::actor_model::without_group(groups, id);
    kept.to_multiset_ensures();
    if groups.len() > 0 {
        let front = groups.drop_last();
        lemma_without_group(front, id, group);
        let rest = crate::actor_model::without_group(front, id);
        rest.to_multiset_ensures();
        front.to_multiset_ensures();
        assert(groups =~= front.push(groups.last()));
    }
}

/// How many times a group occurs in a list.
pub open spec fn occurrences(groups: Seq<GroupView>, group: GroupView) -> nat {
    groups.to_multiset().count(group)
}

/// Whether two member lists name the same receivers under the same names at
/// the same levels, in the same order.
pub open spec fn members_alike(a: Seq<MemberView>, b: Seq<MemberView>) -> bool {
    &&& a.len() == b.len()
    &&& forall|i: int|
        0 <= i < a.len() ==> {
            &&& (#[trigger] a[i]).receiver == b[i].receiver
            &&& a[i].last_known_name == b[i].last_known_name
            &&& a[i].level.units() == b[i].level.units()
        }
}

/// Saving an acceptable group stores it under its trimmed name with exactly
/// its members, replaces the group of the same identity and no other, keeps
/// the selection, the volumes, and the running session alone, and never loses
/// another group.
pub proof fn law_a_saved_group_is_stored_as_given<R>(
    a: ActorView,
    run: RunView<R>,
    id: u64,
    edited: Option<SavedGroupId>,
    name: String,
    members: Vec<crate::model::SavedGroupMember>,
    inputs: CommandInputs,
    other: GroupView,
)
    requires
        document_problem(a.persisted, 1) is None,
        crate::batch_model::group_refusal(
            a.persisted.saved_groups,
            edited,
            name@,
            member_views(members@),
        ) is None,
        ended(
            carried_out(
                a,
                run,
                id,
                BackendCommand::SaveGroup { id: edited, name, members },
                inputs,
                true,
            ).0,
            id,
            None,
        ),
    ensures
        ({
            let (b, r) = carried_out(
                a,
                run,
                id,
                BackendCommand::SaveGroup { id: edited, name, members },
                inputs,
                true,
            );
            let saved = match edited {
                Some(held) => held,
                None => inputs.fresh_group,
            };
            let groups = b.persisted.saved_groups;
            &&& exists|k: int|
                0 <= k < groups.len() && (#[trigger] groups[k]).id == saved && groups[k].name
                    == crate::text::trimmed(name@) && members_alike(
                    groups[k].members,
                    member_views(members@),
                )
            &&& forall|j: int, k: int|
                0 <= j < k < groups.len() ==> !((#[trigger] groups[j]).id == saved && (
                #[trigger] groups[k]).id == saved)
            &&& other.id != saved ==> occurrences(groups, other) == occurrences(
                a.persisted.saved_groups,
                other,
            )
            &&& b.persisted == (PersistedView { saved_groups: groups, ..a.persisted })
            &&& asked(b) == asked(a)
            &&& r == run
            &&& b.snapshot.run_intent == a.snapshot.run_intent
        }),
{
    let saved = match edited {
        Some(held) => held,
        None => inputs.fresh_group,
    };
    let group = GroupView {
        id: saved,
        name: crate::text::trimmed(name@),
        members: member_views(members@),
    };
    let rest = crate::actor_model::without_group(a.persisted.saved_groups, saved);
    let all = rest.push(group);
    let listing = crate::text::listed(all);
    let candidate = PersistedView { saved_groups: listing, ..a.persisted };
    let commit = CommitView {
        id,
        candidate,
        announce: crate::actor_model::AnnounceView::GroupSaved(group),
        refresh_rows: false,
        sync_names: true,
    };
    crate::text::law_listing_sorts(all);
    lemma_without_group(a.persisted.saved_groups, saved, other);
    rest.to_multiset_ensures();
    all.to_multiset_ensures();
    listing.to_multiset_ensures();
    assert(listing.to_multiset().count(group) > 0) by {
        assert(all.last() == group);
        assert(all.contains(group));
    }
    assert(listing.contains(group));
    let at = listing.index_of(group);
    assert forall|j: int, k: int| 0 <= j < k < listing.len() implies !((
    #[trigger] listing[j]).id == saved && (#[trigger] listing[k]).id == saved) by {
        if listing[j].id == saved {
            lemma_one_of_an_identity(rest, group, listing, j, k);
        }
    }
    lemma_recorded_last(a.snapshot.command_outcomes, id, Some(CommandFailure::Rejected));
    if document_problem(candidate, 1) is None {
        lemma_proposal(a, run, commit, FollowView::Nothing);
        lemma_committed_frame(a, commit);
        lemma_completed_frame(a, id);
        lemma_settled_frame(
            a.committed(commit, true),
            run,
            FollowView::Nothing,
            CommitOutcome::Applied,
        );
        reveal(ActorView::settled);
        let b = carried_out(
            a,
            run,
            id,
            BackendCommand::SaveGroup { id: edited, name, members },
            inputs,
            true,
        ).0;
        if crate::persistence::same_state(candidate, a.persisted) {
            let groups = a.persisted.saved_groups;
            assert(crate::persistence::same_group(listing[at], groups[at]));
            assert(members_alike(groups[at].members, group.members)) by {
                assert forall|i: int| 0 <= i < group.members.len() implies {
                    &&& (#[trigger] groups[at].members[i]).receiver == group.members[i].receiver
                    &&& groups[at].members[i].last_known_name == group.members[i].last_known_name
                    &&& groups[at].members[i].level.units() == group.members[i].level.units()
                } by {
                    assert(crate::persistence::same_member(
                        listing[at].members[i],
                        groups[at].members[i],
                    ));
                }
            }
            assert forall|j: int, k: int| 0 <= j < k < groups.len() implies !((
            #[trigger] groups[j]).id == saved && (#[trigger] groups[k]).id == saved) by {
                assert(crate::persistence::same_group(listing[j], groups[j]));
                assert(crate::persistence::same_group(listing[k], groups[k]));
            }
        } else {
            assert(b.persisted.saved_groups == listing);
            assert(listing[at].id == saved);
        }
    } else {
        reveal(ActorView::proposed);
        reveal(ActorView::settled);
    }
}

proof fn lemma_one_of_an_identity(
    rest: Seq<GroupView>,
    group: GroupView,
    listing: Seq<GroupView>,
    j: int,
    k: int,
)
    requires
        forall|i: int| 0 <= i < rest.len() ==> (#[trigger] rest[i]).id != group.id,
        listing.to_multiset() == rest.push(group).to_multiset(),
        0 <= j < k < listing.len(),
        listing[j].id == group.id,
    ensures
        listing[k].id != group.id,
{
    rest.to_multiset_ensures();
    listing.to_multiset_ensures();
    rest.push(group).to_multiset_ensures();
    assert(listing.contains(listing[j]) && listing.contains(listing[k]));
    assert forall|x: GroupView| listing.contains(x) && x.id == group.id implies x == group by {
        assert(listing.to_multiset().count(x) > 0);
        if x != group {
            assert(rest.to_multiset().count(x) > 0);
            assert(rest.contains(x));
            let i = rest.index_of(x);
            assert(rest[i].id == group.id);
        }
    }
    if rest.contains(group) {
        let i = rest.index_of(group);
        assert(rest[i].id == group.id);
    }
    assert(rest.to_multiset().count(group) == 0);
    let short = listing.remove(k);
    short.to_multiset_ensures();
    assert(short[j] == group);
    assert(short.contains(group));
    assert(short.to_multiset() == listing.to_multiset().remove(listing[k]));
    if listing[k].id == group.id {
        assert(short.to_multiset().count(group) == 0);
    }
}

/// Deleting a group removes every group of that identity and no other, and
/// touches neither the selection nor anything else.
pub proof fn law_a_deleted_group_is_gone_and_no_other<R>(
    a: ActorView,
    run: RunView<R>,
    id: u64,
    group: SavedGroupId,
    inputs: CommandInputs,
    other: GroupView,
)
    requires
        document_problem(a.persisted, 1) is None,
    ensures
        ({
            let (b, r) = carried_out(a, run, id, BackendCommand::DeleteGroup(group), inputs, true);
            let groups = b.persisted.saved_groups;
            &&& occurrences(groups, other) == if other.id == group {
                0
            } else {
                occurrences(a.persisted.saved_groups, other)
            }
            &&& b.persisted == (PersistedView { saved_groups: groups, ..a.persisted })
            &&& ended(b, id, None)
            &&& asked(b) == asked(a)
            &&& r == run
            &&& b.snapshot.run_intent == a.snapshot.run_intent
        }),
{
    let groups = a.persisted.saved_groups;
    let kept = crate::actor_model::without_group(groups, group);
    let candidate = PersistedView { saved_groups: kept, ..a.persisted };
    let commit = CommitView {
        id,
        candidate,
        announce: crate::actor_model::AnnounceView::GroupDeleted(group),
        refresh_rows: false,
        sync_names: true,
    };
    lemma_without_group(groups, group, other);
    lemma_absent_group(groups, group);
    lemma_completed_frame(a, id);
    if find_group(groups, group) is Some {
        lemma_without_keeps_validity(a.persisted, group);
        lemma_proposal(a, run, commit, FollowView::Nothing);
        lemma_committed_frame(a, commit);
        lemma_settled_frame(
            a.committed(commit, true),
            run,
            FollowView::Nothing,
            CommitOutcome::Applied,
        );
        reveal(ActorView::settled);
        lemma_without_is_shorter(groups, group);
    } else {
        groups.to_multiset_ensures();
        if other.id == group && groups.contains(other) {
            let i = groups.index_of(other);
            assert(groups[i].id != group);
        }
    }
}

proof fn lemma_absent_group(groups: Seq<GroupView>, id: SavedGroupId)
    ensures
        find_group(groups, id) is None ==> forall|i: int|
            0 <= i < groups.len() ==> (#[trigger] groups[i]).id != id,
        find_group(groups, id) is Some ==> exists|i: int|
            0 <= i < groups.len() && (#[trigger] groups[i]).id == id,
    decreases groups.len(),
{
    if groups.len() > 0 {
        let rest = groups.drop_first();
        lemma_absent_group(rest, id);
        if groups[0].id == id {
        } else if find_group(groups, id) is None {
            assert forall|i: int| 0 <= i < groups.len() implies (#[trigger] groups[i]).id != id by {
                if i > 0 {
                    assert(rest[i - 1] == groups[i]);
                }
            }
        } else {
            let i = choose|i: int| 0 <= i < rest.len() && (#[trigger] rest[i]).id == id;
            assert(groups[i + 1].id == id);
        }
    }
}

proof fn lemma_without_is_shorter(groups: Seq<GroupView>, id: SavedGroupId)
    ensures
        crate::actor_model::without_group(groups, id).len() <= groups.len(),
        (exists|i: int| 0 <= i < groups.len() && (#[trigger] groups[i]).id == id)
            ==> crate::actor_model::without_group(groups, id).len() < groups.len(),
    decreases groups.len(),
{
    if groups.len() > 0 {
        let front = groups.drop_last();
        lemma_without_is_shorter(front, id);
        if exists|i: int| 0 <= i < groups.len() && (#[trigger] groups[i]).id == id {
            let i = choose|i: int| 0 <= i < groups.len() && (#[trigger] groups[i]).id == id;
            if i < front.len() {
                assert(front[i].id == id);
            }
        }
    }
}

/// Leaving groups out keeps the order of the others.
pub(crate) proof fn lemma_without_positions(groups: Seq<GroupView>, id: SavedGroupId) -> (at: Seq<int>)
    ensures
        at.len() == crate::actor_model::without_group(groups, id).len(),
        forall|i: int|
            0 <= i < at.len() ==> 0 <= #[trigger] at[i] < groups.len()
                && crate::actor_model::without_group(groups, id)[i] == groups[at[i]],
        forall|i: int, j: int| 0 <= i < j < at.len() ==> #[trigger] at[i] < #[trigger] at[j],
    decreases groups.len(),
{
    if groups.len() == 0 {
        Seq::empty()
    } else {
        let rest = lemma_without_positions(groups.drop_last(), id);
        if groups.last().id == id {
            rest
        } else {
            rest.push(groups.len() - 1)
        }
    }
}

pub(crate) proof fn lemma_without_keeps_validity(state: PersistedView, id: SavedGroupId)
    requires
        document_problem(state, 1) is None,
    ensures
        document_problem(
            PersistedView {
                saved_groups: crate::actor_model::without_group(state.saved_groups, id),
                ..state
            },
            1,
        ) is None,
{
    let groups = state.saved_groups;
    let kept = crate::actor_model::without_group(groups, id);
    law_validation_accepts_exactly_valid_preferences(state.latency_preset, groups);
    law_validation_accepts_exactly_valid_preferences(state.latency_preset, kept);
    let at = lemma_without_positions(groups, id);
    assert forall|i: int| 0 <= i < kept.len() implies crate::persistence::group_valid(
        #[trigger] kept[i],
    ) by {
        assert(kept[i] == groups[at[i]]);
    }
    assert forall|i: int, j: int| 0 <= i < j < kept.len() implies crate::text::lowercase_text(
        (#[trigger] kept[i]).name,
    ) != crate::text::lowercase_text((#[trigger] kept[j]).name) by {
        assert(at[i] < at[j]);
        assert(kept[i] == groups[at[i]] && kept[j] == groups[at[j]]);
    }
}

/// A group is refused exactly for a name that is empty or longer than
/// sixty-four characters once trimmed, for a name another group has when case
/// is ignored, for a receiver listed twice, or for having no members.
pub proof fn law_groups_are_refused_for_these_reasons_only(
    groups: Seq<GroupView>,
    edited: Option<SavedGroupId>,
    name: Seq<char>,
    members: Seq<MemberView>,
)
    ensures
        crate::batch_model::group_refusal(groups, edited, name, members) is Some <==> {
            let trimmed = crate::text::trimmed(name);
            ||| trimmed.len() == 0
            ||| trimmed.len() > 64
            ||| exists|i: int|
                0 <= i < groups.len() && edited != Some((#[trigger] groups[i]).id)
                    && groups[i].name.len() == trimmed.len() && forall|k: int|
                    0 <= k < trimmed.len() ==> same_letter(groups[i].name[k], #[trigger] trimmed[k])
            ||| exists|i: int, j: int|
                0 <= i < j < members.len() && (#[trigger] members[i]).receiver == (
                #[trigger] members[j]).receiver
            ||| members.len() == 0
        },
{
    let trimmed = crate::text::trimmed(name);
    if crate::batch_model::name_taken(groups, trimmed, edited) {
        let i = choose|i: int|
            0 <= i < groups.len() && crate::text::same_ignoring_ascii_case(
                (#[trigger] groups[i]).name,
                trimmed,
            ) && edited != Some(groups[i].id);
        assert forall|k: int| 0 <= k < trimmed.len() implies same_letter(
            groups[i].name[k],
            #[trigger] trimmed[k],
        ) by {
            assert(crate::text::ascii_fold(groups[i].name[k]) == crate::text::ascii_fold(trimmed[k]));
            lemma_same_letter(groups[i].name[k], trimmed[k]);
        }
    }
    if exists|i: int|
        0 <= i < groups.len() && edited != Some((#[trigger] groups[i]).id) && groups[i].name.len()
            == trimmed.len() && forall|k: int|
            0 <= k < trimmed.len() ==> same_letter(groups[i].name[k], #[trigger] trimmed[k]) {
        let i = choose|i: int|
            0 <= i < groups.len() && edited != Some((#[trigger] groups[i]).id)
                && groups[i].name.len() == trimmed.len() && forall|k: int|
                0 <= k < trimmed.len() ==> same_letter(groups[i].name[k], #[trigger] trimmed[k]);
        assert forall|k: int| 0 <= k < groups[i].name.len() implies crate::text::ascii_fold(
            #[trigger] groups[i].name[k],
        ) == crate::text::ascii_fold(trimmed[k]) by {
            assert(same_letter(groups[i].name[k], trimmed[k]));
            lemma_same_letter(groups[i].name[k], trimmed[k]);
        }
        assert(crate::text::same_ignoring_ascii_case(groups[i].name, trimmed));
    }
}

proof fn lemma_same_letter(a: char, b: char)
    ensures
        same_letter(a, b) <==> crate::text::ascii_fold(a) == crate::text::ascii_fold(b),
{
}

/// Whether two characters are the same, or the same letter of the English
/// alphabet in another case.
pub open spec fn same_letter(a: char, b: char) -> bool {
    ||| a == b
    ||| 'a' <= a <= 'z' && b as u32 == a as u32 - 32
    ||| 'A' <= a <= 'Z' && b as u32 == a as u32 + 32
}

/// A written change is stored as it was written; one that failed stores
/// nothing.
pub(crate) proof fn lemma_saved<R>(
    a: ActorView,
    run: RunView<R>,
    commit: CommitView,
    follow: FollowView,
    saved: bool,
)
    ensures
        a.save_answered(run, commit, follow, saved).0.persisted == if saved {
            commit.candidate
        } else {
            a.persisted
        },
{
    reveal(ActorView::save_answered);
    lemma_committed_frame(a, commit);
    lemma_settled_frame(a.committed(commit, true), run, follow, CommitOutcome::Applied);
    lemma_settled_frame(a.committed(commit, false), run, follow, CommitOutcome::Failed);
    reveal(ActorView::committed);
    reveal(ActorView::save_failed);
    reveal(ActorView::published);
}

} // verus!
