//! What is published, announced, and recorded.

use vstd::prelude::*;

use crate::actor_model::{
    op_rejection, saved_names_of, ActorView, EffectView, OpView, ReconcileCause,
};
use crate::event::{
    kind_category, payload_kind, DiagnosticCategory, DiagnosticKind, ErrorScope, EventView,
    NoticeCode, PayloadView, Severity,
};
use crate::ids::ReceiverId;
use crate::model::{
    CommandFailure, GroupView, MemberView, PersistenceSnapshot, RestartReason, SnapshotView,
};
use crate::shutdown::{shutdown_steps, ShutdownStep, TeardownView};
use crate::text::law_listing_sorts;
use crate::time::Instant;

verus! {

/// A record carries the counters live at its emission, its receiver, its
/// severity, its payload, and the category its payload belongs to; recording
/// changes nothing else.
pub proof fn law_a_record_carries_its_circumstances(
    a: ActorView,
    receiver: Option<ReceiverId>,
    severity: Severity,
    payload: PayloadView,
)
    ensures
        ({
            let b = a.emitting(receiver, severity, payload);
            &&& b == (ActorView { effects: b.effects, ..a })
            &&& b.effects.len() == a.effects.len() + 1
            &&& b.effects.drop_last() == a.effects
            &&& b.effects.last() matches EffectView::Diagnostic(record) && {
                &&& record.receiver == receiver
                &&& record.severity == severity
                &&& record.payload == payload
                &&& record.category == kind_category(payload_kind(payload))
                &&& record.generations.capture == a.capture_generation
                &&& record.generations.session == match a.live_session_generation {
                    Some(live) => live,
                    None => 0,
                }
            }
        }),
{
    let b = a.emitting(receiver, severity, payload);
    assert(b.effects.drop_last() =~= a.effects);
}

/// Records are filed by what they are about.
pub proof fn law_records_are_filed_by_their_subject()
    ensures
        kind_category(DiagnosticKind::Message) == DiagnosticCategory::General,
        kind_category(DiagnosticKind::DiscoveryGeneration) == DiagnosticCategory::Discovery,
        kind_category(DiagnosticKind::DiscoveryReceiver) == DiagnosticCategory::Discovery,
        kind_category(DiagnosticKind::CommandResult) == DiagnosticCategory::Command,
        kind_category(DiagnosticKind::CommandCoalesced) == DiagnosticCategory::Command,
        kind_category(DiagnosticKind::ReceiverTransition) == DiagnosticCategory::Receiver,
        kind_category(DiagnosticKind::SetupPhaseDuration) == DiagnosticCategory::Receiver,
        kind_category(DiagnosticKind::SessionTransition) == DiagnosticCategory::Session,
        kind_category(DiagnosticKind::SessionRestart) == DiagnosticCategory::Session,
        kind_category(DiagnosticKind::CalibrationState) == DiagnosticCategory::Session,
        kind_category(DiagnosticKind::Retry) == DiagnosticCategory::Retry,
        kind_category(DiagnosticKind::CaptureTransition) == DiagnosticCategory::Capture,
        kind_category(DiagnosticKind::PcmDrop) == DiagnosticCategory::Capture,
        kind_category(DiagnosticKind::SilenceBridge) == DiagnosticCategory::Capture,
        kind_category(DiagnosticKind::Probe) == DiagnosticCategory::Probe,
        kind_category(DiagnosticKind::Persistence) == DiagnosticCategory::Persistence,
        kind_category(DiagnosticKind::QueueWatermark) == DiagnosticCategory::Queue,
        kind_category(DiagnosticKind::QueueLag) == DiagnosticCategory::Queue,
        kind_category(DiagnosticKind::WorkerShutdown) == DiagnosticCategory::Worker,
        kind_category(DiagnosticKind::SystemTransition) == DiagnosticCategory::Worker,
{
}

/// Every reason to rebuild is announced as what it is.
pub proof fn law_rebuilds_are_announced_with_their_reason()
    ensures
        ReconcileCause::Membership.restart_reason() == RestartReason::MembershipChange,
        ReconcileCause::SavedGroup.restart_reason() == RestartReason::SavedGroupActivated,
        ReconcileCause::LatencyPreset.restart_reason() == RestartReason::LatencyPresetChanged,
        ReconcileCause::Retry.restart_reason() == RestartReason::SecondaryRejoin,
        ReconcileCause::PrimaryFailure.restart_reason() == RestartReason::PrimaryReplaced,
        ReconcileCause::Resume.restart_reason() == RestartReason::SystemResume,
        ReconcileCause::NetworkRebind.restart_reason() == RestartReason::LocalInterfaceChanged,
        ReconcileCause::CalibrationChanged.restart_reason() == RestartReason::CalibrationChanged,
{
}

/// A change is published exactly if it alters what is shown, as one new
/// revision that holds it; a changed session phase is also recorded, with the
/// severity it deserves and the number of active receivers.
pub proof fn law_changes_are_published_and_phases_recorded(a: ActorView, next: SnapshotView)
    requires
        a.snapshot.revision < u64::MAX,
        next.revision == a.snapshot.revision,
    ensures
        ({
            let b = a.showing(next);
            &&& next == a.snapshot ==> b == a
            &&& next != a.snapshot ==> {
                &&& b.snapshot.revision == a.snapshot.revision + 1
                &&& b.snapshot == (SnapshotView {
                    revision: b.snapshot.revision,
                    receivers: b.snapshot.receivers,
                    saved_groups: b.snapshot.saved_groups,
                    ..next
                })
                &&& b.snapshot.receivers.to_multiset() == next.receivers.to_multiset()
                &&& b.snapshot.saved_groups.to_multiset() == next.saved_groups.to_multiset()
                &&& b.machines == a.machines
                &&& b.persisted == a.persisted
                &&& next.session.phase == a.snapshot.session.phase ==> b.effects.last()
                    == EffectView::Publish(b.snapshot)
                &&& next.session.phase != a.snapshot.session.phase ==> {
                    &&& b.effects[b.effects.len() - 2] == EffectView::Publish(b.snapshot)
                    &&& b.effects.last() matches EffectView::Diagnostic(record) && {
                        &&& record.payload matches PayloadView::SessionTransition {
                            phase,
                            active_members,
                        } && phase == next.session.phase && (next.session.active.len() <= u32::MAX
                            ==> active_members == next.session.active.len())
                        &&& record.severity == if next.session.phase is Failed {
                            Severity::Error
                        } else if next.session.phase is Degraded
                            || next.session.phase is Restarting {
                            Severity::Warning
                        } else {
                            Severity::Info
                        }
                    }
                }
            }
        }),
{
    reveal(ActorView::showing);
    reveal(ActorView::published);
    law_listing_sorts(next.receivers);
    law_listing_sorts(next.saved_groups);
}

/// A finished command is announced once under its own number: as completed, or
/// as failed with its reason. A failed save also flags persistence and tells
/// the user that the change was not applied.
pub proof fn law_results_are_announced_under_their_number(
    a: ActorView,
    id: u64,
    message: Seq<char>,
    kind: CommandFailure,
)
    ensures
        ({
            let b = a.completed(id);
            &&& b.effects.len() == a.effects.len() + 2
            &&& b.effects[a.effects.len() as int] == EffectView::Event(
                EventView::CommandCompleted { id },
            )
            &&& b.effects.last() matches EffectView::Diagnostic(record) && record.payload == (
            PayloadView::CommandResult { id, error: None }) && record.severity == Severity::Info
            &&& b.snapshot.command_outcomes.recent.last() == (id, None::<CommandFailure>)
            &&& b.persisted == a.persisted
            &&& b.machines == a.machines
        }),
        ({
            let b = a.failing(id, message, kind);
            &&& b.effects.len() == a.effects.len() + 2
            &&& b.effects[a.effects.len() as int] == EffectView::Event(
                EventView::CommandFailed { id, error: message },
            )
            &&& b.effects.last() matches EffectView::Diagnostic(record) && record.payload == (
            PayloadView::CommandResult { id, error: Some(message) }) && record.severity
                == Severity::Warning
            &&& b.snapshot.command_outcomes.recent.last() == (id, Some(kind))
            &&& b.persisted == a.persisted
            &&& b.machines == a.machines
        }),
        ({
            let b = a.save_failed(id);
            &&& b.snapshot.persistence == PersistenceSnapshot::Error
            &&& b.persisted == a.persisted
            &&& b.effects[a.effects.len() as int] matches EffectView::Event(
                EventView::Notice { severity, code, scope, .. },
            ) && severity == Severity::Error && code == NoticeCode::PersistenceWrite && scope
                == ErrorScope::Persistence
            &&& b.effects[a.effects.len() as int + 1] matches EffectView::Event(
                EventView::CommandFailed { id: failed, .. },
            ) && failed == id
            &&& b.snapshot.command_outcomes.recent.last() == (
                id,
                Some(CommandFailure::Persistence),
            )
        }),
{
    reveal(ActorView::save_failed);
}

/// Whether a list of effects holds a warning to the user about stored state
/// with this text.
pub open spec fn warned_of(effects: Seq<EffectView>, text: Seq<char>) -> bool {
    exists|i: int|
        0 <= i < effects.len() && #[trigger] effects[i] == EffectView::Event(
            EventView::Notice {
                severity: Severity::Warning,
                code: NoticeCode::PersistenceWrite,
                scope: ErrorScope::Persistence,
                message: text,
            },
        )
}

/// A launch tells the user of a damaged state file and of an unreadable
/// alignment exactly when there was one, and says nothing otherwise; nothing
/// else changes.
pub proof fn law_a_launch_tells_what_it_could_not_read(
    a: ActorView,
    corrupted: bool,
    unreadable: bool,
    migrated: bool,
)
    ensures
        ({
            let b = a.launch_announced(corrupted, unreadable, migrated);
            let told = b.effects.skip(a.effects.len() as int);
            let count = 1 + (if corrupted { 2int } else { 0 }) + (if unreadable { 2int } else { 0 })
                + (if migrated { 1int } else { 0 });
            &&& b == (ActorView { effects: b.effects, ..a })
            &&& told.len() == count
            &&& corrupted ==> warned_of(
                told,
                "the previous state file was damaged; defaults were restored"@,
            )
            &&& unreadable ==> warned_of(
                told,
                "the saved speaker alignment could not be read and is not in use"@,
            )
            &&& told[0] matches EffectView::Diagnostic(record) && record.payload == (
            PayloadView::Persistence { outcome: PersistenceSnapshot::Healthy }) && record.severity
                == if corrupted { Severity::Warning } else { Severity::Info }
            &&& !corrupted && !unreadable ==> forall|i: int|
                0 <= i < told.len() ==> !(#[trigger] told[i] is Event)
        }),
{
    reveal(ActorView::launch_announced);
    let b = a.launch_announced(corrupted, unreadable, migrated);
    let told = b.effects.skip(a.effects.len() as int);
    if corrupted {
        let at = 2 + (if unreadable { 1int } else { 0 }) + (if migrated { 1int } else { 0 });
        assert(told[at] == EffectView::Event(
            EventView::Notice {
                severity: Severity::Warning,
                code: NoticeCode::PersistenceWrite,
                scope: ErrorScope::Persistence,
                message: "the previous state file was damaged; defaults were restored"@,
            },
        ));
    }
    if unreadable {
        assert(told[told.len() - 1] == EffectView::Event(
            EventView::Notice {
                severity: Severity::Warning,
                code: NoticeCode::PersistenceWrite,
                scope: ErrorScope::Persistence,
                message: "the saved speaker alignment could not be read and is not in use"@,
            },
        ));
    }
}

/// Whether a group mentions a receiver under a name.
pub open spec fn mentions(groups: Seq<GroupView>, g: int, m: int, id: ReceiverId, name: Seq<char>) -> bool {
    &&& 0 <= g < groups.len()
    &&& 0 <= m < groups[g].members.len()
    &&& groups[g].members[m].receiver == id
    &&& groups[g].members[m].last_known_name == name
}

proof fn lemma_member_names(
    names: Map<ReceiverId, Seq<char>>,
    members: Seq<MemberView>,
    id: ReceiverId,
)
    ensures
        ({
            let after = crate::actor_model::names_with_members(names, members);
            let named = exists|m: int| 0 <= m < members.len() && (#[trigger] members[m]).receiver == id;
            &&& named ==> after.contains_key(id) && exists|m: int|
                0 <= m < members.len() && (#[trigger] members[m]).receiver == id
                    && members[m].last_known_name == after[id] && forall|k: int|
                    m < k < members.len() ==> (#[trigger] members[k]).receiver != id
            &&& !named ==> (after.contains_key(id) <==> names.contains_key(id)) && after[id]
                == names[id]
        }),
    decreases members.len(),
{
    if members.len() > 0 {
        let front = members.drop_last();
        lemma_member_names(names, front, id);
        let last = members.len() - 1;
        assert(members[last] == members.last());
        if members.last().receiver == id {
            assert(members[last].receiver == id);
        } else if exists|m: int| 0 <= m < members.len() && (#[trigger] members[m]).receiver == id {
            let m = choose|m: int| 0 <= m < members.len() && (#[trigger] members[m]).receiver == id;
            assert(front[m].receiver == id);
            let after = crate::actor_model::names_with_members(names, front);
            let n = choose|n: int|
                0 <= n < front.len() && (#[trigger] front[n]).receiver == id
                    && front[n].last_known_name == after[id] && forall|k: int|
                    n < k < front.len() ==> (#[trigger] front[k]).receiver != id;
            assert(members[n] == front[n]);
            assert forall|k: int| n < k < members.len() implies (#[trigger] members[k]).receiver
                != id by {
                if k < last {
                    assert(front[k] == members[k]);
                }
            }
        } else {
            assert forall|m: int| 0 <= m < front.len() implies (#[trigger] front[m]).receiver != id by {
                assert(members[m].receiver != id);
            }
        }
    }
}

/// The saved name of a receiver is the one under which the last group that
/// mentions it does, and a receiver no group mentions has none.
pub proof fn law_saved_names_are_the_latest_mentions(groups: Seq<GroupView>, id: ReceiverId)
    ensures
        saved_names_of(groups).contains_key(id) <==> exists|g: int, m: int|
            #![trigger groups[g].members[m]]
            0 <= g < groups.len() && 0 <= m < groups[g].members.len()
                && groups[g].members[m].receiver == id,
        saved_names_of(groups).contains_key(id) ==> exists|g: int, m: int|
            #[trigger] mentions(groups, g, m, id, saved_names_of(groups)[id]) && forall|later: int, k: int|
                #![trigger groups[later].members[k]]
                g < later < groups.len() && 0 <= k < groups[later].members.len()
                    ==> groups[later].members[k].receiver != id,
    decreases groups.len(),
{
    if groups.len() > 0 {
        let front = groups.drop_last();
        let last = groups.len() - 1;
        law_saved_names_are_the_latest_mentions(front, id);
        let before = saved_names_of(front);
        let members = groups.last().members;
        lemma_member_names(before, members, id);
        assert(groups[last] == groups.last());
        assert(forall|g: int| 0 <= g < front.len() ==> front[g] == groups[g]);
        if exists|m: int| 0 <= m < members.len() && (#[trigger] members[m]).receiver == id {
            let m = choose|m: int|
                0 <= m < members.len() && (#[trigger] members[m]).receiver == id
                    && members[m].last_known_name == saved_names_of(groups)[id];
            assert(groups[last].members[m].receiver == id);
            assert(mentions(groups, last, m, id, saved_names_of(groups)[id]));
        } else if before.contains_key(id) {
            let (g, m) = choose|g: int, m: int|
                #[trigger] mentions(front, g, m, id, before[id]) && forall|later: int, k: int|
                    #![trigger front[later].members[k]]
                    g < later < front.len() && 0 <= k < front[later].members.len()
                        ==> front[later].members[k].receiver != id;
            assert(groups[g].members[m].receiver == id);
            assert(mentions(groups, g, m, id, saved_names_of(groups)[id]));
            assert forall|later: int, k: int|
                #![trigger groups[later].members[k]]
                g < later < groups.len() && 0 <= k < groups[later].members.len() implies groups[later].members[k].receiver
                != id by {
                if later < last {
                    assert(front[later].members[k].receiver != id);
                } else {
                    assert(members[k].receiver != id);
                }
            }
        } else {
            assert forall|g: int, m: int|
                #![trigger groups[g].members[m]]
                0 <= g < groups.len() && 0 <= m < groups[g].members.len() implies groups[g].members[m].receiver
                != id by {
                if g < last {
                    assert(front[g].members[m].receiver != id);
                } else {
                    assert(members[m].receiver != id);
                }
            }
        }
    }
}

/// The armed deadline of a suspend or a resume is waited for exactly.
pub proof fn law_the_resume_timer_waits_for_its_deadline(a: ActorView, now: Instant)
    ensures
        a.resume_delay_at(now) is Some <==> a.resume_at is Some,
        a.resume_delay_at(now) matches Some(delay) ==> delay.nanos == (if a.resume_at->0.nanos
            <= now.nanos {
            0
        } else {
            a.resume_at->0.nanos - now.nanos
        }),
{
}

/// A teardown stops the monitor, signals capture, session, and discovery, and
/// then drains discovery, capture, and session; its record says how long it
/// took and whether anything ran out of time.
pub proof fn law_the_exit_signals_then_drains_and_says_how_it_went(
    a: ActorView,
    teardown: TeardownView,
    now: Instant,
    dropped: u32,
)
    requires
        teardown.started.nanos <= now.nanos,
    ensures
        shutdown_steps().len() == 7,
        shutdown_steps()[0] == ShutdownStep::StopNetworkMonitor,
        shutdown_steps()[1] == ShutdownStep::SignalCapture,
        shutdown_steps()[2] == ShutdownStep::SignalSession,
        shutdown_steps()[3] == ShutdownStep::SignalDiscovery,
        shutdown_steps()[4] == ShutdownStep::DrainDiscovery,
        shutdown_steps()[5] == ShutdownStep::DrainCapture,
        shutdown_steps()[6] == ShutdownStep::DrainSession,
        crate::actor_model::SHUTDOWN_GROUP_BUDGET_NANOS == 5_000_000_000,
        a.torn_down(teardown, now).effects.last() matches EffectView::Diagnostic(record) && {
            &&& record.severity == if teardown.timed_out { Severity::Warning } else { Severity::Info }
            &&& record.payload matches PayloadView::WorkerShutdown { duration, timed_out }
                && timed_out == teardown.timed_out && duration.nanos == now.nanos
                - teardown.started.nanos
        },
        dropped == 0 ==> a.coalescing_noted(dropped) == a,
        dropped > 0 ==> (a.coalescing_noted(dropped).effects.last() matches EffectView::Diagnostic(
            record,
        ) && record.payload == (PayloadView::CommandCoalesced { dropped })),
{
}

/// Driving a receiver is recorded under its identity: a rejected step as a
/// warning, a step that moved it as its new state, and a step that changed
/// nothing not at all.
pub proof fn law_lifecycle_steps_are_recorded(a: ActorView, receiver: ReceiverId, op: OpView)
    ensures
        ({
            let b = a.driven(receiver, op);
            let before = a.machine_of(receiver);
            &&& b == (ActorView { machines: b.machines, effects: b.effects, ..a })
            &&& b.machines.dom() == a.machines.dom().insert(receiver)
            &&& op_rejection(before, op) is Some ==> (b.effects.last() matches EffectView::Diagnostic(
                record,
            ) && b.effects.drop_last() == a.effects && record.receiver == Some(receiver)
                && record.severity == Severity::Warning && record.payload is Message)
            &&& op_rejection(before, op) is None && b.machines[receiver].state != before.state ==> (
            b.effects.last() matches EffectView::Diagnostic(record) && b.effects.drop_last()
                == a.effects && record.receiver == Some(receiver) && record.severity
                == Severity::Info && record.payload == (PayloadView::ReceiverTransition {
                receiver,
                to: b.machines[receiver].state,
            }))
            &&& op_rejection(before, op) is None && b.machines[receiver].state == before.state
                ==> b.effects == a.effects
        }),
{
    reveal(ActorView::driven);
    let b = a.driven(receiver, op);
    if b.effects.len() > a.effects.len() {
        assert(b.effects.drop_last() =~= a.effects);
    }
}

} // verus!
