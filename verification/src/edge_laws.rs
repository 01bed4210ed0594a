//! What the remaining commands do, how a batch ends, and who is answered.

use vstd::prelude::*;

use crate::actor_model::{ActorView, EffectView, ReconcileCause};
use crate::batch::BatchView;
use crate::batch_driver::{BatchActionView, BatchDriverView};
use crate::batch_model::{
    batch_work, edge_work, level_work, run_of, slot_work, CommandInputs, RunView, StepView, WorkItem,
};
use crate::calibration::{CalibrationCommand, CalibrationProfile, CalibrationView};
use crate::command::{BackendCommand, CommandConfirmation, CommandEnvelope, SystemEvent};
use crate::idmap::{ascending_list, law_finite_sets_are_listed};
use crate::ids::ReceiverId;
use crate::listening_check::{guard_holds, guard_of, GuardView};
use crate::model::{
    AudioSourceState, CommandFailure, LatencyPreset, PersistenceSnapshot, PhaseView, RunIntent,
    SnapshotView,
};
use crate::requests::{asked, lemma_requested_push, Requests};
use crate::settings_laws::{carried_out, ended};
use crate::transport_laws::{
    gains_of, law_a_reconcile_makes_exactly_one_request, lemma_driven_asks_nothing,
    lemma_driven_frame, lemma_forwarded_volumes, lemma_published_asks_nothing,
    lemma_results_ask_nothing, lemma_rows_shown_frame, lemma_seeded_volumes, lemma_showing_rows_asks_nothing, volume_requests,
};

verus! {

broadcast use lemma_requested_push;

proof fn lemma_result_is_last(a: ActorView, id: u64, message: Seq<char>, kind: CommandFailure)
    ensures
        ended(a.completed(id), id, None),
        ended(a.failing(id, message, kind), id, Some(kind)),
        ended(a.save_failed(id), id, Some(CommandFailure::Persistence)),
        a.completed(id).published().snapshot.command_outcomes
            == a.completed(id).snapshot.command_outcomes,
        a.save_failed(id).published().snapshot.command_outcomes
            == a.save_failed(id).snapshot.command_outcomes,
{
    reveal(ActorView::save_failed);
    reveal(ActorView::published);
}

/// A manual retry drops the receiver's deadline, sends it connecting if it was
/// held back, keeps its attempt history and every other receiver, owes one
/// rebuild, and succeeds.
pub proof fn law_a_manual_retry_frees_one_receiver<R>(
    a: ActorView,
    run: RunView<R>,
    id: u64,
    receiver: ReceiverId,
    inputs: CommandInputs,
    other: ReceiverId,
)
    requires
        a.snapshot.desired_members.contains(receiver),
        a.machines.contains_key(receiver),
        a.snapshot.desired_members.contains(other),
        a.machines.contains_key(other),
    ensures
        ({
            let (b, r) = carried_out(
                a,
                run,
                id,
                BackendCommand::RetryReceiver(receiver),
                inputs,
                true,
            );
            let held = a.machines[receiver].state is RetryWaiting
                || a.machines[receiver].state is Failed;
            &&& b.machines.contains_key(receiver)
            &&& held ==> b.machines[receiver].state is Connecting
            &&& !held ==> b.machines[receiver].state == a.machines[receiver].state
            &&& b.machines[receiver].next_retry is None
            &&& b.machines[receiver].attempt == a.machines[receiver].attempt
            &&& a.retry.contains_key(receiver) ==> {
                &&& b.retry.contains_key(receiver)
                &&& b.retry[receiver].next_retry is None
                &&& b.retry[receiver].attempt == a.retry[receiver].attempt
            }
            &&& other != receiver ==> b.machines.contains_key(other) && b.machines[other]
                == a.machines[other]
            &&& b.persisted == a.persisted
            &&& b.snapshot.run_intent == a.snapshot.run_intent
            &&& ended(b, id, None)
            &&& asked(b) == asked(a)
            &&& r == (RunView { reconcile: Some(ReconcileCause::Retry), ..run })
        }),
{
    let cleared = ActorView {
        retry: crate::recovery::deadline_cleared(a.retry, receiver),
        ..a
    };
    lemma_driven_asks_nothing(cleared, receiver, crate::actor_model::OpView::Retry);
    let retried = a.retried(receiver);
    lemma_showing_rows_asks_nothing(retried, retried.snapshot);
    lemma_result_is_last(retried.rows_republished(), id, Seq::empty(), CommandFailure::Rejected);
    lemma_driven_frame(cleared, receiver, crate::actor_model::OpView::Retry);
    lemma_rows_shown_frame(retried, retried.snapshot);
}

/// A platform edge sent as a command acts like one that was observed, and
/// succeeds.
pub proof fn law_a_notified_edge_acts_like_an_observed_one<R>(
    a: ActorView,
    run: RunView<R>,
    id: u64,
    event: SystemEvent,
    inputs: CommandInputs,
)
    ensures
        ({
            let (b, r) = carried_out(a, run, id, BackendCommand::NotifySystem(event), inputs, true);
            let acted = match event {
                SystemEvent::Suspending => a.suspending(inputs.now),
                SystemEvent::Resumed => a.resuming(inputs.now),
                SystemEvent::NetworkChanged { local_binding_changed } => a.network_changed(
                    local_binding_changed,
                    inputs.now,
                ),
            };
            &&& asked(b) == asked(acted)
            &&& b.suspended == acted.suspended
            &&& b.resume_at == acted.resume_at
            &&& b.machines == acted.machines
            &&& b.snapshot.session == acted.snapshot.session
            &&& ended(b, id, None)
            &&& r == run
        }),
{
    lemma_result_is_last(
        a.system_handled(event, inputs.now),
        id,
        Seq::empty(),
        CommandFailure::Rejected,
    );
}

/// A shutdown cancels a playing tone, ends the batch, and succeeds.
pub proof fn law_a_shutdown_ends_the_batch<R>(
    a: ActorView,
    run: RunView<R>,
    id: u64,
    inputs: CommandInputs,
)
    ensures
        ({
            let (b, r) = carried_out(a, run, id, BackendCommand::Shutdown, inputs, true);
            &&& r == (RunView { shutdown: true, ..run })
            &&& b.listening_test is None
            &&& a.listening_test is Some ==> b.effects.len() > a.effects.len()
                && b.effects[a.effects.len() as int] is CancelTone
            &&& b.persisted == a.persisted
            &&& asked(b) == asked(a)
            &&& ended(b, id, None)
        }),
{
    lemma_result_is_last(a.tone_silenced(), id, Seq::empty(), CommandFailure::Rejected);
}

/// The alignment clicks are injected once exactly if at least two receivers
/// are connected, and are refused otherwise; they cost no restart.
pub proof fn law_clicks_need_two_connected_receivers<R>(
    a: ActorView,
    run: RunView<R>,
    id: u64,
    inputs: CommandInputs,
)
    ensures
        ({
            let (b, r) = carried_out(
                a,
                run,
                id,
                BackendCommand::Calibration(CalibrationCommand::RunCalibrationClickTest),
                inputs,
                true,
            );
            &&& a.active.len() >= 2 ==> ended(b, id, None) && asked(b) == (Requests {
                clicks: asked(a).clicks + 1,
                ..asked(a)
            })
            &&& a.active.len() < 2 ==> ended(b, id, Some(CommandFailure::Rejected)) && asked(b)
                == asked(a)
            &&& r == run
        }),
{
    lemma_result_is_last(
        a.doing(EffectView::InjectClicks),
        id,
        Seq::empty(),
        CommandFailure::Rejected,
    );
    lemma_result_is_last(
        a,
        id,
        "the alignment test needs at least two connected receivers"@,
        CommandFailure::Rejected,
    );
}

/// A calibration is applied only against the selection it was authored for,
/// with at least two selected receivers and values that fit; a reset needs only
/// the selection. A refused one changes nothing and says so.
pub proof fn law_calibrations_are_refused_for_these_reasons_only(
    a: ActorView,
    id: u64,
    expected: u64,
    profile: CalibrationProfile,
    fits: bool,
)
    ensures
        ({
            let (b, step) = a.calibration_begun(
                id,
                CalibrationCommand::ApplyCalibrationProfile {
                    expected_desired_revision: expected,
                    profile,
                },
                fits,
            );
            let accepted = expected == a.snapshot.desired_revision
                && a.snapshot.desired_members.len() >= 2 && fits;
            &&& accepted ==> b == a && step == (StepView::SaveCalibration {
                id,
                profile: profile@,
                clearing: false,
            })
            &&& !accepted ==> step is Done && ended(b, id, Some(CommandFailure::Rejected))
                && b.calibration == a.calibration && asked(b) == asked(a)
        }),
        ({
            let (b, step) = a.calibration_begun(
                id,
                CalibrationCommand::ResetCalibration { expected_desired_revision: expected },
                fits,
            );
            &&& expected == a.snapshot.desired_revision ==> b == a && (
            step matches StepView::SaveCalibration { id: waiting, profile: empty, clearing }
                && waiting == id && clearing && empty.reference is None && empty.delays_ns.dom()
                =~= Set::<ReceiverId>::empty())
            &&& expected != a.snapshot.desired_revision ==> step is Done && ended(
                b,
                id,
                Some(CommandFailure::Rejected),
            ) && b.calibration == a.calibration && asked(b) == asked(a)
        }),
{
}

/// An accepted calibration is in force, and owes one rebuild, exactly once its
/// section is written; otherwise the old one stays, the error is flagged, and
/// the command fails.
pub proof fn law_a_written_calibration_is_in_force<R>(
    a: ActorView,
    run: RunView<R>,
    id: u64,
    profile: CalibrationView,
    saved: bool,
)
    ensures
        ({
            let (b, r) = a.calibration_answered(run, id, profile, saved);
            &&& saved ==> b.calibration == profile && ended(b, id, None) && r == (RunView {
                reconcile: Some(ReconcileCause::CalibrationChanged),
                ..run
            }) && b.snapshot.persistence == PersistenceSnapshot::Healthy
            &&& !saved ==> b.calibration == a.calibration && ended(
                b,
                id,
                Some(CommandFailure::Persistence),
            ) && r == run && b.snapshot.persistence == PersistenceSnapshot::Error
            &&& b.persisted == a.persisted
            &&& asked(b) == asked(a)
        }),
{
    reveal(ActorView::calibration_answered);
    lemma_result_is_last(a, id, Seq::empty(), CommandFailure::Rejected);
    let stored = ActorView {
        calibration: profile,
        snapshot: SnapshotView { persistence: PersistenceSnapshot::Healthy, ..a.snapshot },
        ..a
    };
    lemma_result_is_last(stored, id, Seq::empty(), CommandFailure::Rejected);
    lemma_results_ask_nothing(a, id, Seq::empty(), CommandFailure::Rejected);
    let failed = a.save_failed(id).calibration_noted(
        crate::calibration::CalibrationApplyState::Failed,
    );
    lemma_published_asks_nothing(failed);
    reveal(ActorView::published);
    reveal(ActorView::save_failed);
}

/// A test tone may play exactly in a fully connected, running, unmuted session
/// at a low but audible master volume, on the normal preset, with a working
/// source, and with no selected receiver at level zero; its guard binds that
/// configuration.
pub proof fn law_a_tone_needs_a_quiet_live_session(s: SnapshotView)
    ensures
        guard_of(s) is Some <==> {
            &&& s.session.phase is Streaming
            &&& s.run_intent == RunIntent::Running
            &&& !s.muted
            &&& s.desired_members != Set::<ReceiverId>::empty()
            &&& s.session.active == s.desired_members
            &&& s.master_volume.units() > 0
            &&& s.master_volume.units() <= crate::volume::f32_units(0x3E19_999A)
            &&& s.latency_preset == LatencyPreset::Normal
            &&& s.audio_source.state == AudioSourceState::Capturing || s.audio_source.state
                == AudioSourceState::SilentSystem
            &&& forall|id: ReceiverId| #[trigger]
                s.desired_members.contains(id) && s.receiver_levels.contains_key(id)
                    ==> s.receiver_levels[id].units() != 0
        },
        guard_of(s) matches Some(guard) ==> {
            &&& s.session.phase == (PhaseView::Streaming { generation: guard.generation })
            &&& guard.members == s.desired_members
            &&& guard.volume == s.master_volume
            &&& guard.levels == s.receiver_levels
            &&& guard.endpoint == s.audio_source.preference
            &&& guard.captured == s.audio_source.captured_endpoint
        },
{
}

/// A listening tone is asked for exactly when its guard still holds and its
/// generation has not played one; it counts as played once it started, and a
/// busy source or a stale guard is a refusal that changes nothing.
pub proof fn law_a_tone_is_started_or_refused(
    a: ActorView,
    id: u64,
    guard: GuardView,
    started: bool,
)
    ensures
        ({
            let (b, step) = a.tone_requested(id, guard);
            let accepted = guard_holds(guard, a.snapshot) && a.last_listening_test_generation
                != Some(guard.generation);
            &&& accepted ==> b == a && step == (StepView::StartTone { id, guard })
            &&& !accepted ==> step is Done && ended(b, id, Some(CommandFailure::Rejected))
                && b.listening_test == a.listening_test && b.last_listening_test_generation
                == a.last_listening_test_generation
        }),
        ({
            let b = a.tone_answered(id, guard, started);
            &&& started ==> b.listening_test == Some(guard) && b.last_listening_test_generation
                == Some(guard.generation) && ended(b, id, None)
            &&& !started ==> b.listening_test == a.listening_test
                && b.last_listening_test_generation == a.last_listening_test_generation && ended(
                b,
                id,
                Some(CommandFailure::Rejected),
            )
        }),
{
}

/// A playing tone is cancelled by the very publication that shows a
/// configuration it is not bound to, and by nothing else.
pub proof fn law_publications_cancel_a_tone_that_no_longer_fits(a: ActorView)
    ensures
        ({
            let b = a.published();
            let stale = a.listening_test matches Some(guard) && !guard_holds(guard, a.snapshot);
            &&& stale ==> b.listening_test is None && b.effects == a.effects.push(
                EffectView::CancelTone,
            ).push(EffectView::Publish(b.snapshot))
            &&& !stale ==> b.listening_test == a.listening_test && b.effects == a.effects.push(
                EffectView::Publish(b.snapshot),
            )
        }),
{
    reveal(ActorView::published);
}

/// What the end of a batch asks for: the new volumes of every desired and every
/// active receiver if volumes changed, and then one rebuild if one is owed.
pub proof fn law_the_end_of_a_batch_pays_what_it_owes<R>(a: ActorView, run: RunView<R>)
    ensures
        ({
            let b = a.batch_applied(run);
            let heard = if run.volumes_changed && a.session_open {
                Requests {
                    seeded: asked(a).seeded + gains_of(a, ascending_list(a.snapshot.desired_members)),
                    session: asked(a).session + volume_requests(a, ascending_list(a.active)),
                    ..asked(a)
                }
            } else {
                asked(a)
            };
            let nothing_to_do = a.snapshot.run_intent == RunIntent::Stopped && a.active
                == Set::<ReceiverId>::empty() && a.pending_desired == Set::<ReceiverId>::empty();
            let rebuilds = run.reconcile is Some && a.session_open && !a.suspended
                && !nothing_to_do;
            &&& !rebuilds ==> asked(b) == heard
            &&& rebuilds ==> {
                &&& asked(b).session.len() == heard.session.len() + 1
                &&& asked(b).session.drop_last() == heard.session
                &&& asked(b).session.last() is Reconcile
                &&& asked(b).capture == heard.capture
                &&& asked(b).discovery == heard.discovery
                &&& a.session_generation < u64::MAX ==> b.session_generation
                    == a.session_generation + 1
            }
            &&& b.snapshot == a.snapshot
            &&& b.persisted == a.persisted
            &&& b.machines == a.machines
        }),
{
    reveal(ActorView::batch_applied);
    lemma_seeded_volumes(a, ascending_list(a.snapshot.desired_members));
    crate::restart_laws::lemma_remembering_only_asks(a);
    let remembered = a.remembering();
    lemma_forwarded_volumes(remembered, ascending_list(a.active));
    assert(volume_requests(remembered, ascending_list(a.active)) =~= volume_requests(
        a,
        ascending_list(a.active),
    ));
    let heard = if run.volumes_changed { remembered.forwarding() } else { a };
    assert(heard == (ActorView { effects: heard.effects, ..a }));
    assert(run.volumes_changed && a.session_open ==> asked(heard) == (Requests {
        seeded: asked(a).seeded + gains_of(a, ascending_list(a.snapshot.desired_members)),
        session: asked(a).session + volume_requests(a, ascending_list(a.active)),
        ..asked(a)
    }));
    assert(!(run.volumes_changed && a.session_open) ==> asked(heard) == asked(a));
    if let Some(cause) = run.reconcile {
        law_a_reconcile_makes_exactly_one_request(heard, cause);
    }
}

/// Whatever a batch did, every result it recorded has been published when it
/// is over, and finishing asks for nothing beyond what it owed.
pub proof fn law_every_result_is_published_by_the_end_of_its_batch<R>(a: ActorView, run: RunView<R>)
    ensures
        ({
            let b = a.batch_finished(run);
            &&& b.published_outcomes == b.snapshot.command_outcomes
            &&& b.snapshot.command_outcomes == a.snapshot.command_outcomes
            &&& asked(b) == asked(a.batch_applied(run))
            &&& run.group_starts.len() > 0 ==> b.snapshot.revision != a.snapshot.revision
                || a.snapshot.revision == u64::MAX
        }),
{
    reveal(ActorView::batch_finished);
    law_the_end_of_a_batch_pays_what_it_owes(a, run);
    let applied = a.batch_applied(run);
    lemma_published_asks_nothing(applied);
    lemma_published_asks_nothing(applied.published());
    reveal(ActorView::published);
}

/// Whether a piece of work is this command, to be answered by this receipt.
pub open spec fn is_work<R>(item: WorkItem<R>, envelope: CommandEnvelope<R>, receipt: Option<R>) -> bool {
    item.id == envelope.id && item.command == envelope.command && item.receipt == receipt
}

/// Whether the work of a slot stands at `at`, or the slot is empty.
pub open spec fn slot_stands<R>(
    work: Seq<WorkItem<R>>,
    slot: Option<CommandEnvelope<R>>,
    receipt: Option<R>,
    at: int,
) -> bool {
    slot matches Some(envelope) ==> 0 <= at < work.len() && is_work(work[at], envelope, receipt)
}

/// One for a filled slot.
pub open spec fn one<R>(slot: Option<CommandEnvelope<R>>) -> int {
    if slot is Some { 1 } else { 0 }
}

/// The work of a batch is its scalars in a fixed order, then its levels in the
/// order of their receivers, then its edges as they arrived: each once and
/// nothing else. Only the master volume and the edges carry receipts.
pub proof fn law_a_batch_works_scalars_then_levels_then_edges<R>(batch: BatchView<R>)
    requires
        batch.levels.dom().finite(),
    ensures
        ({
            let work = batch_work(batch);
            let members = 0int;
            let intent = members + one(batch.desired_members);
            let master = intent + one(batch.run_intent);
            let mute = master + one(batch.master_volume);
            let endpoint = mute + one(batch.muted);
            let latency = endpoint + one(batch.endpoint);
            let auto = latency + one(batch.latency_preset);
            let levels = auto + one(batch.auto_connect);
            let ids = ascending_list(batch.levels.dom());
            let edges = levels + ids.len();
            &&& slot_stands(work, batch.desired_members, None, members)
            &&& slot_stands(work, batch.run_intent, None, intent)
            &&& slot_stands(work, batch.master_volume, batch.master_receipt, master)
            &&& slot_stands(work, batch.muted, None, mute)
            &&& slot_stands(work, batch.endpoint, None, endpoint)
            &&& slot_stands(work, batch.latency_preset, None, latency)
            &&& slot_stands(work, batch.auto_connect, None, auto)
            &&& ids.to_set() == batch.levels.dom()
            &&& forall|i: int|
                0 <= i < ids.len() ==> is_work(
                    #[trigger] work[levels + i],
                    batch.levels[ids[i]],
                    None,
                )
            &&& forall|i: int|
                0 <= i < batch.edges.len() ==> is_work(
                    #[trigger] work[edges + i],
                    batch.edges[i],
                    batch.edges[i].confirmation,
                )
            &&& work.len() == edges + batch.edges.len()
        }),
        run_of(batch).work == batch_work(batch),
        run_of(batch).reconcile is None,
        !run_of(batch).volumes_changed,
        !run_of(batch).shutdown,
        run_of(batch).group_starts.len() == 0,
{
    law_finite_sets_are_listed(batch.levels.dom());
    let ids = ascending_list(batch.levels.dom());
    let w0 = Seq::<WorkItem<R>>::empty();
    let w1 = slot_work(batch.desired_members, None);
    assert(w0 + w1 =~= w1);
    lemma_slot_appended(w0, batch.desired_members, None);
    let w2 = w1 + slot_work(batch.run_intent, None);
    lemma_slot_appended(w1, batch.run_intent, None);
    let w3 = w2 + slot_work(batch.master_volume, batch.master_receipt);
    lemma_slot_appended(w2, batch.master_volume, batch.master_receipt);
    let w4 = w3 + slot_work(batch.muted, None);
    lemma_slot_appended(w3, batch.muted, None);
    let w5 = w4 + slot_work(batch.endpoint, None);
    lemma_slot_appended(w4, batch.endpoint, None);
    let w6 = w5 + slot_work(batch.latency_preset, None);
    lemma_slot_appended(w5, batch.latency_preset, None);
    let w7 = w6 + slot_work(batch.auto_connect, None);
    lemma_slot_appended(w6, batch.auto_connect, None);
    let w8 = w7 + level_work(batch.levels, ids);
    let work = batch_work(batch);
    assert(work == w8 + edge_work(batch.edges));
    assert(forall|i: int| 0 <= i < w7.len() ==> #[trigger] work[i] == w7[i]);
}

proof fn lemma_slot_appended<R>(
    front: Seq<WorkItem<R>>,
    slot: Option<CommandEnvelope<R>>,
    receipt: Option<R>,
)
    ensures
        (front + slot_work(slot, receipt)).len() == front.len() + one(slot),
        slot_stands(front + slot_work(slot, receipt), slot, receipt, front.len() as int),
        forall|i: int|
            0 <= i < front.len() ==> #[trigger] (front + slot_work(slot, receipt))[i] == front[i],
{
}

/// What a batch asks the application for is what it then waits for.
pub proof fn law_a_batch_waits_for_what_it_asked<R>(
    driver: BatchDriverView<R>,
    actor: ActorView,
    inputs: CommandInputs,
)
    ensures
        ({
            let (_, next, action) = driver.proceeded(actor, inputs);
            action is Save || action is SaveCalibration || action is StartTone ==> {
                &&& next.waiting matches Some(held) && match held.step {
                    StepView::Done => false,
                    StepView::Save(commit, _) => action == BatchActionView::<R>::Save(
                        commit.candidate,
                    ),
                    StepView::SaveCalibration { profile, clearing, .. } => action
                        == BatchActionView::<R>::SaveCalibration(
                        if clearing { None } else { Some(profile) },
                    ),
                    StepView::StartTone { .. } => action is StartTone,
                }
            }
        }),
{
}

/// What a batch handed out to be written is what is stored once the write
/// succeeded, and a failed write stores nothing; a calibration is in force, and
/// a tone bound, only after its own success.
pub proof fn law_what_is_written_is_what_is_stored<R>(
    driver: BatchDriverView<R>,
    actor: ActorView,
    succeeded: bool,
)
    ensures
        ({
            let after = driver.answered(actor, succeeded).0;
            &&& driver.waiting is None ==> after == actor
            &&& driver.waiting matches Some(held) ==> match held.step {
                StepView::Done => after.persisted == actor.persisted,
                StepView::Save(commit, _) => after.persisted == if succeeded {
                    commit.candidate
                } else {
                    actor.persisted
                },
                StepView::SaveCalibration { profile, .. } => {
                    &&& after.persisted == actor.persisted
                    &&& after.calibration == if succeeded { profile } else { actor.calibration }
                },
                StepView::StartTone { guard, .. } => {
                    &&& after.persisted == actor.persisted
                    &&& after.last_listening_test_generation == if succeeded {
                        Some(guard.generation)
                    } else {
                        actor.last_listening_test_generation
                    }
                },
            }
        }),
{
    if let Some(held) = driver.waiting {
        match held.step {
            StepView::Save(commit, follow) => {
                crate::settings_laws::lemma_saved(actor, driver.run, commit, follow, succeeded);
            },
            StepView::SaveCalibration { id, profile, .. } => {
                law_a_written_calibration_is_in_force(actor, driver.run, id, profile, succeeded);
            },
            _ => {},
        }
    }
    reveal(ActorView::published);
}

proof fn lemma_retained(recent: Seq<(u64, Option<CommandFailure>)>, id: u64, error: Option<CommandFailure>)
    requires
        recent.len() > 0,
        recent.last() == (id, error),
        forall|i: int| 0 <= i < recent.len() - 1 ==> (#[trigger] recent[i]).0 != id,
    ensures
        crate::snapshot::retained_result(recent, id) == Some(error),
    decreases recent.len(),
{
    if recent[0].0 != id {
        let rest = recent.drop_first();
        assert(rest.last() == recent.last());
        assert forall|i: int| 0 <= i < rest.len() - 1 implies (#[trigger] rest[i]).0 != id by {
            assert(rest[i] == recent[i + 1]);
        }
        lemma_retained(rest, id, error);
    } else {
        assert(recent.len() == 1);
    }
}

/// A receipt is answered with its own command's result and the number of the
/// publication that carries it. Only the receipt of a group that will start
/// waits for the end of the batch, where it is told the generation that may
/// answer it.
pub proof fn law_receipts_are_answered_with_their_own_result<R>(
    a: ActorView,
    run: RunView<R>,
    id: u64,
    starts: bool,
    receipt: Option<R>,
    error: Option<CommandFailure>,
)
    requires
        ended(a, id, error),
        a.snapshot.revision < u64::MAX,
        forall|i: int|
            0 <= i < a.snapshot.command_outcomes.recent.len() - 1 ==> (
            #[trigger] a.snapshot.command_outcomes.recent[i]).0 != id,
    ensures
        ({
            let (b, r, answer) = a.closed(run, id, starts, receipt);
            let waits = receipt is Some && starts && error is None;
            &&& receipt is None ==> b == a && r == run && answer is None
            &&& waits ==> answer is None && r == (RunView {
                group_starts: run.group_starts.push(receipt->0),
                ..run
            })
            &&& receipt is Some && !waits ==> r == run && answer == Some(
                (
                    receipt->0,
                    CommandConfirmation {
                        revision: b.snapshot.revision,
                        error,
                        session_generation_floor: None,
                    },
                ),
            )
            &&& receipt is Some ==> b.snapshot.revision == a.snapshot.revision + 1
            &&& asked(b) == asked(a)
            &&& b.persisted == a.persisted
        }),
{
    lemma_retained(a.snapshot.command_outcomes.recent, id, error);
    lemma_published_asks_nothing(a);
    reveal(ActorView::published);
}

/// At the end of a batch every waiting group start is answered as a success,
/// each once and in order, with the generation that may carry it: the current
/// one, or a later one while the machine sleeps or no session can be built.
pub proof fn law_group_starts_are_answered_with_their_generation<R>(
    driver: BatchDriverView<R>,
    actor: ActorView,
)
    requires
        actor.session_generation < u64::MAX - 1,
        actor.snapshot.revision < u64::MAX,
    ensures
        ({
            let (b, next, action) = driver.over(actor);
            let applied = actor.batch_applied(driver.run);
            &&& next.finished
            &&& action matches BatchActionView::Finished { shutdown, answers } && {
                &&& shutdown == driver.run.shutdown
                &&& answers.len() == driver.run.group_starts.len()
                &&& forall|i: int|
                    0 <= i < answers.len() ==> {
                        &&& (#[trigger] answers[i]).0 == driver.run.group_starts[i]
                        &&& answers[i].1.error is None
                        &&& answers[i].1.revision == actor.snapshot.revision + 1
                        &&& answers[i].1.session_generation_floor matches Some(floor) && floor
                            == applied.session_generation + if applied.suspended
                            || !applied.session_open {
                            1int
                        } else {
                            0int
                        }
                    }
            }
        }),
{
    law_the_end_of_a_batch_pays_what_it_owes(actor, driver.run);
    reveal(ActorView::batch_applied);
    let remembered = actor.remembering();
    crate::restart_laws::lemma_remembering_only_asks(actor);
    lemma_forwarded_volumes(remembered, ascending_list(remembered.active));
    let heard = if driver.run.volumes_changed { remembered.forwarding() } else { actor };
    if let Some(cause) = driver.run.reconcile {
        law_a_reconcile_makes_exactly_one_request(heard, cause);
    }
}

} // verus!
