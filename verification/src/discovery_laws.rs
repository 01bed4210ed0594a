//! What holds of every run of the discovery supervisor.

use vstd::prelude::*;

use crate::discovery::{
    browse_receiver, known_row, unstarted, update_generation, BrowseView, DeviceView,
    DiscoveryControl, DiscoveryEffectView, DiscoveryStage, DriverView, InputView, QueueAnswer,
    ServiceAddress, StateView, UpdateView,
};
use crate::event::{Generations, PayloadView, Severity};
use crate::ids::ReceiverId;
use crate::model::{DiscoveryPhase, LifecycleView};
use crate::recovery::{discovery_retry_delay, law_discovery_delays_are_bounded, RetryPolicy};
use crate::time::{Instant, SystemTime};

verus! {

/// One turn of the supervisor: the shared counters and what happened.
pub struct DiscoveryTurn {
    /// Shared counters.
    pub cell: Generations,
    /// What happened.
    pub input: InputView,
}

/// The updates offered to the queue by a list of effects, in order.
pub open spec fn updates_of(effects: Seq<DiscoveryEffectView>) -> Seq<UpdateView>
    decreases effects.len(),
{
    if effects.len() == 0 {
        Seq::empty()
    } else {
        let rest = updates_of(effects.drop_last());
        match effects.last() {
            DiscoveryEffectView::Send(update) => rest.push(update),
            _ => rest,
        }
    }
}

/// The supervisor after a run of turns, and every update of the run.
pub open spec fn ran(policy: RetryPolicy, turns: Seq<DiscoveryTurn>) -> (
    DriverView,
    Seq<UpdateView>,
)
    decreases turns.len(),
{
    if turns.len() == 0 {
        (unstarted(policy), Seq::empty())
    } else {
        let (driver, updates) = ran(policy, turns.drop_last());
        let (next, effects) = driver.after(turns.last().cell, turns.last().input);
        (next, updates + updates_of(effects))
    }
}

/// How many generations a list of updates starts.
pub open spec fn starts(updates: Seq<UpdateView>) -> int
    decreases updates.len(),
{
    if updates.len() == 0 {
        0
    } else {
        starts(updates.drop_last()) + if updates.last() is Started { 1int } else { 0int }
    }
}

/// Whether an update continues a run that already started `before`
/// generations: a start is the next one, and everything else names the latest.
spec fn continues(before: int, update: UpdateView) -> bool {
    if update is Started {
        update_generation(update) == before + 1
    } else {
        before >= 1 && update_generation(update) == before
    }
}

/// Whether the counter is zero exactly before the first turn that opens.
spec fn counting(driver: DriverView) -> bool {
    driver.state.generation == 0 <==> driver.stage is Idle
}

proof fn lemma_last_is_the_only_update(effects: Seq<DiscoveryEffectView>)
    requires
        forall|i: int| 0 <= i < effects.len() - 1 ==> !(#[trigger] effects[i] is Send),
    ensures
        effects.len() == 0 ==> updates_of(effects) == Seq::<UpdateView>::empty(),
        effects.len() > 0 ==> updates_of(effects) == match effects.last() {
            DiscoveryEffectView::Send(update) => seq![update],
            _ => Seq::empty(),
        },
    decreases effects.len(),
{
    if effects.len() > 0 {
        let front = effects.drop_last();
        assert forall|i: int| 0 <= i < front.len() - 1 implies !(#[trigger] front[i] is Send) by {
            assert(front[i] == effects[i]);
        }
        lemma_last_is_the_only_update(front);
        if front.len() > 0 {
            assert(front.last() == effects[front.len() - 1]);
        }
        assert(updates_of(front) =~= Seq::<UpdateView>::empty());
    }
}

proof fn lemma_turn(driver: DriverView, turn: DiscoveryTurn)
    requires
        driver.state.generation < u64::MAX,
        counting(driver),
    ensures
        ({
            let (next, effects) = driver.after(turn.cell, turn.input);
            let updates = updates_of(effects);
            &&& updates.len() <= 1
            &&& updates.len() == 1 ==> continues(driver.state.generation as int, updates[0])
            &&& next.state.generation == driver.state.generation + starts(updates)
            &&& counting(next)
        }),
{
    let (next, effects) = driver.after(turn.cell, turn.input);
    lemma_last_is_the_only_update(effects);
    let updates = updates_of(effects);
    reveal_with_fuel(starts, 2);
    if updates.len() == 1 {
        assert(updates.drop_last() =~= Seq::empty());
        assert(updates.last() == updates[0]);
    }
}

proof fn lemma_starts_extend(updates: Seq<UpdateView>, more: Seq<UpdateView>)
    requires
        more.len() <= 1,
    ensures
        starts(updates + more) == starts(updates) + starts(more),
{
    reveal_with_fuel(starts, 2);
    if more.len() == 0 {
        assert(updates + more =~= updates);
    } else {
        assert((updates + more).drop_last() =~= updates);
        assert(more.drop_last() =~= Seq::empty());
    }
}

proof fn lemma_run(policy: RetryPolicy, turns: Seq<DiscoveryTurn>)
    requires
        turns.len() < u64::MAX,
    ensures
        counting(ran(policy, turns).0),
        ran(policy, turns).0.state.generation == starts(ran(policy, turns).1),
        ran(policy, turns).0.state.generation <= turns.len(),
        forall|i: int|
            0 <= i < ran(policy, turns).1.len() ==> continues(
                starts(ran(policy, turns).1.take(i)),
                #[trigger] ran(policy, turns).1[i],
            ),
    decreases turns.len(),
{
    if turns.len() > 0 {
        let (driver, updates) = ran(policy, turns.drop_last());
        let (next, effects) = driver.after(turns.last().cell, turns.last().input);
        let more = updates_of(effects);
        lemma_run(policy, turns.drop_last());
        lemma_turn(driver, turns.last());
        lemma_starts_extend(updates, more);
        let all = updates + more;
        assert forall|i: int| 0 <= i < all.len() implies continues(
            starts(all.take(i)),
            #[trigger] all[i],
        ) by {
            if i < updates.len() {
                assert(all.take(i) =~= updates.take(i));
                assert(all[i] == updates[i]);
            } else {
                assert(all.take(i) =~= updates);
                assert(all[i] == more[0]);
            }
        }
    }
}

/// In every run of the supervisor each daemon that is created gets the next
/// generation, counted from one, and every receiver event and failure is
/// reported under the generation started last.
pub proof fn law_every_run_counts_its_generations(
    policy: RetryPolicy,
    turns: Seq<DiscoveryTurn>,
    i: int,
)
    requires
        turns.len() < u64::MAX,
        0 <= i < ran(policy, turns).1.len(),
    ensures
        ran(policy, turns).1[i] is Started ==> update_generation(ran(policy, turns).1[i]) == starts(
            ran(policy, turns).1.take(i),
        ) + 1,
        !(ran(policy, turns).1[i] is Started) ==> {
            &&& starts(ran(policy, turns).1.take(i)) >= 1
            &&& update_generation(ran(policy, turns).1[i]) == starts(ran(policy, turns).1.take(i))
        },
        ran(policy, turns).0.state.generation == starts(ran(policy, turns).1),
{
    lemma_run(policy, turns);
    assert(continues(starts(ran(policy, turns).1.take(i)), ran(policy, turns).1[i]));
}

proof fn lemma_starts_grow(updates: Seq<UpdateView>, i: int, j: int)
    requires
        0 <= i <= j <= updates.len(),
    ensures
        starts(updates.take(i)) <= starts(updates.take(j)),
    decreases j - i,
{
    if i < j {
        lemma_starts_grow(updates, i, j - 1);
        assert(updates.take(j).drop_last() =~= updates.take(j - 1));
    }
}

/// The updates of a run never go back to an older generation, so a consumer
/// that drops stale updates drops none of them, and no two daemons share a
/// generation.
pub proof fn law_runs_never_report_an_older_generation(
    policy: RetryPolicy,
    turns: Seq<DiscoveryTurn>,
    i: int,
    j: int,
)
    requires
        turns.len() < u64::MAX,
        0 <= i < j < ran(policy, turns).1.len(),
    ensures
        update_generation(ran(policy, turns).1[i]) <= update_generation(ran(policy, turns).1[j]),
        ran(policy, turns).1[j] is Started ==> update_generation(ran(policy, turns).1[i])
            < update_generation(ran(policy, turns).1[j]),
{
    let updates = ran(policy, turns).1;
    law_every_run_counts_its_generations(policy, turns, i);
    law_every_run_counts_its_generations(policy, turns, j);
    lemma_starts_grow(updates, i + 1, j);
    assert(updates.take(i + 1).drop_last() =~= updates.take(i));
    assert(updates.take(i + 1).last() == updates[i]);
}

/// Whether discovery shows a receiver as offered: seen since its removal, with
/// AirPlay 2 over IPv4.
pub open spec fn shown_offered(state: StateView, id: ReceiverId) -> bool {
    state.receivers.contains_key(id) && state.receivers[id].available
        && state.receivers[id].castable
}

/// The inventory follows the browse stream, one receiver at a time: a sighting
/// replaces that receiver's record and makes it present, castable exactly with
/// AirPlay 2 over IPv4; a removal only makes it absent; a network change makes
/// everybody absent and forgets nobody; a new daemon starts empty.
pub proof fn law_the_inventory_follows_the_stream(
    state: StateView,
    event: BrowseView,
    other: ReceiverId,
)
    ensures
        ({
            let after = state.folded(event);
            let id = browse_receiver(event);
            &&& after.generation == state.generation
            &&& after.phase == state.phase
            &&& other != id ==> {
                &&& after.receivers.contains_key(other) <==> state.receivers.contains_key(other)
                &&& state.receivers.contains_key(other) ==> after.receivers[other]
                    == state.receivers[other]
            }
            &&& event matches BrowseView::Removed(gone) ==> {
                &&& !shown_offered(after, gone)
                &&& after.receivers.contains_key(gone) <==> state.receivers.contains_key(gone)
                &&& state.receivers.contains_key(gone) ==> {
                    &&& !after.receivers[gone].available
                    &&& after.receivers[gone].name == state.receivers[gone].name
                    &&& after.receivers[gone].model == state.receivers[gone].model
                    &&& after.receivers[gone].castable == state.receivers[gone].castable
                }
            }
            &&& event matches BrowseView::Added(device) ==> known_as(after, device)
            &&& event matches BrowseView::Updated(device) ==> known_as(after, device)
        }),
        ({
            let absent = state.unknown();
            &&& absent.receivers.contains_key(other) <==> state.receivers.contains_key(other)
            &&& state.receivers.contains_key(other) ==> {
                &&& !absent.receivers[other].available
                &&& absent.receivers[other].name == state.receivers[other].name
                &&& absent.receivers[other].model == state.receivers[other].model
                &&& absent.receivers[other].castable == state.receivers[other].castable
            }
            &&& absent.generation == state.generation
        }),
        !state.cleared().receivers.contains_key(other),
        state.receivers.contains_key(other) ==> {
            let row = known_row(other, state.receivers[other]);
            &&& row.id == other
            &&& row.name == state.receivers[other].name
            &&& row.model == state.receivers[other].model
            &&& row.lifecycle == if shown_offered(state, other) {
                LifecycleView::Discovered
            } else {
                LifecycleView::Unavailable
            }
        },
{
}

/// Whether a device is known as present under its record.
pub open spec fn known_as(state: StateView, device: DeviceView) -> bool {
    &&& state.receivers.contains_key(device.id)
    &&& state.receivers[device.id].available
    &&& state.receivers[device.id].name == device.name
    &&& state.receivers[device.id].model == device.model
    &&& state.receivers[device.id].castable <==> device.supports_airplay2 && (
    device.address matches Some(ServiceAddress::V4 { .. }))
}

/// Whether a turn opened the next browse generation: published and announced
/// under the next number, with a token of its own; the inventory is kept as
/// absent after a network change and emptied otherwise.
pub open spec fn opens_next(
    before: DriverView,
    after: (DriverView, Seq<DiscoveryEffectView>),
) -> bool {
    let (next, effects) = after;
    let generation = next.state.generation;
    &&& next.stage is Starting
    &&& generation == before.state.generation + 1
    &&& next.state.phase == DiscoveryPhase::Running
    &&& next.failures == before.failures
    &&& !next.preserve_unknown
    &&& effects.len() == 3
    &&& effects[0] == DiscoveryEffectView::PublishGeneration(generation)
    &&& effects[1] is NewChild
    &&& effects[2] == DiscoveryEffectView::Send(UpdateView::Started { generation })
    &&& forall|id: ReceiverId| #[trigger]
        next.state.receivers.contains_key(id) <==> before.preserve_unknown
            && before.state.receivers.contains_key(id)
    &&& forall|id: ReceiverId| #[trigger]
        next.state.receivers.contains_key(id) ==> !next.state.receivers[id].available
}

/// The supervisor opens a new browse on its first turn, after yielding, when a
/// backoff or a settle has passed, and at once on another network change while
/// settling.
pub proof fn law_discovery_reopens_on_these_occasions(driver: DriverView, cell: Generations)
    requires
        driver.state.generation < u64::MAX,
    ensures
        driver.stage is Idle || driver.stage is Yielding ==> opens_next(
            driver,
            driver.after(cell, InputView::Proceed),
        ),
        driver.stage is BackingOff || driver.stage is Settling ==> opens_next(
            driver,
            driver.after(cell, InputView::Elapsed),
        ),
        driver.stage is Settling ==> opens_next(
            driver,
            driver.after(
                cell,
                InputView::Control(Some(DiscoveryControl::RestartAfterNetworkChange)),
            ),
        ),
{
}

/// Whether a turn reported a failure of the current generation with this
/// summary and scheduled its deterministic delay.
pub open spec fn reports_failure(
    driver: DriverView,
    after: (DriverView, Seq<DiscoveryEffectView>),
    summary: Seq<char>,
    now: Instant,
    wall: SystemTime,
) -> bool {
    let (next, effects) = after;
    let delay = discovery_retry_delay(driver.policy, driver.state.generation, driver.failures);
    &&& next.state.phase matches DiscoveryPhase::Retrying { attempt, retry_at } && attempt
        == driver.failures && (wall.nanos + delay <= u64::MAX ==> retry_at.nanos == wall.nanos
        + delay)
    &&& next.state.generation == driver.state.generation
    &&& next.state.receivers == driver.state.receivers
    &&& next.stage matches DiscoveryStage::Failing { delay: waits, .. } && waits.nanos == delay
    &&& effects.len() == 1
    &&& effects[0] matches DiscoveryEffectView::Send(
        UpdateView::Failed { generation, error, retry_at },
    ) && generation == driver.state.generation && error == summary && (now.nanos + delay
        <= u64::MAX ==> retry_at.nanos == now.nanos + delay)
}

/// A browse that could not be opened, failed, or ended is reported with its
/// reason and retried after its delay; the report climbs one failure and waits
/// exactly that delay.
pub proof fn law_a_failed_browse_is_reported_and_retried(
    driver: DriverView,
    cell: Generations,
    error: Seq<char>,
    now: Instant,
    wall: SystemTime,
)
    requires
        driver.policy.sound(),
        driver.failures < u32::MAX,
    ensures
        driver.stage is Opening || driver.stage is Listening ==> reports_failure(
            driver,
            driver.after(cell, InputView::Failed { error, now, wall }),
            error,
            now,
            wall,
        ),
        driver.stage is Listening ==> reports_failure(
            driver,
            driver.after(cell, InputView::Ended { now, wall }),
            "discovery stream ended unexpectedly"@,
            now,
            wall,
        ),
        driver.stage matches DiscoveryStage::Failing { delay, .. } ==> {
            let (next, effects) = driver.after(cell, InputView::Queue(QueueAnswer::Sent));
            &&& next.stage == (DiscoveryStage::BackingOff { delay })
            &&& next.failures == driver.failures + 1
            &&& next.state == driver.state
            &&& effects.len() == 1
            &&& effects[0] is Emit
        },
{
    law_discovery_delays_are_bounded(driver.policy, driver.state.generation, driver.failures);
}

/// A browse that opened is listened to, and each of its events is folded into
/// the inventory and forwarded, exactly as it came, under its generation.
pub proof fn law_browse_events_are_folded_and_forwarded(
    driver: DriverView,
    cell: Generations,
    event: BrowseView,
)
    ensures
        driver.stage is Starting ==> driver.after(
            cell,
            InputView::Queue(QueueAnswer::Sent),
        ).0 == (DriverView { stage: DiscoveryStage::Opening, ..driver }),
        driver.stage is Opening ==> driver.after(cell, InputView::Opened) == (
            DriverView { stage: DiscoveryStage::Listening, ..driver },
            Seq::<DiscoveryEffectView>::empty(),
        ),
        driver.stage is Listening ==> {
            let (next, effects) = driver.after(cell, InputView::Browsed(event));
            &&& next == (DriverView {
                stage: DiscoveryStage::Forwarding,
                state: driver.state.folded(event),
                ..driver
            })
            &&& effects.len() == 2
            &&& effects[0] is Emit
            &&& effects[1] == DiscoveryEffectView::Send(
                UpdateView::Receiver { generation: driver.state.generation, event },
            )
        },
        driver.stage is Forwarding ==> driver.after(
            cell,
            InputView::Queue(QueueAnswer::Sent),
        ) == (DriverView { stage: DiscoveryStage::Listening, ..driver }, Seq::<
            DiscoveryEffectView,
        >::empty()),
{
}

/// A network change cancels the browse, makes everybody absent, forgets the
/// failures, and settles; a shutdown, a closed control channel, or a gone
/// consumer cancels the browse and ends supervision; a full queue cancels it,
/// says so, and yields.
pub proof fn law_discovery_obeys_control_and_queue(
    driver: DriverView,
    cell: Generations,
    shutdown: Option<DiscoveryControl>,
)
    requires
        shutdown == Some(DiscoveryControl::Shutdown) || shutdown is None,
    ensures
        driver.stage is Listening || driver.stage is BackingOff ==> {
            let (next, effects) = driver.after(
                cell,
                InputView::Control(Some(DiscoveryControl::RestartAfterNetworkChange)),
            );
            &&& next.stage is Settling
            &&& next.failures == 0
            &&& next.preserve_unknown
            &&& next.state == driver.state.unknown()
            &&& effects == seq![DiscoveryEffectView::CancelChild]
        },
        driver.stage is Listening || driver.stage is BackingOff || driver.stage is Settling ==> {
            let (next, effects) = driver.after(cell, InputView::Control(shutdown));
            &&& next.stage is Stopped
            &&& next.state.phase == DiscoveryPhase::Stopped
            &&& effects.len() == 2
            &&& effects[0] is Emit
            &&& effects[1] is CancelChild
        },
        driver.stage is Starting || driver.stage is Forwarding || driver.stage is Failing ==> {
            let full = driver.after(cell, InputView::Queue(QueueAnswer::Overloaded));
            let gone = driver.after(cell, InputView::Queue(QueueAnswer::Closed));
            &&& full.0 == (DriverView { stage: DiscoveryStage::Yielding, ..driver })
            &&& full.1.len() == 2
            &&& full.1[0] is Emit
            &&& full.1[1] is CancelChild
            &&& gone.0.stage is Stopped
            &&& gone.1[1] is CancelChild
        },
{
}

/// Discovery records each receiver's coming and going under its identity, each
/// generation's start and end, and each retry with its attempt and deadline,
/// all under the generation concerned.
pub proof fn law_discovery_records_what_happened(
    driver: DriverView,
    cell: Generations,
    event: BrowseView,
)
    ensures
        driver.stage is Listening ==> (driver.after(
            cell,
            InputView::Browsed(event),
        ).1[0] matches DiscoveryEffectView::Emit(record) && {
            let receiver = match event {
                BrowseView::Added(device) => device.id,
                BrowseView::Updated(device) => device.id,
                BrowseView::Removed(id) => id,
            };
            &&& record.receiver == Some(receiver)
            &&& record.severity == Severity::Info
            &&& record.generations.discovery == driver.state.generation
            &&& record.generations.session == cell.session
            &&& record.generations.capture == cell.capture
            &&& record.payload == (PayloadView::DiscoveryReceiver {
                receiver,
                present: event is Added || event is Updated,
            })
        }),
        driver.stage is Starting ==> (driver.after(
            cell,
            InputView::Queue(QueueAnswer::Sent),
        ).1[0] matches DiscoveryEffectView::Emit(record) && record.severity == Severity::Info
            && record.payload == (PayloadView::DiscoveryGeneration {
            generation: driver.state.generation,
            phase: DiscoveryPhase::Running,
        })),
        driver.stage matches DiscoveryStage::Failing { wall_deadline, .. } ==> (driver.after(
            cell,
            InputView::Queue(QueueAnswer::Sent),
        ).1[0] matches DiscoveryEffectView::Emit(record) && record.severity == Severity::Warning
            && record.payload == (PayloadView::Retry {
            receiver: None,
            attempt: driver.failures,
            next_at: wall_deadline,
        })),
        driver.stage is Listening ==> (driver.after(
            cell,
            InputView::Control(None),
        ).1[0] matches DiscoveryEffectView::Emit(record) && record.severity == Severity::Info
            && record.payload == (PayloadView::DiscoveryGeneration {
            generation: driver.state.generation,
            phase: DiscoveryPhase::Stopped,
        })),
        driver.stage is Forwarding ==> (driver.after(
            cell,
            InputView::Queue(QueueAnswer::Overloaded),
        ).1[0] matches DiscoveryEffectView::Emit(record) && record.severity == Severity::Warning
            && record.payload == (PayloadView::QueueWatermark { depth: 256, capacity: 256 })),
{
}

} // verus!
