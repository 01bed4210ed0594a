//! What holds of every run of the capture supervisor.

use vstd::prelude::*;

use crate::capture::{
    capture_error_text, unstarted, CaptureControl, CaptureDriverView, CaptureEffectView,
    CaptureError, CaptureInputView, CaptureMoment, CaptureStage, CaptureUpdateView, QueueAnswer,
    DECODER_GENERATION,
};
use crate::event::{PayloadView, Severity};
use crate::model::{AudioSourceState, EndpointView, PreferenceView};

verus! {

/// One turn of the supervisor: the preference in force, the clock readings,
/// and what happened.
pub struct CaptureTurn {
    /// Clock readings and counters.
    pub at: CaptureMoment,
    /// Preference in force.
    pub preference: PreferenceView,
    /// What happened.
    pub input: CaptureInputView,
}

/// The updates offered to the queue by a list of effects, in order.
pub open spec fn updates_of(effects: Seq<CaptureEffectView>) -> Seq<CaptureUpdateView>
    decreases effects.len(),
{
    if effects.len() == 0 {
        Seq::empty()
    } else {
        let rest = updates_of(effects.drop_last());
        match effects.last() {
            CaptureEffectView::Send(update) => rest.push(update),
            CaptureEffectView::Offer(update) => rest.push(update),
            _ => rest,
        }
    }
}

/// The supervisor after one more turn, and the updates of that turn.
pub open spec fn turned(driver: CaptureDriverView, turn: CaptureTurn) -> (
    CaptureDriverView,
    Seq<CaptureUpdateView>,
) {
    let (next, effects) = CaptureDriverView { preference: turn.preference, ..driver }.after(
        turn.at,
        turn.input,
    );
    (next, updates_of(effects))
}

/// The supervisor after a run of turns, and every update of the run.
pub open spec fn ran(turns: Seq<CaptureTurn>) -> (CaptureDriverView, Seq<CaptureUpdateView>)
    decreases turns.len(),
{
    if turns.len() == 0 {
        (unstarted(), Seq::empty())
    } else {
        let (driver, updates) = ran(turns.drop_last());
        let (next, more) = turned(driver, turns.last());
        (next, updates + more)
    }
}

/// How many generations a list of updates starts.
pub open spec fn starts(updates: Seq<CaptureUpdateView>) -> int
    decreases updates.len(),
{
    if updates.len() == 0 {
        0
    } else {
        starts(updates.drop_last()) + if updates.last() is Started { 1int } else { 0int }
    }
}

/// The decoder generation an update carries.
pub open spec fn decoder_of(update: CaptureUpdateView) -> u64 {
    match update {
        CaptureUpdateView::Started { decoder_generation, .. } => decoder_generation,
        CaptureUpdateView::Ready { decoder_generation, .. } => decoder_generation,
        CaptureUpdateView::FrameDrop { decoder_generation, .. } => decoder_generation,
        CaptureUpdateView::Recovering { decoder_generation, .. } => decoder_generation,
        CaptureUpdateView::Stopped { decoder_generation } => decoder_generation,
        CaptureUpdateView::Suspended { decoder_generation, .. } => decoder_generation,
    }
}

/// The capture generation an update names, where it names one.
pub open spec fn generation_of(update: CaptureUpdateView) -> Option<u64> {
    match update {
        CaptureUpdateView::Started { capture_generation, .. } => Some(capture_generation),
        CaptureUpdateView::Ready { capture_generation, .. } => Some(capture_generation),
        CaptureUpdateView::FrameDrop { capture_generation, .. } => Some(capture_generation),
        CaptureUpdateView::Recovering { capture_generation, .. } => Some(capture_generation),
        CaptureUpdateView::Stopped { .. } => None,
        CaptureUpdateView::Suspended { capture_generation, .. } => Some(capture_generation),
    }
}

/// Whether an update continues a run that already started `before`
/// generations: a start is the next one, and everything else names the latest.
spec fn continues(before: int, update: CaptureUpdateView) -> bool {
    &&& decoder_of(update) == DECODER_GENERATION
    &&& update is Started ==> generation_of(update) == Some((before + 1) as u64)
    &&& !(update is Started) ==> {
        &&& before >= 1
        &&& generation_of(update) is Some ==> generation_of(update) == Some(before as u64)
    }
}

/// Whether the counter is zero exactly before the first turn that opens.
spec fn counting(driver: CaptureDriverView) -> bool {
    driver.capture_generation == 0 <==> driver.stage is Idle
}

proof fn lemma_last_is_the_only_update(effects: Seq<CaptureEffectView>)
    requires
        forall|i: int|
            0 <= i < effects.len() - 1 ==> !(#[trigger] effects[i] is Send) && !(effects[i] is Offer),
    ensures
        effects.len() == 0 ==> updates_of(effects) == Seq::<CaptureUpdateView>::empty(),
        effects.len() > 0 ==> updates_of(effects) == match effects.last() {
            CaptureEffectView::Send(update) => seq![update],
            CaptureEffectView::Offer(update) => seq![update],
            _ => Seq::empty(),
        },
    decreases effects.len(),
{
    if effects.len() > 0 {
        let front = effects.drop_last();
        assert forall|i: int| 0 <= i < front.len() - 1 implies !(#[trigger] front[i] is Send) && !(
        front[i] is Offer) by {
            assert(front[i] == effects[i]);
        }
        lemma_last_is_the_only_update(front);
        if front.len() > 0 {
            assert(front.last() == effects[front.len() - 1]);
        }
        assert(updates_of(front) =~= Seq::<CaptureUpdateView>::empty());
    }
}

proof fn lemma_turn(driver: CaptureDriverView, turn: CaptureTurn)
    requires
        driver.capture_generation < u64::MAX,
        counting(driver),
    ensures
        turned(driver, turn).1.len() <= 1,
        turned(driver, turn).1.len() == 1 ==> continues(
            driver.capture_generation as int,
            turned(driver, turn).1[0],
        ),
        turned(driver, turn).0.capture_generation == driver.capture_generation + starts(
            turned(driver, turn).1,
        ),
        counting(turned(driver, turn).0),
{
    let set = CaptureDriverView { preference: turn.preference, ..driver };
    let (next, effects) = set.after(turn.at, turn.input);
    lemma_last_is_the_only_update(effects);
    let updates = updates_of(effects);
    reveal_with_fuel(starts, 2);
    if updates.len() == 1 {
        assert(updates.drop_last() =~= Seq::empty());
        assert(updates.last() == updates[0]);
    }
}

/// In every run of the supervisor the first generation started is the first,
/// each later one is the next number, every other update names the generation
/// started last, and no update names a second decoder generation.
pub proof fn law_every_run_counts_its_generations(turns: Seq<CaptureTurn>, i: int)
    requires
        turns.len() < u64::MAX,
        0 <= i < ran(turns).1.len(),
    ensures
        decoder_of(ran(turns).1[i]) == DECODER_GENERATION,
        ran(turns).1[i] is Started ==> generation_of(ran(turns).1[i]) == Some(
            (starts(ran(turns).1.take(i)) + 1) as u64,
        ),
        !(ran(turns).1[i] is Started) ==> starts(ran(turns).1.take(i)) >= 1,
        !(ran(turns).1[i] is Started || ran(turns).1[i] is Stopped) ==> generation_of(
            ran(turns).1[i],
        ) == Some(starts(ran(turns).1.take(i)) as u64),
        starts(ran(turns).1.take(i)) < u64::MAX,
{
    lemma_run(turns);
    assert(continues(starts(ran(turns).1.take(i)), ran(turns).1[i]));
    lemma_starts_split(ran(turns).1, i);
}

proof fn lemma_starts_split(updates: Seq<CaptureUpdateView>, i: int)
    requires
        0 <= i <= updates.len(),
    ensures
        0 <= starts(updates.take(i)) <= starts(updates),
        i < updates.len() ==> starts(updates.take(i + 1)) == starts(updates.take(i)) + if updates[i] is Started {
            1int
        } else {
            0int
        },
    decreases updates.len(),
{
    if i < updates.len() {
        assert(updates.take(i + 1).drop_last() =~= updates.take(i));
        assert(updates.drop_last().take(i) =~= updates.take(i));
        lemma_starts_split(updates.drop_last(), i);
    } else {
        assert(updates.take(i) =~= updates);
        if i > 0 {
            assert(updates.drop_last().take(i - 1) =~= updates.drop_last());
            lemma_starts_split(updates.drop_last(), i - 1);
        }
    }
}

proof fn lemma_starts_extend(updates: Seq<CaptureUpdateView>, more: Seq<CaptureUpdateView>)
    requires
        more.len() <= 1,
    ensures
        starts(updates + more) == starts(updates) + starts(more),
{
    reveal_with_fuel(starts, 2);
    if more.len() == 0 {
        assert(updates + more =~= updates);
    } else {
        assert((updates + more).drop_last() =~= updates);
        assert(more.drop_last() =~= Seq::empty());
    }
}

proof fn lemma_run(turns: Seq<CaptureTurn>)
    requires
        turns.len() < u64::MAX,
    ensures
        counting(ran(turns).0),
        ran(turns).0.capture_generation == starts(ran(turns).1),
        ran(turns).0.capture_generation <= turns.len(),
        forall|i: int|
            0 <= i < ran(turns).1.len() ==> continues(
                starts(ran(turns).1.take(i)),
                #[trigger] ran(turns).1[i],
            ),
    decreases turns.len(),
{
    if turns.len() > 0 {
        let (driver, updates) = ran(turns.drop_last());
        let (next, more) = turned(driver, turns.last());
        lemma_run(turns.drop_last());
        lemma_turn(driver, turns.last());
        lemma_starts_extend(updates, more);
        let all = updates + more;
        assert forall|i: int| 0 <= i < all.len() implies continues(
            starts(all.take(i)),
            #[trigger] all[i],
        ) by {
            if i < updates.len() {
                assert(all.take(i) =~= updates.take(i));
                assert(all[i] == updates[i]);
            } else {
                assert(all.take(i) =~= updates);
                assert(all[i] == more[0]);
            }
        }
    }
}

/// No capture generation is ever handed out twice: of two starts in a run the
/// later one carries the larger number.
pub proof fn law_started_generations_strictly_increase(turns: Seq<CaptureTurn>, i: int, j: int)
    requires
        turns.len() < u64::MAX,
        0 <= i < j < ran(turns).1.len(),
        ran(turns).1[i] is Started,
        ran(turns).1[j] is Started,
    ensures
        1 <= generation_of(ran(turns).1[i])->0 < generation_of(ran(turns).1[j])->0,
{
    let updates = ran(turns).1;
    law_every_run_counts_its_generations(turns, i);
    law_every_run_counts_its_generations(turns, j);
    lemma_starts_split(updates, i);
    lemma_starts_split(updates.take(j), i + 1);
    assert(updates.take(j).take(i + 1) =~= updates.take(i + 1));
    lemma_starts_split(updates.take(i), 0);
}

proof fn lemma_no_starts_between(updates: Seq<CaptureUpdateView>, i: int, j: int)
    requires
        0 <= i <= j <= updates.len(),
        forall|k: int| i <= k < j ==> !(#[trigger] updates[k] is Started),
    ensures
        starts(updates.take(j)) == starts(updates.take(i)),
    decreases j - i,
{
    if i < j {
        lemma_no_starts_between(updates, i, j - 1);
        lemma_starts_split(updates, j - 1);
    }
}

/// A suspend names the generation it cancelled, which is the one started
/// last, and the next start after it mints the number that follows.
pub proof fn law_suspended_names_the_latest_start(turns: Seq<CaptureTurn>, i: int, j: int)
    requires
        turns.len() < u64::MAX,
        0 <= i < j < ran(turns).1.len(),
        ran(turns).1[i] is Started,
        forall|k: int| i < k < j ==> !(#[trigger] ran(turns).1[k] is Started),
    ensures
        ran(turns).1[j] is Suspended ==> generation_of(ran(turns).1[j]) == generation_of(
            ran(turns).1[i],
        ),
        ran(turns).1[j] is Started ==> generation_of(ran(turns).1[j])->0 == generation_of(
            ran(turns).1[i],
        )->0 + 1,
{
    let updates = ran(turns).1;
    law_every_run_counts_its_generations(turns, i);
    law_every_run_counts_its_generations(turns, j);
    lemma_starts_split(updates, i);
    lemma_no_starts_between(updates, i + 1, j);
}

/// The delay of a ladder step: 250 ms, 500 ms, 1 s, 2 s, then every 5 s.
pub open spec fn rung(step: usize) -> int {
    if step == 0 {
        250_000_000
    } else if step == 1 {
        500_000_000
    } else if step == 2 {
        1_000_000_000
    } else if step == 3 {
        2_000_000_000
    } else {
        5_000_000_000
    }
}

/// Whether a turn opened the next generation: its number is the next one, the
/// meter and the bridge are pointed at it, it has a token of its own, and its
/// start is offered to the queue; what was captured before is unchanged.
pub open spec fn opens_next(
    before: CaptureDriverView,
    after: (CaptureDriverView, Seq<CaptureEffectView>),
) -> bool {
    let (next, effects) = after;
    &&& next.stage == CaptureStage::Starting
    &&& next.capture_generation == before.capture_generation + 1
    &&& next.preference == before.preference
    &&& next.state == before.state
    &&& next.captured_endpoint == before.captured_endpoint
    &&& effects.len() >= 3
    &&& effects[effects.len() - 3] == CaptureEffectView::BeginGeneration(next.capture_generation)
    &&& effects[effects.len() - 2] is NewChild
    &&& effects.last() == CaptureEffectView::Send(
        CaptureUpdateView::Started {
            decoder_generation: 1,
            capture_generation: next.capture_generation,
        },
    )
}

/// Whether a stage listens to control edges.
pub open spec fn listens(stage: CaptureStage) -> bool {
    stage is Opening || stage is Readying || stage is Running || stage is Climbing
}

/// The supervisor opens a new generation on its first turn, after yielding,
/// when a ladder delay has passed, when another endpoint is wanted, and on a
/// resume, which starts the ladder over. A cancelled attempt is cancelled
/// first.
pub proof fn law_capture_reopens_on_these_occasions(driver: CaptureDriverView, at: CaptureMoment)
    requires
        driver.capture_generation < u64::MAX,
    ensures
        driver.stage is Idle || driver.stage is Yielding ==> opens_next(
            driver,
            driver.after(at, CaptureInputView::Proceed),
        ),
        driver.stage is Climbing ==> opens_next(driver, driver.after(at, CaptureInputView::Elapsed)),
        listens(driver.stage) ==> {
            let after = driver.after(
                at,
                CaptureInputView::Control(Some(CaptureControl::RequestEndpointChange)),
            );
            &&& opens_next(driver, after)
            &&& after.1.len() == 4
            &&& after.1[0] is CancelChild
            &&& after.0.ladder_index == driver.ladder_index
        },
        driver.stage is Suspended ==> {
            let after = driver.after(at, CaptureInputView::Control(Some(CaptureControl::Resume)));
            &&& opens_next(driver, after)
            &&& after.0.ladder_index == 0
        },
        listens(driver.stage) ==> opens_next(
            driver,
            driver.after(at, CaptureInputView::Control(Some(CaptureControl::Resume))),
        ),
{
}

/// An open worker is started, and a ready one is shown capturing its endpoint
/// and announced with it, which starts the ladder over.
pub proof fn law_a_ready_worker_is_announced(
    driver: CaptureDriverView,
    at: CaptureMoment,
    endpoint: EndpointView,
)
    ensures
        driver.stage is Starting ==> driver.after(
            at,
            CaptureInputView::Queue(QueueAnswer::Sent),
        ) == (CaptureDriverView { stage: CaptureStage::Opening, ..driver }, Seq::<
            CaptureEffectView,
        >::empty()),
        driver.stage is Opening ==> driver.after(at, CaptureInputView::Opened(Ok(()))) == (
            CaptureDriverView { stage: CaptureStage::Readying, ..driver },
            seq![CaptureEffectView::SpawnWorker],
        ),
        driver.stage is Readying ==> {
            let (next, effects) = driver.after(at, CaptureInputView::Ready(Some(endpoint)));
            &&& next.stage is Announcing
            &&& next.state == AudioSourceState::Capturing
            &&& next.captured_endpoint == Some(endpoint)
            &&& next.ladder_index == 0
            &&& next.capture_generation == driver.capture_generation
            &&& effects.last() == CaptureEffectView::Send(
                CaptureUpdateView::Ready {
                    decoder_generation: 1,
                    capture_generation: driver.capture_generation,
                    endpoint,
                },
            )
        },
        driver.stage is Announcing ==> driver.after(
            at,
            CaptureInputView::Queue(QueueAnswer::Sent),
        ) == (CaptureDriverView { stage: CaptureStage::Running, ..driver }, Seq::<
            CaptureEffectView,
        >::empty()),
{
}

/// Whether a turn reported a failure of the current generation with this
/// summary and scheduled the delay of the current ladder step.
pub open spec fn reports_failure(
    driver: CaptureDriverView,
    at: CaptureMoment,
    after: (CaptureDriverView, Seq<CaptureEffectView>),
    summary: Seq<char>,
) -> bool {
    let (next, effects) = after;
    let delay = rung(driver.ladder_index);
    &&& next.state == AudioSourceState::Recovering
    &&& next.captured_endpoint is None
    &&& next.capture_generation == driver.capture_generation
    &&& next.stage matches CaptureStage::Failing { delay: waits, wall_deadline } && waits.nanos
        == delay && (at.wall.nanos + delay <= u64::MAX ==> wall_deadline.nanos == at.wall.nanos
        + delay)
    &&& effects.len() == 1
    &&& effects[0] matches CaptureEffectView::Send(
        CaptureUpdateView::Recovering {
            decoder_generation,
            capture_generation,
            error,
            retry_at,
        },
    ) && decoder_generation == 1 && capture_generation == driver.capture_generation && error
        == summary && (at.now.nanos + delay <= u64::MAX ==> retry_at.nanos == at.now.nanos + delay)
}

/// A worker that could not be opened, never became ready, or ended is reported
/// with its cause and retried after the delay of its ladder step; only a clean
/// end with another endpoint wanted reopens at once. A reported failure climbs
/// one step and waits exactly its delay.
pub proof fn law_a_failed_worker_is_reported_and_retried(
    driver: CaptureDriverView,
    at: CaptureMoment,
    error: CaptureError,
    pending: bool,
)
    requires
        driver.capture_generation < u64::MAX,
        driver.ladder_index <= 5,
    ensures
        driver.stage is Opening ==> reports_failure(
            driver,
            at,
            driver.after(at, CaptureInputView::Opened(Err(error))),
            "audio capture failed: "@ + capture_error_text(error),
        ),
        driver.stage is Readying ==> reports_failure(
            driver,
            at,
            driver.after(at, CaptureInputView::Ready(None)),
            "audio capture worker ended unexpectedly"@,
        ),
        driver.stage is Running ==> {
            &&& reports_failure(
                driver,
                at,
                driver.after(
                    at,
                    CaptureInputView::Ended {
                        outcome: Some(Err(error)),
                        endpoint_change_pending: pending,
                    },
                ),
                "audio capture failed: "@ + capture_error_text(error),
            )
            &&& reports_failure(
                driver,
                at,
                driver.after(
                    at,
                    CaptureInputView::Ended { outcome: None, endpoint_change_pending: pending },
                ),
                "audio capture worker ended unexpectedly"@,
            )
            &&& reports_failure(
                driver,
                at,
                driver.after(
                    at,
                    CaptureInputView::Ended {
                        outcome: Some(Ok(())),
                        endpoint_change_pending: false,
                    },
                ),
                "audio capture worker ended unexpectedly"@,
            )
            &&& opens_next(
                driver,
                driver.after(
                    at,
                    CaptureInputView::Ended {
                        outcome: Some(Ok(())),
                        endpoint_change_pending: true,
                    },
                ),
            )
        },
        driver.stage matches CaptureStage::Failing { delay, wall_deadline } ==> {
            let (next, effects) = driver.after(at, CaptureInputView::Queue(QueueAnswer::Sent));
            &&& next.stage == (CaptureStage::Climbing { delay })
            &&& next.ladder_index == if driver.ladder_index < 5 {
                driver.ladder_index + 1
            } else {
                5int
            }
            &&& next.capture_generation == driver.capture_generation
            &&& updates_of(effects).len() == 0
        },
{
    reveal_with_fuel(updates_of, 3);
}

/// A suspend cancels the attempt, forgets the endpoint, and offers exactly the
/// suspended edge; a stop or a closed control channel cancels and joins
/// everything before it sends the final edge, after which nothing happens any
/// more, whatever the queue answers.
pub proof fn law_capture_parks_and_stops_cleanly(
    driver: CaptureDriverView,
    at: CaptureMoment,
    answer: QueueAnswer,
    input: CaptureInputView,
)
    ensures
        listens(driver.stage) ==> {
            let (next, effects) = driver.after(
                at,
                CaptureInputView::Control(Some(CaptureControl::Suspend)),
            );
            &&& next.stage is Suspended
            &&& next.state == AudioSourceState::Unavailable
            &&& next.captured_endpoint is None
            &&& next.capture_generation == driver.capture_generation
            &&& effects.len() == 4
            &&& effects[0] is CancelChild
            &&& effects[1] is DropChild
            &&& effects[3] == CaptureEffectView::Offer(
                CaptureUpdateView::Suspended {
                    decoder_generation: 1,
                    capture_generation: driver.capture_generation,
                },
            )
        },
        listens(driver.stage) || driver.stage is Suspended ==> {
            let (next, effects) = driver.after(
                at,
                CaptureInputView::Control(Some(CaptureControl::Stop)),
            );
            &&& next.stage is Finishing
            &&& effects.len() == 4
            &&& effects[0] is DropChild
            &&& effects[1] is Teardown
            &&& effects[3] == CaptureEffectView::Send(
                CaptureUpdateView::Stopped { decoder_generation: 1 },
            )
        },
        driver.stage is Finishing ==> driver.after(at, CaptureInputView::Queue(answer)).0.stage
            is Stopped && updates_of(driver.after(at, CaptureInputView::Queue(answer)).1).len()
            == 0,
        driver.stage is Stopped ==> driver.after(at, input) == (driver, Seq::<
            CaptureEffectView,
        >::empty()),
{
    reveal_with_fuel(updates_of, 3);
}

/// A full queue cancels the attempt, says so, and opens a fresh generation
/// after its consumer had a turn; a gone consumer ends supervision.
pub proof fn law_capture_survives_a_full_queue(driver: CaptureDriverView, at: CaptureMoment)
    requires
        driver.capture_generation < u64::MAX,
    ensures
        driver.stage is Starting || driver.stage is Announcing ==> {
            let full = driver.after(at, CaptureInputView::Queue(QueueAnswer::Overloaded));
            &&& full.0.stage is Yielding
            &&& full.1.len() == 2
            &&& full.1[0] is Emit
            &&& full.1[1] is CancelChild
            &&& driver.after(at, CaptureInputView::Queue(QueueAnswer::Closed)).0.stage is Finishing
        },
        driver.stage is Failing ==> {
            let full = driver.after(at, CaptureInputView::Queue(QueueAnswer::Overloaded));
            &&& opens_next(driver, full)
            &&& full.1[1] is CancelChild
            &&& driver.after(at, CaptureInputView::Queue(QueueAnswer::Closed)).0.stage is Finishing
        },
{
}

/// Capture records a ready worker, a retry with its step and deadline, a
/// parked or stopped source, and a full queue, all under the generation
/// concerned.
pub proof fn law_capture_records_what_happened(
    driver: CaptureDriverView,
    at: CaptureMoment,
    endpoint: EndpointView,
)
    ensures
        driver.stage is Readying ==> (driver.after(
            at,
            CaptureInputView::Ready(Some(endpoint)),
        ).1[0] matches CaptureEffectView::Emit(record) && record.severity == Severity::Info
            && record.generations.capture == driver.capture_generation
            && record.generations.discovery == at.cell.discovery && record.generations.session
            == at.cell.session && record.receiver is None && record.payload == (
        PayloadView::CaptureTransition { state: AudioSourceState::Capturing })),
        driver.stage matches CaptureStage::Failing { wall_deadline, .. } ==> {
            let effects = driver.after(at, CaptureInputView::Queue(QueueAnswer::Sent)).1;
            &&& effects.len() == 2
            &&& effects[0] matches CaptureEffectView::Emit(record) && record.severity
                == Severity::Warning && record.payload == (PayloadView::CaptureTransition {
                state: AudioSourceState::Recovering,
            })
            &&& effects[1] matches CaptureEffectView::Emit(record) && record.severity
                == Severity::Warning && record.payload == (PayloadView::Retry {
                receiver: None,
                attempt: driver.ladder_index as u32,
                next_at: wall_deadline,
            })
        },
        driver.stage is Running ==> {
            let parked = driver.after(
                at,
                CaptureInputView::Control(Some(CaptureControl::Suspend)),
            ).1;
            let stopped = driver.after(
                at,
                CaptureInputView::Control(Some(CaptureControl::Stop)),
            ).1;
            &&& parked[2] matches CaptureEffectView::Emit(record) && record.severity
                == Severity::Info && record.payload == (PayloadView::CaptureTransition {
                state: AudioSourceState::Unavailable,
            })
            &&& stopped[2] matches CaptureEffectView::Emit(record) && record.severity
                == Severity::Info && record.payload == (PayloadView::CaptureTransition {
                state: AudioSourceState::Unavailable,
            })
        },
        driver.stage is Announcing ==> (driver.after(
            at,
            CaptureInputView::Queue(QueueAnswer::Overloaded),
        ).1[0] matches CaptureEffectView::Emit(record) && record.severity == Severity::Warning
            && record.payload == (PayloadView::QueueWatermark { depth: 256, capacity: 256 })),
{
}

} // verus!
