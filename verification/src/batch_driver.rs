//! Runs one drained batch to its end, one step at a time.
//!
//! A batch alternates between decisions and writes that only the application
//! can perform. [`BatchDriver`] takes every decision: it hands out the next
//! thing to do and is continued with its answer.

use vstd::prelude::*;

use crate::actor_model::ActorView;
use crate::batch::{BatchView, PendingBatch};
use crate::batch_model::{run_of, starts_group, CommandInputs, RunView, StepView, WorkItem};
use crate::calibration::{
    CalibrationCommand, CalibrationProfile, CalibrationStateV2, CalibrationView,
};
use crate::command::{BackendCommand, CommandConfirmation};
use crate::controller::ControllerActor;
use crate::controller_commands::{BatchRun, CommandStep};
use crate::model::{SavedGroupId, RANDOM_ID_MARK, RANDOM_ID_MASK};
use crate::persistence::{PersistedStateV1, PersistedView};
use crate::time::Instant;

verus! {

/// A command waiting for the application's answer.
#[derive(Debug)]
pub struct WaitingCommand<R> {
    /// Command ID.
    pub id: u64,
    /// Whether it asks for a saved group to be started.
    pub starts: bool,
    /// Receipt answered when it has run.
    pub receipt: Option<R>,
    /// What it waits for.
    pub step: CommandStep,
}

/// A waiting command, as values.
pub struct WaitingView<R> {
    /// Command ID.
    pub id: u64,
    /// Whether it starts a group.
    pub starts: bool,
    /// Receipt.
    pub receipt: Option<R>,
    /// What it waits for.
    pub step: StepView,
}

/// What the application does next for a batch.
#[derive(Debug)]
pub enum BatchAction<R> {
    /// Write this state and answer whether that succeeded.
    Save(PersistedStateV1),
    /// Write this calibration section, or clear it, and answer whether that
    /// succeeded.
    SaveCalibration(Option<CalibrationStateV2>),
    /// Start a listening tone and answer whether it started.
    StartTone,
    /// Deliver the answer to a receipt, if there is one, and proceed.
    Proceed(Option<(R, CommandConfirmation)>),
    /// Deliver these answers; the batch is over.
    Finished {
        /// Whether shutdown was requested.
        shutdown: bool,
        /// Answers to the receipts of group starts.
        answers: Vec<(R, CommandConfirmation)>,
    },
    /// Nothing: the batch was not waiting for this.
    Idle,
}

/// What the application does next, as values.
pub enum BatchActionView<R> {
    /// Write this state.
    Save(PersistedView),
    /// Write or clear the calibration section.
    SaveCalibration(Option<CalibrationView>),
    /// Start a listening tone.
    StartTone,
    /// Deliver an answer and proceed.
    Proceed(Option<(R, CommandConfirmation)>),
    /// The batch is over.
    Finished {
        /// Shutdown requested.
        shutdown: bool,
        /// Answers.
        answers: Seq<(R, CommandConfirmation)>,
    },
    /// Nothing.
    Idle,
}

impl<R> View for BatchAction<R> {
    type V = BatchActionView<R>;

    open spec fn view(&self) -> BatchActionView<R> {
        match *self {
            BatchAction::Save(state) => BatchActionView::Save(state@),
            BatchAction::SaveCalibration(section) => BatchActionView::SaveCalibration(
                match section {
                    Some(stored) => Some(stored@),
                    None => None,
                },
            ),
            BatchAction::StartTone => BatchActionView::StartTone,
            BatchAction::Proceed(answer) => BatchActionView::Proceed(answer),
            BatchAction::Finished { shutdown, answers } => BatchActionView::Finished {
                shutdown,
                answers: answers@,
            },
            BatchAction::Idle => BatchActionView::Idle,
        }
    }
}

/// Progress of one batch.
#[derive(Debug)]
pub struct BatchDriver<R> {
    run: BatchRun<R>,
    waiting: Option<WaitingCommand<R>>,
    finished: bool,
}

/// Progress of one batch, as values.
pub struct BatchDriverView<R> {
    /// What the batch decided so far and what is left of it.
    pub run: RunView<R>,
    /// The command waiting for an answer.
    pub waiting: Option<WaitingView<R>>,
    /// Whether the batch is over.
    pub finished: bool,
}

impl<R> View for BatchDriver<R> {
    type V = BatchDriverView<R>;

    closed spec fn view(&self) -> BatchDriverView<R> {
        BatchDriverView {
            run: self.run@,
            waiting: match self.waiting {
                Some(held) => Some(
                    WaitingView {
                        id: held.id,
                        starts: held.starts,
                        receipt: held.receipt,
                        step: held.step@,
                    },
                ),
                None => None,
            },
            finished: self.finished,
        }
    }
}

/// The calibration profile the first of a list of commands asks to apply.
pub open spec fn next_profile<R>(work: Seq<WorkItem<R>>) -> Option<CalibrationView> {
    if work.len() == 0 {
        None
    } else {
        match work[0].command {
            BackendCommand::Calibration(
                CalibrationCommand::ApplyCalibrationProfile { profile, .. },
            ) => Some(profile@),
            _ => None,
        }
    }
}

/// What a step asks the application for.
pub open spec fn step_request<R>(step: StepView) -> BatchActionView<R> {
    match step {
        StepView::Done => BatchActionView::Idle,
        StepView::Save(commit, _) => BatchActionView::Save(commit.candidate),
        StepView::SaveCalibration { profile, clearing, .. } => BatchActionView::SaveCalibration(
            if clearing { None } else { Some(profile) },
        ),
        StepView::StartTone { .. } => BatchActionView::StartTone,
    }
}

impl<R> BatchDriverView<R> {
    /// A batch nothing of which has run.
    pub open spec fn fresh(batch: BatchView<R>) -> BatchDriverView<R> {
        BatchDriverView { run: run_of(batch), waiting: None, finished: false }
    }

    /// The controller, batch, and next action after the current command
    /// ended in `actor` and `run`.
    pub open spec fn ended(
        self,
        actor: ActorView,
        run: RunView<R>,
        id: u64,
        starts: bool,
        receipt: Option<R>,
    ) -> (ActorView, BatchDriverView<R>, BatchActionView<R>) {
        let (published, left, answer) = actor.closed(run, id, starts, receipt);
        (
            published,
            BatchDriverView { run: left, waiting: None, ..self },
            BatchActionView::Proceed(answer),
        )
    }

    /// The controller, batch, and next action after the end of the batch.
    pub open spec fn over(self, actor: ActorView) -> (
        ActorView,
        BatchDriverView<R>,
        BatchActionView<R>,
    ) {
        (
            actor.batch_finished(self.run),
            BatchDriverView {
                run: RunView { group_starts: Seq::empty(), work: Seq::empty(), ..self.run },
                finished: true,
                ..self
            },
            BatchActionView::Finished {
                shutdown: self.run.shutdown,
                answers: self.run.group_starts.map_values(
                    |sender: R| (sender, actor.batch_applied(self.run).start_answer()),
                ),
            },
        )
    }

    /// The controller, batch, and next action after the next command began,
    /// or after the batch ended: nothing runs after a shutdown, and a batch
    /// that waits or is over is left alone.
    pub open spec fn proceeded(self, actor: ActorView, inputs: CommandInputs) -> (
        ActorView,
        BatchDriverView<R>,
        BatchActionView<R>,
    ) {
        if self.finished || self.waiting is Some {
            (actor, self, BatchActionView::Idle)
        } else if self.run.shutdown || self.run.work.len() == 0 {
            self.over(actor)
        } else {
            let item = self.run.work[0];
            let rest = RunView { work: self.run.work.skip(1), ..self.run };
            let (begun, left, step) = actor.command_begun(rest, item.id, item.command, inputs);
            if step is Done {
                self.ended(begun, left, item.id, starts_group(item.command), item.receipt)
            } else {
                (
                    begun,
                    BatchDriverView {
                        run: left,
                        waiting: Some(
                            WaitingView {
                                id: item.id,
                                starts: starts_group(item.command),
                                receipt: item.receipt,
                                step,
                            },
                        ),
                        ..self
                    },
                    step_request(step),
                )
            }
        }
    }

    /// The controller, batch, and next action after the application answered
    /// what the batch waits for; a batch that waits for nothing is left alone.
    pub open spec fn answered(self, actor: ActorView, succeeded: bool) -> (
        ActorView,
        BatchDriverView<R>,
        BatchActionView<R>,
    ) {
        match self.waiting {
            None => (actor, self, BatchActionView::Idle),
            Some(held) => {
                let (ended, left) = match held.step {
                    StepView::Done => (actor, self.run),
                    StepView::Save(commit, follow) => actor.save_answered(
                        self.run,
                        commit,
                        follow,
                        succeeded,
                    ),
                    StepView::SaveCalibration { id, profile, .. } => actor.calibration_answered(
                        self.run,
                        id,
                        profile,
                        succeeded,
                    ),
                    StepView::StartTone { id, guard } => (
                        actor.tone_answered(id, guard, succeeded),
                        self.run,
                    ),
                };
                self.ended(ended, left, held.id, held.starts, held.receipt)
            },
        }
    }
}

impl<R> BatchDriver<R> {
    /// A drained batch, ready to run.
    pub fn new(pending: PendingBatch<R>) -> (r: Self)
        ensures
            r@ == BatchDriverView::fresh(pending@),
    {
        BatchDriver { run: BatchRun::new(pending), waiting: None, finished: false }
    }

    /// The calibration profile the next command asks to apply, if it asks
    /// for one.
    pub fn calibration(&self) -> (r: Option<&CalibrationProfile>)
        ensures
            match next_profile(self@.run.work) {
                Some(profile) => r matches Some(asked) && asked@ == profile,
                None => r is None,
            },
    {
        if self.run.work.len() == 0 {
            return None;
        }
        match &self.run.work[0].command {
            BackendCommand::Calibration(
                CalibrationCommand::ApplyCalibrationProfile { profile, .. },
            ) => Some(profile),
            _ => None,
        }
    }

    /// Ends the current command.
    fn end(
        &mut self,
        actor: &mut ControllerActor,
        id: u64,
        starts: bool,
        receipt: Option<R>,
    ) -> (r: BatchAction<R>)
        requires
            old(actor).snapshot.revision < u64::MAX,
            old(self)@.waiting is None,
        ensures
            (final(actor)@, final(self)@, r@) == old(self)@.ended(
                old(actor)@,
                old(self)@.run,
                id,
                starts,
                receipt,
            ),
            final(actor).policy == old(actor).policy,
    {
        let answer: Option<(R, CommandConfirmation)> = actor.close_command(
            &mut self.run,
            id,
            starts,
            receipt,
        );
        BatchAction::Proceed(answer)
    }

    /// Finishes the batch.
    fn finish(&mut self, actor: &mut ControllerActor) -> (r: BatchAction<R>)
        requires
            old(actor).snapshot.revision < u64::MAX - 2,
        ensures
            (final(actor)@, final(self)@, r@) == old(self)@.over(old(actor)@),
            final(actor).policy == old(actor).policy,
    {
        let ghost before = self.run@;
        let ghost start = actor@;
        let mut group_starts: Vec<R> = Vec::new();
        core::mem::swap(&mut group_starts, &mut self.run.group_starts);
        self.run.work = Vec::new();
        let run: BatchRun<R> = BatchRun {
            reconcile: self.run.reconcile,
            volumes_changed: self.run.volumes_changed,
            shutdown: self.run.shutdown,
            group_starts,
            work: Vec::new(),
        };
        let shutdown: bool = self.run.shutdown;
        proof {
            lemma_finish_ignores_work(start, run@, before);
        }
        let answers: Vec<(R, CommandConfirmation)> = actor.finish_batch(run);
        self.finished = true;
        proof {
            assert(answers@ =~= before.group_starts.map_values(
                |sender: R| (sender, start.batch_applied(before).start_answer()),
            ));
            assert(self.run@ =~= (RunView {
                group_starts: Seq::empty(),
                work: Seq::empty(),
                ..before
            }));
        }
        BatchAction::Finished { shutdown, answers }
    }

    /// Begins the next command, or ends the batch.
    pub fn proceed(&mut self, actor: &mut ControllerActor, inputs: CommandInputs) -> (r: BatchAction<
        R,
    >)
        requires
            old(actor).snapshot.revision < u64::MAX - 2,
        ensures
            (final(actor)@, final(self)@, r@) == old(self)@.proceeded(old(actor)@, inputs),
            final(actor).policy == old(actor).policy,
    {
        if self.finished || self.waiting.is_some() {
            return BatchAction::Idle;
        }
        let item: WorkItem<R> = match self.run.next() {
            Some(item) => item,
            None => {
                return self.finish(actor);
            },
        };
        let starts: bool = item.starts_group();
        let WorkItem { id, command, receipt } = item;
        let step: CommandStep = actor.begin_command(&mut self.run, id, command, inputs);
        let action: BatchAction<R> = match &step {
            CommandStep::Done => {
                return self.end(actor, id, starts, receipt);
            },
            CommandStep::Save(commit, _) => BatchAction::Save(commit.candidate.clone()),
            CommandStep::SaveCalibration { profile, clearing, .. } => {
                if *clearing {
                    BatchAction::SaveCalibration(None)
                } else {
                    BatchAction::SaveCalibration(Some(profile.to_section()))
                }
            },
            CommandStep::StartTone { .. } => BatchAction::StartTone,
        };
        self.waiting = Some(WaitingCommand { id, starts, receipt, step });
        action
    }

    /// Begins the next command under a fresh identity for a group that needs
    /// one, or ends the batch.
    pub fn advance(
        &mut self,
        actor: &mut ControllerActor,
        calibration_fits: bool,
        now: Instant,
    ) -> (r: BatchAction<R>)
        requires
            old(actor).snapshot.revision < u64::MAX - 2,
        ensures
            exists|fresh_group: SavedGroupId|
                fresh_group.bits() & RANDOM_ID_MASK == RANDOM_ID_MARK && (
                    final(actor)@,
                    final(self)@,
                    r@,
                ) == #[trigger] old(self)@.proceeded(
                    old(actor)@,
                    (CommandInputs { fresh_group, calibration_fits, now }),
                ),
            final(actor).policy == old(actor).policy,
    {
        let inputs = CommandInputs { fresh_group: SavedGroupId::generate(), calibration_fits, now };
        self.proceed(actor, inputs)
    }

    /// Continues the waiting command with the application's answer.
    pub fn answer(&mut self, actor: &mut ControllerActor, succeeded: bool) -> (r: BatchAction<R>)
        requires
            old(actor).snapshot.revision < u64::MAX - 2,
        ensures
            (final(actor)@, final(self)@, r@) == old(self)@.answered(old(actor)@, succeeded),
            final(actor).policy == old(actor).policy,
    {
        let mut waiting: Option<WaitingCommand<R>> = None;
        core::mem::swap(&mut waiting, &mut self.waiting);
        let WaitingCommand { id, starts, receipt, step } = match waiting {
            Some(held) => held,
            None => {
                return BatchAction::Idle;
            },
        };
        match step {
            CommandStep::Done => {},
            CommandStep::Save(commit, follow) => {
                actor.answer_save(&mut self.run, commit, follow, succeeded);
            },
            CommandStep::SaveCalibration { id, profile, .. } => {
                actor.answer_calibration(&mut self.run, id, profile, succeeded);
            },
            CommandStep::StartTone { id, guard } => {
                actor.answer_tone(id, guard, succeeded);
            },
        }
        self.end(actor, id, starts, receipt)
    }
}

/// The end of a batch does not depend on work that was never begun.
proof fn lemma_finish_ignores_work<R>(actor: ActorView, a: RunView<R>, b: RunView<R>)
    requires
        a.reconcile == b.reconcile,
        a.volumes_changed == b.volumes_changed,
        a.group_starts == b.group_starts,
    ensures
        actor.batch_applied(a) == actor.batch_applied(b),
        actor.batch_finished(a) == actor.batch_finished(b),
{
    reveal(ActorView::batch_applied);
    reveal(ActorView::batch_finished);
}

} // verus!
