//! The runner of a plan. It tells the program which native call comes next
//! and takes the engine's answer; it ends the plan at the first failure and
//! sees to it that every sub-resource is released, the last opened first,
//! before the operation is over.
use vstd::prelude::*;
use crate::error::StatusCode;
use crate::reader::plan::Outcome;
use crate::reader::plan::Planned;
use crate::reader::plan::ReadError;
use crate::reader::plan::Resource;
use crate::reader::plan::Step;

verus! {

/// What the program has to do next.
#[derive(Clone, Copy, Debug, PartialEq, Eq)]
pub enum Action {
    /// Make the native call of this step and report its outcome.
    Do(Step),
    /// Release this sub-resource and report back; how the release went does
    /// not matter.
    Release(Resource),
    /// Nothing: the operation is over, with the number of records read or
    /// with the first failure.
    Finished(Result<u64, ReadError>),
}

/// The state of a run: the plan, the index of the step that comes next, the
/// sub-resources that are open, the oldest first, the first failure if there
/// was one, the number of records read so far, and the action that the
/// program was last told to do.
pub struct RunnerState {
    pub plan: Seq<Planned>,
    pub pc: int,
    pub open: Seq<Resource>,
    pub failure: Option<ReadError>,
    pub records: u64,
    pub pending: Action,
}

/// The sum of two counts, held at the largest count where it would pass it.
pub open spec fn saturating_sum(a: u64, b: u64) -> u64 {
    if a + b > u64::MAX {
        u64::MAX
    } else {
        (a + b) as u64
    }
}

impl RunnerState {
    /// The number of sub-resources that may stay open now: none after a
    /// failure or at the end of the plan, else as many as the next step
    /// runs with.
    pub open spec fn target_depth(self) -> int {
        if self.failure is Some || self.pc >= self.plan.len() {
            0
        } else {
            self.plan[self.pc].depth as int
        }
    }

    /// The state with the next action chosen. While more is open than may
    /// stay open, the last opened is released. After that a failure ends the
    /// run; without one the next step of the plan is due, and past the last
    /// step the run ends with the number of records read.
    pub open spec fn decide(self) -> RunnerState {
        if self.open.len() > self.target_depth() {
            RunnerState {
                open: self.open.drop_last(),
                pending: Action::Release(self.open.last()),
                ..self
            }
        } else if self.failure is Some {
            RunnerState { pending: Action::Finished(Err(self.failure->0)), ..self }
        } else if self.pc < self.plan.len() {
            RunnerState { pending: Action::Do(self.plan[self.pc].step), ..self }
        } else {
            RunnerState { pending: Action::Finished(Ok(self.records)), ..self }
        }
    }

    /// The state with the answer to the pending action taken in. The answer
    /// to a release is passed over. A step that failed leaves its failure
    /// and is not passed; a step that succeeded is passed, what it opened is
    /// open, and what it read is counted.
    pub open spec fn absorb(self, outcome: Outcome) -> RunnerState {
        match self.pending {
            Action::Do(step) => match step.spec_failure(outcome) {
                Some(failure) => RunnerState { failure: Some(failure), ..self },
                None => RunnerState {
                    pc: if self.pc < self.plan.len() {
                        self.pc + 1
                    } else {
                        self.pc
                    },
                    open: match step.spec_opens(outcome) {
                        Some(resource) => self.open.push(resource),
                        None => self.open,
                    },
                    records: if step.counts() {
                        saturating_sum(self.records, outcome.count)
                    } else {
                        self.records
                    },
                    ..self
                },
            },
            _ => self,
        }
    }

    /// The state after the program reported `outcome` for the pending
    /// action. A run that is over stays as it is.
    pub open spec fn advance(self, outcome: Outcome) -> RunnerState {
        if self.pending is Finished {
            self
        } else {
            self.absorb(outcome).decide()
        }
    }

    /// The state after the program broke the run off for `reason`. A step
    /// that is pending is not taken: `reason` is the failure of the run, and
    /// what comes next is the release of what is open, or the end. A release
    /// that is pending is still owed and stays pending; a failure that was
    /// there before stays the failure. A run that is over stays as it is.
    pub open spec fn abort(self, reason: ReadError) -> RunnerState {
        match self.pending {
            Action::Do(_) => (RunnerState { failure: Some(reason), ..self }).decide(),
            Action::Release(_) => RunnerState {
                failure: match self.failure {
                    Some(failure) => Some(failure),
                    None => Some(reason),
                },
                ..self
            },
            Action::Finished(_) => self,
        }
    }

    /// The state of a run that was refused: over before its first step, with
    /// the reason.
    pub open spec fn refused(reason: ReadError) -> RunnerState {
        RunnerState {
            plan: Seq::empty(),
            pc: 0,
            open: Seq::empty(),
            failure: Some(reason),
            records: 0,
            pending: Action::Finished(Err(reason)),
        }
    }

    /// The state in which the run of `plan` begins.
    pub open spec fn begin(plan: Seq<Planned>) -> RunnerState {
        (RunnerState {
            plan,
            pc: 0,
            open: Seq::empty(),
            failure: None,
            records: 0,
            pending: Action::Finished(Ok(0)),
        }).decide()
    }

    /// That the pending action fits the rest of the state: a step is pending
    /// only without a failure, and it is the step that comes next; a run is
    /// over only with nothing open, and with the failure if there was one.
    pub open spec fn well_formed(self) -> bool {
        &&& 0 <= self.pc <= self.plan.len()
        &&& match self.pending {
            Action::Do(step) => self.failure is None && self.pc < self.plan.len()
                && self.plan[self.pc].step == step,
            Action::Release(_) => true,
            Action::Finished(result) => self.open.len() == 0 && match self.failure {
                Some(failure) => result == Err::<u64, ReadError>(failure),
                None => result == Ok::<u64, ReadError>(self.records) && self.pc == self.plan.len(),
            },
        }
    }

    /// How far the run is from its end at most, in actions.
    pub open spec fn distance(self) -> int {
        let releasing: int = if self.pending is Release {
            1
        } else {
            0
        };
        if self.pending is Finished {
            0
        } else if self.failure is Some {
            self.open.len() + 1 + releasing
        } else {
            2 * (self.plan.len() - self.pc) + self.open.len() + 2 + releasing
        }
    }
}

/// A run begins well-formed.
pub proof fn lemma_begin_well_formed(plan: Seq<Planned>)
    ensures
        RunnerState::begin(plan).well_formed(),
        RunnerState::begin(plan).plan == plan,
{
}

/// Every answer leaves a well-formed run well-formed, on the same plan.
pub proof fn lemma_advance_well_formed(state: RunnerState, outcome: Outcome)
    requires
        state.well_formed(),
    ensures
        state.advance(outcome).well_formed(),
        state.advance(outcome).plan == state.plan,
{
}

/// Nothing stays open: when a run is over, on whichever path it got there,
/// every sub-resource that a step opened has been released.
pub proof fn lemma_finished_releases_all(state: RunnerState, outcome: Outcome)
    requires
        state.well_formed(),
        state.advance(outcome).pending is Finished,
    ensures
        state.advance(outcome).open.len() == 0,
{
}

/// Releases nest: what is released is always the sub-resource that was
/// opened last among those still open, so that none outlives one that was
/// opened before it.
pub proof fn lemma_release_is_last_opened(state: RunnerState, outcome: Outcome)
    requires
        state.well_formed(),
        !(state.pending is Finished),
    ensures
        state.advance(outcome).pending matches Action::Release(resource) ==> {
            &&& state.absorb(outcome).open.len() > 0
            &&& resource == state.absorb(outcome).open.last()
            &&& state.advance(outcome).open == state.absorb(outcome).open.drop_last()
        },
{
}

/// The first failure is the one that surfaces: once a step has failed, no
/// further step is taken and the failure stays; all that follows is the
/// release of what is open, and then the end of the run with that failure.
pub proof fn lemma_first_failure_wins(state: RunnerState, outcome: Outcome)
    requires
        state.well_formed(),
        state.failure is Some,
    ensures
        state.advance(outcome).failure == state.failure,
        state.advance(outcome).pc == state.pc,
        !(state.advance(outcome).pending is Do),
        state.advance(outcome).pending matches Action::Finished(result) ==> result == Err::<
            u64,
            ReadError,
        >(state.failure->0),
{
}

/// A failing step ends the plan at once: the step is not passed, its failure
/// is recorded, and the next action is a release or the end of the run.
pub proof fn lemma_failure_short_circuits(state: RunnerState, outcome: Outcome)
    requires
        state.well_formed(),
        state.pending matches Action::Do(step) && step.spec_failure(outcome) is Some,
    ensures
        state.advance(outcome).failure == state.pending->Do_0.spec_failure(outcome),
        state.advance(outcome).pc == state.pc,
        !(state.advance(outcome).pending is Do),
{
}

/// A setter that is refused ends the registration: its status is the
/// failure of the run, and no further step is asked for, neither the setter
/// of another kind nor a read, whatever the program answers afterwards.
pub proof fn lemma_refused_setter_ends_registration(
    state: RunnerState,
    refusal: Outcome,
    later: Outcome,
)
    requires
        state.well_formed(),
        state.pending matches Action::Do(step) && (step is SetDefCallback
            || step is SetEvtCallback),
        !refusal.status.is_success(),
    ensures
        state.advance(refusal).failure == Some(
            ReadError::Status(StatusCode::spec_from_raw(refusal.status)),
        ),
        !(state.advance(refusal).pending is Do),
        state.advance(refusal).advance(later).failure == state.advance(refusal).failure,
        !(state.advance(refusal).advance(later).pending is Do),
{
    lemma_failure_short_circuits(state, refusal);
    lemma_advance_well_formed(state, refusal);
    lemma_first_failure_wins(state.advance(refusal), later);
}

/// A step that succeeds is passed: the plan goes on behind it, without a
/// failure, with what the step opened on top of what was open, and with its
/// count added where it reads. What comes next is the release of what may
/// not stay open for the next step, or that step, or the end of the run.
pub proof fn lemma_success_passes_the_step(state: RunnerState, outcome: Outcome)
    requires
        state.well_formed(),
        state.pending matches Action::Do(step) && step.spec_failure(outcome) is None,
    ensures
        state.advance(outcome).failure is None,
        state.absorb(outcome).pc == state.pc + 1,
        state.advance(outcome).pc == state.pc + 1,
        state.absorb(outcome).open == (match state.pending->Do_0.spec_opens(outcome) {
            Some(resource) => state.open.push(resource),
            None => state.open,
        }),
        state.advance(outcome).pending matches Action::Do(next) ==> state.pc + 1
            < state.plan.len() && next == state.plan[state.pc + 1].step && state.advance(
            outcome,
        ).open.len() <= state.plan[state.pc + 1].depth,
        state.advance(outcome).pending matches Action::Finished(result) ==> state.pc + 1
            == state.plan.len() && result == Ok::<u64, ReadError>(state.advance(outcome).records),
{
}

/// Breaking a run off takes no further step: what follows is the release of
/// what is open, the last opened first, and the end of the run with a
/// failure; the steps that the plan still held are not asked for.
pub proof fn lemma_abort_takes_no_step(state: RunnerState, reason: ReadError, outcome: Outcome)
    requires
        state.well_formed(),
    ensures
        state.abort(reason).well_formed(),
        !(state.abort(reason).pending is Do),
        !(state.pending is Finished) ==> state.abort(reason).failure is Some,
        state.pending is Do ==> state.abort(reason).failure == Some(reason),
        state.abort(reason).pc == state.pc,
        !(state.abort(reason).advance(outcome).pending is Do),
        state.abort(reason).pending matches Action::Finished(result) ==> result is Err
            || state.pending is Finished,
{
}

/// Every run ends: each answer brings a run that is not over closer to its
/// end, so that the program's loop over the actions is bounded by
/// `distance`.
pub proof fn lemma_advance_terminates(state: RunnerState, outcome: Outcome)
    requires
        state.well_formed(),
        !(state.pending is Finished),
    ensures
        0 <= state.advance(outcome).distance() < state.distance(),
{
}

/// The runner of one operation on a trace. A runner is well-formed from its
/// making on: `new` and `advance` see to that.
pub struct Runner {
    plan: Vec<Planned>,
    pc: usize,
    open: Vec<Resource>,
    failure: Option<ReadError>,
    records: u64,
    pending: Action,
}

impl View for Runner {
    type V = RunnerState;

    closed spec fn view(&self) -> RunnerState {
        RunnerState {
            plan: self.plan@,
            pc: self.pc as int,
            open: self.open@,
            failure: self.failure,
            records: self.records,
            pending: self.pending,
        }
    }
}

impl Runner {
    /// The runner of `plan`, with the first action chosen.
    pub fn new(plan: Vec<Planned>) -> (runner: Self)
        ensures
            runner@ == RunnerState::begin(plan@),
            runner@.well_formed(),
    {
        let mut runner = Runner {
            plan,
            pc: 0,
            open: Vec::new(),
            failure: None,
            records: 0,
            pending: Action::Release(Resource::DefFiles),
        };
        runner.decide();
        proof {
            assert(runner@ =~= RunnerState::begin(plan@));
        }
        runner
    }

    /// The runner of an operation that is not begun, for the reason given.
    pub fn refused(reason: ReadError) -> (runner: Self)
        ensures
            runner@ == RunnerState::refused(reason),
            runner@.well_formed(),
    {
        let runner = Runner {
            plan: Vec::new(),
            pc: 0,
            open: Vec::new(),
            failure: Some(reason),
            records: 0,
            pending: Action::Finished(Err(reason)),
        };
        proof {
            assert(runner@ =~= RunnerState::refused(reason));
        }
        runner
    }

    /// The action that the program is to do now.
    pub fn current(&self) -> (action: Action)
        ensures
            action == self@.pending,
    {
        self.pending
    }

    /// Breaks the run off for `reason`: a step that is pending is not taken,
    /// and the action that is returned is the release of what is open, or
    /// the end of the run with the failure. A release that is pending stays
    /// pending, and a run that is over stays over.
    pub fn abort(&mut self, reason: ReadError) -> (action: Action)
        ensures
            final(self)@ == old(self)@.abort(reason),
            old(self)@.well_formed() ==> final(self)@.well_formed() && !(action is Do),
            action == final(self)@.pending,
    {
        match self.pending {
            Action::Do(_) => {
                self.failure = Some(reason);
                self.decide();
            },
            Action::Release(_) => {
                if self.failure.is_none() {
                    self.failure = Some(reason);
                }
            },
            Action::Finished(_) => {},
        }
        self.pending
    }

    /// The number of steps of the plan that have succeeded.
    pub fn position(&self) -> (pc: usize)
        ensures
            pc == self@.pc,
    {
        self.pc
    }

    /// Whether the run is over.
    pub fn is_finished(&self) -> (b: bool)
        ensures
            b == (self@.pending is Finished),
    {
        match self.pending {
            Action::Finished(_) => true,
            _ => false,
        }
    }

    /// Chooses the next action from the state as it is.
    fn decide(&mut self)
        ensures
            final(self)@ == old(self)@.decide(),
    {
        let target: usize = if self.failure.is_some() || self.pc >= self.plan.len() {
            0
        } else {
            self.plan[self.pc].depth
        };
        if self.open.len() > target {
            let ghost before = self.open@;
            let resource = self.open.pop().unwrap();
            self.pending = Action::Release(resource);
            proof {
                assert(self.open@ =~= before.drop_last());
            }
        } else if let Some(failure) = self.failure {
            self.pending = Action::Finished(Err(failure));
        } else if self.pc < self.plan.len() {
            self.pending = Action::Do(self.plan[self.pc].step);
        } else {
            self.pending = Action::Finished(Ok(self.records));
        }
    }

    /// Takes the engine's answer to the pending action and returns the
    /// action that comes next.
    pub fn advance(&mut self, outcome: Outcome) -> (action: Action)
        ensures
            final(self)@ == old(self)@.advance(outcome),
            old(self)@.well_formed() ==> final(self)@.well_formed(),
            action == final(self)@.pending,
    {
        match self.pending {
            Action::Finished(_) => {
                return self.pending;
            },
            Action::Release(_) => {},
            Action::Do(step) => {
                match step.failure(outcome) {
                    Some(failure) => {
                        self.failure = Some(failure);
                    },
                    None => {
                        if let Some(resource) = step.opens(outcome) {
                            self.open.push(resource);
                        }
                        let counts = match step {
                            Step::ReadAllGlobalDefinitions | Step::ReadAllLocalDefinitions => true,
                            _ => false,
                        };
                        if counts {
                            self.records = if outcome.count > u64::MAX - self.records {
                                u64::MAX
                            } else {
                                self.records + outcome.count
                            };
                        }
                        if self.pc < self.plan.len() {
                            self.pc = self.pc + 1;
                        }
                    },
                }
            },
        }
        proof {
            assert(self@ =~= old(self)@.absorb(outcome));
        }
        self.decide();
        self.pending
    }
}

} // verus!
