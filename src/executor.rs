//! The sequence executor: which synthetic input to send next, and when a run ends.
//!
//! The executor decides; its caller performs each action (sends the key event,
//! waits out a delay while watching for shutdown) and reports how it went.
use vstd::prelude::*;

use crate::domain::SequenceStep;
use crate::keys::{resolve, str_to_key, Key};

verus! {

/// What one step asks for.
#[derive(Clone, Copy, Debug, PartialEq, Eq, Structural)]
pub enum StepAction {
    Press(Key),
    Release(Key),
    /// Wait this many milliseconds, unless shutdown comes first.
    Wait(u64),
}

/// The action of a step.
pub open spec fn action_of(step: SequenceStep) -> StepAction {
    match step {
        SequenceStep::KeyDown { key, .. } => StepAction::Press(resolve(key@)),
        SequenceStep::KeyUp { key, .. } => StepAction::Release(resolve(key@)),
        SequenceStep::Delay { ms, .. } => StepAction::Wait(ms),
    }
}

/// How performing an action went.
#[derive(Clone, Copy, Debug, PartialEq, Eq, Structural)]
pub enum StepOutcome {
    /// The event was sent, or the delay ran out.
    Done,
    /// The event could not be synthesized.
    Failed,
    /// The delay was cut short by shutdown.
    Interrupted,
}

/// Where a run stands.
#[derive(Clone, Copy, Debug, PartialEq, Eq, Structural)]
pub enum RunStatus {
    Running,
    Completed,
    Interrupted,
    Failed,
}

/// What the caller of a run does next.
#[derive(Clone, Copy, Debug, PartialEq, Eq, Structural)]
pub enum Command {
    Perform(StepAction),
    Finish(RunStatus),
}

/// Why a sequence could not run or did not complete.
#[derive(Clone, Copy, Debug, PartialEq, Eq, Structural)]
pub enum ExecutorError {
    /// The executor was shut down before the sequence started.
    ShuttingDown,
    /// Sending a key event failed; the rest of the sequence was skipped.
    StepFailed,
}

/// The action of a step: a key press or release for the named key, or a wait.
pub fn execute(action: &SequenceStep) -> (r: StepAction)
    ensures
        r == action_of(*action),
{
    match action {
        SequenceStep::KeyDown { key, .. } => StepAction::Press(str_to_key(key)),
        SequenceStep::KeyUp { key, .. } => StepAction::Release(str_to_key(key)),
        SequenceStep::Delay { ms, .. } => StepAction::Wait(*ms),
    }
}

/// One run of a sequence: its steps, the next one to perform, and its status.
#[derive(Debug)]
pub struct SequenceRun {
    steps: Vec<SequenceStep>,
    next: usize,
    status: RunStatus,
}

pub struct RunView {
    pub steps: Seq<SequenceStep>,
    pub next: nat,
    pub status: RunStatus,
}

impl View for SequenceRun {
    type V = RunView;

    closed spec fn view(&self) -> RunView {
        RunView { steps: self.steps@, next: self.next as nat, status: self.status }
    }
}

/// A run that has not started.
pub open spec fn fresh_run(steps: Seq<SequenceStep>) -> RunView {
    RunView { steps, next: 0, status: RunStatus::Running }
}

/// Whether a run's state is consistent: the next step is within the sequence.
pub open spec fn run_ok(r: RunView) -> bool {
    r.next <= r.steps.len()
}

/// The status of a run after it is asked for its next command.
pub open spec fn status_after_poll(r: RunView, active: bool) -> RunStatus {
    if r.status != RunStatus::Running {
        r.status
    } else if !active {
        RunStatus::Interrupted
    } else if r.next >= r.steps.len() {
        RunStatus::Completed
    } else {
        RunStatus::Running
    }
}

/// The command that a run gives, `active` telling whether the executor still runs.
pub open spec fn command_of(r: RunView, active: bool) -> Command {
    let s = status_after_poll(r, active);
    if s == RunStatus::Running {
        Command::Perform(action_of(r.steps[r.next as int]))
    } else {
        Command::Finish(s)
    }
}

/// A run after the outcome of its pending step.
pub open spec fn after_outcome(r: RunView, o: StepOutcome) -> RunView {
    match o {
        StepOutcome::Done => RunView { next: r.next + 1, ..r },
        StepOutcome::Failed => RunView { status: RunStatus::Failed, ..r },
        StepOutcome::Interrupted => RunView { status: RunStatus::Interrupted, ..r },
    }
}

/// What a finished run means to its caller: an interrupted run is no error.
pub open spec fn result_of(s: RunStatus) -> Result<(), ExecutorError> {
    match s {
        RunStatus::Failed => Err(ExecutorError::StepFailed),
        _ => Ok(()),
    }
}

impl SequenceRun {
    pub closed spec fn well_formed(&self) -> bool {
        run_ok(self@)
    }

    /// The next command. A run stops for good once the executor is inactive, once
    /// a step failed or a delay was interrupted, or after its last step.
    pub fn next_command(&mut self, active: bool) -> (r: Command)
        requires
            old(self).well_formed(),
        ensures
            final(self).well_formed(),
            r == command_of(old(self)@, active),
            final(self)@ == (RunView { status: status_after_poll(old(self)@, active), ..old(self)@ }),
    {
        if self.status != RunStatus::Running {
            return Command::Finish(self.status);
        }
        if !active {
            self.status = RunStatus::Interrupted;
            return Command::Finish(RunStatus::Interrupted);
        }
        if self.next >= self.steps.len() {
            self.status = RunStatus::Completed;
            return Command::Finish(RunStatus::Completed);
        }
        Command::Perform(execute(&self.steps[self.next]))
    }

    /// Records how the pending step went.
    pub fn record(&mut self, outcome: StepOutcome)
        requires
            old(self).well_formed(),
            old(self)@.status == RunStatus::Running,
            old(self)@.next < old(self)@.steps.len(),
        ensures
            final(self).well_formed(),
            final(self)@ == after_outcome(old(self)@, outcome),
    {
        let ghost len = self.steps.len();
        match outcome {
            StepOutcome::Done => {
                assert(self.next < len);
                self.next = self.next + 1;
            },
            StepOutcome::Failed => {
                self.status = RunStatus::Failed;
            },
            StepOutcome::Interrupted => {
                self.status = RunStatus::Interrupted;
            },
        }
    }

    /// Where the run stands.
    pub fn status(&self) -> (r: RunStatus)
        ensures
            r == self@.status,
    {
        self.status
    }

    /// The index of the next step.
    pub fn position(&self) -> (r: usize)
        ensures
            r == self@.next,
    {
        self.next
    }
}

/// A delay that shutdown cuts short ends the run: whatever the executor's state,
/// the run's next command is to finish as interrupted, which is no error, so no
/// later step is performed.
pub proof fn lemma_interrupted_delay_ends_run(r: RunView)
    requires
        run_ok(r),
        r.status == RunStatus::Running,
        r.next < r.steps.len(),
        r.steps[r.next as int] is Delay,
    ensures
        forall|active: bool|
            command_of(after_outcome(r, StepOutcome::Interrupted), active) == Command::Finish(
                RunStatus::Interrupted,
            ),
        status_after_poll(after_outcome(r, StepOutcome::Interrupted), true)
            == RunStatus::Interrupted,
        result_of(RunStatus::Interrupted) == Ok::<(), ExecutorError>(()),
{
}

/// Once the executor is inactive, no run performs another step.
pub proof fn lemma_inactive_performs_nothing(r: RunView)
    ensures
        command_of(r, false) is Finish,
{
}

/// What a finished run returns to its caller.
pub fn run_result(s: RunStatus) -> (r: Result<(), ExecutorError>)
    ensures
        r == result_of(s),
{
    match s {
        RunStatus::Failed => Err(ExecutorError::StepFailed),
        _ => Ok(()),
    }
}

/// The executor's shared state: whether it still runs, and the sequence that is
/// current, which a shutdown observes.
#[derive(Debug)]
pub struct Executor {
    active: bool,
    current: Option<Vec<SequenceStep>>,
}

pub struct ExecutorView {
    pub active: bool,
    pub current: Option<Seq<SequenceStep>>,
}

impl View for Executor {
    type V = ExecutorView;

    closed spec fn view(&self) -> ExecutorView {
        ExecutorView {
            active: self.active,
            current: match self.current {
                Some(v) => Some(v@),
                None => None,
            },
        }
    }
}

fn copy_steps(steps: &[SequenceStep]) -> (r: Vec<SequenceStep>)
    ensures
        r@ == steps@,
{
    let mut r: Vec<SequenceStep> = Vec::new();
    let mut i: usize = 0;
    while i < steps.len()
        invariant
            i <= steps@.len(),
            r@ == steps@.take(i as int),
        decreases steps@.len() - i,
    {
        r.push(steps[i].duplicate());
        i = i + 1;
        assert(r@ =~= steps@.take(i as int));
    }
    assert(steps@.take(steps@.len() as int) =~= steps@);
    r
}

impl Executor {
    /// An active executor with no current sequence.
    pub fn new() -> (r: Executor)
        ensures
            r@.active,
            r@.current is None,
    {
        Executor { active: true, current: None }
    }

    /// Whether the executor still runs sequences.
    pub fn is_active(&self) -> (r: bool)
        ensures
            r == self@.active,
    {
        self.active
    }

    /// Starts a run of `sequence` and makes it the current one; refused once the
    /// executor has been shut down.
    pub fn run_sequence(&mut self, sequence: &[SequenceStep]) -> (r: Result<SequenceRun, ExecutorError>)
        ensures
            match r {
                Ok(run) => {
                    &&& old(self)@.active
                    &&& run.well_formed()
                    &&& run@ == fresh_run(sequence@)
                    &&& final(self)@ == (ExecutorView { active: true, current: Some(sequence@) })
                },
                Err(e) => {
                    &&& !old(self)@.active
                    &&& e == ExecutorError::ShuttingDown
                    &&& final(self)@ == old(self)@
                },
            },
    {
        if !self.active {
            return Err(ExecutorError::ShuttingDown);
        }
        self.current = Some(copy_steps(sequence));
        Ok(SequenceRun { steps: copy_steps(sequence), next: 0, status: RunStatus::Running })
    }

    /// Clears the current sequence once a run has finished.
    pub fn finish(&mut self)
        ensures
            final(self)@ == (ExecutorView { current: None, ..old(self)@ }),
    {
        self.current = None;
    }

    /// Marks the executor inactive and takes the current sequence, if any. Runs in
    /// progress stop at their next command.
    pub fn shutdown(&mut self) -> (r: Option<Vec<SequenceStep>>)
        ensures
            !final(self)@.active,
            final(self)@.current is None,
            match r {
                Some(v) => old(self)@.current == Some(v@),
                None => old(self)@.current is None,
            },
    {
        self.active = false;
        self.current.take()
    }
}

} // verus!
