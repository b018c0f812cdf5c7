//! The macro queue's decisions: which pushed macro to hand to a pool worker, and
//! what steps that worker runs.
use vstd::prelude::*;

use crate::domain::SequenceStep;
use crate::executor::{command_of, fresh_run, result_of, Command, ExecutorError, RunStatus};
use crate::parser::{resolve_sequence, resolve_steps};
use crate::store::{FlatStorage, FlatView, StoredMacro, StoredMacroView};

verus! {

/// What a blocking wait on a work channel and a shutdown channel returns.
#[derive(Debug)]
pub enum Wake<T> {
    /// A message arrived on the work channel.
    Message(T),
    /// Every sender of the work channel is gone.
    Closed,
    /// The shutdown signal fired.
    Shutdown,
}

/// A request to the macro queue.
#[derive(Debug)]
pub enum QueueCommand {
    Push(StoredMacro),
}

/// The macro queue's loop state.
#[derive(Debug)]
pub struct MacroQueue {
    running: bool,
}

impl View for MacroQueue {
    type V = bool;

    closed spec fn view(&self) -> bool {
        self.running
    }
}

impl MacroQueue {
    /// A queue that accepts work.
    pub fn new() -> (r: MacroQueue)
        ensures
            r@,
    {
        MacroQueue { running: true }
    }

    /// Whether the queue still takes work.
    pub fn is_running(&self) -> (r: bool)
        ensures
            r == self@,
    {
        self.running
    }

    /// Decides on one wake-up. While running, every pushed macro is dispatched, in
    /// arrival order; a closed channel or a shutdown stops the queue for good, and a
    /// stopped queue dispatches nothing.
    pub fn run(&mut self, wake: Wake<QueueCommand>) -> (r: Option<StoredMacro>)
        ensures
            match wake {
                Wake::Message(QueueCommand::Push(m)) => {
                    &&& final(self)@ == old(self)@
                    &&& if old(self)@ {
                        r matches Some(d) && d@ == m@
                    } else {
                        r is None
                    }
                },
                _ => !final(self)@ && r is None,
            },
    {
        match wake {
            Wake::Message(QueueCommand::Push(m)) => {
                if self.running {
                    Some(m)
                } else {
                    None
                }
            },
            _ => {
                self.running = false;
                None
            },
        }
    }
}

/// The steps that a dispatched macro runs: its step ids looked up in the snapshot,
/// missing ones skipped.
pub fn macro_sequence(m: &StoredMacro, cfg: &FlatStorage) -> (r: Vec<SequenceStep>)
    ensures
        r@ == resolve_steps(cfg@.steps, m@.sequence_step_ids),
{
    resolve_sequence(&cfg.steps, &m.sequence_step_ids)
}

proof fn lemma_resolve_none(steps: Map<u64, SequenceStep>, ids: Seq<u64>)
    requires
        forall|i: int| 0 <= i < ids.len() ==> !steps.contains_key(ids[i]),
    ensures
        resolve_steps(steps, ids) == Seq::<SequenceStep>::empty(),
    decreases ids.len(),
{
    if ids.len() > 0 {
        lemma_resolve_none(steps, ids.drop_last());
    }
}

/// A pushed macro none of whose step ids is in the snapshot runs an empty sequence:
/// the run finishes at once as completed, which is no error.
pub proof fn lemma_unresolved_macro_is_noop(f: FlatView, m: StoredMacroView)
    requires
        forall|i: int|
            0 <= i < m.sequence_step_ids.len() ==> !f.steps.contains_key(m.sequence_step_ids[i]),
    ensures
        resolve_steps(f.steps, m.sequence_step_ids) == Seq::<SequenceStep>::empty(),
        command_of(fresh_run(resolve_steps(f.steps, m.sequence_step_ids)), true) == Command::Finish(
            RunStatus::Completed,
        ),
        result_of(RunStatus::Completed) == Ok::<(), ExecutorError>(()),
{
    lemma_resolve_none(f.steps, m.sequence_step_ids);
}

} // verus!
