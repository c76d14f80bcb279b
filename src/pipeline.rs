//! The per-file pipeline (duplicate, remove the original, delegate the rename)
//! as an explicit state machine, and the batch that drives it over a file list.
//!
//! The machine decides; the caller acts. A caller asks for the next action,
//! performs it, and reports whether it succeeded.
use vstd::prelude::*;
use crate::paths::{temp_path, temp_path_of};

verus! {

/// Which step of a file's pipeline failed.
#[derive(Debug, Clone, Copy, PartialEq, Eq, Structural)]
pub enum Failure {
    CopyFailed,
    RemoveFailed,
    RenameFailed,
}

/// How one file's pipeline ended.
#[derive(Debug, Clone, Copy, PartialEq, Eq, Structural)]
pub enum RunResult {
    Success,
    Failed(Failure),
}

/// Where a file stands in its pipeline.
#[derive(Debug, Clone, Copy, PartialEq, Eq, Structural)]
pub enum Stage {
    Pending,
    Duplicated,
    OriginalRemoved,
    Renamed,
    Failed(Failure),
}

/// A filesystem operation, over path names.
pub enum Op {
    Duplicate { source: Seq<char>, dest: Seq<char> },
    Remove { path: Seq<char> },
    Rename { source: Seq<char>, dest: Seq<char> },
}

/// An action that the caller is to perform next.
pub enum Action {
    /// Copy the bytes of `source` into a freshly created `dest`.
    Duplicate { source: String, dest: String },
    /// Remove the file at `path`.
    RemoveOriginal { path: String },
    /// Have the helper process rename `source` to `dest`.
    InvokeHelper { source: String, dest: String },
}

impl View for Action {
    type V = Op;

    open spec fn view(&self) -> Op {
        match self {
            Action::Duplicate { source, dest } => Op::Duplicate { source: source@, dest: dest@ },
            Action::RemoveOriginal { path } => Op::Remove { path: path@ },
            Action::InvokeHelper { source, dest } => Op::Rename { source: source@, dest: dest@ },
        }
    }
}

pub open spec fn is_terminal(st: Stage) -> bool {
    st is Renamed || st is Failed
}

/// The stage that follows `st` once its action succeeded (`ok`) or failed.
pub open spec fn next_stage(st: Stage, ok: bool) -> Stage {
    match st {
        Stage::Pending => if ok { Stage::Duplicated } else { Stage::Failed(Failure::CopyFailed) },
        Stage::Duplicated => if ok {
            Stage::OriginalRemoved
        } else {
            Stage::Failed(Failure::RemoveFailed)
        },
        Stage::OriginalRemoved => if ok {
            Stage::Renamed
        } else {
            Stage::Failed(Failure::RenameFailed)
        },
        _ => st,
    }
}

/// The operation owed at stage `st` of the pipeline of the file at `path`.
pub open spec fn op_for(path: Seq<char>, st: Stage) -> Option<Op> {
    match st {
        Stage::Pending => Some(Op::Duplicate { source: path, dest: temp_path_of(path) }),
        Stage::Duplicated => Some(Op::Remove { path }),
        Stage::OriginalRemoved => Some(Op::Rename { source: temp_path_of(path), dest: path }),
        _ => None,
    }
}

/// The result that a terminal stage stands for.
pub open spec fn result_of(st: Stage) -> RunResult {
    match st {
        Stage::Failed(f) => RunResult::Failed(f),
        _ => RunResult::Success,
    }
}

/// One file's journey through the pipeline.
pub struct Task {
    pub path: String,
    pub temp: String,
    pub stage: Stage,
}

impl Task {
    pub open spec fn wf(&self) -> bool {
        self.temp@ == temp_path_of(self.path@)
    }

    /// A task for the file at `path`, before anything was done.
    pub fn new(path: String) -> (t: Task)
        ensures
            t.wf(),
            t.path@ == path@,
            t.stage == Stage::Pending,
    {
        let temp = temp_path(path.as_str());
        Task { path, temp, stage: Stage::Pending }
    }

    /// The action owed at the current stage; none once the task has ended.
    pub fn action(&self) -> (a: Option<Action>)
        requires
            self.wf(),
        ensures
            a matches Some(act) ==> op_for(self.path@, self.stage) == Some(act@),
            a is None ==> op_for(self.path@, self.stage) is None,
    {
        match self.stage {
            Stage::Pending => Some(
                Action::Duplicate { source: self.path.clone(), dest: self.temp.clone() },
            ),
            Stage::Duplicated => Some(Action::RemoveOriginal { path: self.path.clone() }),
            Stage::OriginalRemoved => Some(
                Action::InvokeHelper { source: self.temp.clone(), dest: self.path.clone() },
            ),
            _ => None,
        }
    }

    /// Records whether the action of the current stage succeeded.
    pub fn advance(&mut self, ok: bool)
        ensures
            final(self).path == old(self).path,
            final(self).temp == old(self).temp,
            final(self).stage == next_stage(old(self).stage, ok),
    {
        self.stage = match self.stage {
            Stage::Pending => if ok {
                Stage::Duplicated
            } else {
                Stage::Failed(Failure::CopyFailed)
            },
            Stage::Duplicated => if ok {
                Stage::OriginalRemoved
            } else {
                Stage::Failed(Failure::RemoveFailed)
            },
            Stage::OriginalRemoved => if ok {
                Stage::Renamed
            } else {
                Stage::Failed(Failure::RenameFailed)
            },
            other => other,
        };
    }

    /// How the task ended, once it has.
    pub fn result(&self) -> (r: Option<RunResult>)
        ensures
            r is Some <==> is_terminal(self.stage),
            r matches Some(res) ==> res == result_of(self.stage),
    {
        match self.stage {
            Stage::Renamed => Some(RunResult::Success),
            Stage::Failed(f) => Some(RunResult::Failed(f)),
            _ => None,
        }
    }
}


/// The batch: every file of a list taken through the pipeline, one at a time,
/// in list order. A failed file never stops the batch.
pub struct Batch {
    pub files: Vec<String>,
    /// How many files have been started.
    pub next: usize,
    /// The file under way, if any.
    pub current: Option<Task>,
    pub succeeded: usize,
    pub failed: usize,
}

impl Batch {
    pub open spec fn wf(&self) -> bool {
        &&& self.next <= self.files@.len()
        &&& self.succeeded + self.failed + (if self.current is Some { 1int } else { 0int })
            == self.next
        &&& self.current matches Some(t) ==> {
            &&& t.wf()
            &&& !is_terminal(t.stage)
            &&& self.next >= 1
            &&& t.path@ == self.files@[self.next - 1]@
        }
    }

    /// Every file has been started and none is under way.
    pub open spec fn finished(&self) -> bool {
        self.current is None && self.next == self.files@.len()
    }

    /// The number of actions still to come, at most.
    pub open spec fn work_left(&self) -> nat {
        let in_flight: nat = match self.current {
            Some(t) => match t.stage {
                Stage::Pending => 3nat,
                Stage::Duplicated => 2nat,
                Stage::OriginalRemoved => 1nat,
                _ => 0nat,
            },
            None => 0nat,
        };
        3 * (self.files@.len() - self.next) as nat + in_flight
    }

    /// A batch over `files`, nothing started.
    pub fn new(files: Vec<String>) -> (b: Batch)
        ensures
            b.wf(),
            b.files@ == files@,
            b.next == 0,
            b.current is None,
            b.succeeded == 0,
            b.failed == 0,
    {
        Batch { files, next: 0, current: None, succeeded: 0, failed: 0 }
    }

    /// Whether every file has been through its pipeline.
    pub fn is_finished(&self) -> (r: bool)
        ensures
            r == self.finished(),
    {
        self.current.is_none() && self.next == self.files.len()
    }

    /// The next action, starting the next file when none is under way; none
    /// once the batch has finished.
    pub fn next_action(&mut self) -> (a: Option<Action>)
        requires
            old(self).wf(),
        ensures
            final(self).wf(),
            final(self).files == old(self).files,
            final(self).succeeded == old(self).succeeded,
            final(self).failed == old(self).failed,
            final(self).work_left() == old(self).work_left(),
            a is None <==> old(self).finished(),
            a is None ==> *final(self) == *old(self),
            old(self).current is Some ==> *final(self) == *old(self),
            old(self).current is None && !old(self).finished() ==> {
                &&& final(self).next == old(self).next + 1
                &&& final(self).current matches Some(t) && t.stage == Stage::Pending
                    && t.path@ == old(self).files@[old(self).next as int]@
            },
            a matches Some(act) ==> final(self).current matches Some(t) && op_for(
                t.path@,
                t.stage,
            ) == Some(act@),
    {
        if self.current.is_none() {
            if self.next == self.files.len() {
                return None;
            }
            let t = Task::new(self.files[self.next].clone());
            self.current = Some(t);
            self.next = self.next + 1;
        }
        match &self.current {
            Some(t) => t.action(),
            None => None,
        }
    }

    /// Records whether the action just performed succeeded. When that ends the
    /// file under way, the file's path and result come back, the matching
    /// count goes up, and the batch is ready for the next file.
    pub fn report(&mut self, ok: bool) -> (r: Option<(String, RunResult)>)
        requires
            old(self).wf(),
            old(self).current is Some,
        ensures
            final(self).wf(),
            final(self).files == old(self).files,
            final(self).next == old(self).next,
            final(self).work_left() < old(self).work_left(),
            ({
                let t = old(self).current->Some_0;
                let st = next_stage(t.stage, ok);
                if is_terminal(st) {
                    &&& final(self).current is None
                    &&& r matches Some((p, res)) && p@ == t.path@ && res == result_of(st)
                    &&& result_of(st) == RunResult::Success ==> final(self).succeeded
                        == old(self).succeeded + 1 && final(self).failed == old(self).failed
                    &&& result_of(st) != RunResult::Success ==> final(self).failed
                        == old(self).failed + 1 && final(self).succeeded == old(self).succeeded
                } else {
                    &&& r is None
                    &&& final(self).current matches Some(u) && u.path == t.path && u.temp
                        == t.temp && u.stage == st
                    &&& final(self).succeeded == old(self).succeeded
                    &&& final(self).failed == old(self).failed
                }
            }),
    {
        let mut t = self.current.take().unwrap();
        t.advance(ok);
        match t.result() {
            Some(res) => {
                match res {
                    RunResult::Success => {
                        self.succeeded = self.succeeded + 1;
                    },
                    RunResult::Failed(_) => {
                        self.failed = self.failed + 1;
                    },
                }
                Some((t.path, res))
            },
            None => {
                self.current = Some(t);
                None
            },
        }
    }
}

} // verus!
