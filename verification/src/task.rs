//! Progress of background file work: the updates it reports, the state they
//! build up, and the kinds of work shown.

use vstd::prelude::*;

verus! {

/// Represents progress updates for I/O operations.
#[derive(Debug)]
pub enum IOProgress {
    /// IO operation has started with a total number of items to complete.
    Started { total: usize },
    /// IO operation has advanced with the number of completed items and total items.
    Advanced { completed: usize, total: usize },
    /// IO operation has finished.
    Finished,
    /// IO operation encountered an error with an attached message.
    Error(String),
}

/// State of an I/O task.
#[derive(Debug, Clone)]
pub struct IOTaskState {
    /// Total number of items to be completed.
    pub total: usize,
    /// Number of items completed.
    pub completed: usize,
    /// Whether the task has started.
    pub started: bool,
    /// Whether the task has finished.
    pub finished: bool,
    /// Any error message from the task.
    pub error: Option<String>,
}

/// The state after one progress update: a start sets the total, an
/// advance sets both counts, a finish or an error finishes the task, and an
/// error keeps its message.
pub open spec fn state_after(s: IOTaskState, p: IOProgress) -> IOTaskState {
    match p {
        IOProgress::Started { total } => IOTaskState { started: true, total, ..s },
        IOProgress::Advanced { completed, total } => IOTaskState { completed, total, ..s },
        IOProgress::Finished => IOTaskState { finished: true, ..s },
        IOProgress::Error(msg) => IOTaskState { error: Some(msg), finished: true, ..s },
    }
}

/// The state after a sequence of progress updates, in order.
pub open spec fn state_after_all(s: IOTaskState, ps: Seq<IOProgress>) -> IOTaskState
    decreases ps.len(),
{
    if ps.len() == 0 {
        s
    } else {
        state_after(state_after_all(s, ps.drop_last()), ps.last())
    }
}

/// Law: applying two batches of updates, one poll after the other, gives
/// the state that applying them all in one poll gives.
pub proof fn law_poll_batches(s: IOTaskState, a: Seq<IOProgress>, b: Seq<IOProgress>)
    ensures
        state_after_all(state_after_all(s, a), b) == state_after_all(s, a + b),
    decreases b.len(),
{
    if b.len() == 0 {
        assert(a + b =~= a);
    } else {
        law_poll_batches(s, a, b.drop_last());
        assert((a + b).drop_last() =~= a + b.drop_last());
        assert((a + b).last() == b.last());
    }
}

impl IOTaskState {
    /// The state of a task that has reported nothing yet.
    pub fn new() -> (s: Self)
        ensures
            s.total == 0,
            s.completed == 0,
            !s.started,
            !s.finished,
            s.error is None,
    {
        IOTaskState { total: 0, completed: 0, started: false, finished: false, error: None }
    }

    /// Apply one progress update.
    pub fn apply(&mut self, progress: IOProgress)
        ensures
            *final(self) == state_after(*old(self), progress),
    {
        match progress {
            IOProgress::Started { total } => {
                self.started = true;
                self.total = total;
            },
            IOProgress::Advanced { completed, total } => {
                self.completed = completed;
                self.total = total;
            },
            IOProgress::Finished => {
                self.finished = true;
            },
            IOProgress::Error(msg) => {
                self.error = Some(msg);
                self.finished = true;
            },
        }
    }

    /// Apply the progress updates received since the last poll, in order.
    pub fn poll(&mut self, updates: Vec<IOProgress>)
        ensures
            *final(self) == state_after_all(*old(self), updates@),
    {
        let ghost ps = updates@;
        let n = updates.len();
        let mut rest = updates;
        let mut i: usize = 0;
        assert(ps.take(0) =~= Seq::<IOProgress>::empty());
        while rest.len() > 0
            invariant
                i + rest@.len() == ps.len(),
                ps.len() == n,
                rest@ == ps.skip(i as int),
                *self == state_after_all(*old(self), ps.take(i as int)),
            decreases rest@.len(),
        {
            let p = rest.remove(0);
            assert(p == ps[i as int]);
            assert(rest@ =~= ps.skip(i as int + 1));
            assert(ps.take(i as int + 1).drop_last() =~= ps.take(i as int));
            self.apply(p);
            i = i + 1;
        }
        assert(ps.take(i as int) =~= ps);
    }

    /// Returns the number of items completed.
    pub fn completed_count(&self) -> (n: Option<usize>)
        ensures
            n == Some(self.completed),
    {
        Some(self.completed)
    }

    /// Returns the total number of items to be completed.
    pub fn total_count(&self) -> (n: Option<usize>)
        ensures
            n == Some(self.total),
    {
        Some(self.total)
    }
}

/// Different kinds of I/O tasks that can be performed.
#[derive(Debug, Clone, Copy, PartialEq, Eq, Structural)]
pub enum IOTaskKind {
    /// Backup a character; `true` for a selective backup.
    BackupCharacter(bool),
    /// Paste files operation.
    PasteFiles,
}

impl IOTaskKind {
    /// Returns the name of the I/O task kind.
    pub fn name(&self) -> (s: &'static str)
        ensures
            s@ == (match self {
                IOTaskKind::BackupCharacter(true) => "Selective character backup"@,
                IOTaskKind::BackupCharacter(false) => "Full character backup"@,
                IOTaskKind::PasteFiles => "Pasting files"@,
            }),
    {
        match self {
            IOTaskKind::BackupCharacter(true) => "Selective character backup",
            IOTaskKind::BackupCharacter(false) => "Full character backup",
            IOTaskKind::PasteFiles => "Pasting files",
        }
    }

    /// Returns the text to use as a label for the I/O task kind.
    pub fn label(&self) -> (s: &'static str)
        ensures
            s@ == (match self {
                IOTaskKind::BackupCharacter(_) => "Backing up"@,
                IOTaskKind::PasteFiles => "Pasting"@,
            }),
    {
        match self {
            IOTaskKind::BackupCharacter(_) => "Backing up",
            IOTaskKind::PasteFiles => "Pasting",
        }
    }
}


/// What follows a poll of a chain of tasks.
#[derive(Debug, Clone, Copy, PartialEq, Eq, Structural)]
pub enum TaskStep {
    /// The task is still running.
    Running,
    /// The task failed: the chain stops.
    Failed,
    /// The task finished and the next one starts.
    StartNext,
    /// The task finished and it was the last one.
    Done,
}

/// What follows a poll of the running task, `has_next` telling whether a
/// task is chained after it.
pub fn task_step(state: &IOTaskState, has_next: bool) -> (s: TaskStep)
    ensures
        s == (if !state.finished {
            TaskStep::Running
        } else if state.error is Some {
            TaskStep::Failed
        } else if has_next {
            TaskStep::StartNext
        } else {
            TaskStep::Done
        }),
{
    if !state.finished {
        TaskStep::Running
    } else if state.error.is_some() {
        TaskStep::Failed
    } else if has_next {
        TaskStep::StartNext
    } else {
        TaskStep::Done
    }
}

} // verus!
