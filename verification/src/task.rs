//! A task as the driver sees it: who it is, whether a signal waits for it,
//! whether it sleeps, and how many handles keep it alive.
//!
//! The scheduler owns the real task. This is the record of what was read
//! from it, on which the waking and counting rules are stated.

use vstd::prelude::*;

verus! {

/// Process identifier.
pub type Pid = i32;

/// The task is runnable or running.
pub const TASK_RUNNING: u32 = 0;

/// The task sleeps and a signal may wake it.
pub const TASK_INTERRUPTIBLE: u32 = 1;

/// The task sleeps and only an explicit wake-up ends it.
pub const TASK_UNINTERRUPTIBLE: u32 = 2;

/// Either of the two ordinary sleeps.
pub const TASK_NORMAL: u32 = 3;

/// A schedulable task.
pub struct Task {
    pid: Pid,
    leader: Option<Box<Task>>,
    signal_pending: bool,
    state: u32,
    refs: u64,
}

/// What a task is.
pub struct TaskView {
    /// Its process identifier.
    pub pid: Pid,
    /// The leader of its thread group; `None` where the task leads itself.
    pub leader: Option<Task>,
    /// Whether a signal waits to be handled.
    pub signal_pending: bool,
    /// Its scheduling state: `TASK_RUNNING` or the bits of its sleep.
    pub state: u32,
    /// Number of handles that keep it alive.
    pub refs: u64,
}

impl View for Task {
    type V = TaskView;

    closed spec fn view(&self) -> TaskView {
        TaskView {
            pid: self.pid,
            leader: match self.leader {
                Some(l) => Some(*l),
                None => None,
            },
            signal_pending: self.signal_pending,
            state: self.state,
            refs: self.refs,
        }
    }
}

impl TaskView {
    /// The process identifier of the leader of the task's thread group: its
    /// own where it leads.
    pub open spec fn tgid(self) -> Pid {
        match self.leader {
            Some(l) => l@.pid,
            None => self.pid,
        }
    }

    /// Whether a wake-up for the sleeps in `mask` applies to the task.
    pub open spec fn wakes_on(self, mask: u32) -> bool {
        self.state & mask != 0
    }

    /// The task after a wake-up for the sleeps in `mask`: runnable if it was
    /// in one of them, as it was otherwise.
    pub open spec fn woken(self, mask: u32) -> TaskView {
        if self.wakes_on(mask) {
            TaskView { state: TASK_RUNNING, ..self }
        } else {
            self
        }
    }
}

impl Task {
    /// Whether the task leads its own thread group.
    pub open spec fn leads(&self) -> bool {
        self@.leader.is_none()
    }

    /// A task that leads its own thread group, held by one handle.
    pub fn new(pid: Pid, signal_pending: bool, state: u32) -> (t: Task)
        ensures
            t@ == (TaskView { pid, leader: None, signal_pending, state, refs: 1 }),
    {
        Task { pid, leader: None, signal_pending, state, refs: 1 }
    }

    /// A task in the thread group that `leader` leads, held by one handle.
    pub fn in_group(pid: Pid, signal_pending: bool, state: u32, leader: Task) -> (t: Task)
        ensures
            t@ == (TaskView { pid, leader: Some(leader), signal_pending, state, refs: 1 }),
    {
        Task { pid, leader: Some(Box::new(leader)), signal_pending, state, refs: 1 }
    }

    /// The leader of the task's thread group.
    pub fn group_leader(&self) -> (l: &Task)
        ensures
            *l == match self@.leader {
                Some(leader) => leader,
                None => *self,
            },
            l@.pid == self@.tgid(),
    {
        match &self.leader {
            Some(l) => &**l,
            None => self,
        }
    }

    /// The task's process identifier.
    pub fn pid(&self) -> (p: Pid)
        ensures
            p == self@.pid,
    {
        self.pid
    }

    /// Whether a signal waits for the task.
    pub fn signal_pending(&self) -> (b: bool)
        ensures
            b == self@.signal_pending,
    {
        self.signal_pending
    }

    /// Wakes the task from an ordinary sleep. A task that runs, or sleeps
    /// otherwise, stays as it is.
    pub fn wake_up(&mut self) -> (woke: bool)
        ensures
            woke == old(self)@.wakes_on(TASK_NORMAL),
            final(self)@ == old(self)@.woken(TASK_NORMAL),
    {
        self.wake_up_state(TASK_NORMAL)
    }

    /// Wakes the task if it is in one of the sleeps in `state`.
    pub fn wake_up_state(&mut self, state: u32) -> (woke: bool)
        ensures
            woke == old(self)@.wakes_on(state),
            final(self)@ == old(self)@.woken(state),
    {
        if self.state & state != 0 {
            self.state = TASK_RUNNING;
            true
        } else {
            false
        }
    }

    /// Takes one more handle on the task. Returns `false`, and counts
    /// nothing, when the count cannot grow.
    pub fn inc_ref(&mut self) -> (ok: bool)
        ensures
            ok == (old(self)@.refs < u64::MAX),
            ok ==> final(self)@ == (TaskView { refs: (old(self)@.refs + 1) as u64, ..old(self)@ }),
            !ok ==> final(self)@ == old(self)@,
    {
        if self.refs < u64::MAX {
            self.refs = self.refs + 1;
            true
        } else {
            false
        }
    }

    /// Gives one handle back. Returns `true` when it was the last one, after
    /// which the task may be released. With no handle left there is nothing
    /// to give back.
    pub fn dec_ref(&mut self) -> (last: bool)
        ensures
            last == (old(self)@.refs == 1),
            old(self)@.refs > 0 ==> final(self)@ == (TaskView {
                refs: (old(self)@.refs - 1) as u64,
                ..old(self)@
            }),
            old(self)@.refs == 0 ==> final(self)@ == old(self)@,
    {
        if self.refs == 0 {
            return false;
        }
        self.refs = self.refs - 1;
        self.refs == 0
    }
}

/// A borrowed handle on a task, good for as long as the borrow.
pub struct TaskRef<'a> {
    task: &'a Task,
}

impl<'a> TaskRef<'a> {
    /// The task behind the handle.
    pub closed spec fn target(&self) -> Task {
        *self.task
    }

    /// A handle on `task` that takes no count.
    pub fn new(task: &'a Task) -> (r: TaskRef<'a>)
        ensures
            r.target() == *task,
    {
        TaskRef { task }
    }

    /// The task behind the handle.
    pub fn deref(&self) -> (t: &Task)
        ensures
            *t == self.target(),
    {
        self.task
    }
}

} // verus!
