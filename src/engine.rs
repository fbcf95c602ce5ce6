//! The decisions of the execution engine: when a poll cycle runs, which
//! task it hands out next, what each action does with its measurement, and
//! how an outcome is recorded. Whoever drives the engine performs the
//! actions and the waiting.

use vstd::prelude::*;
use crate::disk::{DiskCleaningOptions, MIB};
use crate::memory::{usage_percent_spec, SystemMemoryInfo};
use crate::scheduler::{
    completed_spec, has_id, index_of, pending_spec, ConditionReadings, ScheduledTask,
    TaskScheduler, TaskType,
};
use crate::time::Timestamp;

verus! {

/// Seconds that must pass between two poll cycles of a host-driven engine.
pub const POLL_INTERVAL_SECS: i64 = 30;

/// The engine's own state: whether it runs, and when it last polled.
pub struct TaskEngine {
    running: bool,
    last_check: Option<Timestamp>,
}

/// Whether a poll is due at `now` after the last one at `last`.
pub open spec fn poll_due_spec(last: Option<Timestamp>, now: Timestamp) -> bool {
    match last {
        Some(l) => now.secs - l.secs >= POLL_INTERVAL_SECS,
        None => true,
    }
}

impl TaskEngine {
    /// Whether the engine runs.
    pub closed spec fn running_spec(&self) -> bool {
        self.running
    }

    /// When the engine last polled.
    pub closed spec fn last_check_spec(&self) -> Option<Timestamp> {
        self.last_check
    }

    /// A stopped engine that has never polled.
    pub fn new() -> (r: Self)
        ensures
            !r.running_spec(),
            r.last_check_spec() is None,
    {
        TaskEngine { running: false, last_check: None }
    }

    /// Starts the engine.
    pub fn start(&mut self)
        ensures
            final(self).running_spec(),
            final(self).last_check_spec() == old(self).last_check_spec(),
    {
        self.running = true;
    }

    /// Stops the engine: no further cycle begins.
    pub fn stop(&mut self)
        ensures
            !final(self).running_spec(),
            final(self).last_check_spec() == old(self).last_check_spec(),
    {
        self.running = false;
    }

    /// Whether the engine runs.
    pub fn is_running(&self) -> (r: bool)
        ensures
            r == self.running_spec(),
    {
        self.running
    }

    /// A host's periodic tick: whether a poll cycle should run now. It does
    /// when the engine runs and at least the poll interval has passed since
    /// the last poll (or there was none); the poll time is then recorded.
    pub fn tick(&mut self, now: Timestamp) -> (r: bool)
        ensures
            r == (old(self).running_spec() && poll_due_spec(old(self).last_check_spec(), now)),
            final(self).running_spec() == old(self).running_spec(),
            r ==> final(self).last_check_spec() == Some(now),
            !r ==> final(self).last_check_spec() == old(self).last_check_spec(),
    {
        if !self.running {
            return false;
        }
        let due = match self.last_check {
            Some(l) => (now.secs as i128) - (l.secs as i128) >= POLL_INTERVAL_SECS as i128,
            None => true,
        };
        if due {
            self.last_check = Some(now);
        }
        due
    }
}

/// What an action must measure before it decides.
#[derive(Clone, Copy, Debug, PartialEq, Eq, Structural)]
pub enum Probe {
    /// The memory figures.
    Memory,
    /// A disk scan with these options.
    Disk(DiskCleaningOptions),
    /// Nothing.
    Nothing,
}

/// The measurement that a [`Probe`] asked for.
#[derive(Debug)]
pub enum Reading {
    Memory(SystemMemoryInfo),
    /// Reclaimable bytes, or why the scan failed.
    Disk(Result<u64, String>),
    Nothing,
}

/// What the engine performs for a task.
#[derive(Clone, Copy, Debug, PartialEq, Eq, Structural)]
pub enum Action {
    /// The threshold is not met: nothing to do, and the run counts as a success.
    Skip,
    CleanMemory,
    CleanDisk(DiskCleaningOptions),
    SetDefender(bool),
}

/// What `task_type` must measure first.
pub open spec fn probe_spec(task_type: TaskType) -> Probe {
    match task_type {
        TaskType::CleanRam { .. } => Probe::Memory,
        TaskType::CleanDisk { options, .. } => Probe::Disk(options),
        TaskType::DefenderToggle { .. } => Probe::Nothing,
    }
}

/// Whether `reading` is the kind of measurement `task_type` asks for.
pub open spec fn reading_fits(task_type: TaskType, reading: Reading) -> bool {
    match (task_type, reading) {
        (TaskType::CleanRam { .. }, Reading::Memory(_)) => true,
        (TaskType::CleanDisk { .. }, Reading::Disk(_)) => true,
        (TaskType::DefenderToggle { .. }, Reading::Nothing) => true,
        _ => false,
    }
}

/// The action for `task_type` given its measurement: memory is cleaned
/// only when usage has reached the threshold, the disk only when at least
/// the threshold in MB can be reclaimed (a failed scan fails the run), and
/// the toggle always acts.
pub open spec fn plan_spec(task_type: TaskType, reading: Reading) -> Result<Action, String> {
    match (task_type, reading) {
        (TaskType::CleanRam { threshold_percentage }, Reading::Memory(info)) => Ok(
            if usage_percent_spec(info) >= threshold_percentage {
                Action::CleanMemory
            } else {
                Action::Skip
            },
        ),
        (TaskType::CleanDisk { size_threshold_mb, options }, Reading::Disk(scan)) => match scan {
            Ok(bytes) => Ok(
                if bytes / MIB >= size_threshold_mb {
                    Action::CleanDisk(options)
                } else {
                    Action::Skip
                },
            ),
            Err(e) => Err(e),
        },
        (TaskType::DefenderToggle { enable }, _) => Ok(Action::SetDefender(enable)),
        _ => Ok(Action::Skip),
    }
}

/// What `task_type` must measure before it decides.
pub fn probe_for(task_type: &TaskType) -> (r: Probe)
    ensures
        r == probe_spec(*task_type),
{
    match task_type {
        TaskType::CleanRam { .. } => Probe::Memory,
        TaskType::CleanDisk { options, .. } => Probe::Disk(*options),
        TaskType::DefenderToggle { .. } => Probe::Nothing,
    }
}

/// Decides the action for `task_type` from its fresh measurement.
pub fn plan_action(task_type: &TaskType, reading: Reading) -> (r: Result<Action, String>)
    requires
        reading_fits(*task_type, reading),
    ensures
        r == plan_spec(*task_type, reading),
{
    match (task_type, reading) {
        (TaskType::CleanRam { threshold_percentage }, Reading::Memory(info)) => {
            if info.usage_percent() >= *threshold_percentage {
                Ok(Action::CleanMemory)
            } else {
                Ok(Action::Skip)
            }
        },
        (TaskType::CleanDisk { size_threshold_mb, options }, Reading::Disk(scan)) => match scan {
            Ok(bytes) => {
                if bytes / MIB >= *size_threshold_mb {
                    Ok(Action::CleanDisk(*options))
                } else {
                    Ok(Action::Skip)
                }
            },
            Err(e) => Err(e),
        },
        (TaskType::DefenderToggle { enable }, _) => Ok(Action::SetDefender(*enable)),
        _ => Ok(Action::Skip),
    }
}

/// The bookkeeping pair for an outcome: success with no error, or failure
/// with its reason.
pub fn completion_of(result: &Result<(), String>) -> (r: (bool, Option<String>))
    ensures
        match result {
            Ok(_) => r == (true, None::<String>),
            Err(e) => r == (false, Some(*e)),
        },
{
    match result {
        Ok(_) => (true, None),
        Err(e) => (false, Some(e.clone())),
    }
}

/// Records the outcome of running the task with id `task_id`, which ended
/// at `now`.
pub fn record_outcome(
    scheduler: &mut TaskScheduler,
    task_id: &str,
    result: &Result<(), String>,
    now: Timestamp,
)
    requires
        old(scheduler).wf(),
    ensures
        final(scheduler).wf(),
        has_id(old(scheduler)@, task_id@) ==> final(scheduler)@ == old(scheduler)@.update(
            index_of(old(scheduler)@, task_id@),
            completed_spec(
                old(scheduler)@[index_of(old(scheduler)@, task_id@)],
                result is Ok,
                match result {
                    Ok(_) => None,
                    Err(e) => Some(*e),
                },
                now,
            ),
        ),
        !has_id(old(scheduler)@, task_id@) ==> final(scheduler)@ == old(scheduler)@,
{
    let (success, error) = completion_of(result);
    scheduler.mark_task_completed(task_id, success, error, now);
}

/// One poll cycle: the due tasks, snapshotted when it began, and how many
/// have been handed out.
pub struct PollCycle {
    due: Vec<ScheduledTask>,
    position: usize,
}

impl PollCycle {
    /// The snapshot of due tasks.
    pub closed spec fn due_spec(&self) -> Seq<ScheduledTask> {
        self.due@
    }

    /// How many tasks have been handed out.
    pub closed spec fn position_spec(&self) -> int {
        self.position as int
    }

    /// Begins a cycle at `now`: a snapshot of the tasks due then, none handed out.
    pub fn begin(scheduler: &TaskScheduler, now: Timestamp, readings: &ConditionReadings) -> (r:
        Self)
        ensures
            r.due_spec() == pending_spec(scheduler@, now, *readings),
            r.position_spec() == 0,
    {
        PollCycle { due: scheduler.get_pending_tasks(now, readings), position: 0 }
    }

    /// The next task to run, in snapshot order. Once a stop is requested, or
    /// every task has been handed out, there is none and the cycle is over.
    pub fn next_task(&mut self, stop_requested: bool) -> (r: Option<ScheduledTask>)
        requires
            old(self).position_spec() <= old(self).due_spec().len(),
        ensures
            final(self).due_spec() == old(self).due_spec(),
            final(self).position_spec() <= final(self).due_spec().len(),
            (stop_requested || old(self).position_spec() == old(self).due_spec().len()) ==> {
                &&& r is None
                &&& final(self).position_spec() == final(self).due_spec().len()
            },
            !(stop_requested || old(self).position_spec() == old(self).due_spec().len()) ==> {
                &&& r == Some(old(self).due_spec()[old(self).position_spec()])
                &&& final(self).position_spec() == old(self).position_spec() + 1
            },
    {
        if stop_requested || self.position >= self.due.len() {
            self.position = self.due.len();
            return None;
        }
        let task = self.due[self.position].snapshot();
        self.position = self.position + 1;
        Some(task)
    }

    /// Whether every task of the cycle has been handed out.
    pub fn is_finished(&self) -> (r: bool)
        ensures
            r == (self.position_spec() >= self.due_spec().len()),
    {
        self.position >= self.due.len()
    }
}

} // verus!
