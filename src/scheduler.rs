//! The task model, the task store, the due-task selector and the completion
//! bookkeeping.

use vstd::prelude::*;
use crate::disk::DiskCleaningOptions;
use crate::schedule::{next_run, next_run_spec, ScheduleRule};
use crate::disk::{default_disk_options, MIB};
use crate::text::append;
use crate::time::{in_range, TimeOfDay, Timestamp, Weekday};

verus! {

/// The maintenance action a task performs.
#[derive(Clone, Copy, Debug, PartialEq, Eq, Structural)]
pub enum TaskType {
    /// Trim memory when usage reaches the threshold percentage.
    CleanRam { threshold_percentage: u8 },
    /// Clean the disk with `options` when at least `size_threshold_mb` MB can
    /// be reclaimed.
    CleanDisk { size_threshold_mb: u64, options: DiskCleaningOptions },
    /// Switch the security service on or off.
    DefenderToggle { enable: bool },
}

/// One row of schedulable work.
#[derive(Clone, Debug)]
pub struct ScheduledTask {
    pub id: String,
    pub name: String,
    pub description: String,
    pub task_type: TaskType,
    pub schedule: ScheduleRule,
    pub enabled: bool,
    pub last_run: Option<Timestamp>,
    pub next_run: Option<Timestamp>,
    pub run_count: u32,
    pub success_count: u32,
    pub last_error: Option<String>,
}

/// What the disk probe found reclaimable for one task.
#[derive(Clone, Debug)]
pub struct DiskReading {
    pub task_id: String,
    pub reclaimable_bytes: u64,
}

/// The outside measurements that condition rules are decided on.
#[derive(Clone, Debug)]
pub struct ConditionReadings {
    /// Physical memory in use, in percent.
    pub memory_usage_percent: u8,
    /// One entry per disk task whose scan succeeded.
    pub disk: Vec<DiskReading>,
}

/// Adds one to a counter that stops at its largest value.
pub open spec fn saturating_inc(x: u32) -> u32 {
    if x < u32::MAX {
        (x + 1) as u32
    } else {
        x
    }
}

/// Some scan recorded for task `id` can reclaim at least `threshold_mb` MB.
pub open spec fn disk_condition_spec(id: Seq<char>, threshold_mb: u64, disk: Seq<DiskReading>) -> bool {
    exists|i: int|
        0 <= i < disk.len() && #[trigger] disk[i].task_id@ == id && disk[i].reclaimable_bytes / MIB
            >= threshold_mb
}

/// Whether the outside condition of `task`'s action currently holds. A
/// security toggle never fires on a condition.
pub open spec fn condition_met_spec(task: ScheduledTask, readings: ConditionReadings) -> bool {
    match task.task_type {
        TaskType::CleanRam { threshold_percentage } => readings.memory_usage_percent
            >= threshold_percentage,
        TaskType::CleanDisk { size_threshold_mb, .. } => disk_condition_spec(
            task.id@,
            size_threshold_mb,
            readings.disk@,
        ),
        TaskType::DefenderToggle { .. } => false,
    }
}

/// Whether `task` is due at `now`.
pub open spec fn is_due_spec(task: ScheduledTask, now: Timestamp, readings: ConditionReadings) -> bool {
    task.enabled && match task.schedule {
        ScheduleRule::OnStartup => task.last_run is None,
        ScheduleRule::OnCondition => condition_met_spec(task, readings),
        _ => match task.next_run {
            Some(n) => now.secs >= n.secs,
            None => false,
        },
    }
}

/// `task` with its next run computed at `now`.
pub open spec fn rescheduled_spec(task: ScheduledTask, now: Timestamp) -> ScheduledTask {
    ScheduledTask { next_run: next_run_spec(task.schedule, now), ..task }
}

/// `task` after one run that ended at `now`.
pub open spec fn completed_spec(
    task: ScheduledTask,
    success: bool,
    error: Option<String>,
    now: Timestamp,
) -> ScheduledTask {
    ScheduledTask {
        last_run: Some(now),
        run_count: saturating_inc(task.run_count),
        success_count: if success {
            saturating_inc(task.success_count)
        } else {
            task.success_count
        },
        last_error: if success {
            None
        } else {
            error
        },
        next_run: next_run_spec(task.schedule, now),
        ..task
    }
}

/// `edit` applied over `current`: everything but the identity and the run
/// history comes from `edit`, and the next run is computed afresh.
pub open spec fn edited_spec(current: ScheduledTask, edit: ScheduledTask, now: Timestamp) -> ScheduledTask {
    ScheduledTask {
        id: current.id,
        last_run: current.last_run,
        run_count: current.run_count,
        success_count: current.success_count,
        last_error: current.last_error,
        next_run: next_run_spec(edit.schedule, now),
        ..edit
    }
}

/// Some task of `s` has the id `id`.
pub open spec fn has_id(s: Seq<ScheduledTask>, id: Seq<char>) -> bool {
    exists|i: int| 0 <= i < s.len() && #[trigger] s[i].id@ == id
}

/// The position of the task with id `id` in `s`.
pub open spec fn index_of(s: Seq<ScheduledTask>, id: Seq<char>) -> int {
    choose|i: int| 0 <= i < s.len() && #[trigger] s[i].id@ == id
}

/// No two tasks of `s` share an id.
pub open spec fn unique_ids(s: Seq<ScheduledTask>) -> bool {
    forall|i: int, j: int|
        0 <= i < s.len() && 0 <= j < s.len() && i != j ==> #[trigger] s[i].id@ != #[trigger] s[j].id@
}

/// `s` with `task` stored under its id: replacing the task with that id, or
/// appended when there is none.
pub open spec fn insert_spec(s: Seq<ScheduledTask>, task: ScheduledTask) -> Seq<ScheduledTask> {
    if has_id(s, task.id@) {
        s.update(index_of(s, task.id@), task)
    } else {
        s.push(task)
    }
}

/// `s` with every loaded task stored in turn.
pub open spec fn overlay_spec(s: Seq<ScheduledTask>, loaded: Seq<ScheduledTask>) -> Seq<ScheduledTask>
    decreases loaded.len(),
{
    if loaded.len() == 0 {
        s
    } else {
        insert_spec(overlay_spec(s, loaded.drop_last()), loaded.last())
    }
}

/// `s` with every task's next run computed at `now`.
pub open spec fn rescheduled_all_spec(s: Seq<ScheduledTask>, now: Timestamp) -> Seq<ScheduledTask> {
    s.map_values(|t: ScheduledTask| rescheduled_spec(t, now))
}

/// The tasks of `s` that are due at `now`, in store order.
pub open spec fn pending_spec(
    s: Seq<ScheduledTask>,
    now: Timestamp,
    readings: ConditionReadings,
) -> Seq<ScheduledTask> {
    s.filter(|t: ScheduledTask| is_due_spec(t, now, readings))
}

impl ScheduledTask {
    /// Counters agree: a task never succeeded more often than it ran.
    pub open spec fn wf(&self) -> bool {
        self.success_count <= self.run_count
    }

    /// A fresh, enabled task that has never run.
    pub fn new(
        id: String,
        name: String,
        description: String,
        task_type: TaskType,
        schedule: ScheduleRule,
    ) -> (r: Self)
        ensures
            r == (ScheduledTask {
                id,
                name,
                description,
                task_type,
                schedule,
                enabled: true,
                last_run: None,
                next_run: None,
                run_count: 0,
                success_count: 0,
                last_error: None,
            }),
    {
        ScheduledTask {
            id,
            name,
            description,
            task_type,
            schedule,
            enabled: true,
            last_run: None,
            next_run: None,
            run_count: 0,
            success_count: 0,
            last_error: None,
        }
    }

    /// An owned clone, equal to `self` field for field.
    pub fn snapshot(&self) -> (r: Self)
        ensures
            r == *self,
    {
        ScheduledTask {
            id: self.id.clone(),
            name: self.name.clone(),
            description: self.description.clone(),
            task_type: self.task_type,
            schedule: self.schedule,
            enabled: self.enabled,
            last_run: self.last_run,
            next_run: self.next_run,
            run_count: self.run_count,
            success_count: self.success_count,
            last_error: match &self.last_error {
                Some(e) => Some(e.clone()),
                None => None,
            },
        }
    }
}

/// Whether the outside condition of `task`'s action holds under `readings`.
pub fn condition_met(task: &ScheduledTask, readings: &ConditionReadings) -> (r: bool)
    ensures
        r == condition_met_spec(*task, *readings),
{
    match task.task_type {
        TaskType::CleanRam { threshold_percentage } => readings.memory_usage_percent
            >= threshold_percentage,
        TaskType::CleanDisk { size_threshold_mb, .. } => {
            let mut found = false;
            let mut i: usize = 0;
            while i < readings.disk.len()
                invariant
                    i <= readings.disk.len(),
                    found == exists|j: int|
                        0 <= j < i && #[trigger] readings.disk@[j].task_id@ == task.id@
                            && readings.disk@[j].reclaimable_bytes / MIB >= size_threshold_mb,
                decreases readings.disk.len() - i,
            {
                let d = &readings.disk[i];
                if d.task_id == task.id && d.reclaimable_bytes / MIB >= size_threshold_mb {
                    found = true;
                }
                i += 1;
            }
            found
        },
        TaskType::DefenderToggle { .. } => false,
    }
}

/// Whether `task` is due at `now`: never when disabled; a startup task while
/// it has never run; a condition task while its condition holds; a calendar
/// task once `now` has reached its next run.
pub fn is_due(task: &ScheduledTask, now: Timestamp, readings: &ConditionReadings) -> (r: bool)
    ensures
        r == is_due_spec(*task, now, *readings),
{
    if !task.enabled {
        return false;
    }
    match task.schedule {
        ScheduleRule::OnStartup => task.last_run.is_none(),
        ScheduleRule::OnCondition => condition_met(task, readings),
        _ => match task.next_run {
            Some(n) => now.secs >= n.secs,
            None => false,
        },
    }
}

/// The in-memory task store: tasks keyed by their unique id, kept in the
/// order they were first stored.
pub struct TaskScheduler {
    tasks: Vec<ScheduledTask>,
    config_path: String,
    running: bool,
}

impl View for TaskScheduler {
    type V = Seq<ScheduledTask>;

    closed spec fn view(&self) -> Seq<ScheduledTask> {
        self.tasks@
    }
}

impl TaskScheduler {
    /// Ids are unique and every task's counters agree.
    pub open spec fn wf(&self) -> bool {
        &&& unique_ids(self@)
        &&& forall|i: int| 0 <= i < self@.len() ==> (#[trigger] self@[i]).wf()
    }

    /// Whether the scheduler has been started.
    pub closed spec fn running_spec(&self) -> bool {
        self.running
    }

    /// Where the store is persisted.
    pub closed spec fn config_path_spec(&self) -> Seq<char> {
        self.config_path@
    }

    /// An empty, stopped store persisted at `config_path`.
    pub fn new(config_path: &str) -> (r: Self)
        ensures
            r.wf(),
            r@ == Seq::<ScheduledTask>::empty(),
            !r.running_spec(),
            r.config_path_spec() == config_path@,
    {
        TaskScheduler { tasks: Vec::new(), config_path: config_path.to_owned(), running: false }
    }

    /// Where the store is persisted.
    pub fn config_path(&self) -> (r: &str)
        ensures
            r@ == self.config_path_spec(),
    {
        self.config_path.as_str()
    }

    /// The position of the task with id `id`.
    fn find(&self, id: &String) -> (r: Option<usize>)
        requires
            self.wf(),
        ensures
            match r {
                Some(i) => i < self@.len() && self@[i as int].id@ == id@ && index_of(self@, id@)
                    == i && has_id(self@, id@),
                None => !has_id(self@, id@),
            },
    {
        let mut i: usize = 0;
        while i < self.tasks.len()
            invariant
                self.wf(),
                i <= self.tasks@.len(),
                forall|j: int| 0 <= j < i ==> #[trigger] self.tasks@[j].id@ != id@,
            decreases self.tasks.len() - i,
        {
            if self.tasks[i].id == *id {
                proof {
                    assert(self@[i as int].id@ == id@);
                    let k = index_of(self@, id@);
                    assert(0 <= k < self@.len() && self@[k].id@ == id@);
                    if k != i as int {
                        assert(self@[k].id@ != self@[i as int].id@);
                    }
                }
                return Some(i);
            }
            i += 1;
        }
        None
    }

    /// Stores `task` in place of the task with its id, or appends it.
    fn store(&mut self, task: ScheduledTask)
        requires
            old(self).wf(),
            task.wf(),
        ensures
            final(self).wf(),
            final(self)@ == insert_spec(old(self)@, task),
            final(self).running_spec() == old(self).running_spec(),
            final(self).config_path_spec() == old(self).config_path_spec(),
    {
        match self.find(&task.id) {
            Some(i) => {
                self.tasks.set(i, task);
            },
            None => {
                self.tasks.push(task);
            },
        }
    }

    /// Stores `task` with its next run computed at `now`, replacing any task
    /// with the same id.
    pub fn add_task(&mut self, task: ScheduledTask, now: Timestamp)
        requires
            old(self).wf(),
            task.wf(),
        ensures
            final(self).wf(),
            final(self)@ == insert_spec(old(self)@, rescheduled_spec(task, now)),
            final(self).running_spec() == old(self).running_spec(),
    {
        let mut task = task;
        task.next_run = next_run(&task.schedule, now);
        self.store(task);
    }

    /// Removes the task with id `task_id`; whether there was one.
    pub fn remove_task(&mut self, task_id: &str) -> (r: bool)
        requires
            old(self).wf(),
        ensures
            final(self).wf(),
            r == has_id(old(self)@, task_id@),
            r ==> final(self)@ == old(self)@.remove(index_of(old(self)@, task_id@)),
            !r ==> final(self)@ == old(self)@,
            final(self).running_spec() == old(self).running_spec(),
    {
        let key = task_id.to_owned();
        match self.find(&key) {
            Some(i) => {
                self.tasks.remove(i);
                true
            },
            None => false,
        }
    }

    /// The task with id `task_id`.
    pub fn get_task(&self, task_id: &str) -> (r: Option<&ScheduledTask>)
        requires
            self.wf(),
        ensures
            r is Some == has_id(self@, task_id@),
            r matches Some(t) ==> *t == self@[index_of(self@, task_id@)] && t.id@ == task_id@,
    {
        let key = task_id.to_owned();
        match self.find(&key) {
            Some(i) => Some(&self.tasks[i]),
            None => None,
        }
    }

    /// Clones of all tasks, in store order.
    pub fn get_all_tasks(&self) -> (r: Vec<ScheduledTask>)
        ensures
            r@ == self@,
    {
        let mut out: Vec<ScheduledTask> = Vec::new();
        let mut i: usize = 0;
        while i < self.tasks.len()
            invariant
                i <= self.tasks@.len(),
                out@ == self.tasks@.subrange(0, i as int),
            decreases self.tasks.len() - i,
        {
            out.push(self.tasks[i].snapshot());
            i += 1;
            proof {
                assert(out@ =~= self.tasks@.subrange(0, i as int));
            }
        }
        proof {
            assert(self.tasks@.subrange(0, i as int) =~= self.tasks@);
        }
        out
    }

    /// Applies an edit to the task with the same id: the id and the run
    /// history stay, every other field comes from `task`, and the next run
    /// is computed at `now`. Without such a task nothing changes.
    pub fn update_task(&mut self, task: ScheduledTask, now: Timestamp)
        requires
            old(self).wf(),
        ensures
            final(self).wf(),
            has_id(old(self)@, task.id@) ==> final(self)@ == old(self)@.update(
                index_of(old(self)@, task.id@),
                edited_spec(old(self)@[index_of(old(self)@, task.id@)], task, now),
            ),
            !has_id(old(self)@, task.id@) ==> final(self)@ == old(self)@,
            final(self).running_spec() == old(self).running_spec(),
    {
        match self.find(&task.id) {
            Some(i) => {
                let current = &self.tasks[i];
                let edited = ScheduledTask {
                    id: current.id.clone(),
                    name: task.name,
                    description: task.description,
                    task_type: task.task_type,
                    schedule: task.schedule,
                    enabled: task.enabled,
                    last_run: current.last_run,
                    next_run: next_run(&task.schedule, now),
                    run_count: current.run_count,
                    success_count: current.success_count,
                    last_error: match &current.last_error {
                        Some(e) => Some(e.clone()),
                        None => None,
                    },
                };
                self.tasks.set(i, edited);
            },
            None => {},
        }
    }

    /// Clones of the tasks due at `now`, in store order.
    pub fn get_pending_tasks(&self, now: Timestamp, readings: &ConditionReadings) -> (r: Vec<
        ScheduledTask,
    >)
        ensures
            r@ == pending_spec(self@, now, *readings),
            forall|i: int| 0 <= i < r@.len() ==> (#[trigger] r@[i]).enabled,
    {
        let ghost pred = |t: ScheduledTask| is_due_spec(t, now, *readings);
        let mut out: Vec<ScheduledTask> = Vec::new();
        let mut i: usize = 0;
        while i < self.tasks.len()
            invariant
                i <= self.tasks@.len(),
                pred == (|t: ScheduledTask| is_due_spec(t, now, *readings)),
                out@ == self.tasks@.subrange(0, i as int).filter(pred),
            decreases self.tasks.len() - i,
        {
            let due = is_due(&self.tasks[i], now, readings);
            if due {
                out.push(self.tasks[i].snapshot());
            }
            proof {
                let s = self.tasks@.subrange(0, i + 1);
                assert(s.drop_last() =~= self.tasks@.subrange(0, i as int));
                reveal(Seq::filter);
            }
            i += 1;
        }
        proof {
            assert(self.tasks@.subrange(0, i as int) =~= self.tasks@);
            broadcast use vstd::seq_lib::group_filter_ensures;
        }
        out
    }

    /// Records one run of the task with id `task_id` that ended at `now`:
    /// the run time, the counters, the error (cleared on success) and the
    /// next run computed at `now`. Without such a task nothing changes.
    pub fn mark_task_completed(
        &mut self,
        task_id: &str,
        success: bool,
        error: Option<String>,
        now: Timestamp,
    )
        requires
            old(self).wf(),
        ensures
            final(self).wf(),
            has_id(old(self)@, task_id@) ==> final(self)@ == old(self)@.update(
                index_of(old(self)@, task_id@),
                completed_spec(old(self)@[index_of(old(self)@, task_id@)], success, error, now),
            ),
            !has_id(old(self)@, task_id@) ==> final(self)@ == old(self)@,
            final(self).running_spec() == old(self).running_spec(),
    {
        let key = task_id.to_owned();
        match self.find(&key) {
            Some(i) => {
                let mut task = self.tasks[i].snapshot();
                task.last_run = Some(now);
                task.run_count = task.run_count.saturating_add(1);
                if success {
                    task.success_count = task.success_count.saturating_add(1);
                    task.last_error = None;
                } else {
                    task.last_error = error;
                }
                task.next_run = next_run(&task.schedule, now);
                self.tasks.set(i, task);
            },
            None => {},
        }
    }

    /// Computes every task's next run at `now`.
    fn update_next_run_times(&mut self, now: Timestamp)
        requires
            old(self).wf(),
        ensures
            final(self).wf(),
            final(self)@ == rescheduled_all_spec(old(self)@, now),
            final(self).running_spec() == old(self).running_spec(),
    {
        let ghost base = self@;
        let mut i: usize = 0;
        while i < self.tasks.len()
            invariant
                i <= self.tasks@.len(),
                self.tasks@.len() == base.len(),
                unique_ids(base),
                forall|j: int| 0 <= j < base.len() ==> (#[trigger] base[j]).wf(),
                forall|j: int| 0 <= j < i ==> #[trigger] self.tasks@[j] == rescheduled_spec(base[j], now),
                forall|j: int| i <= j < base.len() ==> #[trigger] self.tasks@[j] == base[j],
                self.running == old(self).running,
            decreases self.tasks.len() - i,
        {
            let mut task = self.tasks[i].snapshot();
            task.next_run = next_run(&task.schedule, now);
            self.tasks.set(i, task);
            i += 1;
        }
        proof {
            assert(self@ =~= rescheduled_all_spec(base, now));
            assert forall|a: int, b: int|
                0 <= a < self@.len() && 0 <= b < self@.len() && a != b implies #[trigger] self@[a].id@
                != #[trigger] self@[b].id@ by {
                assert(base[a].id@ != base[b].id@);
            }
            assert forall|a: int| 0 <= a < self@.len() implies (#[trigger] self@[a]).wf() by {
                assert(base[a].wf());
            }
        }
    }

    /// Stores every loaded task in turn over the current ones (tasks that
    /// were not loaded stay), then computes every task's next run at `now`.
    pub fn load_snapshot(&mut self, loaded: Vec<ScheduledTask>, now: Timestamp)
        requires
            old(self).wf(),
            forall|i: int| 0 <= i < loaded@.len() ==> (#[trigger] loaded@[i]).wf(),
        ensures
            final(self).wf(),
            final(self)@ == rescheduled_all_spec(overlay_spec(old(self)@, loaded@), now),
            final(self).running_spec() == old(self).running_spec(),
    {
        let ghost base = self@;
        let mut i: usize = 0;
        while i < loaded.len()
            invariant
                i <= loaded@.len(),
                self.wf(),
                forall|j: int| 0 <= j < loaded@.len() ==> (#[trigger] loaded@[j]).wf(),
                self@ == overlay_spec(base, loaded@.subrange(0, i as int)),
                self.running == old(self).running,
            decreases loaded.len() - i,
        {
            let task = loaded[i].snapshot();
            self.store(task);
            proof {
                let pre = loaded@.subrange(0, i + 1);
                assert(pre.drop_last() =~= loaded@.subrange(0, i as int));
                assert(pre.last() == loaded@[i as int]);
            }
            i += 1;
        }
        proof {
            assert(loaded@.subrange(0, i as int) =~= loaded@);
        }
        self.update_next_run_times(now);
    }

    /// When `task` would fire next, computed at `now`.
    pub fn calculate_next_run(&self, task: &ScheduledTask, now: Timestamp) -> (r: Option<Timestamp>)
        ensures
            r == next_run_spec(task.schedule, now),
    {
        next_run(&task.schedule, now)
    }

    /// Marks the scheduler as running.
    pub fn start(&mut self)
        ensures
            final(self)@ == old(self)@,
            final(self).running_spec(),
            final(self).config_path_spec() == old(self).config_path_spec(),
    {
        self.running = true;
    }

    /// Marks the scheduler as stopped.
    pub fn stop(&mut self)
        ensures
            final(self)@ == old(self)@,
            !final(self).running_spec(),
            final(self).config_path_spec() == old(self).config_path_spec(),
    {
        self.running = false;
    }

    /// Whether the scheduler is running.
    pub fn is_running(&self) -> (r: bool)
        ensures
            r == self.running_spec(),
    {
        self.running
    }
}

/// How the program registers itself to start with the system.
#[derive(Clone, Copy, Debug, PartialEq, Eq, Structural)]
pub struct AutoStartupConfig {
    pub enabled: bool,
    pub start_minimized: bool,
    pub auto_start_scheduler: bool,
    pub startup_delay_seconds: u32,
}

impl Default for AutoStartupConfig {
    /// Not registered; when registered, start minimized, start the
    /// scheduler, after a 30 second delay.
    fn default() -> (r: Self)
        ensures
            r == (AutoStartupConfig {
                enabled: false,
                start_minimized: true,
                auto_start_scheduler: true,
                startup_delay_seconds: 30,
            }),
    {
        AutoStartupConfig {
            enabled: false,
            start_minimized: true,
            auto_start_scheduler: true,
            startup_delay_seconds: 30,
        }
    }
}

/// `t` is a fresh, enabled task that has never run.
pub open spec fn is_fresh(t: ScheduledTask) -> bool {
    &&& t.enabled
    &&& t.last_run is None
    &&& t.next_run is None
    &&& t.run_count == 0
    &&& t.success_count == 0
    &&& t.last_error is None
}

impl TaskScheduler {
    /// The quick template that cleans memory whenever usage reaches 85%.
    pub fn create_default_ram_cleanup_task() -> (r: ScheduledTask)
        ensures
            r.id@ == "ram_cleanup_threshold"@,
            r.name@ == "RAM Cleanup (Threshold)"@,
            r.description@ == "Automatically clean RAM when usage exceeds 85%"@,
            r.task_type == (TaskType::CleanRam { threshold_percentage: 85 }),
            r.schedule == ScheduleRule::OnCondition,
            is_fresh(r),
    {
        ScheduledTask::new(
            "ram_cleanup_threshold".to_owned(),
            "RAM Cleanup (Threshold)".to_owned(),
            "Automatically clean RAM when usage exceeds 85%".to_owned(),
            TaskType::CleanRam { threshold_percentage: 85 },
            ScheduleRule::OnCondition,
        )
    }

    /// The quick template that cleans the disk every day at 02:00 when at
    /// least 100 MB can be reclaimed.
    pub fn create_default_disk_cleanup_task() -> (r: ScheduledTask)
        ensures
            r.id@ == "disk_cleanup_daily"@,
            r.name@ == "Daily Disk Cleanup"@,
            r.description@ == "Clean temporary files and cache daily at 2:00 AM"@,
            r.task_type == (TaskType::CleanDisk {
                size_threshold_mb: 100,
                options: default_disk_options(),
            }),
            r.schedule == (ScheduleRule::Daily {
                time: TimeOfDay { hour: 2, minute: 0, second: 0 },
            }),
            is_fresh(r),
    {
        ScheduledTask::new(
            "disk_cleanup_daily".to_owned(),
            "Daily Disk Cleanup".to_owned(),
            "Clean temporary files and cache daily at 2:00 AM".to_owned(),
            TaskType::CleanDisk { size_threshold_mb: 100, options: DiskCleaningOptions::default() },
            ScheduleRule::Daily { time: TimeOfDay { hour: 2, minute: 0, second: 0 } },
        )
    }

    /// The quick template that switches the security service off every
    /// Monday at 09:00.
    pub fn create_default_defender_disable_task() -> (r: ScheduledTask)
        ensures
            r.id@ == "defender_disable_weekly"@,
            r.name@ == "Weekly Defender Disable"@,
            r.description@ == "Disable Windows Defender every Monday at 9:00 AM"@,
            r.task_type == (TaskType::DefenderToggle { enable: false }),
            r.schedule == (ScheduleRule::Weekly {
                weekday: Weekday::Mon,
                time: TimeOfDay { hour: 9, minute: 0, second: 0 },
            }),
            is_fresh(r),
    {
        ScheduledTask::new(
            "defender_disable_weekly".to_owned(),
            "Weekly Defender Disable".to_owned(),
            "Disable Windows Defender every Monday at 9:00 AM".to_owned(),
            TaskType::DefenderToggle { enable: false },
            ScheduleRule::Weekly {
                weekday: Weekday::Mon,
                time: TimeOfDay { hour: 9, minute: 0, second: 0 },
            },
        )
    }
}

/// The calendar due check: an enabled task is due once `now` has reached
/// its next run. A task without a next run is never due: its rule could not
/// be evaluated, and it waits until it is edited or reloaded.
pub fn is_task_due(task: &ScheduledTask, now: Timestamp) -> (r: bool)
    ensures
        r == (task.enabled && match task.next_run {
            Some(n) => now.secs >= n.secs,
            None => false,
        }),
{
    if !task.enabled {
        return false;
    }
    match task.next_run {
        Some(n) => now.secs >= n.secs,
        None => false,
    }
}

/// Some argument is exactly `--minimized`.
pub open spec fn has_minimized_flag(args: Seq<String>) -> bool {
    exists|i: int| 0 <= i < args.len() && #[trigger] args[i]@ == "--minimized"@
}

/// The command line that starts the program with the system: the quoted
/// executable path, followed by ` --minimized` when it should start hidden.
pub open spec fn startup_command_spec(exe_path: Seq<char>, start_minimized: bool) -> Seq<char> {
    "\""@ + exe_path + "\""@ + if start_minimized {
        " --minimized"@
    } else {
        Seq::empty()
    }
}

impl TaskScheduler {
    /// From the program's arguments and its startup settings: whether it
    /// was launched minimized, and whether the scheduler starts by itself.
    pub fn check_startup_args(args: &Vec<String>, config: &AutoStartupConfig) -> (r: (bool, bool))
        ensures
            r.0 == has_minimized_flag(args@),
            r.1 == config.auto_start_scheduler,
    {
        let flag = "--minimized".to_owned();
        let mut found = false;
        let mut i: usize = 0;
        while i < args.len()
            invariant
                i <= args@.len(),
                flag@ == "--minimized"@,
                found == exists|j: int| 0 <= j < i && #[trigger] args@[j]@ == "--minimized"@,
            decreases args.len() - i,
        {
            if args[i] == flag {
                found = true;
            }
            i += 1;
        }
        (found, config.auto_start_scheduler)
    }

    /// The command line that starts the program with the system.
    pub fn startup_command(exe_path: &str, start_minimized: bool) -> (r: String)
        ensures
            r@ == startup_command_spec(exe_path@, start_minimized),
    {
        let mut command = "\"".to_owned();
        append(&mut command, exe_path);
        append(&mut command, "\"");
        if start_minimized {
            append(&mut command, " --minimized");
        }
        proof {
            assert(command@ =~= startup_command_spec(exe_path@, start_minimized));
        }
        command
    }
}

/// A startup task that has never run is due, and once one run has been
/// recorded it is never due again, whatever the time and the readings.
pub proof fn lemma_startup_runs_once(
    task: ScheduledTask,
    now: Timestamp,
    readings: ConditionReadings,
    success: bool,
    error: Option<String>,
    later: Timestamp,
    later_readings: ConditionReadings,
)
    requires
        task.schedule == ScheduleRule::OnStartup,
        task.enabled,
        task.last_run is None,
    ensures
        is_due_spec(task, now, readings),
        !is_due_spec(completed_spec(task, success, error, now), later, later_readings),
{
}

/// In a store, a startup task that has never run is among the pending
/// tasks; once its run is recorded, it is never pending again.
pub proof fn lemma_startup_pending_once(
    s: Seq<ScheduledTask>,
    i: int,
    now: Timestamp,
    readings: ConditionReadings,
    success: bool,
    error: Option<String>,
    later: Timestamp,
    later_readings: ConditionReadings,
)
    requires
        0 <= i < s.len(),
        s[i].schedule == ScheduleRule::OnStartup,
        s[i].enabled,
        s[i].last_run is None,
    ensures
        pending_spec(s, now, readings).contains(s[i]),
        !pending_spec(
            s.update(i, completed_spec(s[i], success, error, now)),
            later,
            later_readings,
        ).contains(completed_spec(s[i], success, error, now)),
{
    broadcast use vstd::seq_lib::group_filter_ensures;

    let done = completed_spec(s[i], success, error, now);
    let after = s.update(i, done);
    assert(is_due_spec(s[i], now, readings));
    let p = pending_spec(after, later, later_readings);
    if p.contains(done) {
        let k = choose|k: int| 0 <= k < p.len() && p[k] == done;
        assert(is_due_spec(p[k], later, later_readings));
    }
}

/// In a store, recording a failed run of the task at position `i` and then
/// a successful one leaves it without an error, and the second record adds
/// exactly one run and one success.
pub proof fn lemma_store_failure_then_success(
    s: Seq<ScheduledTask>,
    i: int,
    x: String,
    first: Timestamp,
    second: Timestamp,
)
    requires
        0 <= i < s.len(),
        s[i].wf(),
        s[i].run_count < u32::MAX - 1,
    ensures
        ({
            let s1 = s.update(i, completed_spec(s[i], false, Some(x), first));
            let s2 = s1.update(i, completed_spec(s1[i], true, None, second));
            &&& s1[i].last_error == Some(x)
            &&& s2[i].last_error is None
            &&& s2[i].success_count == s1[i].success_count + 1
            &&& s2[i].run_count == s1[i].run_count + 1
            &&& s2.len() == s.len()
            &&& forall|j: int| 0 <= j < s.len() && j != i ==> s2[j] == s[j]
        }),
{
}

/// An interval rule evaluated at `now` fires `minutes` later, whenever
/// both instants lie in the library's range; so a task stored or completed
/// at `now` gets that next run.
pub proof fn lemma_interval_next_run(task: ScheduledTask, minutes: u32, now: Timestamp)
    requires
        task.schedule == (ScheduleRule::Interval { minutes }),
        minutes > 0,
        in_range(now.secs as int),
        in_range(now.secs + 60 * minutes),
    ensures
        next_run_spec(task.schedule, now) == Some(Timestamp { secs: (now.secs + 60 * minutes) as i64 }),
        rescheduled_spec(task, now).next_run == Some(Timestamp { secs: (now.secs + 60 * minutes) as i64 }),
        rescheduled_spec(task, now).id == task.id,
        rescheduled_spec(task, now).schedule == task.schedule,
        rescheduled_spec(task, now).run_count == task.run_count,
        forall|success: bool, error: Option<String>|
            #[trigger] completed_spec(task, success, error, now).next_run == Some(
                Timestamp { secs: (now.secs + 60 * minutes) as i64 },
            ),
        forall|success: bool, error: Option<String>|
            #[trigger] completed_spec(task, success, error, now).last_run == Some(now),
{
}

/// A failed run followed by a successful one leaves no error, and the
/// successful run adds exactly one to the success count.
pub proof fn lemma_success_clears_error(
    task: ScheduledTask,
    x: String,
    first: Timestamp,
    second: Timestamp,
)
    requires
        task.success_count < u32::MAX,
    ensures
        ({
            let failed = completed_spec(task, false, Some(x), first);
            let recovered = completed_spec(failed, true, None, second);
            &&& failed.last_error == Some(x)
            &&& recovered.last_error is None
            &&& recovered.success_count == failed.success_count + 1
        }),
{
}

/// A disabled task is never among the pending tasks, whatever its rule.
pub proof fn lemma_disabled_never_pending(
    s: Seq<ScheduledTask>,
    now: Timestamp,
    readings: ConditionReadings,
    task: ScheduledTask,
)
    requires
        !task.enabled,
    ensures
        !pending_spec(s, now, readings).contains(task),
{
    broadcast use vstd::seq_lib::group_filter_ensures;

    let p = pending_spec(s, now, readings);
    if p.contains(task) {
        let i = choose|i: int| 0 <= i < p.len() && p[i] == task;
        assert(is_due_spec(p[i], now, readings));
    }
}

/// A recorded run keeps the counters in agreement and never lowers them.
pub proof fn lemma_completion_keeps_counters(
    task: ScheduledTask,
    success: bool,
    error: Option<String>,
    now: Timestamp,
)
    requires
        task.wf(),
    ensures
        completed_spec(task, success, error, now).wf(),
        completed_spec(task, success, error, now).run_count >= task.run_count,
        completed_spec(task, success, error, now).success_count >= task.success_count,
{
}

} // verus!
