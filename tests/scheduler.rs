use game_booster::scheduler::AutoStartupConfig;
use game_booster::schedule::{format_schedule_rule, weekday_from_index};
use game_booster::disk::DiskCleaningOptions;
use game_booster::engine::{
    completion_of, plan_action, probe_for, record_outcome, Action, PollCycle, Probe, Reading,
    TaskEngine,
};
use game_booster::memory::SystemMemoryInfo;
use game_booster::schedule::{next_run, ScheduleRule};
use game_booster::scheduler::{
    condition_met, is_due, ConditionReadings, DiskReading, ScheduledTask, TaskScheduler, TaskType,
};
use game_booster::time::{TimeOfDay, Timestamp, Weekday};

/// Monday 2024-01-15 as a day number.
const MONDAY: i64 = 19737;

fn at(day: i64, hour: i64, minute: i64, second: i64) -> Timestamp {
    Timestamp { secs: day * 86400 + hour * 3600 + minute * 60 + second }
}

fn hms(hour: u8, minute: u8, second: u8) -> TimeOfDay {
    TimeOfDay::from_hms(hour, minute, second).unwrap()
}

fn no_readings() -> ConditionReadings {
    ConditionReadings { memory_usage_percent: 0, disk: Vec::new() }
}

fn task(id: &str, task_type: TaskType, schedule: ScheduleRule) -> ScheduledTask {
    ScheduledTask::new(id.to_string(), format!("{id} name"), String::new(), task_type, schedule)
}

fn ram_task(id: &str, schedule: ScheduleRule) -> ScheduledTask {
    task(id, TaskType::CleanRam { threshold_percentage: 85 }, schedule)
}

#[test]
fn interval_task_scenario() {
    let t0 = at(MONDAY, 10, 0, 0);
    let mut s = TaskScheduler::new("tasks.json");
    s.add_task(ram_task("hourly", ScheduleRule::Interval { minutes: 60 }), t0);
    assert_eq!(s.get_task("hourly").unwrap().next_run, Some(at(MONDAY, 11, 0, 0)));

    let later = at(MONDAY, 11, 1, 0);
    let pending = s.get_pending_tasks(later, &no_readings());
    assert_eq!(pending.len(), 1);
    assert_eq!(pending[0].id, "hourly");

    s.mark_task_completed("hourly", true, None, later);
    let t = s.get_task("hourly").unwrap();
    assert_eq!(t.next_run, Some(at(MONDAY, 12, 1, 0)));
    assert_eq!(t.last_run, Some(later));
    assert_eq!(t.run_count, 1);
    assert_eq!(t.success_count, 1);
}

#[test]
fn daily_task_scenario() {
    let rule = ScheduleRule::Daily { time: hms(2, 0, 0) };
    assert_eq!(next_run(&rule, at(MONDAY, 1, 59, 0)), Some(at(MONDAY, 2, 0, 0)));
    assert_eq!(next_run(&rule, at(MONDAY, 2, 0, 1)), Some(at(MONDAY + 1, 2, 0, 0)));
}

#[test]
fn daily_tie_goes_to_tomorrow() {
    let rule = ScheduleRule::Daily { time: hms(2, 0, 0) };
    assert_eq!(next_run(&rule, at(MONDAY, 2, 0, 0)), Some(at(MONDAY + 1, 2, 0, 0)));
}

#[test]
fn daily_is_strictly_after_now() {
    let rule = ScheduleRule::Daily { time: hms(23, 59, 59) };
    for now in [at(MONDAY, 0, 0, 0), at(MONDAY, 23, 59, 59), at(-3, 12, 0, 0), at(0, 0, 0, 0)] {
        let next = next_run(&rule, now).unwrap();
        assert!(next.secs > now.secs);
        assert!(next.secs - now.secs <= 86400);
    }
}

#[test]
fn weekly_lands_on_weekday_within_a_week() {
    let rule = ScheduleRule::Weekly { weekday: Weekday::Mon, time: hms(9, 0, 0) };
    // Monday before nine: today.
    assert_eq!(next_run(&rule, at(MONDAY, 8, 0, 0)), Some(at(MONDAY, 9, 0, 0)));
    // Monday at nine: a week later.
    assert_eq!(next_run(&rule, at(MONDAY, 9, 0, 0)), Some(at(MONDAY + 7, 9, 0, 0)));
    // Wednesday: the next Monday.
    assert_eq!(next_run(&rule, at(MONDAY + 2, 12, 0, 0)), Some(at(MONDAY + 7, 9, 0, 0)));
    // Sunday: the next day.
    assert_eq!(next_run(&rule, at(MONDAY + 6, 23, 0, 0)), Some(at(MONDAY + 7, 9, 0, 0)));
    let sunday = ScheduleRule::Weekly { weekday: Weekday::Sun, time: hms(0, 0, 0) };
    let next = next_run(&sunday, at(MONDAY, 0, 0, 0)).unwrap();
    assert_eq!(next, at(MONDAY + 6, 0, 0, 0));
    assert_eq!(next.weekday(), Weekday::Sun);
}

#[test]
fn next_run_is_repeatable() {
    let now = at(MONDAY, 13, 14, 15);
    for rule in [
        ScheduleRule::Interval { minutes: 5 },
        ScheduleRule::Daily { time: hms(6, 30, 0) },
        ScheduleRule::Weekly { weekday: Weekday::Fri, time: hms(18, 0, 0) },
        ScheduleRule::OnStartup,
        ScheduleRule::OnCondition,
    ] {
        assert_eq!(next_run(&rule, now), next_run(&rule, now));
    }
}

#[test]
fn non_calendar_and_malformed_rules_have_no_next_run() {
    let now = at(MONDAY, 12, 0, 0);
    assert_eq!(next_run(&ScheduleRule::OnStartup, now), None);
    assert_eq!(next_run(&ScheduleRule::OnCondition, now), None);
    assert_eq!(next_run(&ScheduleRule::Interval { minutes: 0 }, now), None);
    let bad = TimeOfDay { hour: 24, minute: 0, second: 0 };
    assert_eq!(next_run(&ScheduleRule::Daily { time: bad }, now), None);
    assert_eq!(TimeOfDay::from_hms(12, 60, 0), None);
}

#[test]
fn startup_task_runs_once() {
    let now = at(MONDAY, 8, 0, 0);
    let mut s = TaskScheduler::new("tasks.json");
    s.add_task(ram_task("boot", ScheduleRule::OnStartup), now);
    assert_eq!(s.get_task("boot").unwrap().next_run, None);
    assert_eq!(s.get_pending_tasks(now, &no_readings()).len(), 1);
    s.mark_task_completed("boot", true, None, now);
    assert!(s.get_pending_tasks(now, &no_readings()).is_empty());
    assert!(s.get_pending_tasks(at(MONDAY + 400, 8, 0, 0), &no_readings()).is_empty());
}

#[test]
fn failure_then_success_clears_error() {
    let now = at(MONDAY, 8, 0, 0);
    let mut s = TaskScheduler::new("tasks.json");
    s.add_task(ram_task("t", ScheduleRule::Interval { minutes: 10 }), now);
    s.mark_task_completed("t", false, Some("x".to_string()), now);
    let failed = s.get_task("t").unwrap().clone();
    assert_eq!(failed.last_error.as_deref(), Some("x"));
    assert_eq!(failed.run_count, 1);
    assert_eq!(failed.success_count, 0);
    s.mark_task_completed("t", true, None, at(MONDAY, 8, 5, 0));
    let ok = s.get_task("t").unwrap();
    assert_eq!(ok.last_error, None);
    assert_eq!(ok.success_count, failed.success_count + 1);
    assert_eq!(ok.run_count, 2);
}

#[test]
fn ram_condition_scenario() {
    let now = at(MONDAY, 12, 0, 0);
    let mut s = TaskScheduler::new("tasks.json");
    s.add_task(TaskScheduler::create_default_ram_cleanup_task(), now);
    let high = ConditionReadings { memory_usage_percent: 90, disk: Vec::new() };
    let low = ConditionReadings { memory_usage_percent: 80, disk: Vec::new() };
    assert_eq!(s.get_pending_tasks(now, &high).len(), 1);
    assert!(s.get_pending_tasks(now, &low).is_empty());
}

#[test]
fn disabled_task_is_never_pending() {
    let now = at(MONDAY, 12, 0, 0);
    let mut s = TaskScheduler::new("tasks.json");
    let mut t = ram_task("off", ScheduleRule::Interval { minutes: 1 });
    t.enabled = false;
    s.add_task(t, now);
    let mut startup = ram_task("off_boot", ScheduleRule::OnStartup);
    startup.enabled = false;
    s.add_task(startup, now);
    let high = ConditionReadings { memory_usage_percent: 100, disk: Vec::new() };
    assert!(s.get_pending_tasks(at(MONDAY + 30, 0, 0, 0), &high).is_empty());
}

#[test]
fn disk_condition_uses_the_task_reading() {
    let t = task(
        "disk",
        TaskType::CleanDisk { size_threshold_mb: 100, options: DiskCleaningOptions::default() },
        ScheduleRule::OnCondition,
    );
    let enough = ConditionReadings {
        memory_usage_percent: 0,
        disk: vec![DiskReading { task_id: "disk".to_string(), reclaimable_bytes: 100 * 1048576 }],
    };
    let short = ConditionReadings {
        memory_usage_percent: 0,
        disk: vec![DiskReading { task_id: "disk".to_string(), reclaimable_bytes: 100 * 1048576 - 1 }],
    };
    let other = ConditionReadings {
        memory_usage_percent: 100,
        disk: vec![DiskReading { task_id: "else".to_string(), reclaimable_bytes: u64::MAX }],
    };
    assert!(condition_met(&t, &enough));
    assert!(!condition_met(&t, &short));
    assert!(!condition_met(&t, &other));
    let toggle = task("sec", TaskType::DefenderToggle { enable: true }, ScheduleRule::OnCondition);
    assert!(!is_due(&toggle, at(MONDAY, 0, 0, 0), &other));
}

#[test]
fn store_add_update_remove() {
    let now = at(MONDAY, 12, 0, 0);
    let mut s = TaskScheduler::new("store.json");
    assert_eq!(s.config_path(), "store.json");
    s.add_task(ram_task("a", ScheduleRule::Interval { minutes: 30 }), now);
    s.add_task(ram_task("b", ScheduleRule::OnStartup), now);
    s.mark_task_completed("a", false, Some("boom".to_string()), now);

    let mut edit = ram_task("a", ScheduleRule::Daily { time: hms(3, 0, 0) });
    edit.name = "renamed".to_string();
    s.update_task(edit, now);
    let a = s.get_task("a").unwrap();
    assert_eq!(a.name, "renamed");
    assert_eq!(a.run_count, 1);
    assert_eq!(a.last_error.as_deref(), Some("boom"));
    assert_eq!(a.next_run, Some(at(MONDAY + 1, 3, 0, 0)));

    s.update_task(ram_task("missing", ScheduleRule::OnStartup), now);
    assert_eq!(s.get_all_tasks().len(), 2);
    assert!(s.remove_task("b"));
    assert!(!s.remove_task("b"));
    let all = s.get_all_tasks();
    assert_eq!(all.len(), 1);
    assert_eq!(all[0].id, "a");
    assert!(s.get_task("b").is_none());
}

#[test]
fn load_overlays_and_recomputes() {
    let now = at(MONDAY, 12, 0, 0);
    let mut s = TaskScheduler::new("store.json");
    s.add_task(ram_task("kept", ScheduleRule::Interval { minutes: 5 }), at(MONDAY, 0, 0, 0));
    let mut stale = ram_task("loaded", ScheduleRule::Interval { minutes: 10 });
    stale.next_run = Some(at(MONDAY - 10, 0, 0, 0));
    s.load_snapshot(vec![stale], now);
    assert_eq!(s.get_all_tasks().len(), 2);
    assert_eq!(s.get_task("kept").unwrap().next_run, Some(at(MONDAY, 12, 5, 0)));
    assert_eq!(s.get_task("loaded").unwrap().next_run, Some(at(MONDAY, 12, 10, 0)));
}

#[test]
fn scheduler_start_stop() {
    let mut s = TaskScheduler::new("x.json");
    assert!(!s.is_running());
    s.start();
    assert!(s.is_running());
    s.stop();
    assert!(!s.is_running());
}

#[test]
fn templates() {
    let disk = TaskScheduler::create_default_disk_cleanup_task();
    assert_eq!(disk.id, "disk_cleanup_daily");
    assert_eq!(disk.schedule, ScheduleRule::Daily { time: hms(2, 0, 0) });
    let defender = TaskScheduler::create_default_defender_disable_task();
    assert_eq!(defender.task_type, TaskType::DefenderToggle { enable: false });
    assert!(defender.enabled);
    assert_eq!(defender.run_count, 0);
}

#[test]
fn engine_tick_rate_limits() {
    let mut e = TaskEngine::new();
    assert!(!e.tick(at(MONDAY, 0, 0, 0)));
    e.start();
    assert!(e.is_running());
    assert!(e.tick(at(MONDAY, 0, 0, 0)));
    assert!(!e.tick(at(MONDAY, 0, 0, 29)));
    assert!(e.tick(at(MONDAY, 0, 0, 30)));
    e.stop();
    assert!(!e.tick(at(MONDAY, 1, 0, 0)));
}

#[test]
fn engine_plans_actions() {
    let ram = TaskType::CleanRam { threshold_percentage: 85 };
    assert_eq!(probe_for(&ram), Probe::Memory);
    let busy = SystemMemoryInfo {
        total_physical: 1000,
        avail_physical: 100,
        total_pagefile: 0,
        avail_pagefile: 0,
    };
    let idle = SystemMemoryInfo { avail_physical: 900, ..busy };
    assert_eq!(plan_action(&ram, Reading::Memory(busy)), Ok(Action::CleanMemory));
    assert_eq!(plan_action(&ram, Reading::Memory(idle)), Ok(Action::Skip));

    let options = DiskCleaningOptions::default();
    let disk = TaskType::CleanDisk { size_threshold_mb: 2, options };
    assert_eq!(probe_for(&disk), Probe::Disk(options));
    assert_eq!(plan_action(&disk, Reading::Disk(Ok(2 * 1048576))), Ok(Action::CleanDisk(options)));
    assert_eq!(plan_action(&disk, Reading::Disk(Ok(2 * 1048576 - 1))), Ok(Action::Skip));
    assert_eq!(
        plan_action(&disk, Reading::Disk(Err("scan failed".to_string()))),
        Err("scan failed".to_string())
    );
    let toggle = TaskType::DefenderToggle { enable: true };
    assert_eq!(probe_for(&toggle), Probe::Nothing);
    assert_eq!(plan_action(&toggle, Reading::Nothing), Ok(Action::SetDefender(true)));
}

#[test]
fn engine_cycle_records_outcomes() {
    let now = at(MONDAY, 12, 0, 0);
    let mut s = TaskScheduler::new("x.json");
    s.add_task(ram_task("one", ScheduleRule::OnStartup), now);
    s.add_task(ram_task("two", ScheduleRule::OnStartup), now);
    s.add_task(ram_task("later", ScheduleRule::Interval { minutes: 60 }), now);
    let mut cycle = PollCycle::begin(&s, now, &no_readings());
    let first = cycle.next_task(false).unwrap();
    assert_eq!(first.id, "one");
    record_outcome(&mut s, &first.id, &Err("denied".to_string()), now);
    let second = cycle.next_task(false).unwrap();
    assert_eq!(second.id, "two");
    record_outcome(&mut s, &second.id, &Ok(()), now);
    assert!(cycle.next_task(false).is_none());
    assert!(cycle.is_finished());
    assert_eq!(s.get_task("one").unwrap().last_error.as_deref(), Some("denied"));
    assert_eq!(s.get_task("two").unwrap().success_count, 1);
    assert!(s.get_pending_tasks(now, &no_readings()).is_empty());
    assert_eq!(completion_of(&Ok(())), (true, None));
}

#[test]
fn engine_cycle_stops_on_request() {
    let now = at(MONDAY, 12, 0, 0);
    let mut s = TaskScheduler::new("x.json");
    s.add_task(ram_task("one", ScheduleRule::OnStartup), now);
    let mut cycle = PollCycle::begin(&s, now, &no_readings());
    assert!(cycle.next_task(true).is_none());
    assert!(cycle.is_finished());
}

#[test]
fn timestamp_parts() {
    let t = at(MONDAY, 13, 14, 15);
    assert_eq!(t.day_number(), MONDAY);
    assert_eq!(t.seconds_of_day(), 13 * 3600 + 14 * 60 + 15);
    assert_eq!(t.weekday(), Weekday::Mon);
    assert_eq!(at(0, 0, 0, 0).weekday(), Weekday::Thu);
    assert_eq!(at(-1, 23, 0, 0).day_number(), -1);
    assert_eq!(at(-1, 23, 0, 0).weekday(), Weekday::Wed);
    assert_eq!(Timestamp::from_secs(i64::MAX), None);
    assert_eq!(Weekday::Sun.num_days_from_monday(), 6);
}

#[test]
fn simple_due_check() {
    let now = at(MONDAY, 12, 0, 0);
    let mut t = ram_task("t", ScheduleRule::Interval { minutes: 5 });
    assert!(!game_booster::scheduler::is_task_due(&t, now));
    t.next_run = Some(at(MONDAY, 12, 0, 1));
    assert!(!game_booster::scheduler::is_task_due(&t, now));
    t.next_run = Some(now);
    assert!(game_booster::scheduler::is_task_due(&t, now));
    t.enabled = false;
    assert!(!game_booster::scheduler::is_task_due(&t, now));
}

#[test]
fn startup_arguments_and_command() {
    let config = AutoStartupConfig::default();
    assert!(!config.enabled);
    assert_eq!(config.startup_delay_seconds, 30);
    let args = vec!["app".to_string(), "--minimized".to_string()];
    assert_eq!(TaskScheduler::check_startup_args(&args, &config), (true, true));
    let plain = vec!["app".to_string(), "--minimized=no".to_string()];
    let manual = AutoStartupConfig { auto_start_scheduler: false, ..config };
    assert_eq!(TaskScheduler::check_startup_args(&plain, &manual), (false, false));
    assert_eq!(TaskScheduler::startup_command("C:\\app.exe", true), "\"C:\\app.exe\" --minimized");
    assert_eq!(TaskScheduler::startup_command("/opt/app", false), "\"/opt/app\"");
}

#[test]
fn rule_descriptions() {
    assert_eq!(format_schedule_rule(&ScheduleRule::OnStartup), "On application startup");
    assert_eq!(format_schedule_rule(&ScheduleRule::Interval { minutes: 45 }), "Every 45 minutes");
    assert_eq!(format_schedule_rule(&ScheduleRule::Daily { time: hms(2, 5, 0) }), "Daily at 02:05");
    assert_eq!(
        format_schedule_rule(&ScheduleRule::Weekly { weekday: Weekday::Sat, time: hms(18, 30, 0) }),
        "Sat at 18:30"
    );
    assert_eq!(format_schedule_rule(&ScheduleRule::OnCondition), "When condition is met");
    assert_eq!(weekday_from_index(4), Weekday::Fri);
    assert_eq!(weekday_from_index(9), Weekday::Mon);
    assert!(ScheduleRule::Interval { minutes: 1 }.is_well_formed());
    assert!(!ScheduleRule::Interval { minutes: 0 }.is_well_formed());
}
