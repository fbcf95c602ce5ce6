//! Schedule rules and the next-run evaluator.

use vstd::prelude::*;
use crate::text::{append, decimal, decimal_spec, two_digits, two_digits_spec};
use crate::time::{
    at_second, day_of, in_range, second_of_day, weekday_index_of_day, TimeOfDay, Timestamp,
    Weekday, SECS_PER_DAY, TIMESTAMP_MAX, TIMESTAMP_MIN,
};

verus! {

/// When a task fires.
#[derive(Clone, Copy, Debug, PartialEq, Eq, Structural)]
pub enum ScheduleRule {
    /// Once per process lifetime, while the task has never run.
    OnStartup,
    /// Every `minutes` minutes after the last computation.
    Interval { minutes: u32 },
    /// Every day at `time`.
    Daily { time: TimeOfDay },
    /// Every week on `weekday` at `time`.
    Weekly { weekday: Weekday, time: TimeOfDay },
    /// Whenever an outside condition holds.
    OnCondition,
}

impl ScheduleRule {
    /// A rule is well formed when its interval is positive and its time of
    /// day is a real one.
    pub open spec fn wf(&self) -> bool {
        match self {
            ScheduleRule::Interval { minutes } => *minutes > 0,
            ScheduleRule::Daily { time } => time.wf(),
            ScheduleRule::Weekly { time, .. } => time.wf(),
            _ => true,
        }
    }

    /// Whether the rule is well formed.
    pub fn is_well_formed(&self) -> (r: bool)
        ensures
            r == self.wf(),
    {
        match self {
            ScheduleRule::Interval { minutes } => *minutes > 0,
            ScheduleRule::Daily { time } => time.from_hms_checked().is_some(),
            ScheduleRule::Weekly { time, .. } => time.from_hms_checked().is_some(),
            _ => true,
        }
    }

    /// Whether the rule is evaluated against the calendar rather than being
    /// selected by its own predicate.
    pub open spec fn is_calendar(&self) -> bool {
        match self {
            ScheduleRule::Interval { .. } | ScheduleRule::Daily { .. } | ScheduleRule::Weekly {
                ..
            } => true,
            _ => false,
        }
    }
}

/// `Some(t)` when `t` is in the library's range.
pub open spec fn checked_timestamp(t: int) -> Option<Timestamp> {
    if in_range(t) {
        Some(Timestamp { secs: t as i64 })
    } else {
        None
    }
}

/// Days from the weekday of day `today` to the next `weekday` at `time`
/// that is strictly after `now`.
pub open spec fn weekly_delta(today: int, weekday: Weekday, time: TimeOfDay, now: int) -> int {
    let current = weekday_index_of_day(today);
    if weekday.index() == current {
        if at_second(today, time.secs()) > now {
            0
        } else {
            7
        }
    } else {
        (weekday.index() - current + 7) % 7
    }
}

/// The next time `rule` fires, computed at `now`.
///
/// `None` for the rules that are not calendar based, for a rule that is not
/// well formed, and when `now` or the result lies outside the library's range.
pub open spec fn next_run_spec(rule: ScheduleRule, now: Timestamp) -> Option<Timestamp> {
    let n = now.secs as int;
    if !in_range(n) || !rule.wf() {
        None
    } else {
        match rule {
            ScheduleRule::Interval { minutes } => checked_timestamp(n + 60 * minutes),
            ScheduleRule::Daily { time } => {
                let today = at_second(day_of(n), time.secs());
                checked_timestamp(
                    if today > n {
                        today
                    } else {
                        today + SECS_PER_DAY
                    },
                )
            },
            ScheduleRule::Weekly { weekday, time } => {
                let delta = weekly_delta(day_of(n), weekday, time, n);
                checked_timestamp(at_second(day_of(n) + delta, time.secs()))
            },
            _ => None,
        }
    }
}

/// The day and second of day of `at_second(day, s)` are `day` and `s`.
pub proof fn lemma_at_second(day: int, s: int)
    requires
        0 <= s < SECS_PER_DAY,
    ensures
        day_of(at_second(day, s)) == day,
        second_of_day(at_second(day, s)) == s,
{
    vstd::arithmetic::div_mod::lemma_fundamental_div_mod_converse(
        at_second(day, s),
        SECS_PER_DAY as int,
        day,
        s,
    );
}

/// Every instant is its day's midnight plus its second of the day.
pub proof fn lemma_split(t: int)
    ensures
        t == at_second(day_of(t), second_of_day(t)),
        0 <= second_of_day(t) < SECS_PER_DAY,
{
    vstd::arithmetic::div_mod::lemma_fundamental_div_mod(t, SECS_PER_DAY as int);
}

/// The weekly delta lands on the requested weekday.
proof fn lemma_weekly_delta(today: int, weekday: Weekday, time: TimeOfDay, now: int)
    ensures
        0 <= weekly_delta(today, weekday, time, now) <= 7,
        weekday_index_of_day(today + weekly_delta(today, weekday, time, now)) == weekday.index(),
        weekday.index() != weekday_index_of_day(today) ==> 1 <= weekly_delta(
            today,
            weekday,
            time,
            now,
        ) <= 6,
{
    let current = weekday_index_of_day(today);
    let delta = weekly_delta(today, weekday, time, now);
    let w = weekday.index();
    assert(0 <= current < 7);
    if w == current {
        if delta == 7 {
            vstd::arithmetic::div_mod::lemma_mod_multiples_vanish(1, today + 3, 7);
        }
    } else {
        vstd::arithmetic::div_mod::lemma_fundamental_div_mod(today + 3, 7);
        let q = (today + 3) / 7;
        assert(today + 3 == 7 * q + current);
        if w > current {
            assert(delta == w - current);
            vstd::arithmetic::div_mod::lemma_fundamental_div_mod_converse(
                today + delta + 3,
                7,
                q,
                w,
            );
        } else {
            assert(delta == w - current + 7);
            vstd::arithmetic::div_mod::lemma_fundamental_div_mod_converse(
                today + delta + 3,
                7,
                q + 1,
                w,
            );
        }
    }
}

/// Computes when `rule` fires next, evaluated at `now`.
///
/// An interval fires `minutes` after `now`. A daily rule fires today at its
/// time if that is still strictly ahead, else tomorrow at its time. A weekly
/// rule fires on the next day with its weekday at its time that is strictly
/// after `now`, which is today when today is that weekday and the time is
/// still ahead, and a week later when it has passed. Startup and condition
/// rules have no calendar time.
pub fn next_run(rule: &ScheduleRule, now: Timestamp) -> (r: Option<Timestamp>)
    ensures
        r == next_run_spec(*rule, now),
        r matches Some(t) ==> now.secs < t.secs && t.wf(),
        r is Some ==> rule.is_calendar(),
        match (*rule, r) {
            (ScheduleRule::Daily { time }, Some(t)) => {
                &&& second_of_day(t.secs as int) == time.secs()
                &&& t.secs - now.secs <= SECS_PER_DAY
            },
            (ScheduleRule::Weekly { weekday, time }, Some(t)) => {
                &&& weekday_index_of_day(day_of(t.secs as int)) == weekday.index()
                &&& second_of_day(t.secs as int) == time.secs()
                &&& t.secs - now.secs <= 7 * SECS_PER_DAY
            },
            (ScheduleRule::Interval { minutes }, Some(t)) => t.secs == now.secs + 60 * minutes,
            _ => true,
        },
{
    if now.secs < TIMESTAMP_MIN || now.secs > TIMESTAMP_MAX {
        return None;
    }
    let n = now.secs;
    proof {
        lemma_split(n as int);
    }
    match rule {
        ScheduleRule::OnStartup | ScheduleRule::OnCondition => None,
        ScheduleRule::Interval { minutes } => {
            if *minutes == 0 {
                return None;
            }
            Timestamp::from_secs(n + 60 * (*minutes as i64))
        },
        ScheduleRule::Daily { time } => {
            if time.from_hms_checked().is_none() {
                return None;
            }
            let today = now.day_number();
            let s = time.seconds_from_midnight();
            let candidate = today * SECS_PER_DAY + s;
            proof {
                lemma_at_second(today as int, s as int);
                lemma_at_second(today + 1, s as int);
            }
            if candidate > n {
                Timestamp::from_secs(candidate)
            } else {
                Timestamp::from_secs(candidate + SECS_PER_DAY)
            }
        },
        ScheduleRule::Weekly { weekday, time } => {
            if time.from_hms_checked().is_none() {
                return None;
            }
            let today = now.day_number();
            let s = time.seconds_from_midnight();
            let current = now.weekday().num_days_from_monday() as i64;
            let target = weekday.num_days_from_monday() as i64;
            let delta: i64 = if target == current {
                if today * SECS_PER_DAY + s > n {
                    0
                } else {
                    7
                }
            } else {
                (target - current + 7) % 7
            };
            proof {
                lemma_weekly_delta(today as int, *weekday, *time, n as int);
                lemma_at_second(today + delta, s as int);
                lemma_at_second(today as int, s as int);
            }
            Timestamp::from_secs((today + delta) * SECS_PER_DAY + s)
        },
    }
}

/// The weekday at position `index` counted from Monday; Monday when the
/// index is past Sunday.
pub fn weekday_from_index(index: usize) -> (r: Weekday)
    ensures
        index < 7 ==> r.index() == index,
        index >= 7 ==> r == Weekday::Mon,
{
    if index < 7 {
        Weekday::from_index(index as i64)
    } else {
        Weekday::Mon
    }
}

/// The short English name of `w`.
pub open spec fn weekday_name_spec(w: Weekday) -> Seq<char> {
    match w {
        Weekday::Mon => "Mon"@,
        Weekday::Tue => "Tue"@,
        Weekday::Wed => "Wed"@,
        Weekday::Thu => "Thu"@,
        Weekday::Fri => "Fri"@,
        Weekday::Sat => "Sat"@,
        Weekday::Sun => "Sun"@,
    }
}

/// `HH:MM` of `time`.
pub open spec fn clock_text_spec(time: TimeOfDay) -> Seq<char> {
    two_digits_spec(time.hour as nat) + ":"@ + two_digits_spec(time.minute as nat)
}

/// How a rule reads to a user.
pub open spec fn describe_rule_spec(rule: ScheduleRule) -> Seq<char> {
    match rule {
        ScheduleRule::OnStartup => "On application startup"@,
        ScheduleRule::Interval { minutes } => "Every "@ + decimal_spec(minutes as nat) + " minutes"@,
        ScheduleRule::Daily { time } => "Daily at "@ + clock_text_spec(time),
        ScheduleRule::Weekly { weekday, time } => weekday_name_spec(weekday) + " at "@
            + clock_text_spec(time),
        ScheduleRule::OnCondition => "When condition is met"@,
    }
}

/// `HH:MM` of `time`.
fn clock_text(time: &TimeOfDay) -> (r: String)
    requires
        time.wf(),
    ensures
        r@ == clock_text_spec(*time),
{
    let mut out = two_digits(time.hour as u64);
    append(&mut out, ":");
    let minutes = two_digits(time.minute as u64);
    append(&mut out, minutes.as_str());
    out
}

/// How a rule reads to a user: `"Every 30 minutes"`, `"Daily at 02:00"`,
/// `"Mon at 09:00"`.
pub fn format_schedule_rule(rule: &ScheduleRule) -> (r: String)
    requires
        rule.wf(),
    ensures
        r@ == describe_rule_spec(*rule),
{
    match rule {
        ScheduleRule::OnStartup => "On application startup".to_owned(),
        ScheduleRule::Interval { minutes } => {
            let mut out = "Every ".to_owned();
            let number = decimal(*minutes as u64);
            append(&mut out, number.as_str());
            append(&mut out, " minutes");
            out
        },
        ScheduleRule::Daily { time } => {
            let mut out = "Daily at ".to_owned();
            let clock = clock_text(time);
            append(&mut out, clock.as_str());
            out
        },
        ScheduleRule::Weekly { weekday, time } => {
            let name = match weekday {
                Weekday::Mon => "Mon",
                Weekday::Tue => "Tue",
                Weekday::Wed => "Wed",
                Weekday::Thu => "Thu",
                Weekday::Fri => "Fri",
                Weekday::Sat => "Sat",
                Weekday::Sun => "Sun",
            };
            let mut out = name.to_owned();
            append(&mut out, " at ");
            let clock = clock_text(time);
            append(&mut out, clock.as_str());
            out
        },
        ScheduleRule::OnCondition => "When condition is met".to_owned(),
    }
}

/// The evaluator is a function of the rule and the time alone: two
/// evaluations of the same rule at the same time agree.
pub proof fn lemma_next_run_idempotent(
    rule: ScheduleRule,
    now: Timestamp,
    first: Option<Timestamp>,
    second: Option<Timestamp>,
)
    requires
        first == next_run_spec(rule, now),
        second == next_run_spec(rule, now),
    ensures
        first == second,
{
}

} // verus!
