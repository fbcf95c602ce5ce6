//! Memory readings, the memory cleaner's settings and its process blacklist.

use vstd::prelude::*;
use crate::disk::{elapsed_ms, elapsed_ms_spec, format_bytes_spec};
use crate::time::Timestamp;
use crate::text::{contains_str, is_substring, lower_of, lowercase};
use sysinfo::{System, SystemExt};

verus! {

/// What one process gave back during a memory cleanup.
#[derive(Clone, Debug)]
pub struct ProcessCleaned {
    pub pid: u32,
    pub name: String,
    pub memory_freed: usize,
    pub memory_before: usize,
    pub memory_after: usize,
    pub success: bool,
}

/// The record of one memory cleanup.
#[derive(Clone, Debug)]
pub struct CleaningResults {
    pub start_time: Timestamp,
    pub end_time: Option<Timestamp>,
    pub processes: Vec<ProcessCleaned>,
    pub total_memory_before: usize,
    pub total_memory_after: usize,
    pub processes_attempted: usize,
    pub processes_succeeded: usize,
    pub has_error: bool,
    pub error_message: String,
    pub is_completed: bool,
    pub duration_ms: Option<u64>,
}

impl CleaningResults {
    /// An empty record of a cleanup that began at `now`.
    pub fn new(now: Timestamp) -> (r: Self)
        ensures
            r.start_time == now,
            r.end_time is None,
            r.processes@.len() == 0,
            r.total_memory_before == 0 && r.total_memory_after == 0,
            r.processes_attempted == 0 && r.processes_succeeded == 0,
            !r.has_error && r.error_message@.len() == 0,
            !r.is_completed,
            r.duration_ms is None,
    {
        CleaningResults {
            start_time: now,
            end_time: None,
            processes: Vec::new(),
            total_memory_before: 0,
            total_memory_after: 0,
            processes_attempted: 0,
            processes_succeeded: 0,
            has_error: false,
            error_message: String::new(),
            is_completed: false,
            duration_ms: None,
        }
    }

    /// Memory given back: the drop from before to after, or 0 when usage grew.
    pub fn total_freed(&self) -> (r: usize)
        ensures
            r == (if self.total_memory_before > self.total_memory_after {
                (self.total_memory_before - self.total_memory_after) as usize
            } else {
                0
            }),
    {
        if self.total_memory_before > self.total_memory_after {
            self.total_memory_before - self.total_memory_after
        } else {
            0
        }
    }

    /// Marks the cleanup as ended at `now`, with its duration.
    pub fn complete(&mut self, now: Timestamp)
        ensures
            final(self).end_time == Some(now),
            final(self).is_completed,
            final(self).duration_ms == Some(elapsed_ms_spec(old(self).start_time, now)),
            final(self).start_time == old(self).start_time,
            final(self).total_memory_before == old(self).total_memory_before,
            final(self).total_memory_after == old(self).total_memory_after,
            final(self).processes_attempted == old(self).processes_attempted,
            final(self).processes_succeeded == old(self).processes_succeeded,
    {
        self.end_time = Some(now);
        self.is_completed = true;
        self.duration_ms = Some(elapsed_ms(self.start_time, now));
    }
}

/// Physical memory and page file, total and available, in bytes.
#[derive(Clone, Copy, Debug, PartialEq, Eq, Structural)]
pub struct SystemMemoryInfo {
    pub total_physical: u64,
    pub avail_physical: u64,
    pub total_pagefile: u64,
    pub avail_pagefile: u64,
}

/// `a - b`, or 0 when `b` is larger.
pub open spec fn sub_or_zero(a: u64, b: u64) -> u64 {
    if a > b {
        (a - b) as u64
    } else {
        0
    }
}

/// Physical memory in use, in whole percent of the total (rounded down);
/// 0 when the total is unknown.
pub open spec fn usage_percent_spec(info: SystemMemoryInfo) -> int {
    if info.total_physical == 0 {
        0
    } else {
        (sub_or_zero(info.total_physical, info.avail_physical) as int * 100) / (
        info.total_physical as int)
    }
}

impl SystemMemoryInfo {
    /// Physical memory in use.
    pub fn used_physical(&self) -> (r: u64)
        ensures
            r == sub_or_zero(self.total_physical, self.avail_physical),
    {
        self.total_physical.saturating_sub(self.avail_physical)
    }

    /// Page file in use.
    pub fn used_pagefile(&self) -> (r: u64)
        ensures
            r == sub_or_zero(self.total_pagefile, self.avail_pagefile),
    {
        self.total_pagefile.saturating_sub(self.avail_pagefile)
    }

    /// Physical memory in use, in whole percent of the total.
    pub fn usage_percent(&self) -> (r: u8)
        ensures
            r as int == usage_percent_spec(*self),
            r <= 100,
    {
        if self.total_physical == 0 {
            return 0;
        }
        let used = self.used_physical() as u128;
        let total = self.total_physical as u128;
        proof {
            let u = used as int;
            let t = total as int;
            assert((u * 100) / t <= 100) by (nonlinear_arith)
                requires
                    u <= t,
                    t > 0,
            ;
        }
        (used * 100 / total) as u8
    }
}

/// Relies on sysinfo's `System` after `refresh_memory`: total and available
/// memory and total and free swap, in bytes, as the machine reports them.
#[verifier::external_body]
fn read_memory_status() -> (r: SystemMemoryInfo) {
    let mut sys = System::new();
    sys.refresh_memory();
    SystemMemoryInfo {
        total_physical: sys.total_memory(),
        avail_physical: sys.available_memory(),
        total_pagefile: sys.total_swap(),
        avail_pagefile: sys.free_swap(),
    }
}

/// The machine's memory figures, read now.
pub fn get_detailed_system_memory_info() -> (r: SystemMemoryInfo) {
    read_memory_status()
}

/// Total physical memory and the part of it in use, read now.
pub fn get_system_memory_info() -> (r: (u64, u64))
    ensures
        r.1 <= r.0,
{
    let info = read_memory_status();
    (info.total_physical, info.used_physical())
}

/// How a series of memory readings moves.
#[derive(Clone, Copy, Debug, PartialEq, Eq, Structural)]
pub enum MemoryTrend {
    Increasing,
    Decreasing,
    Stable,
}

/// Bytes in one mebibyte, as a `usize`.
pub const MIB_USIZE: usize = 1048576;

/// Settings of a memory cleanup: the processes it never touches, the
/// smallest working set it bothers with, whether it only pretends, and a
/// cancellation flag.
pub struct AdvancedMemoryCleaner {
    blacklisted_processes: Vec<String>,
    min_memory_threshold: usize,
    pub dry_run: bool,
    cancel_flag: bool,
}

/// The processes a cleanup leaves alone by default: the system's own.
pub open spec fn default_blacklist() -> Seq<Seq<char>> {
    seq![
        "System"@,
        "Registry"@,
        "smss.exe"@,
        "csrss.exe"@,
        "wininit.exe"@,
        "winlogon.exe"@,
        "services.exe"@,
        "lsass.exe"@,
        "svchost.exe"@,
        "dwm.exe"@,
        "explorer.exe"@,
        "ntoskrnl.exe"@,
        "hal.dll"@,
    ]
}

/// Some entry of `lowered_entries` occurs inside `lower_name`.
pub open spec fn matches_any_spec(lower_name: Seq<char>, lowered_entries: Seq<Seq<char>>) -> bool {
    exists|i: int|
        0 <= i < lowered_entries.len() && is_substring(#[trigger] lowered_entries[i], lower_name)
}

/// Whether some entry of `lowered_entries` occurs inside `lower_name`; both
/// are expected in lower case already.
pub fn matches_any(lower_name: &str, lowered_entries: &Vec<String>) -> (r: bool)
    ensures
        r == matches_any_spec(lower_name@, lowered_entries@.map_values(|e: String| e@)),
{
    let ghost entries = lowered_entries@.map_values(|e: String| e@);
    let mut i: usize = 0;
    while i < lowered_entries.len()
        invariant
            i <= lowered_entries@.len(),
            entries == lowered_entries@.map_values(|e: String| e@),
            forall|j: int| 0 <= j < i ==> !is_substring(#[trigger] entries[j], lower_name@),
        decreases lowered_entries.len() - i,
    {
        if contains_str(lower_name, lowered_entries[i].as_str()) {
            assert(is_substring(entries[i as int], lower_name@));
            return true;
        }
        i += 1;
    }
    false
}

impl AdvancedMemoryCleaner {
    /// The blacklist, as text.
    pub closed spec fn blacklist_spec(&self) -> Seq<Seq<char>> {
        self.blacklisted_processes@.map_values(|e: String| e@)
    }

    /// The smallest working set, in bytes, that a cleanup touches.
    pub closed spec fn threshold_spec(&self) -> usize {
        self.min_memory_threshold
    }

    /// Whether a cleanup only pretends.
    pub closed spec fn dry_run_spec(&self) -> bool {
        self.dry_run
    }

    /// Whether cancellation was requested.
    pub closed spec fn cancelled_spec(&self) -> bool {
        self.cancel_flag
    }

    /// The default cleaner: the system blacklist, a 10 MB threshold, real
    /// cleaning, not cancelled.
    pub fn new() -> (r: Self)
        ensures
            r.blacklist_spec() == default_blacklist(),
            r.threshold_spec() == 10 * MIB_USIZE,
            !r.dry_run_spec(),
            !r.cancelled_spec(),
    {
        let mut list: Vec<String> = Vec::new();
        list.push("System".to_owned());
        list.push("Registry".to_owned());
        list.push("smss.exe".to_owned());
        list.push("csrss.exe".to_owned());
        list.push("wininit.exe".to_owned());
        list.push("winlogon.exe".to_owned());
        list.push("services.exe".to_owned());
        list.push("lsass.exe".to_owned());
        list.push("svchost.exe".to_owned());
        list.push("dwm.exe".to_owned());
        list.push("explorer.exe".to_owned());
        list.push("ntoskrnl.exe".to_owned());
        list.push("hal.dll".to_owned());
        let r = AdvancedMemoryCleaner {
            blacklisted_processes: list,
            min_memory_threshold: 10 * MIB_USIZE,
            dry_run: false,
            cancel_flag: false,
        };
        assert(r.blacklist_spec() =~= default_blacklist());
        r
    }

    /// This cleaner with `blacklist` in place of its blacklist.
    pub fn with_blacklist(self, blacklist: Vec<String>) -> (r: Self)
        ensures
            r.blacklist_spec() == blacklist@.map_values(|e: String| e@),
            r.threshold_spec() == self.threshold_spec(),
            r.dry_run_spec() == self.dry_run_spec(),
            r.cancelled_spec() == self.cancelled_spec(),
    {
        AdvancedMemoryCleaner { blacklisted_processes: blacklist, ..self }
    }

    /// This cleaner with a threshold of `threshold_mb` MB.
    pub fn with_threshold(self, threshold_mb: usize) -> (r: Self)
        requires
            threshold_mb * MIB_USIZE <= usize::MAX,
        ensures
            r.threshold_spec() == threshold_mb * MIB_USIZE,
            r.blacklist_spec() == self.blacklist_spec(),
            r.dry_run_spec() == self.dry_run_spec(),
            r.cancelled_spec() == self.cancelled_spec(),
    {
        AdvancedMemoryCleaner { min_memory_threshold: threshold_mb * MIB_USIZE, ..self }
    }

    /// This cleaner, only pretending to clean when `enabled`.
    pub fn dry_run(self, enabled: bool) -> (r: Self)
        ensures
            r.dry_run_spec() == enabled,
            r.blacklist_spec() == self.blacklist_spec(),
            r.threshold_spec() == self.threshold_spec(),
            r.cancelled_spec() == self.cancelled_spec(),
    {
        AdvancedMemoryCleaner { dry_run: enabled, ..self }
    }

    /// Requests cancellation; the settings stay.
    pub fn cancel(&mut self)
        ensures
            final(self).cancelled_spec(),
            final(self).blacklist_spec() == old(self).blacklist_spec(),
            final(self).threshold_spec() == old(self).threshold_spec(),
            final(self).dry_run_spec() == old(self).dry_run_spec(),
    {
        self.cancel_flag = true;
    }

    /// Whether cancellation was requested.
    pub fn is_cancelled(&self) -> (r: bool)
        ensures
            r == self.cancelled_spec(),
    {
        self.cancel_flag
    }

    /// The smallest working set, in bytes, that a cleanup touches.
    pub fn min_memory_threshold(&self) -> (r: usize)
        ensures
            r == self.threshold_spec(),
    {
        self.min_memory_threshold
    }

    /// Whether `name` holds a blacklisted name, ignoring case.
    pub fn is_process_blacklisted(&self, name: &str) -> (r: bool)
        ensures
            r == matches_any_spec(
                lower_of(name@),
                self.blacklist_spec().map_values(|e: Seq<char>| lower_of(e)),
            ),
    {
        let lower_name = lowercase(name);
        let mut lowered: Vec<String> = Vec::new();
        let mut i: usize = 0;
        while i < self.blacklisted_processes.len()
            invariant
                i <= self.blacklisted_processes@.len(),
                lowered@.len() == i,
                forall|j: int|
                    0 <= j < i ==> (#[trigger] lowered@[j])@ == lower_of(
                        self.blacklisted_processes@[j]@,
                    ),
            decreases self.blacklisted_processes.len() - i,
        {
            lowered.push(lowercase(self.blacklisted_processes[i].as_str()));
            i += 1;
        }
        let r = matches_any(lower_name.as_str(), &lowered);
        assert(lowered@.map_values(|e: String| e@) =~= self.blacklist_spec().map_values(
            |e: Seq<char>| lower_of(e),
        ));
        r
    }
}

/// Renders a byte count for people, in the same form as the disk figures.
pub fn format_bytes(bytes: usize) -> (r: String)
    ensures
        r@ == format_bytes_spec(bytes as nat),
{
    crate::disk::format_bytes(bytes as u64)
}

} // verus!
