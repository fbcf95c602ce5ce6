//! Disk-cleanup options and the bookkeeping of a disk cleaner.

use vstd::prelude::*;
use crate::text::{append, decimal, decimal_spec, two_digits, two_digits_spec};
use crate::time::Timestamp;

verus! {

/// What a disk cleanup touches, and how.
#[derive(Clone, Copy, Debug, PartialEq, Eq, Structural)]
pub struct DiskCleaningOptions {
    pub clean_temp_files: bool,
    pub clean_browser_cache: bool,
    pub clean_thumbnails: bool,
    pub clean_recycle_bin: bool,
    pub clean_system_cache: bool,
    pub clean_windows_logs: bool,
    pub clean_downloads: bool,
    /// Only clean when the total exceeds this many MB.
    pub size_threshold_mb: Option<u64>,
    pub parallel_processing: bool,
    pub dry_run: bool,
    pub skip_files_in_use: bool,
    /// Keep files newer than this many days.
    pub preserve_recent_days: Option<u32>,
}

/// The default options: temporary files, browser caches and thumbnails,
/// in parallel, skipping files in use.
pub open spec fn default_disk_options() -> DiskCleaningOptions {
    DiskCleaningOptions {
        clean_temp_files: true,
        clean_browser_cache: true,
        clean_thumbnails: true,
        clean_recycle_bin: false,
        clean_system_cache: false,
        clean_windows_logs: false,
        clean_downloads: false,
        size_threshold_mb: None,
        parallel_processing: true,
        dry_run: false,
        skip_files_in_use: true,
        preserve_recent_days: None,
    }
}

impl Default for DiskCleaningOptions {
    fn default() -> (r: Self)
        ensures
            r == default_disk_options(),
    {
        DiskCleaningOptions {
            clean_temp_files: true,
            clean_browser_cache: true,
            clean_thumbnails: true,
            clean_recycle_bin: false,
            clean_system_cache: false,
            clean_windows_logs: false,
            clean_downloads: false,
            size_threshold_mb: None,
            parallel_processing: true,
            dry_run: false,
            skip_files_in_use: true,
            preserve_recent_days: None,
        }
    }
}

/// Bytes in one kibibyte.
pub const KIB: u64 = 1024;

/// Bytes in one mebibyte.
pub const MIB: u64 = 1048576;

/// Bytes in one gibibyte.
pub const GIB: u64 = 1073741824;

/// `num / den` rounded to the nearest whole number, ties to the even one.
pub open spec fn round_half_even(num: nat, den: nat) -> nat
    recommends
        den > 0,
{
    let q = num / den;
    let r = num % den;
    if 2 * r > den || (2 * r == den && q % 2 == 1) {
        q + 1
    } else {
        q
    }
}

/// A byte count in the largest unit it reaches: gibibytes with two
/// decimals, mebibytes and kibibytes rounded to whole units, else bytes.
pub open spec fn format_bytes_spec(bytes: nat) -> Seq<char> {
    if bytes >= GIB {
        let h = round_half_even(bytes * 100, GIB as nat);
        decimal_spec(h / 100) + "."@ + two_digits_spec(h % 100) + " GB"@
    } else if bytes >= MIB {
        decimal_spec(round_half_even(bytes, MIB as nat)) + " MB"@
    } else if bytes >= KIB {
        decimal_spec(round_half_even(bytes, KIB as nat)) + " KB"@
    } else {
        decimal_spec(bytes) + " B"@
    }
}

/// `num / den` rounded to the nearest whole number, ties to the even one.
fn divide_rounded(num: u128, den: u128) -> (r: u128)
    requires
        den > 0,
        num < u128::MAX / 2,
        den < u128::MAX / 2,
    ensures
        r == round_half_even(num as nat, den as nat),
{
    let q = num / den;
    let rem = num % den;
    if 2 * rem > den || (2 * rem == den && q % 2 == 1) {
        q + 1
    } else {
        q
    }
}

/// Renders a byte count for people: `"1.50 GB"`, `"3 MB"`, `"1 KB"`, `"12 B"`.
pub fn format_bytes(bytes: u64) -> (r: String)
    ensures
        r@ == format_bytes_spec(bytes as nat),
{
    if bytes >= GIB {
        let h = divide_rounded(bytes as u128 * 100, GIB as u128);
        assert(h <= (bytes as int * 100) / (GIB as int) + 1);
        assert(h / 100 <= u64::MAX) by (nonlinear_arith)
            requires
                h <= (bytes as int * 100) / (GIB as int) + 1,
                bytes <= u64::MAX,
        ;
        let whole = (h / 100) as u64;
        let frac = (h % 100) as u64;
        let mut out = decimal(whole);
        append(&mut out, ".");
        let digits = two_digits(frac);
        append(&mut out, digits.as_str());
        append(&mut out, " GB");
        proof {
            assert(out@ =~= format_bytes_spec(bytes as nat));
        }
        out
    } else if bytes >= MIB {
        let mut out = decimal(divide_rounded(bytes as u128, MIB as u128) as u64);
        append(&mut out, " MB");
        out
    } else if bytes >= KIB {
        let mut out = decimal(divide_rounded(bytes as u128, KIB as u128) as u64);
        append(&mut out, " KB");
        out
    } else {
        let mut out = decimal(bytes);
        append(&mut out, " B");
        out
    }
}

/// A disk cleaner: its options, a cancellation flag and progress counters.
pub struct AdvancedDiskCleaner {
    options: DiskCleaningOptions,
    cancel_flag: bool,
    bytes_processed: u64,
    files_processed: u64,
}

impl AdvancedDiskCleaner {
    /// The options this cleaner was made with.
    pub closed spec fn options_spec(&self) -> DiskCleaningOptions {
        self.options
    }

    /// Whether cancellation was requested.
    pub closed spec fn cancelled_spec(&self) -> bool {
        self.cancel_flag
    }

    /// Bytes handled so far.
    pub closed spec fn bytes_spec(&self) -> u64 {
        self.bytes_processed
    }

    /// Files handled so far.
    pub closed spec fn files_spec(&self) -> u64 {
        self.files_processed
    }

    /// A cleaner with `options`, not cancelled, with nothing processed yet.
    pub fn new(options: DiskCleaningOptions) -> (r: Self)
        ensures
            r.options_spec() == options,
            !r.cancelled_spec(),
            r.bytes_spec() == 0,
            r.files_spec() == 0,
    {
        AdvancedDiskCleaner { options, cancel_flag: false, bytes_processed: 0, files_processed: 0 }
    }

    /// Requests cancellation; the rest stays.
    pub fn cancel(&mut self)
        ensures
            final(self).cancelled_spec(),
            final(self).options_spec() == old(self).options_spec(),
            final(self).bytes_spec() == old(self).bytes_spec(),
            final(self).files_spec() == old(self).files_spec(),
    {
        self.cancel_flag = true;
    }

    /// Whether cancellation was requested.
    pub fn is_cancelled(&self) -> (r: bool)
        ensures
            r == self.cancelled_spec(),
    {
        self.cancel_flag
    }

    /// Bytes handled so far.
    pub fn bytes_processed(&self) -> (r: u64)
        ensures
            r == self.bytes_spec(),
    {
        self.bytes_processed
    }

    /// Files handled so far.
    pub fn files_processed(&self) -> (r: u64)
        ensures
            r == self.files_spec(),
    {
        self.files_processed
    }

    /// The options this cleaner was made with.
    pub fn options(&self) -> (r: DiskCleaningOptions)
        ensures
            r == self.options_spec(),
    {
        self.options
    }
}

/// The recycle bin's size as the scan reports it: the scan does not measure
/// the bin, so it counts it as empty; the real size is found while cleaning.
pub fn get_recycle_bin_size_sync() -> (r: Result<u64, String>)
    ensures
        r == Ok::<u64, String>(0),
{
    Ok(0)
}

/// Milliseconds from `start` to `end`; 0 when `end` is not later, and the
/// largest count when it does not fit.
pub open spec fn elapsed_ms_spec(start: Timestamp, end: Timestamp) -> u64 {
    let d = end.secs - start.secs;
    if d <= 0 {
        0
    } else if d * 1000 > u64::MAX {
        u64::MAX
    } else {
        (d * 1000) as u64
    }
}

/// Milliseconds from `start` to `end`; 0 when `end` is not later, and the
/// largest count when it does not fit.
pub fn elapsed_ms(start: Timestamp, end: Timestamp) -> (r: u64)
    ensures
        r == elapsed_ms_spec(start, end),
{
    let d = end.secs as i128 - start.secs as i128;
    if d <= 0 {
        0
    } else if d * 1000 > u64::MAX as i128 {
        u64::MAX
    } else {
        (d * 1000) as u64
    }
}

/// A kind of reclaimable disk space.
#[derive(Clone, Copy, Debug, PartialEq, Eq, Structural)]
pub enum DiskCategory {
    TempFiles,
    BrowserCache,
    Thumbnails,
    RecycleBin,
}

/// The categories that `options` selects, in a fixed order: temporary
/// files, browser caches, thumbnails, recycle bin.
pub open spec fn plan_spec(options: DiskCleaningOptions) -> Seq<DiskCategory> {
    let a = if options.clean_temp_files {
        seq![DiskCategory::TempFiles]
    } else {
        Seq::empty()
    };
    let b = if options.clean_browser_cache {
        seq![DiskCategory::BrowserCache]
    } else {
        Seq::empty()
    };
    let c = if options.clean_thumbnails {
        seq![DiskCategory::Thumbnails]
    } else {
        Seq::empty()
    };
    let d = if options.clean_recycle_bin {
        seq![DiskCategory::RecycleBin]
    } else {
        Seq::empty()
    };
    a + b + c + d
}

/// The categories that `options` selects, in the order they are handled.
pub fn categories_to_process(options: &DiskCleaningOptions) -> (r: Vec<DiskCategory>)
    ensures
        r@ == plan_spec(*options),
{
    let mut v: Vec<DiskCategory> = Vec::new();
    if options.clean_temp_files {
        v.push(DiskCategory::TempFiles);
    }
    if options.clean_browser_cache {
        v.push(DiskCategory::BrowserCache);
    }
    if options.clean_thumbnails {
        v.push(DiskCategory::Thumbnails);
    }
    if options.clean_recycle_bin {
        v.push(DiskCategory::RecycleBin);
    }
    assert(v@ =~= plan_spec(*options));
    v
}

/// The label that starts a scan error of `c`.
pub open spec fn scan_error_prefix(c: DiskCategory) -> Seq<char> {
    match c {
        DiskCategory::TempFiles => "Temp files scan error: "@,
        DiskCategory::BrowserCache => "Cache scan error: "@,
        DiskCategory::Thumbnails => "Thumbnails scan error: "@,
        DiskCategory::RecycleBin => "Recycle bin scan error: "@,
    }
}

/// The label that starts a cleaning error of `c`.
pub open spec fn clean_error_prefix(c: DiskCategory) -> Seq<char> {
    match c {
        DiskCategory::TempFiles => "Temp files error: "@,
        DiskCategory::BrowserCache => "Cache error: "@,
        DiskCategory::Thumbnails => "Thumbnails error: "@,
        DiskCategory::RecycleBin => "Recycle bin error: "@,
    }
}

/// `prefix` followed by `reason`.
fn labelled(prefix: &str, reason: &str) -> (r: String)
    ensures
        r@ == prefix@ + reason@,
{
    let mut out = prefix.to_owned();
    append(&mut out, reason);
    out
}

impl DiskCategory {
    /// The label that starts a scan error of this category.
    pub fn scan_error_label(&self) -> (r: &'static str)
        ensures
            r@ == scan_error_prefix(*self),
    {
        match self {
            DiskCategory::TempFiles => "Temp files scan error: ",
            DiskCategory::BrowserCache => "Cache scan error: ",
            DiskCategory::Thumbnails => "Thumbnails scan error: ",
            DiskCategory::RecycleBin => "Recycle bin scan error: ",
        }
    }

    /// The label that starts a cleaning error of this category.
    pub fn clean_error_label(&self) -> (r: &'static str)
        ensures
            r@ == clean_error_prefix(*self),
    {
        match self {
            DiskCategory::TempFiles => "Temp files error: ",
            DiskCategory::BrowserCache => "Cache error: ",
            DiskCategory::Thumbnails => "Thumbnails error: ",
            DiskCategory::RecycleBin => "Recycle bin error: ",
        }
    }
}

/// What a disk scan found: bytes per category and in total, and the
/// problems met on the way.
#[derive(Clone, Debug)]
pub struct DiskScanResult {
    pub start_time: Timestamp,
    pub end_time: Option<Timestamp>,
    pub total_space_to_free: u64,
    pub temp_files_size: u64,
    pub cache_size: u64,
    pub thumbnails_size: u64,
    pub recycle_bin_size: u64,
    pub windows_logs_size: u64,
    pub downloads_size: u64,
    pub file_count: usize,
    pub folder_count: usize,
    pub errors: Vec<String>,
    pub warnings: Vec<String>,
    pub duration_ms: Option<u64>,
}

/// The size recorded for category `c` in `r`.
pub open spec fn scan_size_of(r: DiskScanResult, c: DiskCategory) -> u64 {
    match c {
        DiskCategory::TempFiles => r.temp_files_size,
        DiskCategory::BrowserCache => r.cache_size,
        DiskCategory::Thumbnails => r.thumbnails_size,
        DiskCategory::RecycleBin => r.recycle_bin_size,
    }
}

/// `a + b`, stopping at the largest `u64`.
pub open spec fn add_capped(a: u64, b: u64) -> u64 {
    if a + b > u64::MAX {
        u64::MAX
    } else {
        (a + b) as u64
    }
}

impl DiskScanResult {
    /// An empty scan that began at `now`.
    pub fn new(now: Timestamp) -> (r: Self)
        ensures
            r.start_time == now,
            r.end_time is None,
            r.duration_ms is None,
            r.total_space_to_free == 0,
            r.temp_files_size == 0 && r.cache_size == 0 && r.thumbnails_size == 0,
            r.recycle_bin_size == 0 && r.windows_logs_size == 0 && r.downloads_size == 0,
            r.file_count == 0 && r.folder_count == 0,
            r.errors@.len() == 0 && r.warnings@.len() == 0,
    {
        DiskScanResult {
            start_time: now,
            end_time: None,
            total_space_to_free: 0,
            temp_files_size: 0,
            cache_size: 0,
            thumbnails_size: 0,
            recycle_bin_size: 0,
            windows_logs_size: 0,
            downloads_size: 0,
            file_count: 0,
            folder_count: 0,
            errors: Vec::new(),
            warnings: Vec::new(),
            duration_ms: None,
        }
    }

    /// Marks the scan as ended at `now`, with its duration.
    pub fn complete(&mut self, now: Timestamp)
        ensures
            final(self).end_time == Some(now),
            final(self).duration_ms == Some(elapsed_ms_spec(old(self).start_time, now)),
            final(self).start_time == old(self).start_time,
            final(self).total_space_to_free == old(self).total_space_to_free,
            final(self).errors@ == old(self).errors@,
    {
        self.end_time = Some(now);
        self.duration_ms = Some(elapsed_ms(self.start_time, now));
    }

    /// Records a problem.
    pub fn add_error(&mut self, error: String)
        ensures
            final(self).errors@ == old(self).errors@.push(error),
            final(self).warnings@ == old(self).warnings@,
            final(self).total_space_to_free == old(self).total_space_to_free,
    {
        self.errors.push(error);
    }

    /// Records a remark.
    pub fn add_warning(&mut self, warning: String)
        ensures
            final(self).warnings@ == old(self).warnings@.push(warning),
            final(self).errors@ == old(self).errors@,
            final(self).total_space_to_free == old(self).total_space_to_free,
    {
        self.warnings.push(warning);
    }

    /// Records the outcome of scanning one category: its size is stored and
    /// added to the total (capped at the largest `u64`), or the failure is
    /// recorded as an error that names the category.
    pub fn record_scan(&mut self, category: DiskCategory, outcome: Result<u64, String>)
        ensures
            final(self).warnings@ == old(self).warnings@,
            final(self).start_time == old(self).start_time,
            match outcome {
                Ok(size) => {
                    &&& scan_size_of(*final(self), category) == size
                    &&& final(self).total_space_to_free == add_capped(
                        old(self).total_space_to_free,
                        size,
                    )
                    &&& final(self).errors@ == old(self).errors@
                    &&& forall|c: DiskCategory|
                        c != category ==> scan_size_of(*final(self), c) == scan_size_of(
                            *old(self),
                            c,
                        )
                },
                Err(e) => {
                    &&& final(self).errors@.len() == old(self).errors@.len() + 1
                    &&& final(self).errors@.drop_last() == old(self).errors@
                    &&& final(self).errors@.last()@ == scan_error_prefix(category) + e@
                    &&& final(self).total_space_to_free == old(self).total_space_to_free
                    &&& forall|c: DiskCategory|
                        scan_size_of(*final(self), c) == scan_size_of(*old(self), c)
                },
            },
    {
        match outcome {
            Ok(size) => {
                match category {
                    DiskCategory::TempFiles => self.temp_files_size = size,
                    DiskCategory::BrowserCache => self.cache_size = size,
                    DiskCategory::Thumbnails => self.thumbnails_size = size,
                    DiskCategory::RecycleBin => self.recycle_bin_size = size,
                }
                self.total_space_to_free = self.total_space_to_free.saturating_add(size);
            },
            Err(e) => {
                let message = labelled(category.scan_error_label(), e.as_str());
                self.errors.push(message);
                proof {
                    assert(self.errors@.drop_last() =~= old(self).errors@);
                }
            },
        }
    }
}

/// What a disk cleanup freed: bytes per category and in total, file
/// counts, and the problems met on the way.
#[derive(Clone, Debug)]
pub struct DiskCleanResult {
    pub start_time: Timestamp,
    pub end_time: Option<Timestamp>,
    pub total_space_freed: u64,
    pub temp_files_freed: u64,
    pub cache_freed: u64,
    pub thumbnails_freed: u64,
    pub recycle_bin_freed: u64,
    pub windows_logs_freed: u64,
    pub downloads_freed: u64,
    pub files_deleted: usize,
    pub folders_deleted: usize,
    pub files_failed: usize,
    pub errors: Vec<String>,
    pub warnings: Vec<String>,
    pub duration_ms: Option<u64>,
    pub was_cancelled: bool,
}

/// The bytes freed recorded for category `c` in `r`.
pub open spec fn freed_of(r: DiskCleanResult, c: DiskCategory) -> u64 {
    match c {
        DiskCategory::TempFiles => r.temp_files_freed,
        DiskCategory::BrowserCache => r.cache_freed,
        DiskCategory::Thumbnails => r.thumbnails_freed,
        DiskCategory::RecycleBin => r.recycle_bin_freed,
    }
}

/// Whether a cleanup with `options` is skipped after a scan that found
/// `scanned_total` bytes: only when a threshold is set and the scan found
/// less than that many MB.
pub open spec fn skip_clean_spec(options: DiskCleaningOptions, scanned_total: u64) -> bool {
    match options.size_threshold_mb {
        Some(mb) => (scanned_total as int) < mb * (MIB as int),
        None => false,
    }
}

/// Whether a cleanup with `options` is skipped after a scan that found
/// `scanned_total` bytes.
pub fn should_skip_clean(options: &DiskCleaningOptions, scanned_total: u64) -> (r: bool)
    ensures
        r == skip_clean_spec(*options, scanned_total),
{
    match options.size_threshold_mb {
        Some(mb) => (scanned_total as u128) < (mb as u128) * (MIB as u128),
        None => false,
    }
}

impl DiskCleanResult {
    /// An empty cleanup that began at `now`.
    pub fn new(now: Timestamp) -> (r: Self)
        ensures
            r.start_time == now,
            r.end_time is None,
            r.duration_ms is None,
            r.total_space_freed == 0,
            r.temp_files_freed == 0 && r.cache_freed == 0 && r.thumbnails_freed == 0,
            r.recycle_bin_freed == 0 && r.windows_logs_freed == 0 && r.downloads_freed == 0,
            r.files_deleted == 0 && r.folders_deleted == 0 && r.files_failed == 0,
            r.errors@.len() == 0 && r.warnings@.len() == 0,
            !r.was_cancelled,
    {
        DiskCleanResult {
            start_time: now,
            end_time: None,
            total_space_freed: 0,
            temp_files_freed: 0,
            cache_freed: 0,
            thumbnails_freed: 0,
            recycle_bin_freed: 0,
            windows_logs_freed: 0,
            downloads_freed: 0,
            files_deleted: 0,
            folders_deleted: 0,
            files_failed: 0,
            errors: Vec::new(),
            warnings: Vec::new(),
            duration_ms: None,
            was_cancelled: false,
        }
    }

    /// Marks the cleanup as ended at `now`, with its duration.
    pub fn complete(&mut self, now: Timestamp)
        ensures
            final(self).end_time == Some(now),
            final(self).duration_ms == Some(elapsed_ms_spec(old(self).start_time, now)),
            final(self).start_time == old(self).start_time,
            final(self).total_space_freed == old(self).total_space_freed,
            final(self).errors@ == old(self).errors@,
            final(self).was_cancelled == old(self).was_cancelled,
    {
        self.end_time = Some(now);
        self.duration_ms = Some(elapsed_ms(self.start_time, now));
    }

    /// Records a problem.
    pub fn add_error(&mut self, error: String)
        ensures
            final(self).errors@ == old(self).errors@.push(error),
            final(self).warnings@ == old(self).warnings@,
            final(self).total_space_freed == old(self).total_space_freed,
    {
        self.errors.push(error);
    }

    /// Records a remark.
    pub fn add_warning(&mut self, warning: String)
        ensures
            final(self).warnings@ == old(self).warnings@.push(warning),
            final(self).errors@ == old(self).errors@,
            final(self).total_space_freed == old(self).total_space_freed,
    {
        self.warnings.push(warning);
    }

    /// Records the outcome of cleaning one category: the bytes freed are
    /// stored and added to the total (capped at the largest `u64`), or the
    /// failure is recorded as an error that names the category.
    pub fn record_clean(&mut self, category: DiskCategory, outcome: Result<u64, String>)
        ensures
            final(self).warnings@ == old(self).warnings@,
            final(self).was_cancelled == old(self).was_cancelled,
            final(self).start_time == old(self).start_time,
            match outcome {
                Ok(freed) => {
                    &&& freed_of(*final(self), category) == freed
                    &&& final(self).total_space_freed == add_capped(
                        old(self).total_space_freed,
                        freed,
                    )
                    &&& final(self).errors@ == old(self).errors@
                    &&& forall|c: DiskCategory|
                        c != category ==> freed_of(*final(self), c) == freed_of(*old(self), c)
                },
                Err(e) => {
                    &&& final(self).errors@.len() == old(self).errors@.len() + 1
                    &&& final(self).errors@.drop_last() == old(self).errors@
                    &&& final(self).errors@.last()@ == clean_error_prefix(category) + e@
                    &&& final(self).total_space_freed == old(self).total_space_freed
                    &&& forall|c: DiskCategory| freed_of(*final(self), c) == freed_of(*old(self), c)
                },
            },
    {
        match outcome {
            Ok(freed) => {
                match category {
                    DiskCategory::TempFiles => self.temp_files_freed = freed,
                    DiskCategory::BrowserCache => self.cache_freed = freed,
                    DiskCategory::Thumbnails => self.thumbnails_freed = freed,
                    DiskCategory::RecycleBin => self.recycle_bin_freed = freed,
                }
                self.total_space_freed = self.total_space_freed.saturating_add(freed);
            },
            Err(e) => {
                let message = labelled(category.clean_error_label(), e.as_str());
                self.errors.push(message);
                proof {
                    assert(self.errors@.drop_last() =~= old(self).errors@);
                }
            },
        }
    }

    /// Records that the cleanup was cancelled before it finished.
    pub fn mark_cancelled(&mut self)
        ensures
            final(self).was_cancelled,
            final(self).total_space_freed == old(self).total_space_freed,
            final(self).errors@ == old(self).errors@,
    {
        self.was_cancelled = true;
    }
}

/// Whether a file `age_secs` old is kept under a limit of `preserve_days`
/// days: only when a limit is set and the file's age in whole days is below it.
pub open spec fn preserve_spec(age_secs: u64, preserve_days: Option<u32>) -> bool {
    match preserve_days {
        Some(days) => age_secs / 86400 < days,
        None => false,
    }
}

/// Whether a file `age_secs` old is kept under a limit of `preserve_days`
/// days.
pub fn should_preserve(age_secs: u64, preserve_days: Option<u32>) -> (r: bool)
    ensures
        r == preserve_spec(age_secs, preserve_days),
{
    match preserve_days {
        Some(days) => age_secs / 86400 < days as u64,
        None => false,
    }
}

} // verus!
