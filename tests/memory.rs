use game_booster::memory::CleaningResults;
use game_booster::time::Timestamp;
use game_booster::memory::{
    format_bytes, get_system_memory_info, AdvancedMemoryCleaner, ProcessCleaned, SystemMemoryInfo,
};

#[test]
fn tests_test_format_bytes() {
    assert_eq!(format_bytes(1024), "1 KB");
    assert_eq!(format_bytes(1024 * 1024), "1 MB");
    assert_eq!(format_bytes(1024 * 1024 * 1024), "1.00 GB");
    assert_eq!(format_bytes(1536 * 1024 * 1024), "1.50 GB");
}

#[test]
fn test_blacklist() {
    let cleaner = AdvancedMemoryCleaner::new();

    assert!(cleaner.is_process_blacklisted("System"));
    assert!(cleaner.is_process_blacklisted("csrss.exe"));
    assert!(cleaner.is_process_blacklisted("explorer.exe"));
    assert!(!cleaner.is_process_blacklisted("chrome.exe"));
}

#[test]
fn test_dry_run() {
    let cleaner = AdvancedMemoryCleaner::new().dry_run(true);
    assert!(cleaner.dry_run);
}

#[test]
fn test_process_cleaned_struct() {
    let process = ProcessCleaned {
        pid: 1234,
        name: "test.exe".to_string(),
        memory_freed: 1024 * 1024,
        memory_before: 10 * 1024 * 1024,
        memory_after: 9 * 1024 * 1024,
        success: true,
    };

    assert_eq!(process.memory_freed, 1024 * 1024);
    assert!(process.success);
}

#[test]
fn blacklist_ignores_case_and_matches_inside_names() {
    let cleaner = AdvancedMemoryCleaner::new();
    assert!(cleaner.is_process_blacklisted("EXPLORER.EXE"));
    assert!(cleaner.is_process_blacklisted("my_svchost.exe_copy"));
    let custom = AdvancedMemoryCleaner::new().with_blacklist(vec!["Game".to_string()]);
    assert!(custom.is_process_blacklisted("bestgame.exe"));
    assert!(!custom.is_process_blacklisted("System"));
}

#[test]
fn cleaner_settings() {
    let mut cleaner = AdvancedMemoryCleaner::new();
    assert_eq!(cleaner.min_memory_threshold(), 10 * 1024 * 1024);
    assert!(!cleaner.dry_run);
    assert!(!cleaner.is_cancelled());
    cleaner.cancel();
    assert!(cleaner.is_cancelled());
    let cleaner = cleaner.with_threshold(50);
    assert_eq!(cleaner.min_memory_threshold(), 50 * 1024 * 1024);
}

#[test]
fn memory_info_figures() {
    let info = SystemMemoryInfo {
        total_physical: 16_000_000_000,
        avail_physical: 4_000_000_000,
        total_pagefile: 24_000_000_000,
        avail_pagefile: 12_000_000_000,
    };
    assert_eq!(info.used_physical(), 12_000_000_000);
    assert_eq!(info.used_pagefile(), 12_000_000_000);
    assert_eq!(info.usage_percent(), 75);
    let odd = SystemMemoryInfo { total_physical: 3, avail_physical: 5, ..info };
    assert_eq!(odd.used_physical(), 0);
    assert_eq!(odd.usage_percent(), 0);
    let empty = SystemMemoryInfo { total_physical: 0, avail_physical: 0, ..info };
    assert_eq!(empty.usage_percent(), 0);
    let (total, used) = get_system_memory_info();
    assert!(used <= total);
}

#[test]
fn cleaning_results_bookkeeping() {
    let mut results = CleaningResults::new(Timestamp { secs: 10 });
    results.total_memory_before = 8_000_000_000;
    results.total_memory_after = 6_000_000_000;
    assert_eq!(results.total_freed(), 2_000_000_000);
    results.total_memory_after = 9_000_000_000;
    assert_eq!(results.total_freed(), 0);
    results.complete(Timestamp { secs: 12 });
    assert!(results.is_completed);
    assert_eq!(results.duration_ms, Some(2000));
}
