use game_booster::disk::{categories_to_process, should_skip_clean, DiskCategory, DiskCleanResult, DiskScanResult};
use game_booster::time::Timestamp;
use game_booster::disk::{format_bytes, get_recycle_bin_size_sync, AdvancedDiskCleaner, DiskCleaningOptions};

#[test]
fn mod_test_format_bytes() {
    assert_eq!(format_bytes(1024), "1 KB");
    assert_eq!(format_bytes(1024 * 1024), "1 MB");
    assert_eq!(format_bytes(1024 * 1024 * 1024), "1.00 GB");
}

#[test]
fn test_default_options() {
    let opts = DiskCleaningOptions::default();
    assert!(opts.clean_temp_files);
    assert!(opts.clean_browser_cache);
    assert!(!opts.clean_recycle_bin);
    assert!(opts.parallel_processing);
}

#[test]
fn format_bytes_units_and_rounding() {
    assert_eq!(format_bytes(0), "0 B");
    assert_eq!(format_bytes(1023), "1023 B");
    assert_eq!(format_bytes(1536), "2 KB");
    assert_eq!(format_bytes(2560), "2 KB");
    assert_eq!(format_bytes(3 * 1024 * 1024 + 1024 * 1024 / 2), "4 MB");
    assert_eq!(format_bytes(1024 * 1024 * 1024 * 5 / 4), "1.25 GB");
    assert_eq!(format_bytes(1024 * 1024 * 1024 + 1024 * 1024 * 1024 / 20), "1.05 GB");
    assert_eq!(format_bytes(10 * 1024 * 1024 * 1024), "10.00 GB");
    assert_eq!(format_bytes(u64::MAX), "17179869184.00 GB");
}

#[test]
fn disk_cleaner_state() {
    let opts = DiskCleaningOptions { dry_run: true, ..DiskCleaningOptions::default() };
    let mut cleaner = AdvancedDiskCleaner::new(opts);
    assert!(!cleaner.is_cancelled());
    assert_eq!(cleaner.bytes_processed(), 0);
    assert_eq!(cleaner.files_processed(), 0);
    assert_eq!(cleaner.options(), opts);
    cleaner.cancel();
    assert!(cleaner.is_cancelled());
    assert_eq!(get_recycle_bin_size_sync(), Ok(0));
}

#[test]
fn scan_and_clean_bookkeeping() {
    let all = DiskCleaningOptions { clean_recycle_bin: true, ..DiskCleaningOptions::default() };
    assert_eq!(
        categories_to_process(&all),
        vec![DiskCategory::TempFiles, DiskCategory::BrowserCache, DiskCategory::Thumbnails, DiskCategory::RecycleBin]
    );
    let start = Timestamp { secs: 1000 };
    let mut scan = DiskScanResult::new(start);
    scan.record_scan(DiskCategory::TempFiles, Ok(300));
    scan.record_scan(DiskCategory::Thumbnails, Ok(200));
    scan.record_scan(DiskCategory::BrowserCache, Err("denied".to_string()));
    scan.record_scan(DiskCategory::RecycleBin, Ok(u64::MAX));
    assert_eq!(scan.temp_files_size, 300);
    assert_eq!(scan.thumbnails_size, 200);
    assert_eq!(scan.total_space_to_free, u64::MAX);
    assert_eq!(scan.errors, vec!["Cache scan error: denied".to_string()]);
    scan.add_warning("slow".to_string());
    scan.complete(Timestamp { secs: 1003 });
    assert_eq!(scan.duration_ms, Some(3000));

    let mut clean = DiskCleanResult::new(start);
    clean.record_clean(DiskCategory::TempFiles, Ok(50));
    clean.record_clean(DiskCategory::RecycleBin, Err("busy".to_string()));
    clean.mark_cancelled();
    clean.complete(Timestamp { secs: 999 });
    assert_eq!(clean.total_space_freed, 50);
    assert_eq!(clean.errors, vec!["Recycle bin error: busy".to_string()]);
    assert!(clean.was_cancelled);
    assert_eq!(clean.duration_ms, Some(0));

    let limited = DiskCleaningOptions { size_threshold_mb: Some(1), ..DiskCleaningOptions::default() };
    assert!(should_skip_clean(&limited, 1048575));
    assert!(!should_skip_clean(&limited, 1048576));
    assert!(!should_skip_clean(&DiskCleaningOptions::default(), 0));
}

#[test]
fn preserve_recent_files() {
    assert!(!game_booster::disk::should_preserve(0, None));
    assert!(game_booster::disk::should_preserve(2 * 86400 + 86399, Some(3)));
    assert!(!game_booster::disk::should_preserve(3 * 86400, Some(3)));
    assert!(!game_booster::disk::should_preserve(10, Some(0)));
}
