use kpageflags::meminfo::{estimated_total_pages, MemoryError, MemoryStats, ProcessMemoryInfo};
use kpageflags::monitor::{
    ConditionKind, EventMonitor, FileOperationAnalysis, MemoryDiff, MemoryImpact, MemorySnapshot,
    PageCacheMonitor, pressure_level, trend_direction, PressureLevel, TrendDirection,
};

const SAMPLE_MEMINFO: &str = "MemTotal:       16384000 kB
MemFree:         8192000 kB
MemAvailable:   12288000 kB
Buffers:          512000 kB
Cached:          2048000 kB
SwapCached:            0 kB
Active:          4096000 kB
Inactive:        2048000 kB
Active(file):    1024000 kB
Inactive(file):  1536000 kB
Active(anon):    3072000 kB
Inactive(anon):   512000 kB
Dirty:             64000 kB
Writeback:             0 kB
Mapped:           256000 kB
Shmem:            128000 kB
Slab:             384000 kB
SReclaimable:     256000 kB
SUnreclaim:       128000 kB";

#[test]
fn test_parse_meminfo() {
    let stats = MemoryStats::parse_meminfo(SAMPLE_MEMINFO).unwrap();
    assert_eq!(stats.mem_total, 16384000);
    assert_eq!(stats.mem_free, 8192000);
    assert_eq!(stats.cached, 2048000);
    assert_eq!(stats.inactive_file, 1536000);
}

#[test]
fn lib_test_memory_calculations() {
    let stats = MemoryStats {
        mem_total: 16384000,
        mem_free: 8192000,
        buffers: 512000,
        cached: 2048000,
        ..Default::default()
    };

    assert_eq!(stats.used_memory(), 5632000);
    assert_eq!(stats.page_cache_size(), 2560000);
}

#[test]
fn test_memory_diff_calculation() {
    let before = MemorySnapshot {
        timestamp: 1000,
        stats: MemoryStats {
            mem_free: 1000000,
            cached: 500000,
            inactive_file: 300000,
            ..Default::default()
        },
    };

    let after = MemorySnapshot {
        timestamp: 2000,
        stats: MemoryStats {
            mem_free: 800000,
            cached: 700000,
            inactive_file: 400000,
            ..Default::default()
        },
    };

    let diff = MemoryDiff::between(&before, &after);
    assert_eq!(diff.duration_ms, 1000);
    assert_eq!(diff.mem_free_diff, -200000);
    assert_eq!(diff.cached_diff, 200000);
    assert_eq!(diff.inactive_file_diff, 100000);
    assert!(diff.page_cache_increased());
    assert!(!diff.memory_was_freed());
}

#[test]
fn test_event_monitor() {
    let mut monitor = EventMonitor::new();

    monitor.add_condition("test_condition".to_string(), ConditionKind::FreeBelow(1000));

    assert_eq!(monitor.conditions.len(), 1);
}

#[test]
fn test_page_cache_monitor_creation() {
    let monitor = MemorySnapshot::new(SAMPLE_MEMINFO, 0).map(PageCacheMonitor::new);
    assert!(monitor.is_ok());

    let monitor = monitor.unwrap();
    assert_eq!(monitor.snapshots.len(), 1);
}

#[test]
fn test_memory_impact_calculation() {
    let before = MemoryStats {
        mem_free: 1000000,
        cached: 500000,
        buffers: 100000,
        inactive_file: 300000,
        dirty: 50000,
        ..Default::default()
    };

    let after = MemoryStats {
        mem_free: 800000,
        cached: 700000,
        buffers: 100000,
        inactive_file: 400000,
        dirty: 75000,
        ..Default::default()
    };

    let impact = MemoryImpact::calculate(&before, &after);
    assert_eq!(impact.free_memory_change_kb, -200000);
    assert_eq!(impact.cache_change_kb, 200000);
    assert_eq!(impact.inactive_file_change_kb, 100000);
    assert_eq!(impact.dirty_change_kb, 25000);
}

#[test]
fn parse_meminfo_reads_every_field_and_keeps_the_last_entry() {
    let text = format!("{}\nMemFree:  7 kB\r\nNoColonHere\nHugePages_Total:  0\n", SAMPLE_MEMINFO);
    let stats = MemoryStats::parse_meminfo(&text).unwrap();
    assert_eq!(stats.mem_free, 7);
    assert_eq!(stats.mem_available, 12288000);
    assert_eq!(stats.active_file, 1024000);
    assert_eq!(stats.inactive_anon, 512000);
    assert_eq!(stats.s_unreclaimable, 128000);
    let bytes = stats.to_bytes();
    assert_eq!(bytes.mem_total, 16384000 * 1024);
    assert_eq!(bytes.mem_free, 7 * 1024);
}

#[test]
fn parse_meminfo_reports_a_bad_number() {
    match MemoryStats::parse_meminfo("MemTotal: 12x kB\n") {
        Err(MemoryError::ParseError(m)) => assert_eq!(m, "Invalid number: 12x"),
        other => panic!("unexpected {:?}", other),
    }
    match MemoryStats::parse_meminfo("MemTotal: 99999999999999999999 kB\n") {
        Err(MemoryError::ParseError(m)) => assert_eq!(m, "Invalid number: 99999999999999999999"),
        other => panic!("unexpected {:?}", other),
    }
}

#[test]
fn parse_meminfo_reports_a_missing_value() {
    match MemoryStats::parse_meminfo("MemTotal: 1 kB\n  Dirty :   \n") {
        Err(MemoryError::ParseError(m)) => assert_eq!(m, "No value found for Dirty"),
        other => panic!("unexpected {:?}", other),
    }
}

#[test]
fn parse_meminfo_reports_the_first_missing_field() {
    match MemoryStats::parse_meminfo("MemTotal: 1 kB\nMemFree: 2 kB\n") {
        Err(MemoryError::FieldNotFound(m)) => assert_eq!(m, "MemAvailable"),
        other => panic!("unexpected {:?}", other),
    }
    let without_slab = SAMPLE_MEMINFO.replace("Slab:", "Slabs:");
    match MemoryStats::parse_meminfo(&without_slab) {
        Err(MemoryError::FieldNotFound(m)) => assert_eq!(m, "Slab"),
        other => panic!("unexpected {:?}", other),
    }
}

#[test]
fn used_memory_saturates_at_zero() {
    let stats = MemoryStats { mem_total: 10, mem_free: 8, buffers: 2, cached: 1, ..Default::default() };
    assert_eq!(stats.used_memory(), 0);
}

#[test]
fn total_pages_hint_comes_from_memtotal() {
    assert_eq!(estimated_total_pages(SAMPLE_MEMINFO), Some(4096000));
    assert_eq!(estimated_total_pages("MemFree: 4 kB\nMemTotal: 4096 kB\n"), Some(1024));
    assert_eq!(estimated_total_pages("MemFree: 4 kB\n"), None);
    assert_eq!(estimated_total_pages("MemTotal: lots kB\n"), None);
    assert_eq!(estimated_total_pages("MemTotal:\nMemTotal: 8 kB\n"), Some(2));
    assert_eq!(estimated_total_pages(""), None);
}

#[test]
fn diff_summary_and_dirty_activity() {
    let before = MemorySnapshot { timestamp: 5000, stats: MemoryStats { dirty: 5000, ..Default::default() } };
    let after = MemorySnapshot {
        timestamp: 4000,
        stats: MemoryStats { mem_free: 10, dirty: 1000, ..Default::default() },
    };
    let diff = MemoryDiff::between(&before, &after);
    assert_eq!(diff.duration_ms, 0);
    assert!(diff.has_dirty_activity());
    assert!(diff.memory_was_freed());
    assert_eq!(
        diff.format_summary(),
        "Duration: 0ms | Free: +10KB | Cache: +0KB | Inactive(file): +0KB | Dirty: -4000KB"
    );
}

#[test]
fn event_monitor_reports_conditions_when_they_start_to_hold() {
    let mut monitor = EventMonitor::new();
    monitor.add_common_conditions();
    assert_eq!(monitor.conditions.len(), 4);
    let low = MemoryStats { mem_total: 1000, mem_available: 50, dirty: 60, ..Default::default() };
    let fired = monitor.check_conditions(MemorySnapshot { timestamp: 1, stats: low });
    assert_eq!(fired, vec!["low_memory".to_string(), "high_dirty_pages".to_string()]);
    let fired = monitor.check_conditions(MemorySnapshot { timestamp: 2, stats: low });
    assert!(fired.is_empty());
    let relieved = MemoryStats {
        mem_total: 1_000_000,
        mem_available: 900_000,
        cached: 200_000,
        ..Default::default()
    };
    let fired = monitor.check_conditions(MemorySnapshot { timestamp: 3, stats: relieved });
    assert_eq!(fired, vec!["high_cache_growth".to_string(), "memory_pressure_relief".to_string()]);
}

#[test]
fn page_cache_summary_tracks_extremes() {
    let snap = |t: u64, cached: u64, inactive: u64| MemorySnapshot {
        timestamp: t,
        stats: MemoryStats { cached, buffers: 10, inactive_file: inactive, ..Default::default() },
    };
    let mut monitor = PageCacheMonitor::new(snap(0, 100, 5));
    assert_eq!(monitor.get_cache_summary().snapshot_count, 1);
    monitor.take_snapshot(snap(1, 300, 2));
    let analysis: FileOperationAnalysis =
        monitor.analyze_file_operation(snap(2, 50, 9), snap(3, 2000, 1), std::time::Duration::from_millis(5));
    assert!(analysis.caused_cache_growth());
    assert!(!analysis.freed_memory());
    assert_eq!(monitor.latest_snapshot().timestamp, 3);
    let summary = monitor.get_cache_summary();
    assert_eq!(summary.initial_cache_kb, 110);
    assert_eq!(summary.final_cache_kb, 2010);
    assert_eq!(summary.cache_change_kb, 1900);
    assert_eq!(summary.max_cache_kb, 2010);
    assert_eq!(summary.min_cache_kb, 60);
    assert_eq!(summary.max_inactive_file_kb, 9);
    assert_eq!(summary.snapshot_count, 4);
}

#[test]
fn pressure_levels_follow_the_available_share() {
    let at = |available: u64| MemoryStats { mem_total: 1000, mem_available: available, ..Default::default() };
    assert_eq!(pressure_level(&at(600)), PressureLevel::Low);
    assert_eq!(pressure_level(&at(500)), PressureLevel::Medium);
    assert_eq!(pressure_level(&at(201)), PressureLevel::Medium);
    assert_eq!(pressure_level(&at(200)), PressureLevel::High);
    assert_eq!(pressure_level(&at(100)), PressureLevel::Critical);
    assert_eq!(pressure_level(&MemoryStats::default()), PressureLevel::Critical);
}

#[test]
fn trend_direction_uses_a_one_percent_band() {
    assert_eq!(trend_direction(1000, 1300), TrendDirection::Increasing);
    assert_eq!(trend_direction(1000, 1010), TrendDirection::Stable);
    assert_eq!(trend_direction(1000, 989), TrendDirection::Decreasing);
    assert_eq!(trend_direction(0, 1), TrendDirection::Increasing);
    assert_eq!(trend_direction(u64::MAX, 0), TrendDirection::Decreasing);
}

#[test]
fn process_status_fields() {
    let status = "Name:\tcat\nVmSize:\t   8192 kB\nVmRSS:\t  1024 kB\nThreads: 1\n";
    assert_eq!(ProcessMemoryInfo::from_status(status), ProcessMemoryInfo { vm_rss: 1024, vm_size: 8192 });
    assert_eq!(ProcessMemoryInfo::from_status("VmRSS: junk kB\n"), ProcessMemoryInfo { vm_rss: 0, vm_size: 0 });
    assert_eq!(
        ProcessMemoryInfo::from_status("VmRSS: 5 kB\nVmRSS:\nVmRSS: 6"),
        ProcessMemoryInfo { vm_rss: 6, vm_size: 0 }
    );
}
