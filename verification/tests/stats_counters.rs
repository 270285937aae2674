use gmsv_serverstat::stats::{
    logical_cpus, physical_cpus, process_counters, ProcessCounters, ProcessSample, RefreshCache,
    CPU_REFRESH_INTERVAL_NANOS,
};

#[test]
fn logical_cpus_counts() {
    assert_eq!(logical_cpus(0), 0);
    assert_eq!(logical_cpus(16), 16);
    assert_eq!(logical_cpus(65535), 65535);
    assert_eq!(logical_cpus(65536), 0);
    assert_eq!(logical_cpus(65537), 1);
}

#[test]
fn physical_cpus_counts() {
    assert_eq!(physical_cpus(None), 0);
    assert_eq!(physical_cpus(Some(8)), 8);
    assert_eq!(physical_cpus(Some(70000)), 4464);
}

#[test]
fn unreadable_process_gives_zeros() {
    assert_eq!(
        process_counters(None),
        ProcessCounters {
            memory_bytes: 0,
            disk_read_bytes: 0,
            disk_write_bytes: 0,
            thread_count: 0,
            uptime_seconds: 0,
        }
    );
}

#[test]
fn process_counters_from_sample() {
    let sample = ProcessSample {
        memory_bytes: 512 * 1024 * 1024,
        disk_total_read_bytes: 1000,
        disk_total_written_bytes: 2000,
        task_count: Some(37),
        run_time_secs: 3600,
    };
    assert_eq!(
        process_counters(Some(sample)),
        ProcessCounters {
            memory_bytes: 512 * 1024 * 1024,
            disk_read_bytes: 1000,
            disk_write_bytes: 2000,
            thread_count: 37,
            uptime_seconds: 3600,
        }
    );
}

#[test]
fn thread_count_without_tasks_or_overflowing() {
    let sample = |task_count| ProcessSample {
        memory_bytes: 1,
        disk_total_read_bytes: 2,
        disk_total_written_bytes: 3,
        task_count,
        run_time_secs: 4,
    };
    assert_eq!(process_counters(Some(sample(None))).thread_count, 0);
    assert_eq!(process_counters(Some(sample(Some(65539)))).thread_count, 3);
}

#[test]
fn cache_fresh_for_refresh_interval() {
    assert_eq!(CPU_REFRESH_INTERVAL_NANOS, 200_000_000);
    let c = RefreshCache::new(12.5f64, 1_000);
    assert_eq!(*c.value(), 12.5);
    assert!(!c.is_stale(1_000));
    assert!(!c.is_stale(1_000 + 200_000_000));
    assert!(c.is_stale(1_000 + 200_000_001));
}

#[test]
fn cache_never_stale_before_taken() {
    let c = RefreshCache::new(1u32, 5_000_000_000);
    assert!(!c.is_stale(0));
}

#[test]
fn cache_refresh_replaces_reading() {
    let mut c = RefreshCache::new(1.0f64, 0);
    assert!(c.is_stale(300_000_000));
    c.refresh(2.0, 300_000_000);
    assert_eq!(*c.value(), 2.0);
    assert!(!c.is_stale(400_000_000));
    assert!(c.is_stale(500_000_001));
}

#[test]
fn serve_reads_only_when_stale() {
    let mut c = RefreshCache::new(10u32, 0);
    let mut reads = 0;
    let v = c.serve(100_000_000, || {
        reads += 1;
        (99, 100_000_000)
    });
    assert_eq!((v, reads), (10, 0));
    let v = c.serve(200_000_001, || {
        reads += 1;
        (20, 250_000_000)
    });
    assert_eq!((v, reads), (20, 1));
    // Within the interval after the new reading, it is served again.
    let v = c.serve(450_000_000, || {
        reads += 1;
        (30, 450_000_000)
    });
    assert_eq!((v, reads), (20, 1));
    let v = c.serve(450_000_001, || {
        reads += 1;
        (30, 460_000_000)
    });
    assert_eq!((v, reads), (30, 2));
}
