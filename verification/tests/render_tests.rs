use opsbot::render::build_status_message;
use opsbot::snapshot::{DiskEntry, SystemSnapshot};

fn sample_snapshot() -> SystemSnapshot {
    SystemSnapshot {
        cpu_avg_tenths: 123,
        core_tenths: vec![50, 1000],
        ram_used: 2048,
        ram_total: 4096,
        disks: vec![
            DiskEntry {
                name: String::from("sda"),
                mount: String::from("/"),
                used_bytes: 500_000_000_000,
                total_bytes: 1_000_000_000_000,
            },
            DiskEntry {
                name: String::from("phantom"),
                mount: String::from("/z"),
                used_bytes: 0,
                total_bytes: 0,
            },
        ],
        cpu_temp_tenths: Some(455),
        uptime_secs: 90061,
        timestamp: String::from("2020-01-02 03:04:05"),
    }
}

#[test]
fn renders_full_block_with_interval() {
    let snap = sample_snapshot();
    let expected = "```\nSystem Status (updates every 5s)\n\nLast Updated: 2020-01-02 03:04:05\nSystem Uptime: 1d 1h 1m\n\nRAM Usage:  50.0% (2048 MiB / 4096 MiB)\nCPU Usage:  12.3% average over 2 cores\nCPU Temp:   45.5\u{b0}C\n\nCore  0:   5.0%\nCore  1: 100.0%\n\nDisks:\n- sda (/) = 500.0 GB / 1000.0 GB (50.0%)\n```";
    assert_eq!(build_status_message(&snap, Some(5)), expected);
}

#[test]
fn renders_without_interval_and_without_temperature() {
    let mut snap = sample_snapshot();
    snap.cpu_temp_tenths = None;
    let out = build_status_message(&snap, None);
    assert!(out.starts_with("```\nSystem Status\n\n"));
    assert!(out.contains("CPU Temp:   N/A\n"));
    assert!(!out.contains("updates every"));
}

#[test]
fn render_is_deterministic() {
    let snap = sample_snapshot();
    let first = build_status_message(&snap, Some(600));
    let second = build_status_message(&snap, Some(600));
    assert_eq!(first, second);
}

#[test]
fn zero_capacity_disk_is_omitted() {
    let snap = sample_snapshot();
    let out = build_status_message(&snap, Some(5));
    assert!(!out.contains("phantom"));
    assert!(out.contains("- sda (/)"));
}

#[test]
fn all_disks_zero_leaves_empty_listing() {
    let mut snap = sample_snapshot();
    for d in snap.disks.iter_mut() {
        d.total_bytes = 0;
        d.used_bytes = 0;
    }
    let out = build_status_message(&snap, None);
    assert!(out.ends_with("Disks:\n\n```"));
    assert!(!out.contains("- "));
}

#[test]
fn no_cores_leaves_empty_core_block() {
    let mut snap = sample_snapshot();
    snap.core_tenths = vec![];
    let out = build_status_message(&snap, None);
    assert!(out.contains("average over 0 cores"));
    assert!(!out.contains("Core "));
}

#[test]
fn ram_line_appears_exactly_once() {
    let snap = sample_snapshot();
    let out = build_status_message(&snap, Some(5));
    let ram_lines = out.lines().filter(|l| l.starts_with("RAM Usage:")).count();
    assert_eq!(ram_lines, 1);
}

#[test]
fn one_core_line_per_core() {
    let snap = sample_snapshot();
    let out = build_status_message(&snap, Some(5));
    let core_lines = out.lines().filter(|l| l.starts_with("Core ")).count();
    assert_eq!(core_lines, 2);
}

#[test]
fn one_disk_line_per_nonzero_disk() {
    let snap = sample_snapshot();
    let out = build_status_message(&snap, Some(5));
    let disk_lines = out.lines().filter(|l| l.starts_with("- ")).count();
    assert_eq!(disk_lines, 1);
}
