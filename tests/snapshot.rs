use process_monitor::collector::{collect, CpuSampleHistory};
use process_monitor::order::{name_less, record_less};
use process_monitor::record::{
    compute_cpu_usage, CPUsageCalculationValues, ProcessInfo, ProcessStatus, ProviderSample,
    RawProcess,
};

fn raw(pid: u32, name: &str, user: u64, sys: u64) -> RawProcess {
    RawProcess {
        pid,
        name: Some(name.to_string()),
        command_line: vec![name.to_string(), "--flag".to_string()],
        environment_variables: vec!["HOME=/root".to_string()],
        owner_id: Some(1000),
        parent_pid: Some(1),
        resident_memory_bytes: 4096,
        virtual_memory_bytes: 8192,
        status_code: 'S',
        start_time_unix: 1_700_000_000,
        run_time_seconds: 12,
        user_ticks: user,
        system_ticks: sys,
        io_read_bytes: 10,
        io_written_bytes: 20,
    }
}

fn sample(sys_user: u64, sys_sys: u64, cores: u32, processes: Vec<RawProcess>) -> ProviderSample {
    ProviderSample { system_user_ticks: sys_user, system_sys_ticks: sys_sys, core_count: cores, processes }
}

fn keys(s: &[ProcessInfo]) -> Vec<(String, u32)> {
    s.iter().map(|p| (p.name.clone(), p.pid)).collect()
}

#[test]
fn snapshot_sorted_by_name_then_pid() {
    let h = CpuSampleHistory::new();
    let (snap, _) = collect(&h, sample(0, 0, 4, vec![raw(5, "b", 0, 0), raw(9, "a", 0, 0), raw(2, "a", 0, 0)]));
    assert_eq!(
        keys(&snap),
        vec![("a".to_string(), 2), ("a".to_string(), 9), ("b".to_string(), 5)]
    );
}

#[test]
fn first_sample_reports_zero_usage() {
    let h = CpuSampleHistory::new();
    let (snap, hist) = collect(&h, sample(1000, 1000, 2, vec![raw(7, "x", 500, 500)]));
    assert_eq!(snap.len(), 1);
    assert_eq!(snap[0].cpu_usage_hundredths, 0);
    assert_eq!(hist.len(), 1);
}

#[test]
fn usage_derived_from_counter_deltas() {
    let h = CpuSampleHistory::new();
    let (_, hist) = collect(&h, sample(1000, 1000, 2, vec![raw(7, "x", 100, 100)]));
    // process delta 30 + 20 = 50, system delta 150 + 50 = 200: 25 %
    let (snap, hist2) = collect(&hist, sample(1150, 1050, 2, vec![raw(7, "x", 130, 120)]));
    assert_eq!(snap[0].cpu_usage_hundredths, 2500);
    assert_eq!(hist2.sample_for(7).unwrap().old_system_user_cpu, 1150);
    assert_eq!(hist2.sample_for(7).unwrap().old_process_user_cpu, 130);
}

#[test]
fn usage_clamped_to_core_count() {
    let prev = CPUsageCalculationValues {
        old_process_sys_cpu: 0,
        old_process_user_cpu: 0,
        old_system_sys_cpu: 0,
        old_system_user_cpu: 0,
    };
    assert_eq!(compute_cpu_usage(&prev, 300, 0, 100, 0, 1), 10000);
    assert_eq!(compute_cpu_usage(&prev, 300, 0, 100, 0, 2), 20000);
    assert_eq!(compute_cpu_usage(&prev, 300, 0, 100, 0, 4), 30000);
}

#[test]
fn usage_zero_without_system_progress() {
    let prev = CPUsageCalculationValues {
        old_process_sys_cpu: 10,
        old_process_user_cpu: 10,
        old_system_sys_cpu: 50,
        old_system_user_cpu: 50,
    };
    assert_eq!(compute_cpu_usage(&prev, 20, 20, 50, 50, 8), 0);
}

#[test]
fn usage_zero_when_counters_restart() {
    let prev = CPUsageCalculationValues {
        old_process_sys_cpu: 500,
        old_process_user_cpu: 500,
        old_system_sys_cpu: 50,
        old_system_user_cpu: 50,
    };
    assert_eq!(compute_cpu_usage(&prev, 1, 1, 150, 150, 8), 0);
}

#[test]
fn usage_with_huge_counters() {
    let prev = CPUsageCalculationValues {
        old_process_sys_cpu: 0,
        old_process_user_cpu: 0,
        old_system_sys_cpu: 0,
        old_system_user_cpu: 0,
    };
    assert_eq!(compute_cpu_usage(&prev, u64::MAX, u64::MAX, u64::MAX, u64::MAX, u32::MAX), 10000);
}

#[test]
fn vanished_process_dropped() {
    let h = CpuSampleHistory::new();
    let mut gone = raw(3, "gone", 0, 0);
    gone.name = None;
    let (snap, hist) = collect(&h, sample(0, 0, 1, vec![raw(1, "init", 0, 0), gone]));
    assert_eq!(keys(&snap), vec![("init".to_string(), 1)]);
    assert_eq!(hist.len(), 1);
    assert!(hist.sample_for(3).is_none());
}

#[test]
fn history_drops_exited_pids() {
    let h = CpuSampleHistory::new();
    let (_, hist) = collect(&h, sample(0, 0, 1, vec![raw(1, "a", 0, 0), raw(2, "b", 0, 0)]));
    assert_eq!(hist.len(), 2);
    let (snap, hist2) = collect(&hist, sample(10, 10, 1, vec![raw(2, "b", 1, 1)]));
    assert_eq!(snap.len(), 1);
    assert_eq!(hist2.len(), 1);
    assert!(hist2.sample_for(1).is_none());
    assert!(hist2.sample_for(2).is_some());
}

#[test]
fn empty_provider_answer_gives_empty_snapshot() {
    let h = CpuSampleHistory::new();
    let (snap, hist) = collect(&h, sample(0, 0, 1, vec![]));
    assert!(snap.is_empty());
    assert_eq!(hist.len(), 0);
}

#[test]
fn record_fields_carried_over() {
    let h = CpuSampleHistory::new();
    let mut r = raw(11, "daemon", 0, 0);
    r.status_code = 'Z';
    r.owner_id = None;
    let (snap, _) = collect(&h, sample(0, 0, 1, vec![r]));
    let p = &snap[0];
    assert_eq!(p.pid, 11);
    assert_eq!(p.status, ProcessStatus::Zombie);
    assert_eq!(p.owner_id, None);
    assert_eq!(p.parent_pid, Some(1));
    assert_eq!(p.command_line, vec!["daemon".to_string(), "--flag".to_string()]);
    assert_eq!(p.resident_memory_bytes, 4096);
    assert_eq!(p.cumulative_io_written_bytes, 20);
}

#[test]
fn status_letters_normalised() {
    assert_eq!(ProcessStatus::from_code('R'), ProcessStatus::Running);
    assert_eq!(ProcessStatus::from_code('D'), ProcessStatus::Sleeping);
    assert_eq!(ProcessStatus::from_code('T'), ProcessStatus::Stopped);
    assert_eq!(ProcessStatus::from_code('I'), ProcessStatus::Idle);
    assert_eq!(ProcessStatus::from_code('X'), ProcessStatus::Dead);
    assert_eq!(ProcessStatus::from_code('?'), ProcessStatus::Unknown);
}

#[test]
fn name_order_is_lexicographic() {
    assert!(name_less("a", "b"));
    assert!(name_less("ab", "abc"));
    assert!(!name_less("abc", "ab"));
    assert!(!name_less("same", "same"));
    assert!(name_less("Zed", "alpha"));
    assert!(name_less("caf", "café"));
    assert!(name_less("café", "cafz") == false);
}

#[test]
fn equal_names_ordered_by_pid() {
    let h = CpuSampleHistory::new();
    let (snap, _) = collect(&h, sample(0, 0, 1, vec![raw(9, "a", 0, 0), raw(2, "a", 0, 0)]));
    assert!(record_less(&snap[0], &snap[1]));
    assert!(!record_less(&snap[1], &snap[0]));
    assert!(!record_less(&snap[0], &snap[0]));
}
