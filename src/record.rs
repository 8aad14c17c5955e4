use vstd::prelude::*;

verus! {

/// The closed set of process states; platform states that are not recognised
/// map to `Unknown`.
#[derive(Clone, Copy, Debug, PartialEq, Eq, Structural)]
pub enum ProcessStatus {
    Running,
    Sleeping,
    Idle,
    Stopped,
    Zombie,
    Dead,
    Unknown,
}

/// The state that a platform state letter (as in `/proc/<pid>/stat`) stands for.
pub open spec fn status_of_code(code: char) -> ProcessStatus {
    if code == 'R' {
        ProcessStatus::Running
    } else if code == 'S' || code == 'D' || code == 'W' {
        ProcessStatus::Sleeping
    } else if code == 'I' {
        ProcessStatus::Idle
    } else if code == 'T' || code == 't' {
        ProcessStatus::Stopped
    } else if code == 'Z' {
        ProcessStatus::Zombie
    } else if code == 'X' || code == 'x' {
        ProcessStatus::Dead
    } else {
        ProcessStatus::Unknown
    }
}

impl ProcessStatus {
    /// Normalises a platform state letter; any letter not known maps to `Unknown`.
    pub fn from_code(code: char) -> (r: ProcessStatus)
        ensures
            r == status_of_code(code),
    {
        if code == 'R' {
            ProcessStatus::Running
        } else if code == 'S' || code == 'D' || code == 'W' {
            ProcessStatus::Sleeping
        } else if code == 'I' {
            ProcessStatus::Idle
        } else if code == 'T' || code == 't' {
            ProcessStatus::Stopped
        } else if code == 'Z' {
            ProcessStatus::Zombie
        } else if code == 'X' || code == 'x' {
            ProcessStatus::Dead
        } else {
            ProcessStatus::Unknown
        }
    }
}

/// One process at one sampling instant. Records are never changed in place:
/// a refresh builds new ones.
///
/// CPU usage is held in hundredths of a percent: `2550` is 25.5 %.
#[derive(Clone, Debug)]
pub struct ProcessInfo {
    pub pid: u32,
    pub name: String,
    pub command_line: Vec<String>,
    pub environment_variables: Vec<String>,
    pub owner_id: Option<u32>,
    pub parent_pid: Option<u32>,
    pub resident_memory_bytes: u64,
    pub virtual_memory_bytes: u64,
    pub status: ProcessStatus,
    pub start_time_unix: u64,
    pub run_time_seconds: u64,
    pub cpu_usage_hundredths: u64,
    pub cumulative_io_read_bytes: u64,
    pub cumulative_io_written_bytes: u64,
}

/// The cumulative CPU-time counters of one process and of the whole system,
/// as they stood at the previous sample.
#[derive(Clone, Copy, Debug, PartialEq, Eq, Structural)]
pub struct CPUsageCalculationValues {
    pub old_process_sys_cpu: u64,
    pub old_process_user_cpu: u64,
    pub old_system_sys_cpu: u64,
    pub old_system_user_cpu: u64,
}

/// What the process provider reports of one live process.
/// `name` is `None` when the process vanished before its identity was read.
#[derive(Clone, Debug)]
pub struct RawProcess {
    pub pid: u32,
    pub name: Option<String>,
    pub command_line: Vec<String>,
    pub environment_variables: Vec<String>,
    pub owner_id: Option<u32>,
    pub parent_pid: Option<u32>,
    pub resident_memory_bytes: u64,
    pub virtual_memory_bytes: u64,
    pub status_code: char,
    pub start_time_unix: u64,
    pub run_time_seconds: u64,
    pub user_ticks: u64,
    pub system_ticks: u64,
    pub io_read_bytes: u64,
    pub io_written_bytes: u64,
}

/// One answer of the process provider: every live process and the
/// system-wide cumulative CPU-time counters at the same instant.
#[derive(Clone, Debug)]
pub struct ProviderSample {
    pub system_user_ticks: u64,
    pub system_sys_ticks: u64,
    pub core_count: u32,
    pub processes: Vec<RawProcess>,
}

/// Hundredths of a percent that one whole core amounts to.
pub const FULL_CORE_HUNDREDTHS: u64 = 10000;

/// CPU usage in hundredths of a percent, from the previous counters and the
/// current ones: `100 * process_delta / system_delta` percent, clamped to
/// `[0, 100 * cores]`, and zero when the system counters did not advance.
pub open spec fn cpu_usage_of(
    prev: CPUsageCalculationValues,
    proc_user: u64,
    proc_sys: u64,
    sys_user: u64,
    sys_sys: u64,
    cores: u32,
) -> int {
    let process_delta = (proc_user - prev.old_process_user_cpu) + (proc_sys
        - prev.old_process_sys_cpu);
    let system_delta = (sys_user - prev.old_system_user_cpu) + (sys_sys - prev.old_system_sys_cpu);
    if system_delta <= 0 || process_delta <= 0 {
        0
    } else {
        let raw = FULL_CORE_HUNDREDTHS * process_delta / system_delta;
        let cap = FULL_CORE_HUNDREDTHS * cores;
        if raw > cap {
            cap
        } else {
            raw
        }
    }
}

/// Computes `cpu_usage_of` without overflow.
pub fn compute_cpu_usage(
    prev: &CPUsageCalculationValues,
    proc_user: u64,
    proc_sys: u64,
    sys_user: u64,
    sys_sys: u64,
    cores: u32,
) -> (r: u64)
    ensures
        r == cpu_usage_of(*prev, proc_user, proc_sys, sys_user, sys_sys, cores),
{
    let ghost pd: int = (proc_user - prev.old_process_user_cpu) + (proc_sys
        - prev.old_process_sys_cpu);
    let ghost sd: int = (sys_user - prev.old_system_user_cpu) + (sys_sys - prev.old_system_sys_cpu);
    let pu_up: u128 = proc_user as u128 + proc_sys as u128;
    let pu_down: u128 = prev.old_process_user_cpu as u128 + prev.old_process_sys_cpu as u128;
    let su_up: u128 = sys_user as u128 + sys_sys as u128;
    let su_down: u128 = prev.old_system_user_cpu as u128 + prev.old_system_sys_cpu as u128;
    if su_up <= su_down || pu_up <= pu_down {
        return 0;
    }
    let process_delta: u128 = pu_up - pu_down;
    let system_delta: u128 = su_up - su_down;
    assert(process_delta == pd && system_delta == sd);
    let raw: u128 = FULL_CORE_HUNDREDTHS as u128 * process_delta / system_delta;
    let cap: u64 = FULL_CORE_HUNDREDTHS * cores as u64;
    if raw > cap as u128 {
        cap
    } else {
        raw as u64
    }
}

} // verus!
