use crate::order::{is_sorted, lemma_record_order_total, record_less, record_lt};
use crate::record::{
    cpu_usage_of, compute_cpu_usage, status_of_code, CPUsageCalculationValues, ProcessInfo,
    ProcessStatus, ProviderSample, RawProcess, FULL_CORE_HUNDREDTHS,
};
use vstd::prelude::*;

verus! {

broadcast use {vstd::seq_lib::to_multiset_insert, vstd::seq_lib::to_multiset_build};

/// The counters kept for each process of the latest snapshot, keyed by pid,
/// so that the next refresh can derive CPU usage from the difference.
pub struct CpuSampleHistory {
    entries: Vec<(u32, CPUsageCalculationValues)>,
}

impl View for CpuSampleHistory {
    type V = Seq<(u32, CPUsageCalculationValues)>;

    closed spec fn view(&self) -> Seq<(u32, CPUsageCalculationValues)> {
        self.entries@
    }
}

/// The counters recorded for `pid`: those of its first entry, if any.
pub open spec fn find_sample(h: Seq<(u32, CPUsageCalculationValues)>, pid: u32) -> Option<
    CPUsageCalculationValues,
>
    decreases h.len(),
{
    if h.len() == 0 {
        None
    } else if h[0].0 == pid {
        Some(h[0].1)
    } else {
        find_sample(h.drop_first(), pid)
    }
}

impl CpuSampleHistory {
    /// A history with no entries, as before the first refresh.
    pub fn new() -> (r: CpuSampleHistory)
        ensures
            r@ == Seq::<(u32, CPUsageCalculationValues)>::empty(),
    {
        CpuSampleHistory { entries: Vec::new() }
    }

    /// The number of entries.
    pub fn len(&self) -> (r: usize)
        ensures
            r == self@.len(),
    {
        self.entries.len()
    }

    /// The counters recorded for `pid` at the previous sample.
    pub fn sample_for(&self, pid: u32) -> (r: Option<CPUsageCalculationValues>)
        ensures
            r == find_sample(self@, pid),
    {
        let n = self.entries.len();
        let mut i: usize = 0;
        assert(self@.skip(0) =~= self@);
        while i < n
            invariant
                n == self@.len(),
                i <= n,
                find_sample(self@, pid) == find_sample(self@.skip(i as int), pid),
            decreases n - i,
        {
            assert(self@.skip(i as int)[0] == self@[i as int]);
            if self.entries[i].0 == pid {
                return Some(self.entries[i].1);
            }
            assert(self@.skip(i as int).drop_first() =~= self@.skip(i + 1));
            i += 1;
        }
        None
    }
}

/// The counters that a raw process leaves for the next sample.
pub open spec fn sample_of(raw: RawProcess, sys_user: u64, sys_sys: u64) -> CPUsageCalculationValues {
    CPUsageCalculationValues {
        old_process_sys_cpu: raw.system_ticks,
        old_process_user_cpu: raw.user_ticks,
        old_system_sys_cpu: sys_sys,
        old_system_user_cpu: sys_user,
    }
}

/// CPU usage of a process whose current counters are `now`: zero when it has
/// no previous sample, else derived from the difference.
pub open spec fn usage_from(
    prev: Option<CPUsageCalculationValues>,
    now: CPUsageCalculationValues,
    cores: u32,
) -> int {
    match prev {
        None => 0,
        Some(p) => cpu_usage_of(
            p,
            now.old_process_user_cpu,
            now.old_process_sys_cpu,
            now.old_system_user_cpu,
            now.old_system_sys_cpu,
            cores,
        ),
    }
}

/// The record built from a raw process that has a name.
pub open spec fn record_of(
    raw: RawProcess,
    prev: Seq<(u32, CPUsageCalculationValues)>,
    sys_user: u64,
    sys_sys: u64,
    cores: u32,
) -> ProcessInfo {
    ProcessInfo {
        pid: raw.pid,
        name: raw.name->Some_0,
        command_line: raw.command_line,
        environment_variables: raw.environment_variables,
        owner_id: raw.owner_id,
        parent_pid: raw.parent_pid,
        resident_memory_bytes: raw.resident_memory_bytes,
        virtual_memory_bytes: raw.virtual_memory_bytes,
        status: status_of_code(raw.status_code),
        start_time_unix: raw.start_time_unix,
        run_time_seconds: raw.run_time_seconds,
        cpu_usage_hundredths: usage_from(
            find_sample(prev, raw.pid),
            sample_of(raw, sys_user, sys_sys),
            cores,
        ) as u64,
        cumulative_io_read_bytes: raw.io_read_bytes,
        cumulative_io_written_bytes: raw.io_written_bytes,
    }
}

/// Each named raw process, in provider order, with the counters it leaves
/// behind; processes that vanished before their name was read are dropped.
pub open spec fn collected(
    raws: Seq<RawProcess>,
    prev: Seq<(u32, CPUsageCalculationValues)>,
    sys_user: u64,
    sys_sys: u64,
    cores: u32,
) -> Seq<(ProcessInfo, CPUsageCalculationValues)>
    decreases raws.len(),
{
    if raws.len() == 0 {
        Seq::empty()
    } else {
        let rest = collected(raws.drop_last(), prev, sys_user, sys_sys, cores);
        let raw = raws.last();
        if raw.name is Some {
            rest.push((record_of(raw, prev, sys_user, sys_sys, cores), sample_of(raw, sys_user, sys_sys)))
        } else {
            rest
        }
    }
}

/// Snapshot records beside their new history entries.
pub open spec fn paired(
    snapshot: Seq<ProcessInfo>,
    history: Seq<(u32, CPUsageCalculationValues)>,
) -> Seq<(ProcessInfo, CPUsageCalculationValues)> {
    Seq::new(snapshot.len(), |k: int| (snapshot[k], history[k].1))
}

/// `snapshot` and `history` are what one collection from `sample` yields
/// after `prev`: the snapshot is sorted, the history has one entry per record
/// with that record's pid and current counters, and together they are the
/// named processes of the sample, each once, in some order.
pub open spec fn is_collection_of(
    prev: Seq<(u32, CPUsageCalculationValues)>,
    sample: ProviderSample,
    snapshot: Seq<ProcessInfo>,
    history: Seq<(u32, CPUsageCalculationValues)>,
) -> bool {
    &&& is_sorted(snapshot)
    &&& history.len() == snapshot.len()
    &&& forall|k: int| 0 <= k < snapshot.len() ==> (#[trigger] history[k]).0 == snapshot[k].pid
    &&& forall|k: int|
        0 <= k < snapshot.len() ==> (#[trigger] snapshot[k]).cpu_usage_hundredths == usage_from(
            find_sample(prev, snapshot[k].pid),
            history[k].1,
            sample.core_count,
        )
    &&& paired(snapshot, history).to_multiset() == collected(
        sample.processes@,
        prev,
        sample.system_user_ticks,
        sample.system_sys_ticks,
        sample.core_count,
    ).to_multiset()
}

spec fn pairs_sorted(s: Seq<(ProcessInfo, CPUsageCalculationValues)>) -> bool {
    forall|i: int, j: int| 0 <= i < j < s.len() ==> !record_lt(#[trigger] s[j].0, #[trigger] s[i].0)
}

spec fn pair_usage_ok(
    e: (ProcessInfo, CPUsageCalculationValues),
    prev: Seq<(u32, CPUsageCalculationValues)>,
    cores: u32,
) -> bool {
    e.0.cpu_usage_hundredths == usage_from(find_sample(prev, e.0.pid), e.1, cores)
}

/// Inserts `item` after every entry that does not come after it.
fn insert_sorted(
    v: &mut Vec<(ProcessInfo, CPUsageCalculationValues)>,
    item: (ProcessInfo, CPUsageCalculationValues),
)
    requires
        pairs_sorted(old(v)@),
    ensures
        pairs_sorted(final(v)@),
        final(v)@.to_multiset() == old(v)@.to_multiset().insert(item),
        exists|p: int| 0 <= p <= old(v)@.len() && final(v)@ == old(v)@.insert(p, item),
{
    let len = v.len();
    let mut p: usize = 0;
    let mut found = false;
    while p < len && !found
        invariant
            len == v@.len(),
            p <= len,
            found ==> p < len && record_lt(item.0, v@[p as int].0),
            forall|i: int| 0 <= i < p ==> !record_lt(item.0, #[trigger] v@[i].0),
        decreases len - p + (if found { 0int } else { 1int }),
    {
        if record_less(&item.0, &v[p].0) {
            found = true;
        } else {
            p += 1;
        }
    }
    let ghost before = v@;
    v.insert(p, item);
    let ghost after = v@;
    assert forall|i: int, j: int| 0 <= i < j < after.len() implies !record_lt(
        #[trigger] after[j].0,
        #[trigger] after[i].0,
    ) by {
        if j == p {
            assert(after[i] == before[i]);
        } else if i == p {
            assert(after[j] == before[j - 1]);
            lemma_record_order_total(before[j - 1].0, item.0, before[p as int].0);
            lemma_record_order_total(before[p as int].0, before[j - 1].0, before[p as int].0);
        } else {
            let bi = if i < p { i } else { i - 1 };
            let bj = if j < p { j } else { j - 1 };
            assert(after[i] == before[bi]);
            assert(after[j] == before[bj]);
        }
    }
}

/// Turns one provider answer into a sorted snapshot and the history for the
/// next refresh. A process with a previous sample gets its CPU usage from the
/// counter differences; one seen for the first time reports zero.
pub fn collect(previous_history: &CpuSampleHistory, sample: ProviderSample) -> (r: (
    Vec<ProcessInfo>,
    CpuSampleHistory,
))
    ensures
        is_collection_of(previous_history@, sample, r.0@, r.1@),
{
    let ghost prev = previous_history@;
    let ProviderSample { system_user_ticks, system_sys_ticks, core_count, processes } = sample;
    let mut processes = processes;
    let ghost raws = processes@;
    let n = processes.len();
    let mut k: usize = 0;
    let mut sorted: Vec<(ProcessInfo, CPUsageCalculationValues)> = Vec::new();
    while processes.len() > 0
        invariant
            n == raws.len(),
            k <= n,
            processes@ == raws.subrange(k as int, n as int),
            pairs_sorted(sorted@),
            sorted@.to_multiset() == collected(
                raws.subrange(0, k as int),
                prev,
                system_user_ticks,
                system_sys_ticks,
                core_count,
            ).to_multiset(),
            forall|i: int| 0 <= i < sorted@.len() ==> pair_usage_ok(#[trigger] sorted@[i], prev, core_count),
            forall|i: int| 0 <= i < sorted@.len() ==> (#[trigger] sorted@[i]).1.old_system_user_cpu == system_user_ticks
                && sorted@[i].1.old_system_sys_cpu == system_sys_ticks,
            prev == previous_history@,
        decreases processes.len(),
    {
        let raw = processes.remove(0);
        let ghost raw_copy = raw;
        assert(raw_copy == raws[k as int]);
        assert(raws.subrange(0, k + 1).drop_last() =~= raws.subrange(0, k as int));
        assert(raws.subrange(0, k + 1).last() == raw_copy);
        let RawProcess {
            pid,
            name,
            command_line,
            environment_variables,
            owner_id,
            parent_pid,
            resident_memory_bytes,
            virtual_memory_bytes,
            status_code,
            start_time_unix,
            run_time_seconds,
            user_ticks,
            system_ticks,
            io_read_bytes,
            io_written_bytes,
        } = raw;
        match name {
            Some(name) => {
                let now = CPUsageCalculationValues {
                    old_process_sys_cpu: system_ticks,
                    old_process_user_cpu: user_ticks,
                    old_system_sys_cpu: system_sys_ticks,
                    old_system_user_cpu: system_user_ticks,
                };
                let cpu: u64 = match previous_history.sample_for(pid) {
                    Some(p) => compute_cpu_usage(
                        &p,
                        user_ticks,
                        system_ticks,
                        system_user_ticks,
                        system_sys_ticks,
                        core_count,
                    ),
                    None => 0,
                };
                let record = ProcessInfo {
                    pid,
                    name,
                    command_line,
                    environment_variables,
                    owner_id,
                    parent_pid,
                    resident_memory_bytes,
                    virtual_memory_bytes,
                    status: ProcessStatus::from_code(status_code),
                    start_time_unix,
                    run_time_seconds,
                    cpu_usage_hundredths: cpu,
                    cumulative_io_read_bytes: io_read_bytes,
                    cumulative_io_written_bytes: io_written_bytes,
                };
                assert(now == sample_of(raw_copy, system_user_ticks, system_sys_ticks));
                assert(record == record_of(raw_copy, prev, system_user_ticks, system_sys_ticks, core_count));
                let ghost old_sorted = sorted@;
                insert_sorted(&mut sorted, (record, now));
                assert forall|i: int| 0 <= i < sorted@.len() implies pair_usage_ok(#[trigger] sorted@[i], prev, core_count)
                    && sorted@[i].1.old_system_user_cpu == system_user_ticks
                    && sorted@[i].1.old_system_sys_cpu == system_sys_ticks by {
                    let p = choose|p: int| 0 <= p <= old_sorted.len() && sorted@ == old_sorted.insert(p, (record, now));
                    if i < p {
                        assert(sorted@[i] == old_sorted[i]);
                    } else if i > p {
                        assert(sorted@[i] == old_sorted[i - 1]);
                    }
                }
            },
            None => {},
        }
        k += 1;
    }
    assert(raws.subrange(0, n as int) =~= raws);
    let ghost all = sorted@;
    let mut snapshot: Vec<ProcessInfo> = Vec::new();
    let mut entries: Vec<(u32, CPUsageCalculationValues)> = Vec::new();
    let total = sorted.len();
    let mut j: usize = 0;
    while sorted.len() > 0
        invariant
            total == all.len(),
            j <= total,
            sorted@ == all.subrange(j as int, total as int),
            snapshot@.len() == j,
            entries@.len() == j,
            forall|i: int| 0 <= i < j ==> #[trigger] snapshot@[i] == all[i].0 && entries@[i] == (all[i].0.pid, all[i].1),
        decreases sorted.len(),
    {
        let (record, counters) = sorted.remove(0);
        assert((record, counters) == all[j as int]);
        entries.push((record.pid, counters));
        snapshot.push(record);
        j += 1;
    }
    assert(paired(snapshot@, entries@) =~= all);
    (snapshot, CpuSampleHistory { entries })
}

/// Derived CPU usage never leaves `[0, 100 * cores]` percent, and counters
/// that did not go backwards give non-negative deltas.
pub proof fn lemma_cpu_usage_bounded(
    prev: CPUsageCalculationValues,
    proc_user: u64,
    proc_sys: u64,
    sys_user: u64,
    sys_sys: u64,
    cores: u32,
)
    ensures
        0 <= cpu_usage_of(prev, proc_user, proc_sys, sys_user, sys_sys, cores) <= FULL_CORE_HUNDREDTHS
            * cores,
        proc_user >= prev.old_process_user_cpu && proc_sys >= prev.old_process_sys_cpu ==> (proc_user
            - prev.old_process_user_cpu) + (proc_sys - prev.old_process_sys_cpu) >= 0,
        sys_user >= prev.old_system_user_cpu && sys_sys >= prev.old_system_sys_cpu ==> (sys_user
            - prev.old_system_user_cpu) + (sys_sys - prev.old_system_sys_cpu) >= 0,
{
    let pd: int = (proc_user - prev.old_process_user_cpu) + (proc_sys - prev.old_process_sys_cpu);
    let sd: int = (sys_user - prev.old_system_user_cpu) + (sys_sys - prev.old_system_sys_cpu);
    if sd > 0 && pd > 0 {
        assert(FULL_CORE_HUNDREDTHS * pd / sd >= 0) by (nonlinear_arith)
            requires
                pd > 0,
                sd > 0,
        ;
    }
}

/// Every record of a collection that had a previous sample for its pid
/// reports CPU usage within `[0, 100 * cores]` percent.
pub proof fn lemma_snapshot_usage_bounded(
    prev: Seq<(u32, CPUsageCalculationValues)>,
    sample: ProviderSample,
    snapshot: Seq<ProcessInfo>,
    history: Seq<(u32, CPUsageCalculationValues)>,
)
    requires
        is_collection_of(prev, sample, snapshot, history),
    ensures
        forall|k: int|
            0 <= k < snapshot.len() && find_sample(prev, snapshot[k].pid) is Some ==> 0
                <= #[trigger] snapshot[k].cpu_usage_hundredths <= FULL_CORE_HUNDREDTHS
                * sample.core_count,
{
    assert forall|k: int|
        0 <= k < snapshot.len() && find_sample(prev, snapshot[k].pid) is Some implies 0
            <= #[trigger] snapshot[k].cpu_usage_hundredths <= FULL_CORE_HUNDREDTHS
            * sample.core_count by {
        let p = find_sample(prev, snapshot[k].pid)->Some_0;
        let now = history[k].1;
        lemma_cpu_usage_bounded(
            p,
            now.old_process_user_cpu,
            now.old_process_sys_cpu,
            now.old_system_user_cpu,
            now.old_system_sys_cpu,
            sample.core_count,
        );
    }
}

/// A process seen for the first time (no previous sample for its pid)
/// reports zero CPU usage in that collection.
pub proof fn lemma_first_sample_reports_zero(
    prev: Seq<(u32, CPUsageCalculationValues)>,
    sample: ProviderSample,
    snapshot: Seq<ProcessInfo>,
    history: Seq<(u32, CPUsageCalculationValues)>,
)
    requires
        is_collection_of(prev, sample, snapshot, history),
    ensures
        forall|k: int|
            0 <= k < snapshot.len() && find_sample(prev, snapshot[k].pid) is None ==> (#[trigger] snapshot[k]).cpu_usage_hundredths == 0,
{
}

} // verus!
