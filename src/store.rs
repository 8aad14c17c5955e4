use crate::collector::{collect, is_collection_of, CpuSampleHistory};
use crate::order::is_sorted;
use crate::record::{CPUsageCalculationValues, ProcessInfo, ProviderSample};
use vstd::prelude::*;

verus! {

/// The process provider could not enumerate processes at all.
#[derive(Clone, Copy, Debug, PartialEq, Eq, Structural)]
pub enum CollectError {
    ProviderUnavailable,
}

/// Why a termination request failed.
#[derive(Clone, Copy, Debug, PartialEq, Eq, Structural)]
pub enum TerminationError {
    ProcessNotFound,
    PermissionDenied,
    PlatformError,
}

/// What the operating system answered to a kill request.
#[derive(Clone, Copy, Debug, PartialEq, Eq, Structural)]
pub enum KillOutcome {
    Killed,
    Denied,
    Failed,
}

/// Whether some record of `records` has pid `pid`.
pub open spec fn has_pid(records: Seq<ProcessInfo>, pid: u32) -> bool {
    exists|k: int| 0 <= k < records.len() && (#[trigger] records[k]).pid == pid
}

/// Whether a refresh is due at `now` (milliseconds), given the time of the
/// last refresh attempt: always before the first one, then once at least
/// `min_interval` has passed.
pub open spec fn refresh_due(last: Option<u64>, now: u64, min_interval: u64) -> bool {
    match last {
        None => true,
        Some(t) => now >= t + min_interval,
    }
}

/// The outcome of a termination request, given the live pids of a fresh
/// query and what the kill request answered.
pub open spec fn termination_result(live: Seq<u32>, pid: u32, kill: KillOutcome) -> Result<
    (),
    TerminationError,
> {
    if !live.contains(pid) {
        Err(TerminationError::ProcessNotFound)
    } else {
        kill_outcome_result(kill)
    }
}

/// The result that an answer to a kill request stands for.
pub open spec fn kill_outcome_result(kill: KillOutcome) -> Result<(), TerminationError> {
    match kill {
        KillOutcome::Killed => Ok(()),
        KillOutcome::Denied => Err(TerminationError::PermissionDenied),
        KillOutcome::Failed => Err(TerminationError::PlatformError),
    }
}

/// Owns the current snapshot and the sample history behind it.
///
/// A refresh whose collection fails keeps the previous snapshot and history
/// but still counts as an attempt: the next one waits a full interval, so a
/// failing provider is not queried on every tick.
pub struct SnapshotStore {
    snapshot: Vec<ProcessInfo>,
    history: CpuSampleHistory,
    last_refresh_ms: Option<u64>,
}

impl SnapshotStore {
    /// The stored snapshot.
    pub closed spec fn records(&self) -> Seq<ProcessInfo> {
        self.snapshot@
    }

    /// The stored sample history.
    pub closed spec fn samples(&self) -> Seq<(u32, CPUsageCalculationValues)> {
        self.history@
    }

    /// The time of the last refresh attempt, if any.
    pub closed spec fn last_refresh(&self) -> Option<u64> {
        self.last_refresh_ms
    }

    /// The snapshot is sorted and the history holds exactly one entry per
    /// record, with that record's pid.
    pub open spec fn wf(&self) -> bool {
        &&& is_sorted(self.records())
        &&& self.samples().len() == self.records().len()
        &&& forall|k: int|
            0 <= k < self.records().len() ==> (#[trigger] self.samples()[k]).0
                == self.records()[k].pid
    }

    /// An empty store that has never refreshed.
    pub fn new() -> (r: SnapshotStore)
        ensures
            r.wf(),
            r.records() == Seq::<ProcessInfo>::empty(),
            r.samples() == Seq::<(u32, CPUsageCalculationValues)>::empty(),
            r.last_refresh() == None::<u64>,
    {
        SnapshotStore { snapshot: Vec::new(), history: CpuSampleHistory::new(), last_refresh_ms: None }
    }

    /// Whether some record of `records` has pid `pid`.
pub open spec fn has_pid(records: Seq<ProcessInfo>, pid: u32) -> bool {
    exists|k: int| 0 <= k < records.len() && (#[trigger] records[k]).pid == pid
}

/// Whether a refresh is due at `now_ms`.
    pub fn is_refresh_due(&self, now_ms: u64, min_interval_ms: u64) -> (r: bool)
        ensures
            r == refresh_due(self.last_refresh(), now_ms, min_interval_ms),
    {
        match self.last_refresh_ms {
            None => true,
            Some(t) => now_ms as u128 >= t as u128 + min_interval_ms as u128,
        }
    }

    /// Takes the provider's answer for a refresh at `now_ms`. On success the
    /// snapshot and history are replaced by a new collection; on failure both
    /// stay as they were and the error is handed back. Either way `now_ms`
    /// becomes the time of the last refresh attempt.
    pub fn apply_collection(
        &mut self,
        now_ms: u64,
        outcome: Result<ProviderSample, CollectError>,
    ) -> (r: Result<(), CollectError>)
        requires
            old(self).wf(),
        ensures
            final(self).wf(),
            final(self).last_refresh() == Some(now_ms),
            match outcome {
                Ok(sample) => r is Ok && is_collection_of(
                    old(self).samples(),
                    sample,
                    final(self).records(),
                    final(self).samples(),
                ),
                Err(e) => r == Err::<(), CollectError>(e) && final(self).records()
                    == old(self).records() && final(self).samples() == old(self).samples(),
            },
    {
        self.last_refresh_ms = Some(now_ms);
        match outcome {
            Ok(sample) => {
                let (snapshot, history) = collect(&self.history, sample);
                self.snapshot = snapshot;
                self.history = history;
                Ok(())
            },
            Err(e) => Err(e),
        }
    }

    /// Refreshes when due: calls `query` once for the provider's answer and
    /// applies it; when not due, does nothing and returns `Ok(false)`.
    /// Returns `Ok(true)` after a successful refresh and the provider's error
    /// after a failed one.
    pub fn refresh_if_due<F>(&mut self, now_ms: u64, min_interval_ms: u64, query: F) -> (r: Result<
        bool,
        CollectError,
    >) where F: FnOnce() -> Result<ProviderSample, CollectError>
        requires
            old(self).wf(),
            query.requires(()),
        ensures
            final(self).wf(),
            !refresh_due(old(self).last_refresh(), now_ms, min_interval_ms) ==> r == Ok::<
                bool,
                CollectError,
            >(false) && *final(self) == *old(self),
            refresh_due(old(self).last_refresh(), now_ms, min_interval_ms) ==> {
                &&& final(self).last_refresh() == Some(now_ms)
                &&& r != Ok::<bool, CollectError>(false)
                &&& r == Ok::<bool, CollectError>(true) ==> exists|sample: ProviderSample|
                    #[trigger] query.ensures((), Ok::<ProviderSample, CollectError>(sample))
                        && is_collection_of(
                        old(self).samples(),
                        sample,
                        final(self).records(),
                        final(self).samples(),
                    )
                &&& r is Err ==> query.ensures((), Err::<ProviderSample, CollectError>(r->Err_0))
                    && final(self).records() == old(self).records() && final(self).samples()
                    == old(self).samples()
            },
    {
        if !self.is_refresh_due(now_ms, min_interval_ms) {
            return Ok(false);
        }
        let outcome = query();
        let ghost answer = outcome;
        match self.apply_collection(now_ms, outcome) {
            Ok(()) => {
                assert(answer is Ok);
                Ok(true)
            },
            Err(e) => Err(e),
        }
    }

    /// The current snapshot; reading it changes nothing.
    pub fn current_snapshot(&self) -> (r: &Vec<ProcessInfo>)
        ensures
            r@ == self.records(),
    {
        &self.snapshot
    }

    /// The record at `index` of the current snapshot, if there is one.
    pub fn process_at(&self, index: usize) -> (r: Option<&ProcessInfo>)
        ensures
            index < self.records().len() ==> r == Some(&self.records()[index as int]),
            index >= self.records().len() ==> r is None,
    {
        if index < self.snapshot.len() {
            Some(&self.snapshot[index])
        } else {
            None
        }
    }

    /// The first record of the current snapshot with pid `pid`, if any.
    pub fn process_by_pid(&self, pid: u32) -> (r: Option<&ProcessInfo>)
        ensures
            r is None <==> forall|k: int| 0 <= k < self.records().len() ==> #[trigger] self.records()[k].pid != pid,
            r is Some ==> exists|k: int|
                0 <= k < self.records().len() && *r->Some_0 == #[trigger] self.records()[k] && (forall|j: int|
                    0 <= j < k ==> #[trigger] self.records()[j].pid != pid),
    {
        let n = self.snapshot.len();
        let mut i: usize = 0;
        while i < n
            invariant
                n == self.records().len(),
                i <= n,
                forall|j: int| 0 <= j < i ==> #[trigger] self.records()[j].pid != pid,
            decreases n - i,
        {
            if self.snapshot[i].pid == pid {
                return Some(&self.snapshot[i]);
            }
            i += 1;
        }
        None
    }

    /// Asks the operating system to end process `pid`, after checking it
    /// against a fresh query of live pids rather than the stored snapshot, so
    /// that a reused pid is not acted on by mistake. `kill` is only called
    /// when the pid is live. The stored snapshot is left as it is.
    pub fn terminate<Q, K>(&self, pid: u32, query_live: Q, kill: K) -> (r: Result<
        (),
        TerminationError,
    >) where Q: FnOnce() -> Result<Vec<u32>, CollectError>, K: FnOnce(u32) -> KillOutcome
        requires
            query_live.requires(()),
            kill.requires((pid,)),
        ensures
            exists|live: Result<Vec<u32>, CollectError>|
                #[trigger] query_live.ensures((), live) && match live {
                    Err(_) => r == Err::<(), TerminationError>(TerminationError::PlatformError),
                    Ok(v) => if v@.contains(pid) {
                        exists|k: KillOutcome|
                            #[trigger] kill.ensures((pid,), k) && r == termination_result(
                                v@,
                                pid,
                                k,
                            )
                    } else {
                        r == Err::<(), TerminationError>(TerminationError::ProcessNotFound)
                    },
                },
    {
        let live = query_live();
        let ghost answer = live;
        match live {
            Err(_) => Err(TerminationError::PlatformError),
            Ok(v) => {
                let checked = check_live(&v, pid);
                match checked {
                    Err(e) => {
                        assert(answer == Ok::<Vec<u32>, CollectError>(v));
                        Err(e)
                    },
                    Ok(()) => {
                        let k = kill(pid);
                        let r = kill_result(k);
                        assert(termination_result(v@, pid, k) == r);
                        r
                    },
                }
            },
        }
    }
}

/// `Ok` when `pid` is among the live pids of a fresh query, else
/// `ProcessNotFound`.
pub fn check_live(live: &Vec<u32>, pid: u32) -> (r: Result<(), TerminationError>)
    ensures
        live@.contains(pid) ==> r is Ok,
        !live@.contains(pid) ==> r == Err::<(), TerminationError>(TerminationError::ProcessNotFound),
{
    let n = live.len();
    let mut i: usize = 0;
    while i < n
        invariant
            n == live@.len(),
            i <= n,
            forall|j: int| 0 <= j < i ==> live@[j] != pid,
        decreases n - i,
    {
        if live[i] == pid {
            return Ok(());
        }
        i += 1;
    }
    Err(TerminationError::ProcessNotFound)
}

/// The result that an operating system answer to a kill request gives.
pub fn kill_result(outcome: KillOutcome) -> (r: Result<(), TerminationError>)
    ensures
        r == kill_outcome_result(outcome),
{
    match outcome {
        KillOutcome::Killed => Ok(()),
        KillOutcome::Denied => Err(TerminationError::PermissionDenied),
        KillOutcome::Failed => Err(TerminationError::PlatformError),
    }
}

/// Once a refresh was attempted at `t0`, the next one is due exactly when
/// at least `min_interval` has passed.
pub proof fn lemma_refresh_spacing(s: SnapshotStore, t0: u64, elapsed: u64, min_interval: u64)
    requires
        s.last_refresh() == Some(t0),
        t0 + elapsed <= u64::MAX,
    ensures
        refresh_due(s.last_refresh(), (t0 + elapsed) as u64, min_interval) <==> elapsed
            >= min_interval,
{
}

/// A well-formed store keeps no more history entries than records, and no
/// entry for a pid that the snapshot lacks.
pub proof fn lemma_history_bounded(s: SnapshotStore)
    requires
        s.wf(),
    ensures
        s.samples().len() <= s.records().len(),
        forall|i: int|
            0 <= i < s.samples().len() ==> has_pid(s.records(), (#[trigger] s.samples()[i]).0),
{
    assert forall|i: int| 0 <= i < s.samples().len() implies has_pid(
        s.records(),
        (#[trigger] s.samples()[i]).0,
    ) by {
        assert(s.records()[i].pid == s.samples()[i].0);
    }
}

} // verus!
