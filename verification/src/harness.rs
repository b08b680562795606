//! The load harness: configuration checking, the per-worker and observer
//! task bodies, and the settlement of a run's outcome.
//!
//! Thread management stays outside the verified library, so a run is
//! split: everything a run decides or computes is a verified function
//! here, and the thin driver that actually spawns one thread per worker
//! calls these functions in order — first
//! [`validate_config`], then one [`worker_loop`] per worker against handles
//! of one shared [`SyncCounter`], and finally [`settle_run`] on the
//! configuration, the joined outcomes and the counter's final value.

use crate::counter::Strategy;
use crate::counter::SyncCounter;
use crate::sys;
use vstd::prelude::*;

verus! {

/// Why a configuration was rejected before any worker was spawned.
#[derive(Clone, Copy, PartialEq, Eq, Structural, Debug)]
pub enum ConfigError {
    /// The worker count was zero; a run needs at least one worker.
    ZeroWorkers,
    /// `worker_count * increments_per_worker` does not fit in 64 bits, so
    /// the expected total could not be represented.
    TotalOverflow,
}

/// How a run that did spawn workers failed.
#[derive(Clone, Copy, PartialEq, Eq, Structural, Debug)]
pub enum WorkerFailure {
    /// A worker terminated abnormally instead of returning its count.
    Panicked,
    /// A worker returned, but had completed fewer increments than asked.
    Incomplete,
    /// After every worker was joined, the counter did not hold the expected
    /// total, so at least one update was lost or double-counted.
    TotalMismatch { expected: u64, observed: u64 },
}

/// A failed run, either rejected up front or failed while running.
#[derive(Clone, Copy, PartialEq, Eq, Structural, Debug)]
pub enum RunError {
    /// The configuration was invalid; no worker was spawned.
    Config(ConfigError),
    /// A worker failed, or the joined total was wrong.
    Worker(WorkerFailure),
}

/// The outcome of a successful run.
#[derive(Clone, Copy, PartialEq, Eq, Structural, Debug)]
pub struct RunReport {
    /// The final counter value, equal to the configured expected total.
    pub total: u64,
    /// Wall-clock time for the whole run, in milliseconds.
    pub elapsed_millis: u64,
}

/// The exact total a successful run must reach.
pub open spec fn expected_total(worker_count: u64, increments_per_worker: u64) -> int {
    worker_count * increments_per_worker
}

/// A configuration is valid when at least one worker is asked for and the
/// expected total is representable in 64 bits.
pub open spec fn config_ok(worker_count: u64, increments_per_worker: u64) -> bool {
    1 <= worker_count && expected_total(worker_count, increments_per_worker) <= u64::MAX
}

/// Checks a configuration and computes the expected total, rejecting
/// exactly the invalid configurations before any work begins.
pub fn validate_config(worker_count: u64, increments_per_worker: u64) -> (r: Result<
    u64,
    ConfigError,
>)
    ensures
        worker_count == 0 ==> r == Err::<u64, ConfigError>(ConfigError::ZeroWorkers),
        worker_count >= 1 && expected_total(worker_count, increments_per_worker) > u64::MAX ==> r
            == Err::<u64, ConfigError>(ConfigError::TotalOverflow),
        config_ok(worker_count, increments_per_worker) ==> (r matches Ok(t) && t == expected_total(
            worker_count,
            increments_per_worker,
        )),
{
    if worker_count == 0 {
        Err(ConfigError::ZeroWorkers)
    } else {
        match worker_count.checked_mul(increments_per_worker) {
            Some(total) => Ok(total),
            None => Err(ConfigError::TotalOverflow),
        }
    }
}

/// One worker's whole task: `quota` increments against the shared counter,
/// stopping early only if an increment cannot be represented. Returns how
/// many increments actually landed.
pub fn worker_loop(counter: &SyncCounter, quota: u64) -> (completed: u64)
    ensures
        completed <= quota,
{
    let mut done: u64 = 0;
    while done < quota
        invariant
            done <= quota,
        decreases quota - done,
    {
        if !counter.increment() {
            return done;
        }
        done = done + 1;
    }
    done
}

/// A one-way boolean signal whose handles all share one flag, used by the
/// driver to tell a long-running observer that the run is over.
pub struct Signal {
    flag: std::sync::Arc<std::sync::atomic::AtomicBool>,
}

impl Signal {
    /// A fresh, unraised signal.
    pub fn new() -> Signal {
        Signal { flag: std::sync::Arc::new(std::sync::atomic::AtomicBool::new(false)) }
    }

    /// Another handle to the same signal; it shares the flag, it does not
    /// copy it.
    pub fn handle(&self) -> Signal {
        Signal { flag: sys::arc_share(&self.flag) }
    }

    /// Raises the signal; it stays raised, visible through every handle.
    pub fn raise(&self) {
        self.flag.store(true, std::sync::atomic::Ordering::SeqCst);
    }

    /// Whether some handle has raised the signal.
    pub fn is_raised(&self) -> bool {
        self.flag.load(std::sync::atomic::Ordering::SeqCst)
    }
}

/// A started wall clock, for the elapsed time a run reports.
pub struct Stopwatch {
    start: std::time::Instant,
}

impl Stopwatch {
    /// Starts the clock.
    pub fn start() -> Stopwatch {
        Stopwatch { start: sys::clock_now() }
    }

    /// Whole wall-clock milliseconds since the clock started.
    pub fn elapsed_millis(&self) -> u64 {
        sys::clock_elapsed_millis(&self.start)
    }
}

/// What a concurrent observer saw while sampling the shared counter.
#[derive(Clone, Copy, PartialEq, Eq, Structural, Debug)]
pub struct ObserverReport {
    /// How many samples were taken; always at least one.
    pub samples: u64,
    /// The largest value any sample showed.
    pub max_seen: u64,
    /// Whether every sample stayed at or under the given bound.
    pub within_bound: bool,
    /// Whether consecutive samples never decreased.
    pub monotone: bool,
}

/// The observer's whole task: samples the shared counter until the stop
/// signal is raised, and reports what it saw. A report with `within_bound`
/// set means every sample stayed at or under `bound` — for a bound of the
/// run's expected total, no read ever overtook the increments that could
/// have completed; one with `monotone` set means no sample was smaller than
/// the one before it, as befits a counter that only ever grows.
pub fn observer_loop(counter: &SyncCounter, stop: &Signal, bound: u64) -> (r: ObserverReport)
    ensures
        r.samples >= 1,
        r.within_bound <==> r.max_seen <= bound,
{
    let mut samples: u64 = 0;
    let mut max_seen: u64 = 0;
    let mut within_bound = true;
    let mut monotone = true;
    let mut last: u64 = 0;
    let mut go = true;
    let mut budget: u64 = u64::MAX;
    while go
        invariant
            samples + budget == u64::MAX,
            go ==> budget >= 1,
            !go ==> samples >= 1,
            within_bound <==> max_seen <= bound,
        decreases budget,
    {
        let v = counter.get();
        samples = samples + 1;
        if v > max_seen {
            max_seen = v;
        }
        if v > bound {
            within_bound = false;
        }
        if v < last {
            monotone = false;
        }
        last = v;
        budget = budget - 1;
        go = budget > 0 && !stop.is_raised();
    }
    ObserverReport { samples, max_seen, within_bound, monotone }
}

/// Every joined worker returned its full quota.
pub open spec fn all_complete(outcomes: Seq<Option<u64>>, quota: u64) -> bool {
    forall|i: int| 0 <= i < outcomes.len() ==> outcomes[i] == Some(quota)
}

/// The total number of increments the joined workers report; a worker that
/// terminated abnormally reports none.
pub open spec fn sum_completed(outcomes: Seq<Option<u64>>) -> int
    decreases outcomes.len(),
{
    if outcomes.len() == 0 {
        0
    } else {
        sum_completed(outcomes.drop_last()) + (match outcomes.last() {
            Some(c) => c as int,
            None => 0,
        })
    }
}

/// Law (exact count): when every one of the joined workers completed its
/// full quota, the increments they jointly report number exactly
/// `worker count * quota` — the total a successful run must show on the
/// shared counter.
pub proof fn lemma_exact_count(outcomes: Seq<Option<u64>>, quota: u64)
    requires
        all_complete(outcomes, quota),
    ensures
        sum_completed(outcomes) == outcomes.len() * quota,
    decreases outcomes.len(),
{
    if outcomes.len() == 0 {
    } else {
        assert(all_complete(outcomes.drop_last(), quota));
        lemma_exact_count(outcomes.drop_last(), quota);
        assert(outcomes.last() == Some(quota));
        assert((outcomes.len() - 1) * quota + quota == outcomes.len() * quota)
            by (nonlinear_arith);
    }
}

/// Classifies the joined workers' outcomes: `None` stands for a worker that
/// terminated abnormally, `Some(c)` for one that returned after `c` of its
/// `quota` increments. Returns no failure exactly when every worker
/// returned its full quota; otherwise names the first offender's kind.
pub fn assess_workers(outcomes: &Vec<Option<u64>>, quota: u64) -> (r: Option<WorkerFailure>)
    ensures
        r == None::<WorkerFailure> <==> all_complete(outcomes@, quota),
        r == Some(WorkerFailure::Panicked) ==> exists|i: int|
            0 <= i < outcomes@.len() && #[trigger] outcomes@[i] == None::<u64>,
        r == Some(WorkerFailure::Incomplete) ==> exists|i: int|
            0 <= i < outcomes@.len() && ((#[trigger] outcomes@[i]) matches Some(c) && c != quota),
        r matches Some(f) ==> (f == WorkerFailure::Panicked || f == WorkerFailure::Incomplete),
{
    let mut i: usize = 0;
    let mut failure: Option<WorkerFailure> = None;
    while i < outcomes.len()
        invariant
            i <= outcomes@.len(),
            failure == None::<WorkerFailure> <==> (forall|j: int|
                0 <= j < i ==> outcomes@[j] == Some(quota)),
            failure == Some(WorkerFailure::Panicked) ==> exists|j: int|
                0 <= j < i && #[trigger] outcomes@[j] == None::<u64>,
            failure == Some(WorkerFailure::Incomplete) ==> exists|j: int|
                0 <= j < i && ((#[trigger] outcomes@[j]) matches Some(c) && c != quota),
            failure matches Some(f) ==> (f == WorkerFailure::Panicked || f
                == WorkerFailure::Incomplete),
        decreases outcomes@.len() - i,
    {
        if failure.is_none() {
            match outcomes[i] {
                Some(completed) => {
                    if completed != quota {
                        failure = Some(WorkerFailure::Incomplete);
                    }
                },
                None => {
                    failure = Some(WorkerFailure::Panicked);
                },
            }
        }
        i = i + 1;
    }
    failure
}

/// Settles a whole run from what the driver gathered: the run's
/// configuration, each worker's joined outcome, the shared counter's final
/// value, and the elapsed wall-clock time.
///
/// Succeeds exactly when the configuration was valid, every worker
/// returned its full quota, and the final value equals the expected total
/// `worker_count * increments_per_worker`; every other outcome is surfaced
/// as a distinguishable error, never as a silently wrong value.
pub fn settle_run(
    worker_count: u64,
    increments_per_worker: u64,
    outcomes: &Vec<Option<u64>>,
    observed: u64,
    elapsed_millis: u64,
) -> (r: Result<RunReport, RunError>)
    ensures
        worker_count == 0 ==> r == Err::<RunReport, RunError>(
            RunError::Config(ConfigError::ZeroWorkers),
        ),
        worker_count >= 1 && expected_total(worker_count, increments_per_worker) > u64::MAX ==> r
            == Err::<RunReport, RunError>(RunError::Config(ConfigError::TotalOverflow)),
        r is Ok <==> (config_ok(worker_count, increments_per_worker) && all_complete(
            outcomes@,
            increments_per_worker,
        ) && observed == expected_total(worker_count, increments_per_worker)),
        r matches Ok(report) ==> report.total == expected_total(worker_count, increments_per_worker)
            && report.elapsed_millis == elapsed_millis,
        (config_ok(worker_count, increments_per_worker) && all_complete(
            outcomes@,
            increments_per_worker,
        ) && observed != expected_total(worker_count, increments_per_worker)) ==> r == Err::<
            RunReport,
            RunError,
        >(
            RunError::Worker(
                (WorkerFailure::TotalMismatch {
                    expected: (expected_total(worker_count, increments_per_worker) as u64),
                    observed,
                }),
            ),
        ),
        r matches Err(RunError::Worker(_)) ==> config_ok(worker_count, increments_per_worker),
{
    let expected = match validate_config(worker_count, increments_per_worker) {
        Ok(total) => total,
        Err(e) => { return Err(RunError::Config(e)) },
    };
    match assess_workers(outcomes, increments_per_worker) {
        Some(failure) => Err(RunError::Worker(failure)),
        None => {
            if observed == expected {
                Ok(RunReport { total: observed, elapsed_millis })
            } else {
                Err(RunError::Worker(WorkerFailure::TotalMismatch { expected, observed }))
            }
        },
    }
}

} // verus!
