use sync_counter::counter::Strategy;
use sync_counter::counter::SyncCounter;
use sync_counter::harness::ConfigError;
use sync_counter::harness::RunError;
use sync_counter::harness::RunReport;
use sync_counter::harness::Signal;
use sync_counter::harness::Stopwatch;
use sync_counter::harness::WorkerFailure;
use sync_counter::harness::assess_workers;
use sync_counter::harness::observer_loop;
use sync_counter::harness::settle_run;
use sync_counter::harness::validate_config;
use sync_counter::harness::worker_loop;

/// The thin driver around the library: validates the configuration, spawns
/// one thread per worker against handles of one shared counter, joins them
/// all, and settles the outcome.
fn run_load(
    worker_count: u64,
    increments_per_worker: u64,
    strategy: Strategy,
) -> Result<RunReport, RunError> {
    if let Err(e) = validate_config(worker_count, increments_per_worker) {
        return Err(RunError::Config(e));
    }
    let watch = Stopwatch::start();
    let counter = SyncCounter::new(strategy);
    let outcomes: Vec<Option<u64>> = crossbeam_utils::thread::scope(|s| {
        let mut joins = Vec::new();
        for _ in 0..worker_count {
            let handle = counter.handle();
            let quota = increments_per_worker;
            joins.push(s.spawn(move |_| worker_loop(&handle, quota)));
        }
        joins.into_iter().map(|j| j.join().ok()).collect()
    })
    .unwrap();
    let observed = counter.get();
    let elapsed = watch.elapsed_millis();
    settle_run(worker_count, increments_per_worker, &outcomes, observed, elapsed)
}

/// One contended trial at the load the no-lost-updates property fixes:
/// fifty workers, one hundred thousand increments each.
fn contended_trial(strategy: Strategy) {
    let report = run_load(50, 100_000, strategy).unwrap();
    assert_eq!(report.total, 5_000_000);
}

#[test]
fn exact_count_small_atomic() {
    let report = run_load(4, 2500, Strategy::Atomic).unwrap();
    assert_eq!(report.total, 10_000);
}

#[test]
fn exact_count_small_mutex() {
    let report = run_load(4, 2500, Strategy::Mutex).unwrap();
    assert_eq!(report.total, 10_000);
}

#[test]
fn exact_count_one_worker_both_strategies() {
    assert_eq!(run_load(1, 250_000, Strategy::Atomic).unwrap().total, 250_000);
    assert_eq!(run_load(1, 250_000, Strategy::Mutex).unwrap().total, 250_000);
}

#[test]
fn no_lost_updates_under_contention_atomic() {
    for _ in 0..20 {
        contended_trial(Strategy::Atomic);
    }
}

#[test]
fn no_lost_updates_under_contention_mutex_a() {
    for _ in 0..4 {
        contended_trial(Strategy::Mutex);
    }
}

#[test]
fn no_lost_updates_under_contention_mutex_b() {
    for _ in 0..4 {
        contended_trial(Strategy::Mutex);
    }
}

#[test]
fn no_lost_updates_under_contention_mutex_c() {
    for _ in 0..4 {
        contended_trial(Strategy::Mutex);
    }
}

#[test]
fn no_lost_updates_under_contention_mutex_d() {
    for _ in 0..4 {
        contended_trial(Strategy::Mutex);
    }
}

#[test]
fn no_lost_updates_under_contention_mutex_e() {
    for _ in 0..4 {
        contended_trial(Strategy::Mutex);
    }
}

#[test]
fn concurrent_reader_never_overtakes_the_increments() {
    let worker_count: u64 = 10;
    let quota: u64 = 1_000_000;
    let expected = validate_config(worker_count, quota).unwrap();
    let counter = SyncCounter::new(Strategy::Atomic);
    let stop = Signal::new();
    let (report, outcomes) = crossbeam_utils::thread::scope(|s| {
        let observer_counter = counter.handle();
        let observer_stop = stop.handle();
        let observer = s.spawn(move |_| observer_loop(&observer_counter, &observer_stop, expected));
        let mut joins = Vec::new();
        for _ in 0..worker_count {
            let handle = counter.handle();
            joins.push(s.spawn(move |_| worker_loop(&handle, quota)));
        }
        let outcomes: Vec<Option<u64>> = joins.into_iter().map(|j| j.join().ok()).collect();
        stop.raise();
        (observer.join().unwrap(), outcomes)
    })
    .unwrap();
    assert!(report.samples >= 1);
    assert!(report.within_bound);
    assert!(report.monotone);
    assert!(report.max_seen <= expected);
    assert!(outcomes.iter().all(|o| *o == Some(quota)));
    assert_eq!(counter.get(), 10_000_000);
}

#[test]
fn concurrent_reader_on_the_locked_strategy() {
    let worker_count: u64 = 4;
    let quota: u64 = 50_000;
    let expected = validate_config(worker_count, quota).unwrap();
    let counter = SyncCounter::new(Strategy::Mutex);
    let stop = Signal::new();
    let report = crossbeam_utils::thread::scope(|s| {
        let observer_counter = counter.handle();
        let observer_stop = stop.handle();
        let observer = s.spawn(move |_| observer_loop(&observer_counter, &observer_stop, expected));
        let mut joins = Vec::new();
        for _ in 0..worker_count {
            let handle = counter.handle();
            joins.push(s.spawn(move |_| worker_loop(&handle, quota)));
        }
        for j in joins {
            assert_eq!(j.join().unwrap(), quota);
        }
        stop.raise();
        observer.join().unwrap()
    })
    .unwrap();
    assert!(report.within_bound);
    assert!(report.monotone);
    assert_eq!(counter.get(), 200_000);
}

#[test]
fn zero_work_run_returns_zero() {
    let report = run_load(5, 0, Strategy::Atomic).unwrap();
    assert_eq!(report.total, 0);
    let report = run_load(5, 0, Strategy::Mutex).unwrap();
    assert_eq!(report.total, 0);
}

#[test]
fn zero_workers_is_a_configuration_error() {
    assert_eq!(
        run_load(0, 100, Strategy::Atomic),
        Err(RunError::Config(ConfigError::ZeroWorkers))
    );
    assert_eq!(
        run_load(0, 100, Strategy::Mutex),
        Err(RunError::Config(ConfigError::ZeroWorkers))
    );
}

#[test]
fn unrepresentable_total_is_a_configuration_error() {
    assert_eq!(
        run_load(3, u64::MAX / 2, Strategy::Atomic),
        Err(RunError::Config(ConfigError::TotalOverflow))
    );
    assert_eq!(validate_config(2, u64::MAX), Err(ConfigError::TotalOverflow));
}

#[test]
fn copied_counters_lose_updates() {
    let worker_count: u64 = 10;
    let quota: u64 = 1_000_000;
    let counter = SyncCounter::new(Strategy::Atomic);
    crossbeam_utils::thread::scope(|s| {
        for _ in 0..worker_count {
            // The defect under test: an independent counter per worker in
            // place of a handle to the shared one.
            let private = SyncCounter::new(Strategy::Atomic);
            let quota_copy = quota;
            s.spawn(move |_| worker_loop(&private, quota_copy));
        }
    })
    .unwrap();
    let observed = counter.get();
    assert!(observed < worker_count * quota);
    // Settling such a run through the library names the shortfall rather
    // than passing the wrong value off as a result.
    let outcomes: Vec<Option<u64>> = vec![Some(quota); worker_count as usize];
    assert_eq!(
        settle_run(worker_count, quota, &outcomes, observed, 0),
        Err(RunError::Worker(WorkerFailure::TotalMismatch {
            expected: 10_000_000,
            observed
        }))
    );
}

#[test]
fn a_panicked_worker_fails_the_run() {
    let outcomes: Vec<Option<u64>> = vec![Some(100), None, Some(100)];
    assert_eq!(assess_workers(&outcomes, 100), Some(WorkerFailure::Panicked));
    assert_eq!(
        settle_run(3, 100, &outcomes, 300, 7),
        Err(RunError::Worker(WorkerFailure::Panicked))
    );
}

#[test]
fn a_short_worker_fails_the_run() {
    let outcomes: Vec<Option<u64>> = vec![Some(100), Some(40)];
    assert_eq!(assess_workers(&outcomes, 100), Some(WorkerFailure::Incomplete));
    assert_eq!(
        settle_run(2, 100, &outcomes, 140, 7),
        Err(RunError::Worker(WorkerFailure::Incomplete))
    );
}

#[test]
fn complete_workers_settle_cleanly() {
    let outcomes: Vec<Option<u64>> = vec![Some(100), Some(100)];
    assert_eq!(assess_workers(&outcomes, 100), None);
    assert_eq!(
        settle_run(2, 100, &outcomes, 200, 7),
        Ok(RunReport {
            total: 200,
            elapsed_millis: 7
        })
    );
}

#[test]
fn a_wrong_total_is_named_not_returned() {
    let outcomes: Vec<Option<u64>> = vec![Some(100), Some(100)];
    assert_eq!(
        settle_run(2, 100, &outcomes, 199, 7),
        Err(RunError::Worker(WorkerFailure::TotalMismatch {
            expected: 200,
            observed: 199
        }))
    );
}

#[test]
fn validate_config_computes_the_expected_total() {
    assert_eq!(validate_config(50, 100_000), Ok(5_000_000));
    assert_eq!(validate_config(1, 0), Ok(0));
    assert_eq!(validate_config(0, 0), Err(ConfigError::ZeroWorkers));
}

#[test]
fn observer_sees_counter_within_bounds() {
    let counter = SyncCounter::new(Strategy::Atomic);
    counter.increment();
    counter.increment();
    counter.increment();
    let stop = Signal::new();
    stop.raise();
    let report = observer_loop(&counter, &stop, 3);
    assert!(report.samples >= 1);
    assert_eq!(report.max_seen, 3);
    assert!(report.within_bound);
    assert!(report.monotone);
}

#[test]
fn stopwatch_measures_forward() {
    let watch = Stopwatch::start();
    let mut c = sync_counter::counter::Counter::new();
    for _ in 0..1000 {
        c.increment_counter();
    }
    let elapsed = watch.elapsed_millis();
    assert!(elapsed <= watch.elapsed_millis());
}
