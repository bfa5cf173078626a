use httpserver::threadpool::ThreadPool;

#[test]
fn submitted_jobs_all_drain_exactly_once() {
    let mut pool: ThreadPool<usize> = ThreadPool::new(3);
    let ids: [usize; 5] = [10, 20, 30, 40, 50];
    for id in ids {
        pool.execute(id);
    }
    let ran = pool.shutdown();
    let mut log: Vec<usize> = Vec::new();
    for id in ran {
        log.push(id);
    }
    assert_eq!(log.len(), 5);
    for id in ids {
        assert_eq!(log.iter().filter(|&&x| x == id).count(), 1);
    }
    assert_eq!(pool.stopped_count(), 3);
    assert_eq!(pool.pending_count(), 0);
}

#[test]
fn teardown_without_jobs_completes() {
    let mut pool: ThreadPool<usize> = ThreadPool::new(4);
    let ran = pool.shutdown();
    assert_eq!(ran.len(), 0);
    assert_eq!(pool.stopped_count(), 4);
    assert_eq!(pool.pending_count(), 0);
}

#[test]
fn zero_size_fails_construction() {
    let pool: Option<ThreadPool<usize>> = ThreadPool::try_new(0);
    assert!(pool.is_none());
}

#[test]
fn positive_size_constructs() {
    let pool: Option<ThreadPool<usize>> = ThreadPool::try_new(2);
    let pool = pool.expect("a positive size must construct a pool");
    assert_eq!(pool.worker_count(), 2);
    assert_eq!(pool.pending_count(), 0);
    assert_eq!(pool.stopped_count(), 0);
}

#[test]
fn two_jobs_complete_in_either_order() {
    // Two jobs on a pool of two workers: the workers race, so the driver
    // may complete them in either relative order; both must appear in the
    // log exactly once.
    let mut pool: ThreadPool<usize> = ThreadPool::new(2);
    pool.execute(1);
    pool.execute(2);
    let a = pool.step(0).expect("first message is a job");
    let b = pool.step(1).expect("second message is a job");
    let mut log: Vec<usize> = Vec::new();
    // Completion order opposite to submission order.
    log.push(b);
    log.push(a);
    assert_eq!(log.iter().filter(|&&x| x == 1).count(), 1);
    assert_eq!(log.iter().filter(|&&x| x == 2).count(), 1);
}

#[test]
fn teardown_of_three_sends_three_signals_and_stops_three() {
    let mut pool: ThreadPool<usize> = ThreadPool::new(3);
    pool.send_terminates();
    assert_eq!(pool.pending_count(), 3);
    assert!(pool.step(0).is_none());
    assert!(pool.step(1).is_none());
    assert!(pool.step(2).is_none());
    assert_eq!(pool.stopped_count(), 3);
    assert_eq!(pool.pending_count(), 0);
}

#[test]
fn shutdown_returns_with_all_workers_stopped() {
    let mut pool: ThreadPool<usize> = ThreadPool::new(3);
    pool.execute(7);
    let ran = pool.shutdown();
    assert_eq!(ran, vec![7]);
    assert_eq!(pool.stopped_count(), 3);
}

#[test]
fn blocked_worker_leaves_the_other_available() {
    // One job held outstanding on worker 0 stands for a job that never
    // returns; a second, independent job must still reach worker 1 and be
    // observed while the first is outstanding.
    let mut pool: ThreadPool<usize> = ThreadPool::new(2);
    pool.execute(1);
    let blocked = pool.step(0).expect("the blocking job is handed out");
    assert_eq!(blocked, 1);
    pool.execute(2);
    let second = pool.step(1).expect("the second job is handed out");
    let mut log: Vec<usize> = Vec::new();
    log.push(second);
    // The first job has still not completed; the second is already logged.
    assert_eq!(log, vec![2]);
}

#[test]
fn drain_preserves_submission_order() {
    let mut pool: ThreadPool<usize> = ThreadPool::new(2);
    for id in 0..6 {
        pool.execute(id);
    }
    let ran = pool.shutdown();
    assert_eq!(ran, vec![0, 1, 2, 3, 4, 5]);
}
