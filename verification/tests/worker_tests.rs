use httpserver::worker::Message;
use httpserver::worker::Worker;
use httpserver::worker::WorkerState;

#[test]
fn new_worker_is_running() {
    let w = Worker::new(5);
    assert_eq!(w.id, 5);
    assert!(matches!(w.state, WorkerState::Running));
}

#[test]
fn job_message_hands_job_out_and_keeps_running() {
    let mut w = Worker::new(0);
    let job = w.receive(Message::RunJob(42u64));
    assert_eq!(job, Some(42));
    assert!(matches!(w.state, WorkerState::Running));
}

#[test]
fn terminate_message_stops_the_worker() {
    let mut w = Worker::new(0);
    let job: Option<u64> = w.receive(Message::Terminate);
    assert!(job.is_none());
    assert!(matches!(w.state, WorkerState::Stopped));
}

#[test]
fn worker_runs_jobs_until_terminated() {
    let mut w = Worker::new(1);
    assert_eq!(w.receive(Message::RunJob(1u32)), Some(1));
    assert_eq!(w.receive(Message::RunJob(2u32)), Some(2));
    assert!(w.receive(Message::<u32>::Terminate).is_none());
    assert!(matches!(w.state, WorkerState::Stopped));
}
