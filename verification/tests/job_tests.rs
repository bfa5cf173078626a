use std::cell::Cell;
use std::rc::Rc;

use httpserver::job::Executor;

#[test]
fn closure_runs_once_through_execute() {
    let count: Cell<usize> = Cell::new(0);
    let job = || {
        count.set(count.get() + 1);
    };
    job.execute();
    assert_eq!(count.get(), 1);
}

#[test]
fn moved_capture_travels_with_the_job() {
    let log: Rc<Cell<usize>> = Rc::new(Cell::new(0));
    let held = Rc::clone(&log);
    let id: usize = 17;
    let job = move || {
        held.set(id);
    };
    job.execute();
    assert_eq!(log.get(), 17);
}
