use dropout::inner::Worker;
use dropout::Dropper;
use std::sync::atomic::{AtomicUsize, Ordering};
use std::sync::{Arc, Mutex};

/// A value that writes its tag into a shared log when it is destroyed.
struct Tagged {
    tag: u32,
    log: Arc<Mutex<Vec<u32>>>,
}

impl Drop for Tagged {
    fn drop(&mut self) {
        self.log.lock().unwrap().push(self.tag);
    }
}

fn new_log() -> Arc<Mutex<Vec<u32>>> {
    Arc::new(Mutex::new(Vec::new()))
}

fn logged(log: &Arc<Mutex<Vec<u32>>>) -> Vec<u32> {
    log.lock().unwrap().clone()
}

fn tagged(tag: u32, log: &Arc<Mutex<Vec<u32>>>) -> Tagged {
    Tagged { tag, log: log.clone() }
}

/// A worker context that runs when its handle is released: it empties the queue in the
/// thread that releases the last owner.
struct AtRelease(Option<Worker<Tagged>>);

impl Drop for AtRelease {
    fn drop(&mut self) {
        if let Some(worker) = self.0.take() {
            while worker.step() {}
        }
    }
}

fn at_release(worker: Worker<Tagged>) -> AtRelease {
    AtRelease(Some(worker))
}

/// A handle whose worker the test runs by hand, one turn at a time.
fn by_hand() -> (Dropper<Tagged, ()>, Worker<Tagged>) {
    let slot = Arc::new(Mutex::new(None));
    let keep = slot.clone();
    let dropper = Dropper::new(move |worker: Worker<Tagged>| {
        *keep.lock().unwrap() = Some(worker);
    });
    let worker = slot.lock().unwrap().take().unwrap();
    (dropper, worker)
}

#[test]
fn a_value_waits_in_the_queue_until_the_worker_takes_it() {
    let log = new_log();
    let (dropper, worker) = by_hand();
    dropper.dropout(tagged(7, &log));
    assert_eq!(logged(&log), Vec::<u32>::new());
    assert!(worker.step());
    assert_eq!(logged(&log), vec![7]);
}

#[test]
fn one_producer_has_its_values_destroyed_in_its_order() {
    let log = new_log();
    let (dropper, worker) = by_hand();
    for tag in 1..=50 {
        dropper.dropout(tagged(tag, &log));
    }
    for done in 1..=50 {
        assert!(worker.step());
        assert_eq!(logged(&log), (1..=done).collect::<Vec<u32>>());
    }
}

#[test]
fn the_worker_ends_once_the_queue_is_closed_and_empty() {
    let log = new_log();
    let (dropper, worker) = by_hand();
    dropper.dropout(tagged(1, &log));
    dropper.dropout(tagged(2, &log));
    drop(dropper);
    assert!(worker.step());
    assert!(worker.step());
    assert_eq!(logged(&log), vec![1, 2]);
    assert!(!worker.step());
    assert!(!worker.step());
    assert_eq!(logged(&log), vec![1, 2]);
}

#[test]
fn the_queue_stays_open_while_a_clone_lives() {
    let log = new_log();
    let (dropper, worker) = by_hand();
    let other = dropper.clone();
    drop(dropper);
    other.dropout(tagged(3, &log));
    assert!(worker.step());
    assert_eq!(logged(&log), vec![3]);
    drop(other);
    assert!(!worker.step());
}

#[test]
fn every_value_is_destroyed_exactly_once() {
    let log = new_log();
    let dropper = Dropper::new(at_release);
    let second = dropper.clone();
    let third = second.clone();
    for round in 0..20 {
        dropper.dropout(tagged(3 * round, &log));
        second.dropout(tagged(3 * round + 1, &log));
        third.dropout(tagged(3 * round + 2, &log));
    }
    drop(second);
    drop(dropper);
    drop(third);
    let mut seen = logged(&log);
    assert_eq!(seen.len(), 60);
    seen.sort();
    assert_eq!(seen, (0..60).collect::<Vec<u32>>());
}

#[test]
fn each_producer_keeps_its_order_among_the_others() {
    let log = new_log();
    let dropper = Dropper::new(at_release);
    let other = dropper.clone();
    dropper.dropout(tagged(10, &log));
    other.dropout(tagged(20, &log));
    other.dropout(tagged(21, &log));
    dropper.dropout(tagged(11, &log));
    dropper.dropout(tagged(12, &log));
    other.dropout(tagged(22, &log));
    drop(dropper);
    drop(other);
    let seen = logged(&log);
    let first: Vec<u32> = seen.iter().copied().filter(|tag| *tag < 20).collect();
    let second: Vec<u32> = seen.iter().copied().filter(|tag| *tag >= 20).collect();
    assert_eq!(first, vec![10, 11, 12]);
    assert_eq!(second, vec![20, 21, 22]);
    assert_eq!(seen, vec![10, 20, 21, 11, 12, 22]);
}

#[test]
fn cloning_starts_no_worker() {
    let started = Arc::new(AtomicUsize::new(0));
    let count = started.clone();
    let dropper = Dropper::new(move |worker: Worker<Tagged>| {
        count.fetch_add(1, Ordering::SeqCst);
        AtRelease(Some(worker))
    });
    assert_eq!(started.load(Ordering::SeqCst), 1);
    let clones: Vec<Dropper<Tagged, AtRelease>> = (0..16).map(|_| dropper.clone()).collect();
    let log = new_log();
    for (tag, clone) in clones.iter().enumerate() {
        clone.dropout(tagged(tag as u32, &log));
    }
    drop(clones);
    drop(dropper);
    assert_eq!(started.load(Ordering::SeqCst), 1);
    assert_eq!(logged(&log), (0..16).collect::<Vec<u32>>());
}

#[test]
fn releasing_the_last_owner_returns_after_the_backlog_is_destroyed() {
    let log = new_log();
    let dropper = Dropper::new(at_release);
    let other = dropper.clone();
    dropper.dropout(tagged(1, &log));
    dropper.dropout(tagged(2, &log));
    other.dropout(tagged(3, &log));
    drop(other);
    assert_eq!(logged(&log), Vec::<u32>::new());
    drop(dropper);
    assert_eq!(logged(&log), vec![1, 2, 3]);
}

#[test]
fn a_closed_receiving_side_has_the_value_destroyed_by_the_caller() {
    let log = new_log();
    let dropper: Dropper<Tagged, ()> = Dropper::new(|worker: Worker<Tagged>| drop(worker));
    dropper.dropout(tagged(5, &log));
    assert_eq!(logged(&log), vec![5]);
    dropper.clone().dropout(tagged(6, &log));
    assert_eq!(logged(&log), vec![5, 6]);
}

#[test]
fn a_worker_that_ends_early_takes_the_backlog_with_it() {
    let log = new_log();
    let (dropper, worker) = by_hand();
    dropper.dropout(tagged(1, &log));
    dropper.dropout(tagged(2, &log));
    dropper.dropout(tagged(3, &log));
    assert!(worker.step());
    assert_eq!(logged(&log), vec![1]);
    drop(worker);
    assert_eq!(logged(&log), vec![1, 2, 3]);
    dropper.dropout(tagged(4, &log));
    assert_eq!(logged(&log), vec![1, 2, 3, 4]);
    dropper.dropout(tagged(5, &log));
    assert_eq!(logged(&log), vec![1, 2, 3, 4, 5]);
}

#[test]
fn a_handle_without_values_tears_down_at_once() {
    let started = Arc::new(AtomicUsize::new(0));
    let count = started.clone();
    let dropper = Dropper::new(move |worker: Worker<Tagged>| {
        count.fetch_add(1, Ordering::SeqCst);
        AtRelease(Some(worker))
    });
    drop(dropper);
    assert_eq!(started.load(Ordering::SeqCst), 1);
}
