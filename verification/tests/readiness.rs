use monoio_quiche::readiness::{Readiness, StreamIo};
use std::sync::atomic::{AtomicUsize, Ordering};
use std::sync::Arc;
use std::task::{Wake, Waker};

struct Task {
    wakes: AtomicUsize,
}

impl Wake for Task {
    fn wake(self: Arc<Self>) {
        self.wakes.fetch_add(1, Ordering::SeqCst);
    }
}

fn task() -> (Arc<Task>, Waker) {
    let task = Arc::new(Task { wakes: AtomicUsize::new(0) });
    (task.clone(), Waker::from(task))
}

fn wakes(task: &Arc<Task>) -> usize {
    task.wakes.load(Ordering::SeqCst)
}

#[test]
fn new_flag_has_no_waker() {
    let up = Readiness::new(true);
    assert!(up.ready);
    assert!(up.waker.is_none());
    let down = Readiness::new(false);
    assert!(!down.ready);
    assert!(down.waker.is_none());
}

#[test]
fn raised_flag_keeps_no_waker() {
    let (task, waker) = task();
    let mut flag = Readiness::new(true);
    assert!(flag.poll(&waker));
    assert!(flag.waker.is_none());
    assert_eq!(wakes(&task), 0);
}

#[test]
fn lowered_flag_keeps_a_clone_of_the_waker() {
    let (task, waker) = task();
    let mut flag = Readiness::new(false);
    assert!(!flag.poll(&waker));
    assert!(!flag.ready);
    let woken = flag.raise().unwrap();
    woken.wake();
    assert_eq!(wakes(&task), 1);
    assert!(flag.ready);
    assert!(flag.poll(&waker));
}

#[test]
fn the_last_task_to_poll_is_the_one_that_waits() {
    let (first, first_waker) = task();
    let (second, second_waker) = task();
    let mut flag = Readiness::new(false);
    assert!(!flag.poll(&first_waker));
    assert!(!flag.poll(&second_waker));
    flag.raise().unwrap().wake();
    assert_eq!(wakes(&first), 0);
    assert_eq!(wakes(&second), 1);
}

#[test]
fn polling_again_keeps_one_waker() {
    let (task, waker) = task();
    let mut flag = Readiness::new(false);
    assert!(!flag.poll(&waker));
    assert!(!flag.poll(&waker));
    flag.raise().unwrap().wake();
    assert!(flag.raise().is_none());
    assert_eq!(wakes(&task), 1);
}

#[test]
fn lowering_makes_a_flag_wait_again() {
    let (_task, waker) = task();
    let mut flag = Readiness::new(true);
    flag.lower();
    assert!(!flag.poll(&waker));
    assert!(flag.waker.is_some());
}

#[test]
fn a_readable_stream_wakes_its_reader() {
    let (four, four_waker) = task();
    let (eight, eight_waker) = task();
    let mut streams = StreamIo::new();
    streams.register(4);
    streams.register(8);
    assert!(!streams.poll(4, &four_waker));
    assert!(!streams.poll(8, &eight_waker));
    let woken = streams.raise(&vec![4]);
    assert_eq!(woken.len(), 1);
    for waker in woken {
        waker.wake();
    }
    assert_eq!(wakes(&four), 1);
    assert_eq!(wakes(&eight), 0);
    assert!(streams.poll(4, &four_waker));
    assert!(!streams.poll(8, &eight_waker));
}

#[test]
fn readers_are_woken_in_the_order_of_the_streams() {
    let (four, four_waker) = task();
    let (eight, eight_waker) = task();
    let mut streams = StreamIo::new();
    streams.register(4);
    streams.register(8);
    streams.poll(4, &four_waker);
    streams.poll(8, &eight_waker);
    let mut woken = streams.raise(&vec![8, 0, 4, 8]);
    assert_eq!(woken.len(), 2);
    woken.remove(0).wake();
    assert_eq!((wakes(&four), wakes(&eight)), (0, 1));
    woken.remove(0).wake();
    assert_eq!((wakes(&four), wakes(&eight)), (1, 1));
}

#[test]
fn nobody_is_woken_twice() {
    let (_task, waker) = task();
    let mut streams = StreamIo::new();
    streams.register(4);
    streams.poll(4, &waker);
    assert_eq!(streams.raise(&vec![4]).len(), 1);
    assert_eq!(streams.raise(&vec![4]).len(), 0);
    assert!(streams.poll(4, &waker));
}

#[test]
fn nothing_is_noted_before_anybody_has_waited() {
    let (_task, waker) = task();
    let mut streams = StreamIo::new();
    assert!(streams.is_empty());
    assert!(streams.raise(&vec![4]).is_empty());
    assert!(streams.is_empty());
    streams.register(4);
    assert!(!streams.is_empty());
    assert!(!streams.poll(4, &waker));
}

#[test]
fn a_stream_may_be_ready_before_it_is_waited_for() {
    let (_task, waker) = task();
    let mut streams = StreamIo::new();
    streams.register(4);
    assert!(streams.raise(&vec![8]).is_empty());
    streams.register(8);
    assert!(streams.poll(8, &waker));
    assert!(!streams.poll(4, &waker));
}

#[test]
fn registering_again_keeps_the_flag() {
    let (_task, waker) = task();
    let mut streams = StreamIo::new();
    streams.register(4);
    streams.raise(&vec![4]);
    streams.register(4);
    assert!(streams.poll(4, &waker));
}
