use std::sync::atomic::{AtomicUsize, Ordering};
use std::sync::Arc;
use std::task::{Wake, Waker};

use monoio::context::{delivered, spawn, spawn_with_priority, Context, Delivery};
use monoio::scheduler::{LocalScheduler, TaskPriority};
use monoio::uring::driver::IoUringDriver;
use monoio::uring::entry::Features;
use monoio::wakers::waker_channel;

struct Counter(AtomicUsize);

impl Wake for Counter {
    fn wake(self: Arc<Self>) {
        self.0.fetch_add(1, Ordering::SeqCst);
    }
}

fn counting_waker() -> (Arc<Counter>, Waker) {
    let counter = Arc::new(Counter(AtomicUsize::new(0)));
    (counter.clone(), Waker::from(counter))
}

#[test]
fn spawned_tasks_land_in_their_tier() {
    let mut cx: Context<&str, ()> = Context::new(7);
    spawn_with_priority(&mut cx, "compaction", TaskPriority::Background);
    spawn(&mut cx, "write");
    let t = cx.tasks.pop().expect("two tasks");
    assert_eq!(t.future, "write");
    assert_eq!(t.thread_id, 7);
    assert_eq!(t.scheduler.priority, TaskPriority::High);
    let t = cx.tasks.pop().expect("one task");
    assert_eq!(t.future, "compaction");
    assert_eq!(t.scheduler.priority, TaskPriority::Background);
    assert!(cx.tasks.is_empty());

    // A woken task goes back to the tier of its scheduler.
    let background = LocalScheduler { priority: TaskPriority::Background };
    background.schedule(&mut cx, t);
    assert!(cx.tasks.high_is_empty());
    let t = cx.tasks.pop().expect("one task");
    LocalScheduler::default().yield_now(&mut cx, t);
    assert!(!cx.tasks.high_is_empty());
}

#[test]
fn unpark_handles_are_looked_up_once() {
    let mut cx: Context<(), &str> = Context::new(0);
    assert!(!cx.knows_unpark_handle(3));
    assert_eq!(cx.unpark_thread(3, None), None);
    assert!(!cx.knows_unpark_handle(3));
    assert_eq!(cx.unpark_thread(3, Some("first")), Some(&"first"));
    assert!(cx.knows_unpark_handle(3));
    assert_eq!(cx.unpark_thread(3, Some("second")), Some(&"first"));
    assert_eq!(cx.unpark_thread(3, None), Some(&"first"));
    assert_eq!(cx.unpark_thread(4, Some("other")), Some(&"other"));
    assert_eq!(cx.unpark_thread(3, None), Some(&"first"));
}

#[test]
fn wakers_arrive_in_order() {
    let (tx, rx) = waker_channel();
    let mut cx: Context<(), ()> = Context::new(0);
    assert!(rx.try_recv().is_none());

    let (first, waker) = counting_waker();
    assert!(!cx.knows_waker_sender(1));
    assert_eq!(cx.send_waker(1, waker, Some(tx.duplicate())), Delivery::Sent);
    assert!(cx.knows_waker_sender(1));
    let (second, waker) = counting_waker();
    assert_eq!(cx.send_waker(1, waker, None), Delivery::Sent);

    rx.try_recv().expect("the first waker").wake();
    assert_eq!(first.0.load(Ordering::SeqCst), 1);
    assert_eq!(second.0.load(Ordering::SeqCst), 0);
    rx.try_recv().expect("the second waker").wake();
    assert_eq!(second.0.load(Ordering::SeqCst), 1);
    assert!(rx.try_recv().is_none());
}

#[test]
fn wakers_without_a_receiver_come_back() {
    let mut cx: Context<(), ()> = Context::new(0);
    let (_, waker) = counting_waker();
    assert_eq!(cx.send_waker(1, waker, None), Delivery::NoChannel);
    assert!(!cx.knows_waker_sender(1));
    assert!(cx.waker_sender(1, None).is_none());

    let (tx, rx) = waker_channel();
    drop(rx);
    let (count, waker) = counting_waker();
    let back = tx.send(waker).expect_err("nobody receives");
    back.wake();
    assert_eq!(count.0.load(Ordering::SeqCst), 1);
    let (_, waker) = counting_waker();
    assert_eq!(delivered(&Err(waker)), Delivery::Gone);
    assert_eq!(delivered(&Ok(())), Delivery::Sent);
    let (_, waker) = counting_waker();
    assert_eq!(cx.send_waker(1, waker, Some(tx)), Delivery::Gone);
    // The channel is remembered all the same.
    assert!(cx.knows_waker_sender(1));
}

#[test]
fn driver_receives_what_its_sender_sends() {
    let sync = Features { sync: true, poll_io: false, async_cancel: false, unstable: false };
    let (driver, sender) = IoUringDriver::<()>::new(sync, true, 5);
    assert_eq!(driver.thread_id, 5);
    assert_eq!(driver.num_operations(), 0);
    assert!(driver.inner.recv_waker().is_none());
    let (count, waker) = counting_waker();
    sender.expect("other threads may wake this one").send(waker).expect("the driver listens");
    driver.inner.recv_waker().expect("a waker").wake();
    assert_eq!(count.0.load(Ordering::SeqCst), 1);

    let alone = Features { sync: false, poll_io: false, async_cancel: false, unstable: false };
    let (driver, sender) = IoUringDriver::<()>::new(alone, false, 0);
    assert!(sender.is_none());
    assert!(driver.inner.recv_waker().is_none());
}
