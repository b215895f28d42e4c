use announcement::Announcement;
use std::sync::atomic::{AtomicUsize, Ordering};
use std::sync::Arc;
use std::task::{Wake, Waker};

struct Counter {
    wakes: AtomicUsize,
}

impl Wake for Counter {
    fn wake(self: Arc<Self>) {
        self.wakes.fetch_add(1, Ordering::SeqCst);
    }
}

fn counter() -> (Arc<Counter>, Waker) {
    let counter = Arc::new(Counter { wakes: AtomicUsize::new(0) });
    let waker = Waker::from(counter.clone());
    (counter, waker)
}

fn wakes(counter: &Arc<Counter>) -> usize {
    counter.wakes.load(Ordering::SeqCst)
}

#[test]
fn test() {
    let acc = Announcement::new();
    let (ca, wa) = counter();
    let (cb, wb) = counter();

    let mut ra = acc.recv();
    let mut rb = acc.recv();
    assert_eq!(acc.poll(&mut ra, &wa), None);
    assert_eq!(acc.poll(&mut rb, &wb), None);

    acc.announce(123);
    assert_eq!(wakes(&ca), 1);
    assert_eq!(wakes(&cb), 1);

    assert_eq!((acc.poll(&mut ra, &wa), acc.poll(&mut rb, &wb)), (Some(123), Some(123)));
}

#[test]
fn receive_is_not_satisfied_by_an_earlier_announce() {
    let acc = Announcement::new();
    let (c, w) = counter();
    acc.announce(1u8);

    let mut r = acc.recv();
    assert_eq!(r.target_generation(), 2);
    assert_eq!(acc.poll(&mut r, &w), None);
    assert_eq!(acc.poll(&mut r, &w), None);
    assert_eq!(acc.poll(&mut r, &w), None);
    assert_eq!(wakes(&c), 0);

    acc.announce(2u8);
    assert_eq!(wakes(&c), 1);
    assert_eq!(acc.poll(&mut r, &w), Some(2));
}

#[test]
fn single_announce_after_receive_is_delivered() {
    let acc = Announcement::new();
    let (c, w) = counter();
    let mut r = acc.recv();
    assert!(!r.is_registered());
    assert_eq!(acc.poll(&mut r, &w), None);
    assert!(r.is_registered());
    acc.announce(-7i64);
    assert_eq!(wakes(&c), 1);
    assert_eq!(acc.poll(&mut r, &w), Some(-7));
    // The slot keeps the message: polling again yields it again.
    assert_eq!(acc.poll(&mut r, &w), Some(-7));
}

#[test]
fn announce_before_first_poll_is_seen_at_second_poll() {
    let acc = Announcement::new();
    let (c, w) = counter();
    let mut r = acc.recv();
    acc.announce(5u32);
    // The first poll only registers, whatever the slot holds.
    assert_eq!(acc.poll(&mut r, &w), None);
    assert_eq!(wakes(&c), 0);
    assert_eq!(acc.poll(&mut r, &w), Some(5));
}

#[test]
fn all_waiters_get_the_message() {
    let acc = Announcement::new();
    let mut waiting = Vec::new();
    for _ in 0..16 {
        let (c, w) = counter();
        let mut r = acc.recv();
        assert_eq!(acc.poll(&mut r, &w), None);
        waiting.push((c, w, r));
    }
    acc.announce(77u16);
    for (c, w, r) in waiting.iter_mut() {
        assert_eq!(wakes(c), 1);
        assert_eq!(acc.poll(r, w), Some(77));
    }
}

#[test]
fn second_of_two_announces_is_delivered() {
    let acc = Announcement::new();
    let (c, w) = counter();
    let mut r = acc.recv();
    assert_eq!(acc.poll(&mut r, &w), None);
    acc.announce(1u32);
    acc.announce(2u32);
    // Woken by the first announce only: the second found the list empty.
    assert_eq!(wakes(&c), 1);
    assert_eq!(acc.poll(&mut r, &w), Some(2));
}

#[test]
fn cancelled_receiver_is_never_woken() {
    let acc = Announcement::new();
    let (kept, wk) = counter();
    let (dropped, wd) = counter();
    let mut rk = acc.recv();
    let mut rd = acc.recv();
    assert_eq!(acc.poll(&mut rd, &wd), None);
    assert_eq!(acc.poll(&mut rk, &wk), None);

    acc.cancel(rd);
    acc.announce(9u32);
    acc.announce(10u32);
    assert_eq!(wakes(&dropped), 0);
    assert_eq!(wakes(&kept), 1);
    assert_eq!(acc.poll(&mut rk, &wk), Some(10));
}

#[test]
fn cancel_releases_the_waker() {
    let acc: Announcement<u8> = Announcement::new();
    let (c, w) = counter();
    let mut r = acc.recv();
    assert_eq!(acc.poll(&mut r, &w), None);
    // One count for `c`, one for `w`, one for the clone in the waiter list.
    assert_eq!(Arc::strong_count(&c), 3);
    acc.cancel(r);
    assert_eq!(Arc::strong_count(&c), 2);
}

#[test]
fn cancel_of_an_unregistered_or_woken_receiver_changes_nothing() {
    let acc = Announcement::new();
    let (c, w) = counter();
    let (other, wo) = counter();

    let never_polled = acc.recv();
    acc.cancel(never_polled);

    let mut woken = acc.recv();
    assert_eq!(acc.poll(&mut woken, &w), None);
    acc.announce(1u32);
    assert_eq!(wakes(&c), 1);

    // A new waiter takes the place in the table that `woken` had.
    let mut later = acc.recv();
    assert_eq!(acc.poll(&mut later, &wo), None);
    acc.cancel(woken);
    acc.announce(2u32);
    assert_eq!(wakes(&other), 1);
    assert_eq!(wakes(&c), 1);
    assert_eq!(acc.poll(&mut later, &wo), Some(2));
}

fn shareable<C: Send + Sync>(_: &C) -> bool {
    true
}

#[test]
fn channel_can_be_shared_between_threads() {
    let acc: Announcement<u64> = Announcement::new();
    assert!(shareable(&acc));
    let shared = Arc::new(acc);
    let other = shared.clone();
    let (c, w) = counter();
    let mut r = shared.recv();
    assert_eq!(shared.poll(&mut r, &w), None);
    other.announce(41);
    assert_eq!(wakes(&c), 1);
    assert_eq!(shared.poll(&mut r, &w), Some(41));
}
