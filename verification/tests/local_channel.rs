use announcement::LocalAnnouncement;
use announcement::Receiver;

#[test]
fn new_channel_is_empty() {
    let ch: LocalAnnouncement<u32, &str> = LocalAnnouncement::new();
    assert_eq!(ch.generation(), 0);
    assert_eq!(ch.latest(), None);
}

#[test]
fn two_receivers_one_announce() {
    let mut ch: LocalAnnouncement<i32, &str> = LocalAnnouncement::new();
    let mut ra = ch.recv();
    let mut rb = ch.recv();
    assert_eq!(ch.poll(&mut ra, "a"), None);
    assert_eq!(ch.poll(&mut rb, "b"), None);
    assert_eq!(ch.announce(123), vec!["a", "b"]);
    assert_eq!(ch.poll(&mut ra, "a"), Some(123));
    assert_eq!(ch.poll(&mut rb, "b"), Some(123));
}

#[test]
fn announce_counts_generations_and_overwrites() {
    let mut ch: LocalAnnouncement<char, u8> = LocalAnnouncement::new();
    assert!(ch.announce('x').is_empty());
    assert_eq!(ch.generation(), 1);
    assert_eq!(ch.latest(), Some('x'));
    assert!(ch.announce('y').is_empty());
    assert!(ch.announce('z').is_empty());
    assert_eq!(ch.generation(), 3);
    assert_eq!(ch.latest(), Some('z'));
}

#[test]
fn receiver_targets_the_next_generation() {
    let mut ch: LocalAnnouncement<u8, u8> = LocalAnnouncement::new();
    assert_eq!(ch.recv().target_generation(), 1);
    ch.announce(0);
    ch.announce(0);
    assert_eq!(ch.recv().target_generation(), 3);
}

#[test]
fn no_stale_delivery() {
    let mut ch: LocalAnnouncement<u32, u8> = LocalAnnouncement::new();
    ch.announce(10);
    let mut r = ch.recv();
    for _ in 0..5 {
        assert_eq!(ch.poll(&mut r, 1), None);
    }
    assert_eq!(ch.announce(11), vec![1]);
    assert_eq!(ch.poll(&mut r, 1), Some(11));
}

#[test]
fn first_poll_registers_and_later_polls_do_not() {
    let mut ch: LocalAnnouncement<u32, u8> = LocalAnnouncement::new();
    let mut r = ch.recv();
    assert!(!r.is_registered());
    assert_eq!(ch.poll(&mut r, 1), None);
    assert!(r.is_registered());
    assert_eq!(ch.poll(&mut r, 2), None);
    assert_eq!(ch.poll(&mut r, 3), None);
    // Only the callback of the first poll is in the list.
    assert_eq!(ch.announce(0), vec![1]);
}

#[test]
fn announce_before_first_poll() {
    let mut ch: LocalAnnouncement<u32, u8> = LocalAnnouncement::new();
    let mut r = ch.recv();
    assert!(ch.announce(4).is_empty());
    assert_eq!(ch.poll(&mut r, 1), None);
    assert_eq!(ch.poll(&mut r, 1), Some(4));
}

#[test]
fn fan_out_keeps_registration_order() {
    let mut ch: LocalAnnouncement<u64, usize> = LocalAnnouncement::new();
    let mut receivers = Vec::new();
    for i in 0..10usize {
        let mut r = ch.recv();
        assert_eq!(ch.poll(&mut r, i), None);
        receivers.push(r);
    }
    assert_eq!(ch.announce(99), (0..10).collect::<Vec<usize>>());
    // The order of the polls does not matter.
    for (i, r) in receivers.iter_mut().enumerate().rev() {
        assert_eq!(ch.poll(r, i), Some(99));
    }
}

#[test]
fn lossy_overwrite() {
    let mut ch: LocalAnnouncement<u32, u8> = LocalAnnouncement::new();
    let mut r = ch.recv();
    assert_eq!(ch.poll(&mut r, 1), None);
    assert_eq!(ch.announce(1), vec![1]);
    assert!(ch.announce(2).is_empty());
    assert_eq!(ch.poll(&mut r, 1), Some(2));
}

#[test]
fn cancel_gives_the_callback_back() {
    let mut ch: LocalAnnouncement<u32, &str> = LocalAnnouncement::new();
    let mut ra = ch.recv();
    let mut rb = ch.recv();
    let mut rc = ch.recv();
    assert_eq!(ch.poll(&mut ra, "a"), None);
    assert_eq!(ch.poll(&mut rb, "b"), None);
    assert_eq!(ch.poll(&mut rc, "c"), None);
    assert_eq!(ch.cancel(rb), Some("b"));
    assert_eq!(ch.announce(3), vec!["a", "c"]);
    assert_eq!(ch.poll(&mut ra, "a"), Some(3));
    assert_eq!(ch.poll(&mut rc, "c"), Some(3));
}

#[test]
fn cancel_without_registration_or_after_waking_gives_nothing() {
    let mut ch: LocalAnnouncement<u32, &str> = LocalAnnouncement::new();
    let unpolled = ch.recv();
    assert_eq!(ch.cancel(unpolled), None);

    let mut woken = ch.recv();
    assert_eq!(ch.poll(&mut woken, "w"), None);
    assert_eq!(ch.announce(1), vec!["w"]);

    // `later` gets the place in the table that `woken` had.
    let mut later = ch.recv();
    assert_eq!(ch.poll(&mut later, "l"), None);
    assert_eq!(ch.cancel(woken), None);
    assert_eq!(ch.announce(2), vec!["l"]);
}

#[test]
fn counter_at_its_maximum_lets_a_stale_message_through() {
    // A receive operation that starts while the counter shows `u32::MAX` waits
    // for generation 0, which every generation has reached.
    let mut ch: LocalAnnouncement<u32, u8> = LocalAnnouncement::new();
    ch.announce(8);
    let mut r = Receiver::begin(u32::MAX);
    assert_eq!(r.target_generation(), 0);
    assert_eq!(ch.poll(&mut r, 1), None);
    assert_eq!(ch.poll(&mut r, 1), Some(8));
}

#[test]
fn woken_receiver_that_finds_nothing_is_not_registered_again() {
    // The operation started just before the counter wrapped: it waits for
    // `u32::MAX`, and the channel has wrapped to a small generation.
    let mut ch: LocalAnnouncement<u32, u8> = LocalAnnouncement::new();
    let mut r = Receiver::begin(u32::MAX - 1);
    assert_eq!(r.target_generation(), u32::MAX);
    assert_eq!(ch.poll(&mut r, 1), None);

    // It is woken ...
    assert_eq!(ch.announce(5), vec![1]);
    // ... finds the counter short of its target ...
    assert_eq!(ch.poll(&mut r, 1), None);
    // ... and no later announce wakes it: it is in no list.
    assert!(ch.announce(6).is_empty());
    assert!(ch.announce(7).is_empty());
    assert_eq!(ch.poll(&mut r, 1), None);
    assert_eq!(ch.cancel(r), None);
}
