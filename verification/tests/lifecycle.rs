use channel_counter::{new, Outcome};
use std::cell::Cell;
use std::sync::atomic::{AtomicUsize, Ordering};
use std::sync::Arc;

/// A payload that counts how often it is destroyed.
struct Probe {
    label: u32,
    drops: Arc<AtomicUsize>,
}

impl Drop for Probe {
    fn drop(&mut self) {
        self.drops.fetch_add(1, Ordering::SeqCst);
    }
}

fn probe(label: u32) -> (Probe, Arc<AtomicUsize>) {
    let drops = Arc::new(AtomicUsize::new(0));
    (Probe { label, drops: drops.clone() }, drops)
}

#[test]
fn sole_handles_released_sender_first() {
    let (payload, drops) = probe(7);
    let (s, r) = new(payload);
    let sender_calls = Cell::new(0u32);
    let receiver_calls = Cell::new(0u32);

    let first = s.release(|p: &Probe| {
        sender_calls.set(sender_calls.get() + 1);
        p.label == 7
    });
    assert_eq!(first, Outcome::First(true));
    assert_eq!(sender_calls.get(), 1);
    assert_eq!(receiver_calls.get(), 0);
    assert_eq!(drops.load(Ordering::SeqCst), 0);
    assert_eq!(r.label, 7);

    let second = r.release(|p: &Probe| {
        receiver_calls.set(receiver_calls.get() + 1);
        p.label != 7
    });
    assert_eq!(second, Outcome::Second(false));
    assert_eq!(sender_calls.get(), 1);
    assert_eq!(receiver_calls.get(), 1);
    assert_eq!(drops.load(Ordering::SeqCst), 1);
}

#[test]
fn sole_handles_released_receiver_first() {
    let (payload, drops) = probe(8);
    let (s, r) = new(payload);
    let calls = Cell::new(0u32);

    let first = r.release(|_: &Probe| {
        calls.set(calls.get() + 1);
        false
    });
    assert_eq!(first, Outcome::First(false));
    assert_eq!(calls.get(), 1);
    assert_eq!(drops.load(Ordering::SeqCst), 0);
    assert_eq!(s.label, 8);

    let second = s.release(|_: &Probe| {
        calls.set(calls.get() + 10);
        true
    });
    assert_eq!(second, Outcome::Second(true));
    assert_eq!(calls.get(), 11);
    assert_eq!(drops.load(Ordering::SeqCst), 1);
}

#[test]
fn three_senders_disconnect_on_the_third_release() {
    let (payload, drops) = probe(1);
    let (s1, r) = new(payload);
    let s2 = s1.acquire().unwrap();
    let s3 = s2.acquire().unwrap();
    let calls = Cell::new(0u32);
    let disconnect = |_: &Probe| {
        calls.set(calls.get() + 1);
        true
    };

    assert_eq!(s1.release(disconnect), Outcome::Remaining);
    assert_eq!(calls.get(), 0);
    assert_eq!(s3.release(disconnect), Outcome::Remaining);
    assert_eq!(calls.get(), 0);
    assert_eq!(s2.release(disconnect), Outcome::First(true));
    assert_eq!(calls.get(), 1);

    assert_eq!(drops.load(Ordering::SeqCst), 0);
    assert_eq!(r.label, 1);
    assert_eq!(r.release(|_: &Probe| true), Outcome::Second(true));
    assert_eq!(drops.load(Ordering::SeqCst), 1);
}

#[test]
fn three_receivers_disconnect_on_the_third_release() {
    let (payload, drops) = probe(2);
    let (s, r1) = new(payload);
    let r2 = r1.acquire().unwrap();
    let r3 = r1.acquire().unwrap();
    let calls = Cell::new(0u32);
    let disconnect = |_: &Probe| {
        calls.set(calls.get() + 1);
        false
    };

    assert_eq!(r2.release(disconnect), Outcome::Remaining);
    assert_eq!(r1.release(disconnect), Outcome::Remaining);
    assert_eq!(calls.get(), 0);
    assert_eq!(r3.release(disconnect), Outcome::First(false));
    assert_eq!(calls.get(), 1);
    assert_eq!(drops.load(Ordering::SeqCst), 0);
    assert_eq!(s.release(|_: &Probe| false), Outcome::Second(false));
    assert_eq!(drops.load(Ordering::SeqCst), 1);
}

#[test]
fn hundred_handles_on_each_side_interleaved() {
    let (payload, drops) = probe(3);
    let (s, r) = new(payload);
    let sender_calls = Cell::new(0u32);
    let receiver_calls = Cell::new(0u32);
    let on_senders = |_: &Probe| {
        sender_calls.set(sender_calls.get() + 1);
        true
    };
    let on_receivers = |_: &Probe| {
        receiver_calls.set(receiver_calls.get() + 1);
        true
    };

    let mut senders = Vec::new();
    let mut receivers = Vec::new();
    for round in 0..100u32 {
        senders.push(s.acquire().unwrap());
        receivers.push(r.acquire().unwrap());
        // Every third round gives back the oldest handle of each side at once.
        if round % 3 == 2 {
            assert_eq!(senders.remove(0).release(on_senders), Outcome::Remaining);
            assert_eq!(receivers.remove(0).release(on_receivers), Outcome::Remaining);
        }
    }
    while let Some(handle) = receivers.pop() {
        assert_eq!(handle.release(on_receivers), Outcome::Remaining);
        if let Some(handle) = senders.pop() {
            assert_eq!(handle.release(on_senders), Outcome::Remaining);
        }
    }
    assert!(senders.is_empty());
    assert_eq!(sender_calls.get(), 0);
    assert_eq!(receiver_calls.get(), 0);
    assert_eq!(drops.load(Ordering::SeqCst), 0);

    assert_eq!(r.release(on_receivers), Outcome::First(true));
    assert_eq!(s.release(on_senders), Outcome::Second(true));
    assert_eq!(sender_calls.get(), 1);
    assert_eq!(receiver_calls.get(), 1);
    assert_eq!(drops.load(Ordering::SeqCst), 1);
}

#[test]
fn one_side_finishes_while_the_other_keeps_acquiring() {
    let (payload, drops) = probe(4);
    let (s, r) = new(payload);
    assert_eq!(s.release(|_: &Probe| true), Outcome::First(true));

    let r2 = r.acquire().unwrap();
    let r3 = r2.acquire().unwrap();
    assert_eq!(r3.label, 4);
    assert_eq!(r.release(|_: &Probe| true), Outcome::Remaining);
    assert_eq!(r3.release(|_: &Probe| true), Outcome::Remaining);
    assert_eq!(drops.load(Ordering::SeqCst), 0);
    assert_eq!(r2.label, 4);
    assert_eq!(r2.release(|_: &Probe| true), Outcome::Second(true));
    assert_eq!(drops.load(Ordering::SeqCst), 1);
}

#[test]
fn disconnect_sees_the_payload() {
    let (s, r) = new(String::from("queue"));
    let seen = Cell::new(0usize);
    let outcome = s.release(|p: &String| {
        seen.set(p.len());
        p == "queue"
    });
    assert_eq!(outcome, Outcome::First(true));
    assert_eq!(seen.get(), 5);
    let outcome = r.release(|p: &String| p.is_empty());
    assert_eq!(outcome, Outcome::Second(false));
}

#[test]
fn payload_is_destroyed_once_without_any_release() {
    let (payload, drops) = probe(5);
    let (s, r) = new(payload);
    let s2 = s.acquire().unwrap();
    drop(s);
    drop(r);
    assert_eq!(drops.load(Ordering::SeqCst), 0);
    assert_eq!(s2.label, 5);
    drop(s2);
    assert_eq!(drops.load(Ordering::SeqCst), 1);
}
