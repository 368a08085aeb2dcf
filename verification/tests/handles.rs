use channel_counter::{new, Outcome, Receiver, Sender};
use std::ops::Deref;

#[test]
fn dereference_yields_the_payload_of_creation() {
    let (s, r) = new(vec![1u8, 2, 3]);
    assert_eq!(*s, vec![1u8, 2, 3]);
    assert_eq!(*r, vec![1u8, 2, 3]);
    assert_eq!(s.deref(), r.deref());
    assert_eq!(s.len(), 3);
    assert_eq!(r[1], 2);
}

#[test]
fn dereference_through_acquired_handles() {
    let (s, r) = new(41u64);
    let s2 = s.acquire().unwrap();
    let s3 = s2.acquire().unwrap();
    let r2 = r.acquire().unwrap();
    assert_eq!(*s2, 41);
    assert_eq!(*s3, 41);
    assert_eq!(*r2, 41);
    assert_eq!(s.release(|_: &u64| true), Outcome::Remaining);
    assert_eq!(s2.release(|_: &u64| true), Outcome::Remaining);
    assert_eq!(*s3, 41);
    assert_eq!(s3.release(|_: &u64| true), Outcome::First(true));
    assert_eq!(*r, 41);
    assert_eq!(*r2, 41);
}

#[test]
fn dereference_shares_one_payload() {
    let (s, r) = new(String::from("shared"));
    let s2 = s.acquire().unwrap();
    assert!(std::ptr::eq(s.deref(), s2.deref()));
    assert!(std::ptr::eq(s.deref(), r.deref()));
    let (t, _q) = new(String::from("shared"));
    assert!(!std::ptr::eq(s.deref(), t.deref()));
}

#[test]
fn identity_is_reflexive() {
    let (s, r) = new(0u8);
    assert!(s == s);
    assert!(r == r);
    assert!(!(s != s));
}

#[test]
fn identity_is_symmetric_and_transitive() {
    let (s, r) = new(0u8);
    let s2 = s.acquire().unwrap();
    let s3 = s2.acquire().unwrap();
    assert!(s == s2);
    assert!(s2 == s);
    assert!(s2 == s3);
    assert!(s == s3);
    assert!(s3 == s);

    let r2 = r.acquire().unwrap();
    let r3 = r.acquire().unwrap();
    assert!(r2 == r3);
    assert!(r3 == r2);
    assert!(r == r3);
}

#[test]
fn identity_tells_records_apart() {
    let (s, r) = new(5u32);
    let (t, q) = new(5u32);
    assert_eq!(*s, *t);
    assert!(s != t);
    assert!(t != s);
    assert!(r != q);
    assert!(!(r == q));
    let t2 = t.acquire().unwrap();
    assert!(t2 == t);
    assert!(t2 != s);
}

#[test]
fn identity_survives_the_release_of_other_handles() {
    let (s, r) = new(9i32);
    let s2 = s.acquire().unwrap();
    let s3 = s.acquire().unwrap();
    assert_eq!(s.release(|_: &i32| false), Outcome::Remaining);
    assert!(s2 == s3);
    assert_eq!(r.release(|_: &i32| false), Outcome::First(false));
    assert!(s3 == s2);
}

fn assert_send<T: Send>(_: &T) {}

fn assert_sync<T: Sync>(_: &T) {}

#[test]
fn handles_can_cross_threads() {
    let (s, r): (Sender<u64>, Receiver<u64>) = new(1);
    assert_send(&s);
    assert_sync(&s);
    assert_send(&r);
    assert_sync(&r);
}
