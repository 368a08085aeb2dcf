use channel_counter::{grant, last_handle, CountOverflow, Outcome, Side};

#[test]
fn grant_within_the_limit() {
    assert_eq!(grant(0), Ok(()));
    assert_eq!(grant(1), Ok(()));
    assert_eq!(grant(1000), Ok(()));
    assert_eq!(grant(isize::MAX as usize - 1), Ok(()));
    assert_eq!(grant(isize::MAX as usize), Ok(()));
}

#[test]
fn grant_refuses_above_the_limit() {
    assert_eq!(grant(isize::MAX as usize + 1), Err(CountOverflow));
    assert_eq!(grant(isize::MAX as usize + 2), Err(CountOverflow));
    assert_eq!(grant(usize::MAX), Err(CountOverflow));
}

#[test]
fn last_handle_only_at_one() {
    assert!(last_handle(1));
    assert!(!last_handle(0));
    assert!(!last_handle(2));
    assert!(!last_handle(3));
    assert!(!last_handle(isize::MAX as usize));
    assert!(!last_handle(usize::MAX));
}

#[test]
fn outcome_of_the_last_handle() {
    assert_eq!(Outcome::of_last(true, false), Outcome::First(true));
    assert_eq!(Outcome::of_last(false, false), Outcome::First(false));
    assert_eq!(Outcome::of_last(true, true), Outcome::Second(true));
    assert_eq!(Outcome::of_last(false, true), Outcome::Second(false));
}

#[test]
fn outcomes_differ() {
    assert_ne!(Outcome::Remaining, Outcome::First(false));
    assert_ne!(Outcome::First(true), Outcome::Second(true));
    assert_ne!(Outcome::First(true), Outcome::First(false));
    assert_ne!(Side::Senders, Side::Receivers);
}
