use message_bridge::{winproc, Action, ContextSlot, Phase, Registration};
use message_bridge::{WM_NULL, WM_USER_CREATE};

fn pending() -> Registration {
    let mut registration = Registration::new();
    let mut slot = ContextSlot::install(());
    assert_eq!(winproc(&mut registration, &mut slot, WM_USER_CREATE), Action::Register);
    registration
}

#[test]
fn new_registration_is_untouched() {
    let registration = Registration::new();
    assert_eq!(registration.phase(), Phase::Unregistered);
    assert_eq!(registration.dynamic_id(), None);
    assert!(!registration.matches(0));
    assert!(!registration.matches(0xC000));
}

#[test]
fn answer_is_dropped_unless_pending() {
    let mut registration = Registration::new();
    assert!(!registration.record(0xC000));
    assert_eq!(registration.phase(), Phase::Unregistered);
}

#[test]
fn answer_is_written_once() {
    let mut registration = pending();
    assert!(registration.record(0xC0AB));
    assert_eq!(registration.phase(), Phase::Armed(0xC0AB));
    assert_eq!(registration.dynamic_id(), Some(0xC0AB));
    assert!(!registration.record(0xC0CD));
    assert_eq!(registration.phase(), Phase::Armed(0xC0AB));
    assert!(!registration.record(WM_NULL));
    assert_eq!(registration.dynamic_id(), Some(0xC0AB));
}

#[test]
fn zero_answer_degrades_for_good() {
    let mut registration = pending();
    assert!(registration.record(WM_NULL));
    assert_eq!(registration.phase(), Phase::Degraded);
    assert_eq!(registration.dynamic_id(), None);
    assert!(!registration.matches(WM_NULL));
    assert!(!registration.record(0xC0AB));
    assert_eq!(registration.phase(), Phase::Degraded);
}

#[test]
fn matches_the_recorded_number_only() {
    let mut registration = pending();
    assert!(!registration.matches(0xFFFF));
    registration.record(0xFFFF);
    assert!(registration.matches(0xFFFF));
    assert!(!registration.matches(0xFFFE));
    assert!(!registration.matches(0));
}
