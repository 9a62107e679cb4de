use message_bridge::{winproc, Action, ContextSlot, Registration, WM_DESTROY};
use std::rc::Rc;

#[test]
fn installed_slot_lends_its_proxy() {
    let slot = ContextSlot::install(41u32);
    assert!(slot.is_live());
    assert_eq!(slot.proxy(), Some(&41u32));
    assert_eq!(slot.proxy(), Some(&41u32));
}

#[test]
fn slot_keeps_the_proxy_it_was_given() {
    let proxy = Rc::new(5u8);
    let slot = ContextSlot::install(Rc::clone(&proxy));
    assert_eq!(Rc::strong_count(&proxy), 2);
    assert!(Rc::ptr_eq(slot.proxy().unwrap(), &proxy));
    drop(slot);
    assert_eq!(Rc::strong_count(&proxy), 1);
}

#[test]
fn destruction_hands_the_proxy_out_once() {
    let proxy = Rc::new(5u8);
    let mut slot = ContextSlot::install(Rc::clone(&proxy));
    let mut registration = Registration::new();
    match winproc(&mut registration, &mut slot, WM_DESTROY) {
        Action::Release(released) => assert!(Rc::ptr_eq(&released, &proxy)),
        other => panic!("expected the release, got {:?}", other),
    }
    assert_eq!(Rc::strong_count(&proxy), 1);
    assert!(!slot.is_live());
    assert!(slot.proxy().is_none());
    assert_eq!(winproc(&mut registration, &mut slot, WM_DESTROY), Action::Delegate);
    assert_eq!(Rc::strong_count(&proxy), 1);
}
