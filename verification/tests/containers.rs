use door_guard::containers::Innable;
use door_guard::poller::PollThreadState;
use door_guard::session::AuthLevel;
use door_guard::value_ref::ValueRef;
use std::rc::Rc;
use std::sync::Arc;

#[test]
fn in_arc_wraps_the_value() {
    let shared: Arc<u32> = 7u32.in_arc();
    assert_eq!(*shared, 7);
    assert_eq!(Arc::strong_count(&shared), 1);
}

#[test]
fn in_rc_wraps_the_value() {
    let shared: Rc<String> = "port".to_string().in_rc();
    assert_eq!(shared.as_str(), "port");
    assert_eq!(Rc::strong_count(&shared), 1);
}

#[test]
fn in_mutex_wraps_the_value_unlocked() {
    let lock = PollThreadState::new().in_mutex();
    assert!(!lock.is_poisoned());
    let mut guard = lock.try_lock().unwrap();
    assert!(guard.keep_alive);
    guard.stop();
    drop(guard);
    assert!(!lock.lock().unwrap().keep_alive);
}

#[test]
fn wrappers_chain() {
    let shared = 5u8.in_mutex().in_arc();
    let other = Arc::clone(&shared);
    *other.lock().unwrap() += 1;
    assert_eq!(*shared.lock().unwrap(), 6);
}

#[test]
fn modify_hands_out_an_editable_value() {
    let mut flag = false;
    let access = ValueRef::for_level(AuthLevel::Modify, &mut flag);
    assert!(access.is_editable());
    match access {
        ValueRef::Editable(target) => *target = true,
        ValueRef::Readonly(_) => unreachable!(),
    }
    assert!(flag);
}

#[test]
fn view_hands_out_a_read_only_value() {
    let mut flag = true;
    let access = ValueRef::for_level(AuthLevel::View, &mut flag);
    assert!(!access.is_editable());
    match access {
        ValueRef::Editable(_) => unreachable!(),
        ValueRef::Readonly(source) => assert!(*source),
    }
    assert!(flag);
}
