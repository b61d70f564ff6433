use state_notifier::error::{listener_outcome, IError};
use state_notifier::notifier::StateNotifier;
use std::cell::RefCell;
use std::rc::Rc;

type Listener = Box<dyn Fn(&u32) -> Result<(), String>>;
type Handler = Box<dyn Fn(&String)>;
type Notifier = StateNotifier<u32, Listener, Handler>;

fn recorder(log: &Rc<RefCell<Vec<(char, u32)>>>, tag: char) -> Listener {
    let log = log.clone();
    Box::new(move |v: &u32| {
        log.borrow_mut().push((tag, *v));
        Ok(())
    })
}

fn failing(message: &str) -> Listener {
    let message = message.to_string();
    Box::new(move |_: &u32| Err(message.clone()))
}

#[test]
fn initial_value_is_returned() {
    let n: Notifier = StateNotifier::new(7);
    assert_eq!(*n.state().ok().unwrap(), 7);
    assert!(n.mounted());
}

#[test]
fn equal_value_notifies_nobody() {
    let log = Rc::new(RefCell::new(vec![]));
    let mut n: Notifier = StateNotifier::new(3);
    n.add_listener(recorder(&log, 'a'), false).ok().unwrap();
    assert!(n.set_state(3).is_ok());
    assert!(log.borrow().is_empty());
    assert_eq!(*n.state().ok().unwrap(), 3);
}

#[test]
fn both_listeners_see_new_value() {
    let log = Rc::new(RefCell::new(vec![]));
    let mut n: Notifier = StateNotifier::new(0);
    n.add_listener(recorder(&log, 'a'), false).ok().unwrap();
    n.add_listener(recorder(&log, 'b'), false).ok().unwrap();
    assert!(n.set_state(1).is_ok());
    assert_eq!(*log.borrow(), vec![('a', 1), ('b', 1)]);
    assert_eq!(*n.state().ok().unwrap(), 1);
}

#[test]
fn failing_listener_still_commits() {
    let mut n: Notifier = StateNotifier::new(0);
    n.add_listener(failing("boom"), false).ok().unwrap();
    match n.set_state(5) {
        Err(IError::StateNotifierListenerError { errors, .. }) => assert_eq!(errors, "boom"),
        _ => panic!("expected a listener error"),
    }
    assert_eq!(*n.state().ok().unwrap(), 5);
}

#[test]
fn failures_are_joined_by_newlines() {
    let mut n: Notifier = StateNotifier::with_value_type(0, "u32".to_string());
    n.add_listener(failing("first"), false).ok().unwrap();
    n.add_listener(failing("second"), false).ok().unwrap();
    match n.set_state(9) {
        Err(IError::StateNotifierListenerError { errors, state_notifier }) => {
            assert_eq!(errors, "first\nsecond");
            assert_eq!(state_notifier, "u32");
        }
        _ => panic!("expected a listener error"),
    }
}

#[test]
fn error_handler_receives_each_failure() {
    let seen = Rc::new(RefCell::new(vec![]));
    let mut n: Notifier = StateNotifier::new(0);
    let sink = seen.clone();
    n.set_on_error(Box::new(move |m: &String| sink.borrow_mut().push(m.clone())));
    n.add_listener(failing("x"), false).ok().unwrap();
    n.add_listener(failing("y"), false).ok().unwrap();
    assert!(n.set_state(1).is_err());
    assert_eq!(*seen.borrow(), vec!["x".to_string(), "y".to_string()]);
}

#[test]
fn removed_listener_is_not_called() {
    let log = Rc::new(RefCell::new(vec![]));
    let mut n: Notifier = StateNotifier::new(0);
    let a = n.add_listener(recorder(&log, 'a'), false).ok().unwrap();
    n.add_listener(recorder(&log, 'b'), false).ok().unwrap();
    n.remove_listener(&a);
    n.remove_listener(&a);
    assert!(n.set_state(2).is_ok());
    assert_eq!(*log.borrow(), vec![('b', 2)]);
    assert_eq!(n.has_listeners().ok(), Some(true));
}

#[test]
fn has_listeners_follows_registration() {
    let log = Rc::new(RefCell::new(vec![]));
    let mut n: Notifier = StateNotifier::new(0);
    assert_eq!(n.has_listeners().ok(), Some(false));
    let t = n.add_listener(recorder(&log, 'a'), false).ok().unwrap();
    assert_eq!(n.has_listeners().ok(), Some(true));
    n.remove_listener(&t);
    assert_eq!(n.has_listeners().ok(), Some(false));
}

#[test]
fn stream_is_shared_between_requests() {
    let mut n: Notifier = StateNotifier::new(0);
    let r1 = n.get_stream().ok().unwrap();
    let r2 = n.get_stream().ok().unwrap();
    assert!(r1.same_channel(&r2));
    assert!(n.set_state(4).is_ok());
    assert!(r1.try_recv().is_err());
    assert!(r2.try_recv().is_err());
}

#[test]
fn disposal_clears_listeners() {
    let log = Rc::new(RefCell::new(vec![]));
    let mut n: Notifier = StateNotifier::new(0);
    n.add_listener(recorder(&log, 'a'), false).ok().unwrap();
    assert!(n.dispose().is_ok());
    assert!(!n.mounted());
    assert!(matches!(n.set_state(1), Err(IError::StateNotifierDisposed { .. })));
    assert!(log.borrow().is_empty());
    assert!(matches!(n.has_listeners(), Err(IError::StateNotifierDisposed { .. })));
    assert!(matches!(n.state(), Err(IError::StateNotifierDisposed { .. })));
    assert!(matches!(n.dispose(), Err(IError::StateNotifierDisposed { .. })));
    assert!(matches!(n.add_listener(recorder(&log, 'b'), false), Err(IError::StateNotifierDisposed { .. })));
    assert!(matches!(n.get_stream(), Err(IError::StateNotifierDisposed { .. })));
}

#[test]
fn disposal_closes_stream() {
    let mut n: Notifier = StateNotifier::new(0);
    let r = n.get_stream().ok().unwrap();
    assert!(n.dispose().is_ok());
    assert!(matches!(r.try_recv(), Err(crossbeam::channel::TryRecvError::Disconnected)));
}

#[test]
fn fire_immediately_calls_with_current_value() {
    let log = Rc::new(RefCell::new(vec![]));
    let mut n: Notifier = StateNotifier::new(42);
    n.add_listener(recorder(&log, 'a'), true).ok().unwrap();
    assert_eq!(*log.borrow(), vec![('a', 42)]);
    assert_eq!(n.has_listeners().ok(), Some(true));
}

#[test]
fn failed_immediate_listener_is_dropped() {
    let log = Rc::new(RefCell::new(vec![]));
    let seen = Rc::new(RefCell::new(vec![]));
    let mut n: Notifier = StateNotifier::new(0);
    let sink = seen.clone();
    n.set_on_error(Box::new(move |m: &String| sink.borrow_mut().push(m.clone())));
    let bad = n.add_listener(failing("early"), true).ok().unwrap();
    assert_eq!(*seen.borrow(), vec!["early".to_string()]);
    assert_eq!(n.has_listeners().ok(), Some(false));
    n.add_listener(recorder(&log, 'b'), false).ok().unwrap();
    n.remove_listener(&bad);
    assert!(n.set_state(3).is_ok());
    assert_eq!(*log.borrow(), vec![('b', 3)]);
}

#[test]
fn outcome_without_failures_is_ok() {
    assert!(listener_outcome(&vec![], "t".to_string()).is_ok());
}

#[test]
fn outcome_with_failures_joins_them() {
    let errors = vec!["a".to_string(), "b".to_string(), "c".to_string()];
    match listener_outcome(&errors, "t".to_string()) {
        Err(IError::StateNotifierListenerError { errors, state_notifier }) => {
            assert_eq!(errors, "a\nb\nc");
            assert_eq!(state_notifier, "t");
        }
        _ => panic!("expected a listener error"),
    }
}
