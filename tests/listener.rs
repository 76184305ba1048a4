use std::cell::RefCell;
use std::rc::Rc;

use winvd::{
    interface_query_outcome, DesktopID, Handshake, Lifecycle, VirtualDesktopChangeListener, HRESULT, HWND,
};

type Listener = VirtualDesktopChangeListener<
    &'static str,
    Box<dyn Fn(DesktopID, DesktopID)>,
    Box<dyn Fn(DesktopID)>,
    Box<dyn Fn(DesktopID)>,
    Box<dyn Fn(HWND)>,
>;

type Log = Rc<RefCell<Vec<String>>>;

fn desktop(n: u32) -> DesktopID {
    DesktopID { data1: n, data2: 0, data3: 0, data4: [0; 8] }
}

fn install_all(l: &mut Listener, log: &Log, tag: &'static str) {
    let g = log.clone();
    l.on_desktop_change(Box::new(move |a, b| g.borrow_mut().push(format!("{tag} switch {} {}", a.data1, b.data1))));
    let g = log.clone();
    l.on_desktop_created(Box::new(move |a| g.borrow_mut().push(format!("{tag} created {}", a.data1))));
    let g = log.clone();
    l.on_desktop_destroyed(Box::new(move |a| g.borrow_mut().push(format!("{tag} destroyed {}", a.data1))));
    let g = log.clone();
    l.on_window_change(Box::new(move |w| g.borrow_mut().push(format!("{tag} window {w}"))));
}

/// Runs the whole handshake the way an owner does, with given outcomes.
fn register(service: &'static str, query: i32, found: bool, registration: i32, cookie: u32) -> Result<Listener, HRESULT> {
    let mut l = Listener::new();
    match interface_query_outcome(HRESULT::from_i32(query), found) {
        Handshake::Abort(e) => Err(e),
        Handshake::RegisterSink => {
            l.complete_registration(service, HRESULT::from_i32(query), HRESULT::from_i32(registration), cookie)?;
            Ok(l)
        }
    }
}

#[test]
fn switch_then_teardown_unregisters_token_seven() {
    let log: Log = Rc::new(RefCell::new(Vec::new()));
    let mut l = register("svc", 0, true, 0, 7).expect("registration succeeds");
    let g = log.clone();
    l.on_desktop_change(Box::new(move |a, b| g.borrow_mut().push(format!("switch {} {}", a.data1, b.data1))));
    let r = l.current_virtual_desktop_changed(desktop(1), desktop(2));
    assert_eq!(r, HRESULT::ok());
    assert_eq!(*log.borrow(), vec!["switch 1 2".to_string()]);
    assert_eq!(l.teardown(), Some(("svc", 7)));
    assert_eq!(l.state(), Lifecycle::Retired);
}

#[test]
fn window_change_without_handler_is_a_no_op() {
    let log: Log = Rc::new(RefCell::new(Vec::new()));
    let mut l = register("svc", 0, true, 0, 3).unwrap();
    let g = log.clone();
    l.on_desktop_created(Box::new(move |a| g.borrow_mut().push(format!("created {}", a.data1))));
    let r = l.view_virtual_desktop_changed(42);
    assert_eq!(r.code, 0);
    assert!(log.borrow().is_empty());
}

#[test]
fn query_failure_returns_its_code_and_retry_may_succeed() {
    let e = register("svc", -2147467262, false, 0, 5).err();
    assert_eq!(e, Some(HRESULT::from_i32(-2147467262)));
    assert_eq!(interface_query_outcome(HRESULT::from_i32(-5), true), Handshake::Abort(HRESULT::from_i32(-5)));
    let mut again = register("svc", 0, true, 0, 5).unwrap();
    assert_eq!(again.state(), Lifecycle::Active);
    assert_eq!(again.teardown(), Some(("svc", 5)));
}

#[test]
fn query_success_without_interface_aborts_with_query_status() {
    assert_eq!(interface_query_outcome(HRESULT::from_i32(0), false), Handshake::Abort(HRESULT::from_i32(0)));
    assert_eq!(interface_query_outcome(HRESULT::from_i32(1), true), Handshake::RegisterSink);
}

#[test]
fn register_failure_reports_query_status_and_leaves_no_trace() {
    let mut l = Listener::new();
    let r = l.complete_registration("svc", HRESULT::from_i32(0), HRESULT::from_i32(-7), 9);
    assert_eq!(r, Err(HRESULT::from_i32(0)));
    assert_eq!(l.state(), Lifecycle::Empty);
    assert_eq!(l.teardown(), None);
}

#[test]
fn last_installed_handler_wins() {
    let log: Log = Rc::new(RefCell::new(Vec::new()));
    let mut l = Listener::new();
    install_all(&mut l, &log, "first");
    install_all(&mut l, &log, "second");
    l.current_virtual_desktop_changed(desktop(1), desktop(2));
    l.virtual_desktop_created(desktop(3));
    l.virtual_desktop_destroyed(desktop(4), desktop(5));
    l.view_virtual_desktop_changed(6);
    assert_eq!(
        *log.borrow(),
        vec![
            "second switch 1 2".to_string(),
            "second created 3".to_string(),
            "second destroyed 4".to_string(),
            "second window 6".to_string(),
        ]
    );
}

#[test]
fn register_then_teardown_unregisters_once() {
    let mut l = register("svc", 0, true, 0, 11).unwrap();
    assert_eq!(l.teardown(), Some(("svc", 11)));
    assert_eq!(l.teardown(), None);
}

#[test]
fn teardown_after_failed_register_unregisters_nothing() {
    let mut l = Listener::new();
    let _ = l.complete_registration("svc", HRESULT::from_i32(0), HRESULT::from_i32(-1), 4);
    assert_eq!(l.teardown(), None);
    assert_eq!(l.teardown(), None);
}

#[test]
fn zero_token_is_never_unregistered() {
    let mut l = register("svc", 0, true, 0, 0).unwrap();
    assert_eq!(l.state(), Lifecycle::Active);
    assert_eq!(l.teardown(), None);
    assert_eq!(l.state(), Lifecycle::Retired);
}

#[test]
fn destroy_begin_and_failed_trigger_no_handler() {
    let log: Log = Rc::new(RefCell::new(Vec::new()));
    let mut l = Listener::new();
    install_all(&mut l, &log, "h");
    assert_eq!(l.virtual_desktop_destroy_begin(desktop(1), desktop(2)), HRESULT::ok());
    assert_eq!(l.virtual_desktop_destroy_failed(desktop(1), desktop(2)), HRESULT::ok());
    assert!(log.borrow().is_empty());
}

#[test]
fn destroyed_forwards_the_old_desktop() {
    let log: Log = Rc::new(RefCell::new(Vec::new()));
    let mut l = Listener::new();
    install_all(&mut l, &log, "h");
    assert_eq!(l.virtual_desktop_destroyed(desktop(8), desktop(9)), HRESULT::ok());
    assert_eq!(l.virtual_desktop_created(desktop(10)), HRESULT::ok());
    assert_eq!(l.view_virtual_desktop_changed(77), HRESULT::ok());
    assert_eq!(
        *log.borrow(),
        vec!["h destroyed 8".to_string(), "h created 10".to_string(), "h window 77".to_string()]
    );
}

#[test]
fn handlers_installed_after_registration_and_after_teardown_still_fire() {
    let log: Log = Rc::new(RefCell::new(Vec::new()));
    let mut l = register("svc", 0, true, 0, 2).unwrap();
    install_all(&mut l, &log, "late");
    l.virtual_desktop_created(desktop(1));
    assert_eq!(l.teardown(), Some(("svc", 2)));
    assert_eq!(log.borrow().len(), 1);
}

#[test]
fn fresh_listener_is_empty() {
    let mut l = Listener::new();
    assert_eq!(l.state(), Lifecycle::Empty);
    assert_eq!(l.virtual_desktop_created(desktop(1)), HRESULT::ok());
    assert_eq!(l.teardown(), None);
}

#[test]
fn hresult_failure_is_negative() {
    assert!(HRESULT::from_i32(-1).failed());
    assert!(!HRESULT::from_i32(0).failed());
    assert!(!HRESULT::from_i32(1).failed());
    assert_eq!(HRESULT::ok().code, 0);
}
