// The module lifecycle: initialization, the example transform, the
// guarded borrow, and the failure hook.

use wasm_app::boundary::Host;
use wasm_app::runtime::Module;
use wasm_app::runtime::hello;
use wasm_app::runtime::initialize;
use wasm_app::state::App;
use wasm_app::state::StateCell;

#[test]
fn initialize_logs_once_and_installs_hook() {
    let mut m = Module::new();
    let mut h = Host::new();
    assert!(!m.hook_installed);
    let ok = initialize(&mut m, &mut h);
    assert!(ok);
    assert!(m.hook_installed);
    assert_eq!(h.info_count(), 1);
    assert_eq!(h.info_message(0).as_slice(), b"App initialized");
    assert_eq!(h.error_count(), 0);
}

#[test]
fn initialize_twice_reruns_setup_and_logs_twice() {
    let mut m = Module::new();
    let mut h = Host::new();
    assert!(initialize(&mut m, &mut h));
    assert!(initialize(&mut m, &mut h));
    assert!(m.hook_installed);
    assert_eq!(h.info_count(), 2);
    assert_eq!(h.info_message(0).as_slice(), b"App initialized");
    assert_eq!(h.info_message(1).as_slice(), b"App initialized");
    assert_eq!(h.error_count(), 0);
}

#[test]
fn hello_squares_exactly_when_no_overflow() {
    let mut m = Module::new();
    let mut h = Host::new();
    initialize(&mut m, &mut h);
    assert_eq!(hello(&mut m, &mut h, 7), Some(49));
    assert_eq!(hello(&mut m, &mut h, 0), Some(0));
    assert_eq!(hello(&mut m, &mut h, 65535), Some(4294836225));
}

#[test]
fn hello_wraps_modulo_two_to_the_32() {
    let mut m = Module::new();
    let mut h = Host::new();
    initialize(&mut m, &mut h);
    assert_eq!(hello(&mut m, &mut h, 65536), Some(0));
    assert_eq!(hello(&mut m, &mut h, 65537), Some(131073));
    assert_eq!(hello(&mut m, &mut h, u32::MAX), Some(1));
}

#[test]
fn hello_emits_exactly_one_message_per_call() {
    let mut m = Module::new();
    let mut h = Host::new();
    initialize(&mut m, &mut h);
    let before = h.info_count();
    hello(&mut m, &mut h, 3);
    assert_eq!(h.info_count(), before + 1);
    assert_eq!(h.info_message(before).as_slice(), b"Hello, world!");
    assert_eq!(h.error_count(), 0);
}

#[test]
fn scenario_initialize_then_hello_seven() {
    let mut m = Module::new();
    let mut h = Host::new();
    let ok = initialize(&mut m, &mut h);
    assert!(ok);
    assert_eq!(h.info_count(), 1);
    assert_eq!(h.info_message(0).as_slice(), b"App initialized");
    let r = hello(&mut m, &mut h, 7);
    assert_eq!(r, Some(49));
    assert_eq!(h.info_count(), 2);
    assert_eq!(h.info_message(1).as_slice(), b"Hello, world!");
    assert_eq!(h.error_count(), 0);
}

#[test]
fn reentrant_borrow_faults_with_one_error_delivery() {
    let mut m = Module::new();
    let mut h = Host::new();
    initialize(&mut m, &mut h);
    let info_before = h.info_count();
    // model a call that is still holding the guarded borrow
    assert!(m.cell.try_borrow());
    let r = hello(&mut m, &mut h, 7);
    assert_eq!(r, None);
    assert_eq!(h.error_count(), 1);
    assert!(!h.error_message(0).is_empty());
    assert_eq!(h.info_count(), info_before);
    m.cell.release();
}

#[test]
fn reentrant_borrow_during_initialize_faults() {
    let mut m = Module::new();
    let mut h = Host::new();
    assert!(m.cell.try_borrow());
    let ok = initialize(&mut m, &mut h);
    assert!(!ok);
    // the hook was installed first, so the fault is reported
    assert!(m.hook_installed);
    assert_eq!(h.error_count(), 1);
    assert!(!h.error_message(0).is_empty());
    assert_eq!(h.info_count(), 0);
    m.cell.release();
}

#[test]
fn fault_before_hook_is_silent() {
    let mut m = Module::new();
    let mut h = Host::new();
    // no initialize: the failure hook is not installed yet
    assert!(m.cell.try_borrow());
    let r = hello(&mut m, &mut h, 7);
    assert_eq!(r, None);
    assert_eq!(h.error_count(), 0);
    assert_eq!(h.info_count(), 0);
    m.cell.release();
}

#[test]
fn guard_allows_one_borrow_at_a_time() {
    let mut c = StateCell::new();
    assert!(c.try_borrow());
    assert!(!c.try_borrow());
    assert!(!c.try_borrow());
    c.release();
    assert!(c.try_borrow());
    c.release();
}

#[test]
fn app_operations_directly() {
    let app = App::new();
    let mut h = Host::new();
    app.initialize(&mut h);
    assert_eq!(h.info_count(), 1);
    assert_eq!(h.info_message(0).as_slice(), b"App initialized");
    let r = app.hello(&mut h, 6);
    assert_eq!(r, 36);
    assert_eq!(h.info_count(), 2);
    assert_eq!(h.info_message(1).as_slice(), b"Hello, world!");
}
