//! Platform backend scenarios: startup, idempotent shutdown, the message
//! pump's quit detection, and the message-to-intent dispatch table.

use runloop::platform::{
    dispatch_message, Intent, OsMessage, PlatformState, WM_CLOSE, WM_DESTROY, WM_ERASEBKGND,
    WM_KEYDOWN, WM_KEYUP, WM_LBUTTONDOWN, WM_LBUTTONUP, WM_MBUTTONDOWN, WM_MBUTTONUP,
    WM_MOUSEMOVE, WM_MOUSEWHEEL, WM_RBUTTONDOWN, WM_RBUTTONUP, WM_SIZE, WM_SYSKEYDOWN,
    WM_SYSKEYUP,
};

fn message(code: u32) -> OsMessage {
    OsMessage { code, wparam: 0, lparam: 0 }
}

#[test]
fn startup_brings_the_window_up() {
    let platform = PlatformState::startup("demo", 100, 200, 800, 600).unwrap();
    assert!(platform.has_window());
    assert_eq!(platform.client_area(), (800, 600));
}

#[test]
fn shutdown_twice_succeeds_both_times() {
    let mut platform = PlatformState::startup("demo", 0, 0, 640, 480).unwrap();
    assert_eq!(platform.shutdown(), Ok(()));
    assert!(!platform.has_window());
    assert_eq!(platform.shutdown(), Ok(()));
    assert!(!platform.has_window());
}

#[test]
fn pump_reports_quit_exactly_on_destroy() {
    let mut platform = PlatformState::startup("demo", 0, 0, 640, 480).unwrap();
    assert_eq!(platform.pump_messages(), Ok(true));

    platform.post_message(message(WM_CLOSE));
    platform.post_message(message(WM_SIZE));
    assert_eq!(platform.pump_messages(), Ok(true));

    platform.post_message(message(WM_DESTROY));
    assert_eq!(platform.pump_messages(), Ok(false));

    // The quit signal stays observed once posted.
    assert_eq!(platform.pump_messages(), Ok(false));
}

#[test]
fn dispatch_maps_lifecycle_codes() {
    assert_eq!(dispatch_message(WM_ERASEBKGND), Intent::SuppressErase);
    assert_eq!(dispatch_message(WM_CLOSE), Intent::IgnoreClose);
    assert_eq!(dispatch_message(WM_DESTROY), Intent::PostQuit);
    assert_eq!(dispatch_message(WM_SIZE), Intent::Resize);
}

#[test]
fn dispatch_maps_input_codes() {
    assert_eq!(dispatch_message(WM_KEYDOWN), Intent::Key { pressed: true });
    assert_eq!(dispatch_message(WM_SYSKEYDOWN), Intent::Key { pressed: true });
    assert_eq!(dispatch_message(WM_KEYUP), Intent::Key { pressed: false });
    assert_eq!(dispatch_message(WM_SYSKEYUP), Intent::Key { pressed: false });
    assert_eq!(dispatch_message(WM_MOUSEMOVE), Intent::MouseMove);
    assert_eq!(dispatch_message(WM_MOUSEWHEEL), Intent::Wheel);
    assert_eq!(dispatch_message(WM_LBUTTONDOWN), Intent::Button { pressed: true });
    assert_eq!(dispatch_message(WM_MBUTTONDOWN), Intent::Button { pressed: true });
    assert_eq!(dispatch_message(WM_RBUTTONDOWN), Intent::Button { pressed: true });
    assert_eq!(dispatch_message(WM_LBUTTONUP), Intent::Button { pressed: false });
    assert_eq!(dispatch_message(WM_MBUTTONUP), Intent::Button { pressed: false });
    assert_eq!(dispatch_message(WM_RBUTTONUP), Intent::Button { pressed: false });
}

#[test]
fn dispatch_passes_unknown_codes_through() {
    assert_eq!(dispatch_message(0x9999), Intent::PassThrough);
    assert_eq!(dispatch_message(0), Intent::PassThrough);
}
