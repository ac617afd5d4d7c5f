use window_shell::{
    command_result, maximize_choice, plan_request, report, restore_and_focus_requests, OsFailure,
    ShellError, WindowCommand, WindowRequest, WindowState,
};

fn live() -> WindowState {
    WindowState::new()
}

#[test]
fn new_window_is_live_and_normal() {
    let w = live();
    assert!(!w.always_on_top && !w.minimized && !w.maximized && !w.focused);
    assert!(!w.close_requested && !w.destroyed);
}

#[test]
fn last_always_on_top_call_wins() {
    let mut w = live();
    for v in [true, false, true, true, false] {
        assert_eq!(w.set_always_on_top(v), Ok(()));
    }
    assert!(!w.always_on_top);
    assert_eq!(w.set_always_on_top(true), Ok(()));
    assert!(w.always_on_top);
}

#[test]
fn always_on_top_twice_is_once() {
    let mut once = live();
    once.set_always_on_top(true).unwrap();
    let mut twice = live();
    twice.set_always_on_top(true).unwrap();
    twice.set_always_on_top(true).unwrap();
    assert_eq!(once, twice);
}

#[test]
fn maximize_toggle_twice_restores_state() {
    for start in [false, true] {
        let mut w = live();
        w.maximized = start;
        let before = w;
        assert_eq!(w.maximize_toggle(), Ok(()));
        assert_eq!(w.maximized, !start);
        assert_eq!(w.maximize_toggle(), Ok(()));
        assert_eq!(w, before);
    }
}

#[test]
fn maximize_toggle_fails_open_when_read_fails() {
    assert_eq!(maximize_choice(None), WindowRequest::Maximize);
    assert_eq!(maximize_choice(Some(false)), WindowRequest::Maximize);
    assert_eq!(maximize_choice(Some(true)), WindowRequest::Unmaximize);
    assert_eq!(plan_request(WindowCommand::MaximizeToggle, None), WindowRequest::Maximize);
}

#[test]
fn plan_request_maps_each_command() {
    assert_eq!(
        plan_request(WindowCommand::SetAlwaysOnTop(true), None),
        WindowRequest::SetAlwaysOnTop(true)
    );
    assert_eq!(plan_request(WindowCommand::Minimize, Some(true)), WindowRequest::Minimize);
    assert_eq!(plan_request(WindowCommand::Close, Some(false)), WindowRequest::Close);
    assert_eq!(
        plan_request(WindowCommand::MaximizeToggle, Some(true)),
        WindowRequest::Unmaximize
    );
}

#[test]
fn minimize_already_minimized_is_success() {
    let mut w = live();
    assert_eq!(w.minimize(), Ok(()));
    assert!(w.minimized);
    let before = w;
    assert_eq!(w.minimize(), Ok(()));
    assert_eq!(w, before);
}

#[test]
fn minimize_minimized_focused_window_is_noop() {
    let mut w = live();
    w.minimize().unwrap();
    w.perform(WindowRequest::Focus).unwrap();
    assert!(w.minimized && w.focused);
    let before = w;
    assert_eq!(w.minimize(), Ok(()));
    assert_eq!(w, before);
}

#[test]
fn close_only_requests_closing() {
    let mut w = live();
    assert_eq!(w.close(), Ok(()));
    assert!(w.close_requested && !w.destroyed);
}

#[test]
fn close_destroyed_handle_is_handle_invalid() {
    let mut w = live();
    assert_eq!(w.close(), Ok(()));
    w.destroy();
    assert!(w.destroyed);
    let before = w;
    assert_eq!(w.close(), Err(ShellError::HandleInvalid));
    assert_eq!(w, before);
}

#[test]
fn denied_request_changes_nothing() {
    let mut w = live();
    let before = w;
    let r = w.record(
        WindowRequest::Maximize,
        Err(OsFailure::Denied { reason: "refused".to_string() }),
    );
    assert_eq!(r, Err(ShellError::WindowOperationFailed { reason: "refused".to_string() }));
    assert_eq!(w, before);
    assert_eq!(w.record(WindowRequest::Maximize, Ok(())), Ok(()));
    assert!(w.maximized);
}

#[test]
fn commands_on_destroyed_window_change_nothing() {
    let mut w = live();
    w.destroy();
    let before = w;
    assert_eq!(w.set_always_on_top(true), Err(ShellError::HandleInvalid));
    assert_eq!(w.minimize(), Err(ShellError::HandleInvalid));
    assert_eq!(w.maximize_toggle(), Err(ShellError::HandleInvalid));
    assert_eq!(w.read_maximized(), None);
    assert_eq!(w, before);
}

#[test]
fn execute_runs_a_command_sequence() {
    let mut w = live();
    let cmds = [
        WindowCommand::SetAlwaysOnTop(true),
        WindowCommand::MaximizeToggle,
        WindowCommand::Minimize,
    ];
    for c in cmds {
        assert_eq!(w.execute(c), Ok(()));
    }
    assert!(w.always_on_top && w.maximized && w.minimized && !w.destroyed);
}

#[test]
fn restore_and_focus_brings_window_back() {
    let mut w = live();
    w.minimize().unwrap();
    assert_eq!(w.restore_and_focus(), Ok(()));
    assert!(w.focused && !w.minimized);
}

#[test]
fn restore_and_focus_requests_without_window_are_empty() {
    assert!(restore_and_focus_requests(false).is_empty());
    assert_eq!(
        restore_and_focus_requests(true),
        vec![WindowRequest::Focus, WindowRequest::Unminimize]
    );
}

#[test]
fn report_maps_each_failure() {
    assert_eq!(report(Ok(())), Ok(()));
    assert_eq!(report(Err(OsFailure::HandleGone)), Err(ShellError::HandleInvalid));
    assert_eq!(
        report(Err(OsFailure::Denied { reason: "denied by compositor".to_string() })),
        Err(ShellError::WindowOperationFailed { reason: "denied by compositor".to_string() })
    );
}

#[test]
fn command_result_stringifies_errors() {
    assert_eq!(command_result(Ok(())), Ok(()));
    assert_eq!(
        command_result(Err(ShellError::WindowOperationFailed { reason: "no such window".to_string() })),
        Err("no such window".to_string())
    );
    assert_eq!(
        command_result(Err(ShellError::HandleInvalid)),
        Err("the window handle is no longer valid".to_string())
    );
}

#[test]
fn only_lock_failure_is_fatal() {
    assert!(ShellError::LockAcquisitionFailed { reason: "permission denied".to_string() }.is_fatal());
    assert!(!ShellError::HandleInvalid.is_fatal());
    assert!(!ShellError::WindowOperationFailed { reason: String::new() }.is_fatal());
    assert_eq!(
        ShellError::LockAcquisitionFailed { reason: "permission denied".to_string() }.message(),
        "permission denied"
    );
}
