//! Tests of the shell's bootstrap and delegation contract.

use window_shell::bootstrap::bootstrap;
use window_shell::bootstrap::Builder;
use window_shell::bootstrap::Command;
use window_shell::bootstrap::Context;
use window_shell::bootstrap::DispatchError;
use window_shell::bootstrap::Plugin;
use window_shell::bootstrap::StartupError;
use window_shell::host::CommandError;
use window_shell::host::Host;

fn host_with(handles: &[u64]) -> Host {
    let mut h = Host::new();
    for &id in handles {
        assert!(h.open_window(id));
    }
    h
}

#[test]
fn close_open_window_removes_it() {
    let mut h = host_with(&[7, 9]);
    assert_eq!(h.close_window(7), Ok(()));
    assert!(!h.is_open_window(7));
    assert!(h.is_open_window(9));
    assert!(!h.is_minimized_window(9));
    assert_eq!(h.window_count(), 1);
    assert!(h.is_running());
}

#[test]
fn close_last_window_ends_run_loop() {
    let mut h = host_with(&[42]);
    assert!(h.is_running());
    assert_eq!(h.close_window(42), Ok(()));
    assert_eq!(h.window_count(), 0);
    assert!(!h.is_running());
}

#[test]
fn minimize_sets_minimized_state_only() {
    let mut h = host_with(&[1, 2]);
    assert!(!h.is_minimized_window(1));
    assert_eq!(h.minimize_window(1), Ok(()));
    assert!(h.is_minimized_window(1));
    assert!(h.is_open_window(1));
    assert!(h.is_open_window(2));
    assert!(!h.is_minimized_window(2));
    assert_eq!(h.window_count(), 2);
}

#[test]
fn minimize_minimized_window_keeps_state() {
    let mut h = host_with(&[5]);
    assert_eq!(h.minimize_window(5), Ok(()));
    assert_eq!(h.minimize_window(5), Ok(()));
    assert!(h.is_minimized_window(5));
    assert_eq!(h.window_count(), 1);
}

#[test]
fn close_dead_handle_is_fault_and_process_continues() {
    let mut h = host_with(&[3]);
    assert_eq!(h.close_window(8), Err(CommandError::InvalidHandle));
    assert!(h.is_open_window(3));
    assert_eq!(h.window_count(), 1);
    assert!(h.is_running());
}

#[test]
fn minimize_dead_handle_is_fault_and_process_continues() {
    let mut h = host_with(&[3]);
    assert_eq!(h.minimize_window(8), Err(CommandError::InvalidHandle));
    assert!(h.is_open_window(3));
    assert!(!h.is_minimized_window(3));
    assert!(h.is_running());
}

#[test]
fn commands_touch_only_their_window() {
    let mut h = host_with(&[10, 20, 30]);
    assert_eq!(h.close_window(10), Ok(()));
    assert_eq!(h.minimize_window(20), Ok(()));
    assert!(h.is_open_window(30));
    assert!(!h.is_minimized_window(30));
    assert!(h.is_open_window(20));
    assert_eq!(h.window_count(), 2);
}

#[test]
fn open_window_refuses_live_handle() {
    let mut h = host_with(&[6]);
    assert!(!h.open_window(6));
    assert_eq!(h.window_count(), 1);
}

#[test]
fn bootstrap_attaches_plugins_and_registers_commands() {
    let app = bootstrap(Context { config_ok: true, main_window: 1 }).unwrap();
    assert!(app.plugin_attached(Plugin::FsAccess));
    assert!(app.plugin_attached(Plugin::Dialog));
    assert!(app.command_registered(Command::CloseWindow));
    assert!(app.command_registered(Command::MinimizeWindow));
    assert!(app.host.is_open_window(1));
    assert!(!app.host.is_minimized_window(1));
    assert!(app.host.is_running());
}

#[test]
fn commands_reachable_by_name() {
    let mut app = bootstrap(Context { config_ok: true, main_window: 1 }).unwrap();
    assert_eq!(app.invoke("minimize_window", 1), Ok(()));
    assert!(app.host.is_minimized_window(1));
    assert_eq!(app.invoke("close_window", 1), Ok(()));
    assert!(!app.host.is_open_window(1));
    assert!(!app.host.is_running());
}

#[test]
fn bootstrap_failure_yields_startup_fault() {
    let r = bootstrap(Context { config_ok: false, main_window: 1 });
    assert_eq!(r.err(), Some(StartupError::ConstructionFailed));
}

#[test]
fn unknown_name_is_not_dispatched() {
    let mut app = bootstrap(Context { config_ok: true, main_window: 1 }).unwrap();
    assert_eq!(app.invoke("maximize_window", 1), Err(DispatchError::UnknownCommand));
    assert!(app.host.is_open_window(1));
    assert!(!app.host.is_minimized_window(1));
}

#[test]
fn unregistered_command_is_not_dispatched() {
    let only_close = vec![Command::CloseWindow];
    let app = Builder::default()
        .plugin(Plugin::FsAccess)
        .plugin(Plugin::Dialog)
        .invoke_handler(only_close)
        .run(Context { config_ok: true, main_window: 4 });
    let mut app = app.unwrap();
    assert!(!app.command_registered(Command::MinimizeWindow));
    assert_eq!(app.invoke("minimize_window", 4), Err(DispatchError::UnknownCommand));
    assert!(app.host.is_open_window(4));
    assert!(!app.host.is_minimized_window(4));
}

#[test]
fn dispatch_fault_on_dead_handle() {
    let mut app = bootstrap(Context { config_ok: true, main_window: 1 }).unwrap();
    assert_eq!(
        app.invoke("close_window", 2),
        Err(DispatchError::Command(CommandError::InvalidHandle))
    );
    assert!(app.host.is_open_window(1));
    assert!(app.host.is_running());
}
