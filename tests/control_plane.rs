use gephgui::controller::{ControlError, Controller, DaemonHandle, DaemonStatus};
use gephgui::gateway::{strip_leading_separators, Gateway};
use gephgui::rpc::{complete_halt, complete_launch, handle_rpc, parse_call, RpcAction, RpcCall, RpcReply};
use gephgui::window::{decide, on_event, UiAction, UiEvent, WindowState};

fn bundle() -> Gateway {
    Gateway::new()
        .with_asset("index.html", b"<html></html>".to_vec())
        .with_asset("app.js", b"run()".to_vec())
        .with_asset("logo.png", vec![137, 80, 78, 71])
        .with_asset("LICENSE", b"free".to_vec())
}

fn no_args() -> Vec<String> {
    Vec::new()
}

#[test]
fn start_then_stop_follows_state_machine() {
    let mut c = Controller::new();
    assert_eq!(c.status(), DaemonStatus::Stopped);
    assert_eq!(c.begin_start(), Ok(()));
    assert!(c.is_launching());
    assert_eq!(c.status(), DaemonStatus::Stopped);
    assert_eq!(c.finish_start(Ok(DaemonHandle { id: 7 })), Ok(()));
    assert_eq!(c.status(), DaemonStatus::Running(DaemonHandle { id: 7 }));
    assert!(c.is_running());
    assert_eq!(c.begin_start(), Err(ControlError::AlreadyRunning));
    assert_eq!(c.status(), DaemonStatus::Running(DaemonHandle { id: 7 }));
    assert_eq!(c.begin_stop(), Ok(DaemonHandle { id: 7 }));
    assert_eq!(c.status(), DaemonStatus::Stopped);
    assert_eq!(c.begin_stop(), Err(ControlError::NotRunning));
    assert_eq!(c.status(), DaemonStatus::Stopped);
}

#[test]
fn stop_without_start_is_not_running() {
    let mut c = Controller::new();
    assert_eq!(c.begin_stop(), Err(ControlError::NotRunning));
    assert_eq!(c.status(), DaemonStatus::Stopped);
}

#[test]
fn two_starts_one_success() {
    let mut c = Controller::new();
    let first = c.begin_start();
    let second = c.begin_start();
    assert_eq!(first, Ok(()));
    assert_eq!(second, Err(ControlError::AlreadyRunning));
    assert_eq!(c.finish_start(Ok(DaemonHandle { id: 1 })), Ok(()));
    assert_eq!(c.begin_start(), Err(ControlError::AlreadyRunning));
}

#[test]
fn failed_launch_stays_stopped() {
    let mut c = Controller::new();
    assert_eq!(c.begin_start(), Ok(()));
    assert_eq!(
        c.finish_start(Err("no route".to_string())),
        Err(ControlError::DaemonStartFailed("no route".to_string()))
    );
    assert_eq!(c.status(), DaemonStatus::Stopped);
    assert!(!c.is_launching());
    assert_eq!(c.begin_start(), Ok(()));
}

#[test]
fn failed_stop_still_stopped() {
    let mut c = Controller::new();
    c.begin_start().unwrap();
    c.finish_start(Ok(DaemonHandle { id: 3 })).unwrap();
    assert_eq!(c.begin_stop(), Ok(DaemonHandle { id: 3 }));
    assert_eq!(
        Controller::finish_stop(Err("signal lost".to_string())),
        Err(ControlError::DaemonStopFailed("signal lost".to_string()))
    );
    assert_eq!(Controller::finish_stop(Ok(())), Ok(()));
    assert_eq!(c.status(), DaemonStatus::Stopped);
}

#[test]
fn exited_daemon_frees_slot() {
    let mut c = Controller::new();
    c.begin_start().unwrap();
    c.finish_start(Ok(DaemonHandle { id: 4 })).unwrap();
    c.daemon_exited(DaemonHandle { id: 5 });
    assert_eq!(c.status(), DaemonStatus::Running(DaemonHandle { id: 4 }));
    c.daemon_exited(DaemonHandle { id: 4 });
    assert_eq!(c.status(), DaemonStatus::Stopped);
}

#[test]
fn leading_separator_is_ignored() {
    let g = bundle();
    let a = g.get("index.html").unwrap();
    let b = g.get("/index.html").unwrap();
    assert_eq!(a, b);
    assert_eq!(a.path, "index.html");
    assert_eq!(a.data, b"<html></html>".to_vec());
    assert_eq!(g.get("///index.html").unwrap(), a);
    assert_eq!(strip_leading_separators("//a/b"), "a/b");
    assert_eq!(strip_leading_separators(""), "");
}

#[test]
fn missing_asset_is_404() {
    let g = bundle();
    assert_eq!(g.get("does-not-exist.xyz"), None);
    let r = g.respond("/does-not-exist.xyz");
    assert_eq!(r.status, 404);
    assert!(r.body.is_empty());
}

#[test]
fn content_type_follows_extension() {
    let g = bundle();
    assert_eq!(g.get("index.html").unwrap().content_type, "text/html");
    assert_eq!(g.get("/app.js").unwrap().content_type, "text/javascript");
    assert_eq!(g.get("logo.png").unwrap().content_type, "image/png");
    assert_eq!(g.get("LICENSE").unwrap().content_type, "application/octet-stream");
    let r = g.respond("/logo.png");
    assert_eq!(r.status, 200);
    assert_eq!(r.content_type, "image/png");
    assert_eq!(r.body, vec![137, 80, 78, 71]);
}

#[test]
fn lookup_is_exact_and_later_entry_wins() {
    let g = Gateway::new()
        .with_asset("a.css", b"old".to_vec())
        .with_asset("a.css", b"new".to_vec());
    assert_eq!(g.find("a.css"), Some(&b"new".to_vec()));
    assert_eq!(g.find("A.css"), None);
    assert_eq!(g.find("a.cs"), None);
    assert_eq!(Gateway::new().find(""), None);
}

#[test]
fn close_and_tray_decisions() {
    let shown = WindowState { visible: true, alive: true };
    assert_eq!(decide(true, UiEvent::CloseRequested), UiAction::HideWindow);
    assert_eq!(shown.apply(UiAction::HideWindow), WindowState { visible: false, alive: true });
    assert_eq!(decide(false, UiEvent::CloseRequested), UiAction::Exit);
    assert!(!shown.apply(UiAction::Exit).alive);
    assert_eq!(decide(true, UiEvent::TrayActivated), UiAction::ShowWindow);
    assert_eq!(decide(false, UiEvent::TrayActivated), UiAction::ShowWindow);
    let hidden = WindowState { visible: false, alive: true };
    assert_eq!(hidden.apply(UiAction::ShowWindow), shown);
    assert_eq!(decide(false, UiEvent::RedrawRequested), UiAction::Resize);
    assert_eq!(decide(true, UiEvent::Other), UiAction::Nothing);
}

#[test]
fn close_follows_controller() {
    let mut c = Controller::new();
    assert_eq!(on_event(&c, UiEvent::CloseRequested), UiAction::Exit);
    c.begin_start().unwrap();
    c.finish_start(Ok(DaemonHandle { id: 9 })).unwrap();
    assert_eq!(on_event(&c, UiEvent::CloseRequested), UiAction::HideWindow);
    assert_eq!(on_event(&c, UiEvent::TrayActivated), UiAction::ShowWindow);
    assert!(c.is_running());
}

#[test]
fn unknown_method_changes_nothing() {
    let mut c = Controller::new();
    assert_eq!(
        handle_rpc(&mut c, "reboot", &no_args()),
        RpcAction::Reply(Err(ControlError::UnknownMethod))
    );
    assert_eq!(c.status(), DaemonStatus::Stopped);
    c.begin_start().unwrap();
    c.finish_start(Ok(DaemonHandle { id: 2 })).unwrap();
    assert_eq!(
        handle_rpc(&mut c, "Start", &vec!["cfg".to_string()]),
        RpcAction::Reply(Err(ControlError::UnknownMethod))
    );
    assert_eq!(c.status(), DaemonStatus::Running(DaemonHandle { id: 2 }));
}

#[test]
fn argument_shapes_checked() {
    assert_eq!(parse_call("status", &no_args()), Ok(RpcCall::Status));
    assert_eq!(parse_call("stop", &no_args()), Ok(RpcCall::Stop));
    assert_eq!(
        parse_call("start", &vec!["cfg".to_string()]),
        Ok(RpcCall::Start("cfg".to_string()))
    );
    assert_eq!(parse_call("start", &no_args()), Err(ControlError::InvalidArguments));
    assert_eq!(
        parse_call("status", &vec!["x".to_string()]),
        Err(ControlError::InvalidArguments)
    );
    assert_eq!(parse_call("", &no_args()), Err(ControlError::UnknownMethod));
}

#[test]
fn rpc_round_trip() {
    let mut c = Controller::new();
    assert_eq!(
        handle_rpc(&mut c, "status", &no_args()),
        RpcAction::Reply(Ok(RpcReply::Status(false)))
    );
    assert_eq!(
        handle_rpc(&mut c, "start", &vec!["cfg".to_string()]),
        RpcAction::Launch("cfg".to_string())
    );
    assert_eq!(
        handle_rpc(&mut c, "start", &vec!["cfg".to_string()]),
        RpcAction::Reply(Err(ControlError::AlreadyRunning))
    );
    assert_eq!(complete_launch(&mut c, Ok(DaemonHandle { id: 11 })), Ok(RpcReply::Done));
    assert_eq!(
        handle_rpc(&mut c, "status", &no_args()),
        RpcAction::Reply(Ok(RpcReply::Status(true)))
    );
    assert_eq!(
        handle_rpc(&mut c, "stop", &no_args()),
        RpcAction::Halt(DaemonHandle { id: 11 })
    );
    assert_eq!(
        complete_halt(Err("gone".to_string())),
        Err(ControlError::DaemonStopFailed("gone".to_string()))
    );
    assert_eq!(
        handle_rpc(&mut c, "stop", &no_args()),
        RpcAction::Reply(Err(ControlError::NotRunning))
    );
    assert_eq!(
        handle_rpc(&mut c, "stop", &vec!["x".to_string()]),
        RpcAction::Reply(Err(ControlError::InvalidArguments))
    );
}

#[test]
fn exit_during_launch_keeps_reservation() {
    let mut c = Controller::new();
    c.begin_start().unwrap();
    c.daemon_exited(DaemonHandle { id: 1 });
    assert!(c.is_launching());
    assert_eq!(c.begin_stop(), Err(ControlError::NotRunning));
    assert!(c.is_launching());
    assert_eq!(c.finish_start(Ok(DaemonHandle { id: 1 })), Ok(()));
    assert_eq!(c.status(), DaemonStatus::Running(DaemonHandle { id: 1 }));
}
