//! Decides what the native window does on close requests and tray events.
use vstd::prelude::*;
use crate::controller::Controller;

verus! {

/// A native event the coordinator reacts to.
#[derive(Clone, Copy, Debug, PartialEq, Eq, Structural)]
pub enum UiEvent {
    CloseRequested,
    RedrawRequested,
    TrayActivated,
    Other,
}

/// What the event loop is to do in answer.
#[derive(Clone, Copy, Debug, PartialEq, Eq, Structural)]
pub enum UiAction {
    HideWindow,
    ShowWindow,
    Exit,
    Resize,
    Nothing,
}

/// The window as the user sees it, and whether the process goes on.
#[derive(Clone, Copy, Debug, PartialEq, Eq, Structural)]
pub struct WindowState {
    pub visible: bool,
    pub alive: bool,
}

/// A close request hides the window while a daemon runs and ends the process
/// otherwise; tray activation always shows the window.
pub open spec fn ui_action(daemon_running: bool, ev: UiEvent) -> UiAction {
    match ev {
        UiEvent::CloseRequested => if daemon_running {
            UiAction::HideWindow
        } else {
            UiAction::Exit
        },
        UiEvent::RedrawRequested => UiAction::Resize,
        UiEvent::TrayActivated => UiAction::ShowWindow,
        UiEvent::Other => UiAction::Nothing,
    }
}

pub open spec fn after_action(w: WindowState, a: UiAction) -> WindowState {
    match a {
        UiAction::HideWindow => WindowState { visible: false, alive: w.alive },
        UiAction::ShowWindow => WindowState { visible: true, alive: w.alive },
        UiAction::Exit => WindowState { visible: w.visible, alive: false },
        _ => w,
    }
}

/// The action for `ev`, given whether a daemon runs.
pub fn decide(daemon_running: bool, ev: UiEvent) -> (a: UiAction)
    ensures
        a == ui_action(daemon_running, ev),
{
    match ev {
        UiEvent::CloseRequested => if daemon_running {
            UiAction::HideWindow
        } else {
            UiAction::Exit
        },
        UiEvent::RedrawRequested => UiAction::Resize,
        UiEvent::TrayActivated => UiAction::ShowWindow,
        UiEvent::Other => UiAction::Nothing,
    }
}

/// The action for `ev`, reading the daemon status from the controller.
pub fn on_event(ctrl: &Controller, ev: UiEvent) -> (a: UiAction)
    ensures
        a == ui_action(ctrl.model().is_running(), ev),
{
    decide(ctrl.is_running(), ev)
}

impl WindowState {
    pub fn apply(self, a: UiAction) -> (w: WindowState)
        ensures
            w == after_action(self, a),
    {
        match a {
            UiAction::HideWindow => WindowState { visible: false, alive: self.alive },
            UiAction::ShowWindow => WindowState { visible: true, alive: self.alive },
            UiAction::Exit => WindowState { visible: self.visible, alive: false },
            _ => self,
        }
    }
}

/// Closing the window while a daemon runs hides it and keeps the process;
/// closing it while none runs ends the process; activating the tray shows the
/// window whatever the daemon does.
pub proof fn lemma_close_and_tray(w: WindowState, daemon_running: bool)
    requires
        w.alive,
    ensures
        daemon_running ==> after_action(w, ui_action(daemon_running, UiEvent::CloseRequested))
            == (WindowState { visible: false, alive: true }),
        !daemon_running ==> !after_action(w, ui_action(daemon_running, UiEvent::CloseRequested)).alive,
        after_action(w, ui_action(daemon_running, UiEvent::TrayActivated)).visible,
        after_action(w, ui_action(daemon_running, UiEvent::TrayActivated)).alive,
{
}

} // verus!
