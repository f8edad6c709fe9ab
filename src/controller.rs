//! Bookkeeping of the one background daemon this process may run.
//!
//! The controller never performs the launch or the shutdown itself: those are
//! long-running calls made by the host without holding the controller's lock.
//! A start therefore takes two steps: `begin_start` reserves the slot (so a
//! concurrent second start is refused), the host launches the daemon, and
//! `finish_start` records what the launch produced.
use vstd::prelude::*;

verus! {

/// Names one launched daemon; the host keeps the task that it stands for.
#[derive(Clone, Copy, Debug, PartialEq, Eq, Structural)]
pub struct DaemonHandle {
    pub id: u64,
}

/// Whether a daemon is running, and which one.
#[derive(Clone, Copy, Debug, PartialEq, Eq, Structural)]
pub enum DaemonStatus {
    Stopped,
    Running(DaemonHandle),
}

/// Every recoverable failure of the control plane.
#[derive(Debug, PartialEq, Eq)]
pub enum ControlError {
    AlreadyRunning,
    NotRunning,
    DaemonStartFailed(String),
    DaemonStopFailed(String),
    InvalidArguments,
    UnknownMethod,
}

/// The controller's state as the contracts see it: the daemon status, and
/// whether a launch has been reserved and not yet reported back.
#[derive(Clone, Copy, Debug, PartialEq, Eq, Structural)]
pub struct ControllerState {
    pub status: DaemonStatus,
    pub launching: bool,
}

impl ControllerState {
    /// A launch is only ever reserved while no daemon runs.
    pub open spec fn wf(self) -> bool {
        self.launching ==> self.status == DaemonStatus::Stopped
    }

    pub open spec fn is_running(self) -> bool {
        self.status is Running
    }
}

pub open spec fn initial_state() -> ControllerState {
    ControllerState { status: DaemonStatus::Stopped, launching: false }
}

/// Reply of `begin_start`: refused while a daemon runs or is being launched.
pub open spec fn begin_start_reply(s: ControllerState) -> Result<(), ControlError> {
    if s.is_running() || s.launching {
        Err(ControlError::AlreadyRunning)
    } else {
        Ok(())
    }
}

pub open spec fn begin_start_next(s: ControllerState) -> ControllerState {
    if s.is_running() || s.launching {
        s
    } else {
        ControllerState { status: DaemonStatus::Stopped, launching: true }
    }
}

/// Reply of `finish_start`, given what the launch reported.
pub open spec fn finish_start_reply(outcome: Result<DaemonHandle, String>) -> Result<(), ControlError> {
    match outcome {
        Ok(_) => Ok(()),
        Err(reason) => Err(ControlError::DaemonStartFailed(reason)),
    }
}

pub open spec fn finish_start_next(outcome: Result<DaemonHandle, String>) -> ControllerState {
    match outcome {
        Ok(h) => ControllerState { status: DaemonStatus::Running(h), launching: false },
        Err(_) => ControllerState { status: DaemonStatus::Stopped, launching: false },
    }
}

/// Reply of `begin_stop`: the handle to shut down, or `NotRunning`.
pub open spec fn begin_stop_reply(s: ControllerState) -> Result<DaemonHandle, ControlError> {
    match s.status {
        DaemonStatus::Running(h) => Ok(h),
        DaemonStatus::Stopped => Err(ControlError::NotRunning),
    }
}

/// A stop always leaves the controller without a running daemon.
pub open spec fn begin_stop_next(s: ControllerState) -> ControllerState {
    ControllerState { status: DaemonStatus::Stopped, launching: s.launching }
}

/// Reply of `finish_stop`: a failed shutdown is reported, nothing more.
pub open spec fn finish_stop_reply(outcome: Result<(), String>) -> Result<(), ControlError> {
    match outcome {
        Ok(_) => Ok(()),
        Err(reason) => Err(ControlError::DaemonStopFailed(reason)),
    }
}

/// A daemon that ended on its own frees the slot, if it still holds it.
pub open spec fn exited_next(s: ControllerState, h: DaemonHandle) -> ControllerState {
    if s.status == DaemonStatus::Running(h) {
        ControllerState { status: DaemonStatus::Stopped, launching: s.launching }
    } else {
        s
    }
}

/// The controller follows Stopped --start--> Running --stop--> Stopped and
/// nothing else: a start while a daemon runs is refused and changes nothing,
/// a stop while none runs answers `NotRunning`, a daemon only comes to run
/// through a launch reserved while none ran, and every step keeps the state
/// well formed.
pub proof fn lemma_state_machine(s: ControllerState, outcome: Result<DaemonHandle, String>, h: DaemonHandle)
    requires
        s.wf(),
    ensures
        s.is_running() ==> begin_start_reply(s) == Err::<(), ControlError>(ControlError::AlreadyRunning)
            && begin_start_next(s) == s,
        !s.is_running() ==> begin_stop_reply(s) == Err::<DaemonHandle, ControlError>(ControlError::NotRunning)
            && begin_stop_next(s) == s,
        !begin_start_next(s).is_running() || begin_start_next(s) == s,
        s.launching && finish_start_next(outcome).is_running() ==> !s.is_running() && outcome is Ok,
        !begin_stop_next(s).is_running(),
        !exited_next(s, h).is_running() || exited_next(s, h) == s,
        begin_start_next(s).wf(),
        finish_start_next(outcome).wf(),
        begin_stop_next(s).wf(),
        exited_next(s, h).wf(),
{
}

/// Of two starts with no stop between them, exactly one succeeds and the
/// other answers `AlreadyRunning`, whichever comes first, and whether or not
/// the first launch has already reported success.
pub proof fn lemma_single_start(s: ControllerState, h: DaemonHandle)
    requires
        s.wf(),
        !s.is_running(),
        !s.launching,
    ensures
        begin_start_reply(s) == Ok::<(), ControlError>(()),
        begin_start_reply(begin_start_next(s)) == Err::<(), ControlError>(ControlError::AlreadyRunning),
        begin_start_reply(finish_start_next(Ok(h))) == Err::<(), ControlError>(ControlError::AlreadyRunning),
{
}

/// A stop leaves no daemon running, whatever the shutdown then reports; a
/// failed shutdown is only reported.
pub proof fn lemma_stop_always_stops(s: ControllerState, outcome: Result<(), String>)
    ensures
        begin_stop_next(s).status == DaemonStatus::Stopped,
        outcome is Err ==> finish_stop_reply(outcome) == Err::<(), ControlError>(
            ControlError::DaemonStopFailed(outcome->Err_0),
        ),
{
}

/// One operation on the controller, as a caller may issue it.
#[derive(Debug, PartialEq, Eq)]
pub enum ControlStep {
    BeginStart,
    FinishStart(Result<DaemonHandle, String>),
    BeginStop,
    Exited(DaemonHandle),
}

/// The state after `op`; `FinishStart` is only issued while a launch is
/// reserved, and is taken as no step otherwise.
pub open spec fn step(s: ControllerState, op: ControlStep) -> ControllerState {
    match op {
        ControlStep::BeginStart => begin_start_next(s),
        ControlStep::FinishStart(outcome) => if s.launching {
            finish_start_next(outcome)
        } else {
            s
        },
        ControlStep::BeginStop => begin_stop_next(s),
        ControlStep::Exited(h) => exited_next(s, h),
    }
}

/// The states passed through when `ops` are applied to `s` in turn,
/// starting with `s` itself.
pub open spec fn trace(s: ControllerState, ops: Seq<ControlStep>) -> Seq<ControllerState>
    decreases ops.len(),
{
    if ops.len() == 0 {
        seq![s]
    } else {
        trace(s, ops.drop_last()).push(step(trace(s, ops.drop_last()).last(), ops.last()))
    }
}

/// Over any sequence of calls from a fresh controller, every state is well
/// formed, and a daemon comes to run only from a state in which none ran and
/// a launch was reserved: there are never two daemons one after the other
/// without a stop between them.
pub proof fn lemma_every_trace_follows_machine(ops: Seq<ControlStep>)
    ensures
        trace(initial_state(), ops).len() == ops.len() + 1,
        forall|i: int| 0 <= i <= ops.len() ==> (#[trigger] trace(initial_state(), ops)[i]).wf(),
        forall|i: int| 0 <= i < ops.len() && (#[trigger] trace(initial_state(), ops)[i + 1]).is_running()
            ==> trace(initial_state(), ops)[i + 1] == trace(initial_state(), ops)[i]
                || (!trace(initial_state(), ops)[i].is_running() && trace(initial_state(), ops)[i].launching),
    decreases ops.len(),
{
    if ops.len() > 0 {
        let prev = ops.drop_last();
        lemma_every_trace_follows_machine(prev);
        let t = trace(initial_state(), ops);
        let tp = trace(initial_state(), prev);
        assert(t == tp.push(step(tp.last(), ops.last())));
        assert forall|i: int| 0 <= i <= ops.len() implies (#[trigger] t[i]).wf() by {
            if i < ops.len() {
                assert(t[i] == tp[i]);
            }
        }
        assert forall|i: int| 0 <= i < ops.len() && (#[trigger] t[i + 1]).is_running()
            implies t[i + 1] == t[i] || (!t[i].is_running() && t[i].launching) by {
            if i + 1 < ops.len() {
                assert(t[i + 1] == tp[i + 1]);
                assert(t[i] == tp[i]);
            } else {
                assert(t[i] == tp.last());
            }
        }
    }
}

/// The process-wide daemon slot; the host keeps it behind a short-held lock.
pub struct Controller {
    state: ControllerState,
}

impl Controller {
    pub closed spec fn model(&self) -> ControllerState {
        self.state
    }

    pub fn new() -> (c: Controller)
        ensures
            c.model() == initial_state(),
            c.model().wf(),
    {
        Controller { state: ControllerState { status: DaemonStatus::Stopped, launching: false } }
    }

    /// Snapshot of the daemon status.
    pub fn status(&self) -> (r: DaemonStatus)
        ensures
            r == self.model().status,
    {
        self.state.status
    }

    pub fn is_running(&self) -> (r: bool)
        ensures
            r == self.model().is_running(),
    {
        match self.state.status {
            DaemonStatus::Running(_) => true,
            DaemonStatus::Stopped => false,
        }
    }

    /// Whether a launch was reserved and its outcome not yet recorded.
    pub fn is_launching(&self) -> (r: bool)
        ensures
            r == self.model().launching,
    {
        self.state.launching
    }

    /// Checks that no daemon runs or is being launched, and reserves the
    /// launch; the caller then starts the daemon and calls `finish_start`.
    pub fn begin_start(&mut self) -> (r: Result<(), ControlError>)
        requires
            old(self).model().wf(),
        ensures
            r == begin_start_reply(old(self).model()),
            final(self).model() == begin_start_next(old(self).model()),
            final(self).model().wf(),
    {
        let busy = self.is_running() || self.state.launching;
        if busy {
            Err(ControlError::AlreadyRunning)
        } else {
            self.state = ControllerState { status: DaemonStatus::Stopped, launching: true };
            Ok(())
        }
    }

    /// Records the outcome of the launch reserved by `begin_start`.
    pub fn finish_start(&mut self, outcome: Result<DaemonHandle, String>) -> (r: Result<(), ControlError>)
        requires
            old(self).model().wf(),
            old(self).model().launching,
        ensures
            r == finish_start_reply(outcome),
            final(self).model() == finish_start_next(outcome),
            final(self).model().wf(),
    {
        match outcome {
            Ok(h) => {
                self.state = ControllerState { status: DaemonStatus::Running(h), launching: false };
                Ok(())
            },
            Err(reason) => {
                self.state = ControllerState { status: DaemonStatus::Stopped, launching: false };
                Err(ControlError::DaemonStartFailed(reason))
            },
        }
    }

    /// Takes the running daemon's handle out of the slot, so that the caller
    /// can shut it down; the controller counts it as stopped from here on.
    pub fn begin_stop(&mut self) -> (r: Result<DaemonHandle, ControlError>)
        requires
            old(self).model().wf(),
        ensures
            r == begin_stop_reply(old(self).model()),
            final(self).model() == begin_stop_next(old(self).model()),
            final(self).model().wf(),
    {
        match self.state.status {
            DaemonStatus::Running(h) => {
                self.state = ControllerState { status: DaemonStatus::Stopped, launching: self.state.launching };
                Ok(h)
            },
            DaemonStatus::Stopped => Err(ControlError::NotRunning),
        }
    }

    /// Turns what the shutdown reported into the reply of a stop.
    pub fn finish_stop(outcome: Result<(), String>) -> (r: Result<(), ControlError>)
        ensures
            r == finish_stop_reply(outcome),
    {
        match outcome {
            Ok(()) => Ok(()),
            Err(reason) => Err(ControlError::DaemonStopFailed(reason)),
        }
    }

    /// The daemon `h` ended on its own.
    pub fn daemon_exited(&mut self, h: DaemonHandle)
        requires
            old(self).model().wf(),
        ensures
            final(self).model() == exited_next(old(self).model(), h),
            final(self).model().wf(),
    {
        let same = match self.state.status {
            DaemonStatus::Running(cur) => cur.id == h.id,
            DaemonStatus::Stopped => false,
        };
        if same {
            self.state = ControllerState { status: DaemonStatus::Stopped, launching: self.state.launching };
        }
    }
}

} // verus!
