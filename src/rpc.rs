//! The bridge between the embedded page's calls and the controller.
//!
//! A call is parsed against the fixed set of exposed methods, then turned into
//! an action for the host: a reply to deliver at once, or a daemon to launch or
//! shut down first (without holding the controller's lock), after which
//! `complete_launch` or `complete_halt` gives the reply.
use vstd::prelude::*;
use crate::controller::{
    begin_start_next, begin_start_reply, begin_stop_next, begin_stop_reply, finish_start_next,
    finish_start_reply, finish_stop_reply, ControlError, Controller, ControllerState,
    DaemonHandle,
};

verus! {

/// The methods the page may call.
#[derive(Clone, Copy, Debug, PartialEq, Eq, Structural)]
pub enum RpcMethod {
    Status,
    Start,
    Stop,
}

/// A call whose arguments have the shape its method expects.
#[derive(Debug, PartialEq, Eq)]
pub enum RpcCall {
    Status,
    Start(String),
    Stop,
}

/// The payload of a successful call.
#[derive(Clone, Copy, Debug, PartialEq, Eq, Structural)]
pub enum RpcReply {
    Status(bool),
    Done,
}

/// What the host is to do with a call.
#[derive(Debug, PartialEq, Eq)]
pub enum RpcAction {
    Reply(Result<RpcReply, ControlError>),
    Launch(String),
    Halt(DaemonHandle),
}

pub open spec fn method_of(name: Seq<char>) -> Option<RpcMethod> {
    if name == "status"@ {
        Some(RpcMethod::Status)
    } else if name == "start"@ {
        Some(RpcMethod::Start)
    } else if name == "stop"@ {
        Some(RpcMethod::Stop)
    } else {
        None
    }
}

/// `start` takes one argument, the daemon's configuration; the others none.
pub open spec fn parse_call_spec(name: Seq<char>, args: Seq<String>) -> Result<RpcCall, ControlError> {
    match method_of(name) {
        None => Err(ControlError::UnknownMethod),
        Some(RpcMethod::Status) => if args.len() == 0 {
            Ok(RpcCall::Status)
        } else {
            Err(ControlError::InvalidArguments)
        },
        Some(RpcMethod::Start) => if args.len() == 1 {
            Ok(RpcCall::Start(args[0]))
        } else {
            Err(ControlError::InvalidArguments)
        },
        Some(RpcMethod::Stop) => if args.len() == 0 {
            Ok(RpcCall::Stop)
        } else {
            Err(ControlError::InvalidArguments)
        },
    }
}

pub open spec fn reply_of(r: Result<(), ControlError>) -> Result<RpcReply, ControlError> {
    match r {
        Ok(_) => Ok(RpcReply::Done),
        Err(e) => Err(e),
    }
}

/// The controller state after a call, and the action it asks of the host.
pub open spec fn rpc_step(s: ControllerState, call: Result<RpcCall, ControlError>) -> (ControllerState, RpcAction) {
    match call {
        Err(e) => (s, RpcAction::Reply(Err(e))),
        Ok(RpcCall::Status) => (s, RpcAction::Reply(Ok(RpcReply::Status(s.is_running())))),
        Ok(RpcCall::Start(config)) => match begin_start_reply(s) {
            Ok(_) => (begin_start_next(s), RpcAction::Launch(config)),
            Err(e) => (begin_start_next(s), RpcAction::Reply(Err(e))),
        },
        Ok(RpcCall::Stop) => match begin_stop_reply(s) {
            Ok(h) => (begin_stop_next(s), RpcAction::Halt(h)),
            Err(e) => (begin_stop_next(s), RpcAction::Reply(Err(e))),
        },
    }
}

/// Checks a call's method name against the exposed methods and its arguments
/// against the method's shape.
pub fn parse_call(name: &str, args: &Vec<String>) -> (r: Result<RpcCall, ControlError>)
    ensures
        r == parse_call_spec(name@, args@),
{
    let n = name.to_owned();
    if n == String::from_str("status") {
        if args.len() == 0 {
            Ok(RpcCall::Status)
        } else {
            Err(ControlError::InvalidArguments)
        }
    } else if n == String::from_str("start") {
        if args.len() == 1 {
            Ok(RpcCall::Start(args[0].clone()))
        } else {
            Err(ControlError::InvalidArguments)
        }
    } else if n == String::from_str("stop") {
        if args.len() == 0 {
            Ok(RpcCall::Stop)
        } else {
            Err(ControlError::InvalidArguments)
        }
    } else {
        Err(ControlError::UnknownMethod)
    }
}

/// Dispatches a call from the page to the controller.
pub fn handle_rpc(ctrl: &mut Controller, name: &str, args: &Vec<String>) -> (r: RpcAction)
    requires
        old(ctrl).model().wf(),
    ensures
        (final(ctrl).model(), r) == rpc_step(old(ctrl).model(), parse_call_spec(name@, args@)),
        final(ctrl).model().wf(),
{
    match parse_call(name, args) {
        Err(e) => RpcAction::Reply(Err(e)),
        Ok(RpcCall::Status) => RpcAction::Reply(Ok(RpcReply::Status(ctrl.is_running()))),
        Ok(RpcCall::Start(config)) => match ctrl.begin_start() {
            Ok(()) => RpcAction::Launch(config),
            Err(e) => RpcAction::Reply(Err(e)),
        },
        Ok(RpcCall::Stop) => match ctrl.begin_stop() {
            Ok(h) => RpcAction::Halt(h),
            Err(e) => RpcAction::Reply(Err(e)),
        },
    }
}

/// The reply to a `start` call once the launch it asked for has reported.
pub fn complete_launch(ctrl: &mut Controller, outcome: Result<DaemonHandle, String>) -> (r: Result<RpcReply, ControlError>)
    requires
        old(ctrl).model().wf(),
        old(ctrl).model().launching,
    ensures
        r == reply_of(finish_start_reply(outcome)),
        final(ctrl).model() == finish_start_next(outcome),
        final(ctrl).model().wf(),
{
    match ctrl.finish_start(outcome) {
        Ok(()) => Ok(RpcReply::Done),
        Err(e) => Err(e),
    }
}

/// The reply to a `stop` call once the shutdown it asked for has reported.
pub fn complete_halt(outcome: Result<(), String>) -> (r: Result<RpcReply, ControlError>)
    ensures
        r == reply_of(finish_stop_reply(outcome)),
{
    match Controller::finish_stop(outcome) {
        Ok(()) => Ok(RpcReply::Done),
        Err(e) => Err(e),
    }
}

/// A call to a method that is not exposed is answered with `UnknownMethod`
/// and leaves the controller as it was.
pub proof fn lemma_unknown_method_changes_nothing(s: ControllerState, name: Seq<char>, args: Seq<String>)
    requires
        method_of(name) is None,
    ensures
        rpc_step(s, parse_call_spec(name, args)) == (s, RpcAction::Reply(Err(ControlError::UnknownMethod))),
{
}

} // verus!
