//! The feature activator's requests to the trust-and-integrity service:
//! query developer mode, or have the device show its option.

use vstd::prelude::*;
use crate::directory::{first_answering, none_answering, resolve, DeviceHandle};
use crate::error::ErrorKind;
use crate::protocol::{Action, Outcome, Reply};

verus! {

/// What is asked of the device's trust-and-integrity service.
#[derive(Clone, Copy, Debug, PartialEq, Eq, Structural)]
pub enum Request {
    /// Whether developer mode is enabled.
    Query,
    /// That the device show its developer-mode option to its user.
    Reveal,
}

/// How far a request to the trust-and-integrity service has come.
#[derive(Debug, PartialEq, Eq)]
pub enum DeveloperMode {
    /// Waiting for the connection to the multiplexing daemon.
    AwaitDaemon { target: String, request: Request },
    /// Waiting for the daemon's list of devices.
    AwaitDevices { target: String, request: Request },
    /// Waiting for the session with the trust-and-integrity service.
    AwaitService { request: Request },
    /// Waiting for the service's answer.
    AwaitAnswer { request: Request },
    /// The request has ended.
    Closed,
}

/// The request ends with the failure `kind`.
pub open spec fn request_aborts(post: DeveloperMode, act: Action, kind: ErrorKind) -> bool {
    post == DeveloperMode::Closed && act == (Action::Abort { kind })
}

/// One step of a request: from the state `pre` and the reply to the action
/// that was pending, to the state `post` and the next action `act`. A reply
/// that does not answer the pending action counts as its failure.
pub open spec fn developer_mode_step(
    pre: DeveloperMode,
    reply: Reply,
    post: DeveloperMode,
    act: Action,
) -> bool {
    match pre {
        DeveloperMode::AwaitDaemon { target, request } => match reply {
            Reply::Completed => post == (DeveloperMode::AwaitDevices { target, request }) && act
                == Action::ListDevices,
            _ => request_aborts(post, act, ErrorKind::ConnectionFailed),
        },
        DeveloperMode::AwaitDevices { target, request } => match reply {
            Reply::Devices(list) => {
                ||| exists|at: int|
                    {
                        &&& first_answering(list@, target@, at)
                        &&& post == (DeveloperMode::AwaitService { request })
                        &&& act == (Action::ConnectTrustService { device: list@[at] })
                    }
                ||| none_answering(list@, target@) && request_aborts(
                    post,
                    act,
                    ErrorKind::DeviceNotFound,
                )
            },
            _ => request_aborts(post, act, ErrorKind::ConnectionFailed),
        },
        DeveloperMode::AwaitService { request } => match reply {
            Reply::Completed => post == (DeveloperMode::AwaitAnswer { request }) && act == (
            match request {
                Request::Query => Action::QueryDeveloperMode,
                Request::Reveal => Action::RevealDeveloperMode,
            }),
            _ => request_aborts(post, act, ErrorKind::ConnectionFailed),
        },
        DeveloperMode::AwaitAnswer { request } => match (request, reply) {
            (Request::Query, Reply::DeveloperMode(enabled)) => post == DeveloperMode::Closed
                && act == (Action::Finish { outcome: Outcome::DeveloperMode(enabled) }),
            (Request::Reveal, Reply::Completed) => post == DeveloperMode::Closed && act == (
            Action::Finish { outcome: Outcome::Revealed }),
            _ => request_aborts(post, act, ErrorKind::ProtocolRejected),
        },
        DeveloperMode::Closed => post == DeveloperMode::Closed && act == Action::Halt,
    }
}

impl DeveloperMode {
    /// Begins the request `request` to the device `target`.
    pub fn begin(target: &str, request: Request) -> (out: (DeveloperMode, Action))
        ensures
            out.0 matches DeveloperMode::AwaitDaemon { target: t, request: r } && t@ == target@
                && r == request,
            out.1 == Action::ConnectDaemon,
    {
        (
            DeveloperMode::AwaitDaemon { target: String::from_str(target), request },
            Action::ConnectDaemon,
        )
    }

    /// Takes the reply to the pending action and gives the next state and
    /// the next action.
    pub fn step(self, reply: Reply) -> (out: (DeveloperMode, Action))
        ensures
            developer_mode_step(self, reply, out.0, out.1),
    {
        match self {
            DeveloperMode::AwaitDaemon { target, request } => match reply {
                Reply::Completed => (
                    DeveloperMode::AwaitDevices { target, request },
                    Action::ListDevices,
                ),
                _ => (DeveloperMode::Closed, Action::Abort { kind: ErrorKind::ConnectionFailed }),
            },
            DeveloperMode::AwaitDevices { target, request } => match reply {
                Reply::Devices(list) => match resolve(&list, target.as_str()) {
                    Ok(device) => (
                        DeveloperMode::AwaitService { request },
                        Action::ConnectTrustService { device },
                    ),
                    Err(kind) => (DeveloperMode::Closed, Action::Abort { kind }),
                },
                _ => (DeveloperMode::Closed, Action::Abort { kind: ErrorKind::ConnectionFailed }),
            },
            DeveloperMode::AwaitService { request } => match reply {
                Reply::Completed => {
                    let act = match request {
                        Request::Query => Action::QueryDeveloperMode,
                        Request::Reveal => Action::RevealDeveloperMode,
                    };
                    (DeveloperMode::AwaitAnswer { request }, act)
                },
                _ => (DeveloperMode::Closed, Action::Abort { kind: ErrorKind::ConnectionFailed }),
            },
            DeveloperMode::AwaitAnswer { request } => match (request, reply) {
                (Request::Query, Reply::DeveloperMode(enabled)) => (
                    DeveloperMode::Closed,
                    Action::Finish { outcome: Outcome::DeveloperMode(enabled) },
                ),
                (Request::Reveal, Reply::Completed) => (
                    DeveloperMode::Closed,
                    Action::Finish { outcome: Outcome::Revealed },
                ),
                _ => (DeveloperMode::Closed, Action::Abort { kind: ErrorKind::ProtocolRejected }),
            },
            DeveloperMode::Closed => (DeveloperMode::Closed, Action::Halt),
        }
    }
}

} // verus!
