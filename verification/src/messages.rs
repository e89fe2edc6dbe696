//! The protocol's message definitions.
//!
//! Clients send `ClientToServerMessage`; the daemon answers and broadcasts
//! `ServerToClientMessage`.  Every client request except `Input` and
//! `Shutdown` carries a `TaskId`; the reply to the initiator carries the same
//! id, while fan-out copies to other clients carry `None`.

use vstd::prelude::*;

use crate::config::Config;
use crate::config::ConfigView;
use crate::error::SerdeError;
use crate::error::SerdeErrorView;
use crate::ids::OperationId;
use crate::ids::TaskId;
use crate::util::copy_bytes;

verus! {

/// An externally visible operation on the child process.
#[derive(Debug, Copy, Clone, PartialEq, Eq, Structural)]
pub enum Operation {
    Start,
    Stop,
    Restart,
}

/// How the child process exited.
#[derive(Debug, Copy, Clone, PartialEq, Eq, Structural)]
pub enum ExitStatus {
    Success,
    Failure,
}

/// The supervisor's published state: the child is running, or it is stopped
/// with the last observed exit status, if any.
#[derive(Debug, Copy, Clone, PartialEq, Eq, Structural)]
pub enum ServerState {
    Started,
    Stopped(Option<ExitStatus>),
}

/// A message from a client to the daemon.
#[derive(Debug, PartialEq, Eq)]
pub enum ClientToServerMessage {
    Ping(TaskId),
    GetConfig(TaskId),
    GetServerState(TaskId),
    UpdateConfig(TaskId, Config),
    PerformOperation(TaskId, Operation),
    Input(Vec<u8>),
    /// Honoured only when sent by a Unix-domain client.
    Shutdown,
}

/// The mathematical value of a `ClientToServerMessage`.
pub enum C2sView {
    Ping(TaskId),
    GetConfig(TaskId),
    GetServerState(TaskId),
    UpdateConfig(TaskId, ConfigView),
    PerformOperation(TaskId, Operation),
    Input(Seq<u8>),
    Shutdown,
}

impl View for ClientToServerMessage {
    type V = C2sView;

    open spec fn view(&self) -> C2sView {
        match self {
            ClientToServerMessage::Ping(t) => C2sView::Ping(*t),
            ClientToServerMessage::GetConfig(t) => C2sView::GetConfig(*t),
            ClientToServerMessage::GetServerState(t) => C2sView::GetServerState(*t),
            ClientToServerMessage::UpdateConfig(t, c) => C2sView::UpdateConfig(*t, c@),
            ClientToServerMessage::PerformOperation(t, op) => C2sView::PerformOperation(*t, *op),
            ClientToServerMessage::Input(b) => C2sView::Input(b@),
            ClientToServerMessage::Shutdown => C2sView::Shutdown,
        }
    }
}

/// A message from the daemon to a client.
#[derive(Debug, PartialEq, Eq)]
pub enum ServerToClientMessage {
    Pong(TaskId),
    CurrentConfig(Option<Config>, TaskId),
    CurrentServerState(ServerState, TaskId),
    ConfigUpdated(Config, Option<TaskId>),
    OperationRequested(Operation, OperationId),
    OperationPerformed(Operation, OperationId, Option<TaskId>),
    OperationFailed(Operation, OperationId, SerdeError, Option<TaskId>),
    ServerStateUpdated(ServerState),
    Stdout(Vec<u8>),
    Stderr(Vec<u8>),
    FatalError(SerdeError),
    Error(SerdeError, Option<TaskId>),
    ShuttingDown,
}

/// The mathematical value of a `ServerToClientMessage`.
pub enum S2cView {
    Pong(TaskId),
    CurrentConfig(Option<ConfigView>, TaskId),
    CurrentServerState(ServerState, TaskId),
    ConfigUpdated(ConfigView, Option<TaskId>),
    OperationRequested(Operation, OperationId),
    OperationPerformed(Operation, OperationId, Option<TaskId>),
    OperationFailed(Operation, OperationId, SerdeErrorView, Option<TaskId>),
    ServerStateUpdated(ServerState),
    Stdout(Seq<u8>),
    Stderr(Seq<u8>),
    FatalError(SerdeErrorView),
    Error(SerdeErrorView, Option<TaskId>),
    ShuttingDown,
}

impl View for ServerToClientMessage {
    type V = S2cView;

    open spec fn view(&self) -> S2cView {
        match self {
            ServerToClientMessage::Pong(t) => S2cView::Pong(*t),
            ServerToClientMessage::CurrentConfig(c, t) => S2cView::CurrentConfig(
                match c {
                    Some(c) => Some(c@),
                    None => None,
                },
                *t,
            ),
            ServerToClientMessage::CurrentServerState(s, t) => S2cView::CurrentServerState(*s, *t),
            ServerToClientMessage::ConfigUpdated(c, t) => S2cView::ConfigUpdated(c@, *t),
            ServerToClientMessage::OperationRequested(op, oid) => S2cView::OperationRequested(
                *op,
                *oid,
            ),
            ServerToClientMessage::OperationPerformed(op, oid, t) => S2cView::OperationPerformed(
                *op,
                *oid,
                *t,
            ),
            ServerToClientMessage::OperationFailed(op, oid, e, t) => S2cView::OperationFailed(
                *op,
                *oid,
                e@,
                *t,
            ),
            ServerToClientMessage::ServerStateUpdated(s) => S2cView::ServerStateUpdated(*s),
            ServerToClientMessage::Stdout(b) => S2cView::Stdout(b@),
            ServerToClientMessage::Stderr(b) => S2cView::Stderr(b@),
            ServerToClientMessage::FatalError(e) => S2cView::FatalError(e@),
            ServerToClientMessage::Error(e, t) => S2cView::Error(e@, *t),
            ServerToClientMessage::ShuttingDown => S2cView::ShuttingDown,
        }
    }
}

impl Clone for ServerToClientMessage {
    fn clone(&self) -> (r: Self)
        ensures
            r@ == self@,
    {
        match self {
            ServerToClientMessage::Pong(t) => ServerToClientMessage::Pong(*t),
            ServerToClientMessage::CurrentConfig(c, t) => ServerToClientMessage::CurrentConfig(
                match c {
                    Some(c) => Some(c.clone()),
                    None => None,
                },
                *t,
            ),
            ServerToClientMessage::CurrentServerState(s, t) => {
                ServerToClientMessage::CurrentServerState(*s, *t)
            },
            ServerToClientMessage::ConfigUpdated(c, t) => ServerToClientMessage::ConfigUpdated(
                c.clone(),
                *t,
            ),
            ServerToClientMessage::OperationRequested(op, oid) => {
                ServerToClientMessage::OperationRequested(*op, *oid)
            },
            ServerToClientMessage::OperationPerformed(op, oid, t) => {
                ServerToClientMessage::OperationPerformed(*op, *oid, *t)
            },
            ServerToClientMessage::OperationFailed(op, oid, e, t) => {
                ServerToClientMessage::OperationFailed(*op, *oid, e.clone(), *t)
            },
            ServerToClientMessage::ServerStateUpdated(s) => {
                ServerToClientMessage::ServerStateUpdated(*s)
            },
            ServerToClientMessage::Stdout(b) => ServerToClientMessage::Stdout(copy_bytes(b)),
            ServerToClientMessage::Stderr(b) => ServerToClientMessage::Stderr(copy_bytes(b)),
            ServerToClientMessage::FatalError(e) => ServerToClientMessage::FatalError(e.clone()),
            ServerToClientMessage::Error(e, t) => ServerToClientMessage::Error(e.clone(), *t),
            ServerToClientMessage::ShuttingDown => ServerToClientMessage::ShuttingDown,
        }
    }
}

impl ClientToServerMessage {
    /// The task id the message carries, if its kind expects a reply.
    pub open spec fn spec_task_id(self) -> Option<TaskId> {
        match self {
            ClientToServerMessage::Ping(task_id) => Some(task_id),
            ClientToServerMessage::GetConfig(task_id) => Some(task_id),
            ClientToServerMessage::GetServerState(task_id) => Some(task_id),
            ClientToServerMessage::UpdateConfig(task_id, _) => Some(task_id),
            ClientToServerMessage::PerformOperation(task_id, _) => Some(task_id),
            ClientToServerMessage::Input(_) => None,
            ClientToServerMessage::Shutdown => None,
        }
    }

    pub fn task_id(&self) -> (r: Option<TaskId>)
        ensures
            r == self.spec_task_id(),
    {
        match self {
            ClientToServerMessage::Ping(task_id) => Some(*task_id),
            ClientToServerMessage::GetConfig(task_id) => Some(*task_id),
            ClientToServerMessage::GetServerState(task_id) => Some(*task_id),
            ClientToServerMessage::UpdateConfig(task_id, _) => Some(*task_id),
            ClientToServerMessage::PerformOperation(task_id, _) => Some(*task_id),
            _ => None,
        }
    }
}

impl ServerToClientMessage {
    /// The task id the message is tagged with, if any: present exactly on the
    /// copy addressed to the request's initiator.
    pub open spec fn spec_task_id(self) -> Option<TaskId> {
        match self {
            ServerToClientMessage::Pong(task_id) => Some(task_id),
            ServerToClientMessage::CurrentConfig(_, task_id) => Some(task_id),
            ServerToClientMessage::CurrentServerState(_, task_id) => Some(task_id),
            ServerToClientMessage::ConfigUpdated(_, task_id) => task_id,
            ServerToClientMessage::OperationPerformed(_, _, task_id) => task_id,
            ServerToClientMessage::OperationFailed(_, _, _, task_id) => task_id,
            ServerToClientMessage::Error(_, task_id) => task_id,
            _ => None,
        }
    }

    pub fn task_id(&self) -> (r: Option<TaskId>)
        ensures
            r == self.spec_task_id(),
    {
        match self {
            ServerToClientMessage::Pong(task_id) => Some(*task_id),
            ServerToClientMessage::CurrentConfig(_, task_id) => Some(*task_id),
            ServerToClientMessage::CurrentServerState(_, task_id) => Some(*task_id),
            ServerToClientMessage::ConfigUpdated(_, task_id) => *task_id,
            ServerToClientMessage::OperationPerformed(_, _, task_id) => *task_id,
            ServerToClientMessage::OperationFailed(_, _, _, task_id) => *task_id,
            ServerToClientMessage::Error(_, task_id) => *task_id,
            _ => None,
        }
    }

    /// The operation id the message carries, if it reports on an operation.
    pub open spec fn spec_operation_id(self) -> Option<OperationId> {
        match self {
            ServerToClientMessage::OperationRequested(_, operation_id) => Some(operation_id),
            ServerToClientMessage::OperationPerformed(_, operation_id, _) => Some(operation_id),
            ServerToClientMessage::OperationFailed(_, operation_id, _, _) => Some(operation_id),
            _ => None,
        }
    }

    pub fn operation_id(&self) -> (r: Option<OperationId>)
        ensures
            r == self.spec_operation_id(),
    {
        match self {
            ServerToClientMessage::OperationRequested(_, operation_id) => Some(*operation_id),
            ServerToClientMessage::OperationPerformed(_, operation_id, _) => Some(*operation_id),
            ServerToClientMessage::OperationFailed(_, operation_id, _, _) => Some(*operation_id),
            _ => None,
        }
    }
}

} // verus!
