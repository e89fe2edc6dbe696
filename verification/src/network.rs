//! The network actor's decision core: protocol dispatch over the client
//! registry.
//!
//! The surrounding I/O loop owns the sockets and channels; it hands every
//! decoded client message to `handle_c2s`-style functions here and carries
//! out what they return: messages to enqueue on per-client queues, a request
//! for the supervisor, and how to route the supervisor's answer back.  The
//! registry is mutated here and nowhere else.

use vstd::prelude::*;

use crate::broadcast::expected_plain_sends;
use crate::broadcast::expected_reply_sends;
use crate::broadcast::sends_to;
use crate::broadcast::spec_reply;
use crate::broadcast::MessageBroadcaster;
use crate::broadcast::ReplyTemplate;
use crate::broadcast::ReplyTemplateView;
use crate::config::Config;
use crate::config::ConfigView;
use crate::error::SerdeError;
use crate::ids::OperationId;
use crate::ids::TaskId;
use crate::messages::Operation;
use crate::messages::S2cView;
use crate::messages::ServerState;
use crate::messages::ServerToClientMessage;
use crate::registry::ClientId;
use crate::registry::ClientKind;
use crate::registry::ClientRegistry;

verus! {

/// A request from the network actor to the supervisor.
#[derive(Debug)]
pub enum NetworkToServerMessage {
    GetConfig,
    GetServerState,
    UpdateConfig(Config),
    PerformOperation(Operation),
    Input(Vec<u8>),
    Shutdown,
}

/// How the supervisor's eventual answer is routed back to clients.
pub enum PendingReply {
    /// Send the current config to the asking client, tagged.
    CurrentConfig(ClientId, TaskId),
    /// Send the current server state to the asking client, tagged.
    CurrentServerState(ClientId, TaskId),
    /// Broadcast the config update over the captured snapshot.
    ConfigUpdated(MessageBroadcaster, Config),
    /// Broadcast the operation's outcome over the captured snapshot.
    OperationOutcome(MessageBroadcaster, Operation, OperationId),
}

/// The initiator a snapshot keeps: the asking client, where it is still
/// registered.
pub open spec fn spec_initiator(
    clients: Map<int, ClientKind>,
    active: Option<(ClientId, TaskId)>,
) -> Option<(ClientId, TaskId)> {
    match active {
        Some(p) => if clients.dom().contains(p.0.0 as int) {
            Some(p)
        } else {
            None
        },
        None => None,
    }
}

/// Shutdown is honoured exactly for a registered Unix-domain client.
pub open spec fn spec_shutdown_allowed(clients: Map<int, ClientKind>, id: ClientId) -> bool {
    clients.dom().contains(id.0 as int) && clients[id.0 as int] is Unix
}

/// The network actor's private state: the registry of connected clients.
pub struct NetworkTask {
    pub registry: ClientRegistry,
}

/// What dispatching one perform-operation request produces.
pub struct PerformDispatch {
    /// The fresh id for this operation.
    pub op_id: OperationId,
    /// The immediate broadcast of `OperationRequested`.
    pub sends: Vec<(ClientId, ServerToClientMessage)>,
    /// The request to hand the supervisor.
    pub request: NetworkToServerMessage,
    /// How to route the supervisor's acknowledgement.
    pub pending: PendingReply,
}

/// What dispatching a shutdown request produces.
pub struct ShutdownDispatch {
    /// The request to hand the supervisor, where the sender has authority.
    pub request: Option<NetworkToServerMessage>,
    /// Set where a TCP client asked: the request is refused, a warning is
    /// logged, and nothing else happens.
    pub rejected: bool,
}

impl NetworkTask {
    pub open spec fn wf(self) -> bool {
        self.registry.wf()
    }

    /// A network actor with no clients.
    pub fn new() -> (r: Self)
        ensures
            r.wf(),
            r.registry@ == Map::<int, ClientKind>::empty(),
    {
        NetworkTask { registry: ClientRegistry::new() }
    }

    /// Registers a newly accepted stream's client.
    pub fn register_client(&mut self, kind: ClientKind) -> (id: ClientId)
        requires
            old(self).wf(),
        ensures
            final(self).wf(),
            !old(self).registry@.dom().contains(id.0 as int),
            final(self).registry@ == old(self).registry@.insert(id.0 as int, kind),
    {
        self.registry.insert(kind)
    }

    /// Removes a client after either of its I/O tasks ended.
    pub fn destroy_client(&mut self, id: ClientId) -> (r: Option<ClientKind>)
        requires
            old(self).wf(),
        ensures
            final(self).wf(),
            old(self).registry@.dom().contains(id.0 as int) ==> r == Some(
                old(self).registry@[id.0 as int],
            ) && final(self).registry@ == old(self).registry@.remove(id.0 as int),
            !old(self).registry@.dom().contains(id.0 as int) ==> r is None && final(self).registry@
                == old(self).registry@,
    {
        self.registry.remove(id)
    }

    /// Captures the broadcast snapshot: the asking client as initiator where
    /// it is still registered, everyone else as plain recipients.
    pub fn message_broadcaster(&self, active: Option<(ClientId, TaskId)>) -> (br:
        MessageBroadcaster)
        requires
            self.wf(),
        ensures
            br.wf(),
            br.initiator == spec_initiator(self.registry@, active),
            forall|d: ClientId|
                #[trigger] br.others@.contains(d) <==> (self.registry@.dom().contains(d.0 as int)
                    && match br.initiator {
                    Some(p) => d != p.0,
                    None => true,
                }),
    {
        let snap = self.registry.snapshot();
        let initiator: Option<(ClientId, TaskId)> = match active {
            Some((c, t)) => {
                if self.registry.contains(c) {
                    Some((c, t))
                } else {
                    None
                }
            },
            None => None,
        };
        let mut others: Vec<ClientId> = Vec::new();
        let mut i: usize = 0;
        while i < snap.len()
            invariant
                i <= snap@.len(),
                forall|j: int|
                    0 <= j < snap@.len() ==> self.registry@.dom().contains(
                        #[trigger] snap@[j].0.0 as int,
                    ),
                forall|k: int|
                    self.registry@.dom().contains(k) ==> exists|j: int|
                        0 <= j < snap@.len() && #[trigger] snap@[j].0.0 as int == k,
                forall|j1: int, j2: int|
                    0 <= j1 < j2 < snap@.len() ==> snap@[j1].0.0 < snap@[j2].0.0,
                forall|a: int, j: int|
                    0 <= a < others@.len() && i <= j < snap@.len()
                        ==> #[trigger] others@[a].0 < #[trigger] snap@[j].0.0,
                forall|a: int, b: int| 0 <= a < b < others@.len() ==> others@[a] != others@[b],
                forall|d: ClientId|
                    #[trigger] others@.contains(d) <==> ((exists|j: int|
                        0 <= j < i && #[trigger] snap@[j].0 == d) && match initiator {
                        Some(p) => d != p.0,
                        None => true,
                    }),
            decreases snap@.len() - i,
        {
            let (cid, _kind) = snap[i];
            let skip_this = match initiator {
                Some((c, _t)) => cid.0 == c.0,
                None => false,
            };
            if !skip_this {
                let ghost before = others@;
                others.push(cid);
                proof {
                    assert(others@ =~= before.push(cid));
                    assert forall|d: ClientId| #[trigger] others@.contains(d) implies ((exists|
                        j: int,
                    |
                        0 <= j < i + 1 && #[trigger] snap@[j].0 == d) && match initiator {
                        Some(p) => d != p.0,
                        None => true,
                    }) by {
                        if d == cid {
                            assert(snap@[i as int].0 == d);
                        } else {
                            assert(before.contains(d));
                        }
                    }
                    assert forall|d: ClientId|
                        ((exists|j: int| 0 <= j < i + 1 && #[trigger] snap@[j].0 == d)
                            && match initiator {
                            Some(p) => d != p.0,
                            None => true,
                        }) implies #[trigger] others@.contains(d) by {
                        let j = choose|j: int| 0 <= j < i + 1 && #[trigger] snap@[j].0 == d;
                        if j == i {
                            assert(others@[others@.len() - 1] == d);
                        } else {
                            assert(before.contains(d));
                            let a = choose|a: int|
                                0 <= a < before.len() && #[trigger] before[a] == d;
                            assert(others@[a] == d);
                        }
                    }
                }
            } else {
                proof {
                    assert forall|d: ClientId|
                        ((exists|j: int| 0 <= j < i + 1 && #[trigger] snap@[j].0 == d)
                            && match initiator {
                            Some(p) => d != p.0,
                            None => true,
                        }) implies #[trigger] others@.contains(d) by {
                        let j = choose|j: int| 0 <= j < i + 1 && #[trigger] snap@[j].0 == d;
                        if j == i {
                            assert(false);
                        } else {
                            assert((exists|j2: int| 0 <= j2 < i && #[trigger] snap@[j2].0 == d));
                        }
                    }
                }
            }
            i = i + 1;
        }
        let br = MessageBroadcaster { initiator, others };
        proof {
            assert forall|d: ClientId| #[trigger] br.others@.contains(d) implies (
            self.registry@.dom().contains(d.0 as int) && match br.initiator {
                Some(p) => d != p.0,
                None => true,
            }) by {
                let j = choose|j: int| 0 <= j < snap@.len() && #[trigger] snap@[j].0 == d;
            }
            assert forall|d: ClientId|
                (self.registry@.dom().contains(d.0 as int) && match br.initiator {
                    Some(p) => d != p.0,
                    None => true,
                }) implies #[trigger] br.others@.contains(d) by {
                let j = choose|j: int|
                    0 <= j < snap@.len() && #[trigger] snap@[j].0.0 as int == d.0 as int;
                assert(snap@[j].0 == d);
            }
        }
        br
    }

    /// Fans one message out to every connected client.
    pub fn broadcast_message(&self, message: &ServerToClientMessage) -> (plan: Vec<
        (ClientId, ServerToClientMessage),
    >)
        requires
            self.wf(),
        ensures
            forall|d: ClientId|
                #[trigger] sends_to(plan@, d) == (if self.registry@.dom().contains(d.0 as int) {
                    seq![message@]
                } else {
                    Seq::<S2cView>::empty()
                }),
    {
        let br = self.message_broadcaster(None);
        let plan = br.broadcast(message);
        proof {
            assert forall|d: ClientId|
                #[trigger] sends_to(plan@, d) == (if self.registry@.dom().contains(d.0 as int) {
                    seq![message@]
                } else {
                    Seq::<S2cView>::empty()
                }) by {
                assert(sends_to(plan@, d) == expected_plain_sends(
                    br.initiator,
                    br.others@,
                    message@,
                    d,
                ));
            }
        }
        plan
    }

    /// Answers a ping: `Pong` to the sender alone.
    pub fn handle_c2s_ping(&self, id: ClientId, task_id: TaskId) -> (plan: Vec<
        (ClientId, ServerToClientMessage),
    >)
        requires
            self.wf(),
        ensures
            forall|d: ClientId|
                #[trigger] sends_to(plan@, d) == (if d == id && self.registry@.dom().contains(
                    id.0 as int,
                ) {
                    seq![S2cView::Pong(task_id)]
                } else {
                    Seq::<S2cView>::empty()
                }),
    {
        let mut plan: Vec<(ClientId, ServerToClientMessage)> = Vec::new();
        if self.registry.contains(id) {
            let m = ServerToClientMessage::Pong(task_id);
            let ghost before = plan@;
            plan.push((id, m));
            proof {
                assert forall|d: ClientId| #[trigger] sends_to(plan@, d) == (if d == id {
                    seq![S2cView::Pong(task_id)]
                } else {
                    Seq::<S2cView>::empty()
                }) by {
                    crate::broadcast::lemma_sends_to_push(before, (id, m), d);
                    if d == id {
                        assert(sends_to(plan@, d) =~= seq![S2cView::Pong(task_id)]);
                    } else {
                        assert(sends_to(plan@, d) =~= Seq::<S2cView>::empty());
                    }
                }
            }
        }
        plan
    }

    /// Asks the supervisor for the config, to be returned to the sender.
    pub fn handle_c2s_get_config(&self, id: ClientId, task_id: TaskId) -> (r: Option<
        (NetworkToServerMessage, PendingReply),
    >)
        requires
            self.wf(),
        ensures
            r is Some <==> self.registry@.dom().contains(id.0 as int),
            r matches Some(pair) ==> pair.0 is GetConfig && pair.1 == PendingReply::CurrentConfig(
                id,
                task_id,
            ),
    {
        if self.registry.contains(id) {
            Some((NetworkToServerMessage::GetConfig, PendingReply::CurrentConfig(id, task_id)))
        } else {
            None
        }
    }

    /// Asks the supervisor for the server state, to be returned to the
    /// sender.
    pub fn handle_c2s_get_server_state(&self, id: ClientId, task_id: TaskId) -> (r: Option<
        (NetworkToServerMessage, PendingReply),
    >)
        requires
            self.wf(),
        ensures
            r is Some <==> self.registry@.dom().contains(id.0 as int),
            r matches Some(pair) ==> pair.0 is GetServerState && pair.1
                == PendingReply::CurrentServerState(id, task_id),
    {
        if self.registry.contains(id) {
            Some(
                (
                    NetworkToServerMessage::GetServerState,
                    PendingReply::CurrentServerState(id, task_id),
                ),
            )
        } else {
            None
        }
    }

    /// Asks the supervisor to apply a config update; its confirmation is
    /// broadcast over the snapshot captured now.
    pub fn handle_c2s_update_config(&self, id: ClientId, task_id: TaskId, config: Config) -> (r: (
        NetworkToServerMessage,
        PendingReply,
    ))
        requires
            self.wf(),
        ensures
            r.0 matches NetworkToServerMessage::UpdateConfig(c) && c@ == config@,
            r.1 matches PendingReply::ConfigUpdated(br, c2) && c2@ == config@ && br.wf()
                && br.initiator == spec_initiator(self.registry@, Some((id, task_id))) && forall|
                d: ClientId,
            |
                #[trigger] br.others@.contains(d) <==> (self.registry@.dom().contains(d.0 as int)
                    && match br.initiator {
                    Some(p) => d != p.0,
                    None => true,
                }),
    {
        let br = self.message_broadcaster(Some((id, task_id)));
        let request = NetworkToServerMessage::UpdateConfig(config.clone());
        (request, PendingReply::ConfigUpdated(br, config))
    }

    /// Starts a perform-operation flow: draws a fresh operation id,
    /// broadcasts `OperationRequested` to every connected client at once,
    /// and asks the supervisor; the outcome is broadcast over the snapshot
    /// captured now.
    pub fn handle_c2s_perform_operation(&self, id: ClientId, task_id: TaskId, operation: Operation)
        -> (r: PerformDispatch)
        requires
            self.wf(),
        ensures
            forall|d: ClientId|
                #[trigger] sends_to(r.sends@, d) == (if self.registry@.dom().contains(
                    d.0 as int,
                ) {
                    seq![S2cView::OperationRequested(operation, r.op_id)]
                } else {
                    Seq::<S2cView>::empty()
                }),
            r.request matches NetworkToServerMessage::PerformOperation(op) && op == operation,
            r.pending matches PendingReply::OperationOutcome(br, op2, oid2) && op2 == operation
                && oid2 == r.op_id && br.wf() && br.initiator == spec_initiator(
                self.registry@,
                Some((id, task_id)),
            ) && forall|d: ClientId|
                #[trigger] br.others@.contains(d) <==> (self.registry@.dom().contains(d.0 as int)
                    && match br.initiator {
                    Some(p) => d != p.0,
                    None => true,
                }),
    {
        let op_id = OperationId::generate();
        let sends = self.broadcast_message(
            &ServerToClientMessage::OperationRequested(operation, op_id),
        );
        let br = self.message_broadcaster(Some((id, task_id)));
        PerformDispatch {
            op_id,
            sends,
            request: NetworkToServerMessage::PerformOperation(operation),
            pending: PendingReply::OperationOutcome(br, operation, op_id),
        }
    }

    /// Forwards console input to the supervisor; no reply is owed.
    pub fn handle_c2s_input(&self, input: Vec<u8>) -> (r: NetworkToServerMessage)
        ensures
            r matches NetworkToServerMessage::Input(i) && i == input,
    {
        NetworkToServerMessage::Input(input)
    }

    /// Honours a shutdown request from a Unix-domain client; a TCP client's
    /// request is refused with a warning, and the supervisor is not asked.
    pub fn handle_c2s_shutdown(&self, id: ClientId) -> (r: ShutdownDispatch)
        requires
            self.wf(),
        ensures
            r.request is Some <==> spec_shutdown_allowed(self.registry@, id),
            r.request matches Some(q) ==> q is Shutdown,
            r.rejected <==> (self.registry@.dom().contains(id.0 as int)
                && self.registry@[id.0 as int] is Tcp),
    {
        match self.registry.get(id) {
            None => ShutdownDispatch { request: None, rejected: false },
            Some(ClientKind::Unix) => ShutdownDispatch {
                request: Some(NetworkToServerMessage::Shutdown),
                rejected: false,
            },
            Some(ClientKind::Tcp) => ShutdownDispatch { request: None, rejected: true },
        }
    }
}

/// What dispatching one client message produces: messages to enqueue at
/// once, a request for the supervisor, how to route its answer, and whether
/// a shutdown request was refused.
pub struct C2sDispatch {
    pub sends: Vec<(ClientId, ServerToClientMessage)>,
    pub request: Option<NetworkToServerMessage>,
    pub pending: Option<PendingReply>,
    pub rejected_shutdown: bool,
}

impl NetworkTask {
    /// Dispatches one decoded client message by its variant.
    pub fn handle_c2s(&self, id: ClientId, data: crate::messages::ClientToServerMessage) -> (r:
        C2sDispatch)
        requires
            self.wf(),
        ensures
            data matches crate::messages::ClientToServerMessage::Ping(task) ==> ({
                &&& forall|d: ClientId|
                    #[trigger] sends_to(r.sends@, d) == (if d == id
                        && self.registry@.dom().contains(id.0 as int) {
                        seq![S2cView::Pong(task)]
                    } else {
                        Seq::<S2cView>::empty()
                    })
                &&& r.request is None
                &&& r.pending is None
                &&& !r.rejected_shutdown
            }),
            data matches crate::messages::ClientToServerMessage::GetConfig(task) ==> ({
                &&& r.sends@.len() == 0
                &&& r.request is Some <==> self.registry@.dom().contains(id.0 as int)
                &&& (r.request matches Some(q) ==> q is GetConfig)
                &&& (self.registry@.dom().contains(id.0 as int) ==> r.pending == Some(
                    PendingReply::CurrentConfig(id, task),
                ))
                &&& (!self.registry@.dom().contains(id.0 as int) ==> r.pending is None)
                &&& !r.rejected_shutdown
            }),
            data matches crate::messages::ClientToServerMessage::GetServerState(task) ==> ({
                &&& r.sends@.len() == 0
                &&& r.request is Some <==> self.registry@.dom().contains(id.0 as int)
                &&& (r.request matches Some(q) ==> q is GetServerState)
                &&& (self.registry@.dom().contains(id.0 as int) ==> r.pending == Some(
                    PendingReply::CurrentServerState(id, task),
                ))
                &&& (!self.registry@.dom().contains(id.0 as int) ==> r.pending is None)
                &&& !r.rejected_shutdown
            }),
            data matches crate::messages::ClientToServerMessage::UpdateConfig(task, c) ==> ({
                &&& r.sends@.len() == 0
                &&& r.request matches Some(NetworkToServerMessage::UpdateConfig(c2)) && c2@ == c@
                &&& r.pending matches Some(PendingReply::ConfigUpdated(br, c3)) && c3@ == c@
                    && br.wf() && br.initiator == spec_initiator(self.registry@, Some((id, task)))
                    && (forall|d: ClientId|
                    #[trigger] br.others@.contains(d) <==> (self.registry@.dom().contains(
                        d.0 as int,
                    ) && match br.initiator {
                        Some(p) => d != p.0,
                        None => true,
                    }))
                &&& !r.rejected_shutdown
            }),
            data matches crate::messages::ClientToServerMessage::PerformOperation(task, op) ==> ({
                &&& r.request matches Some(NetworkToServerMessage::PerformOperation(op3)) && op3
                    == op
                &&& r.pending matches Some(PendingReply::OperationOutcome(br, op2, oid)) && op2
                    == op && br.wf() && br.initiator == spec_initiator(
                    self.registry@,
                    Some((id, task)),
                ) && (forall|d: ClientId|
                    #[trigger] br.others@.contains(d) <==> (self.registry@.dom().contains(
                        d.0 as int,
                    ) && match br.initiator {
                        Some(p) => d != p.0,
                        None => true,
                    })) && (forall|d: ClientId|
                    #[trigger] sends_to(r.sends@, d) == (if self.registry@.dom().contains(
                        d.0 as int,
                    ) {
                        seq![S2cView::OperationRequested(op, oid)]
                    } else {
                        Seq::<S2cView>::empty()
                    }))
                &&& !r.rejected_shutdown
            }),
            data matches crate::messages::ClientToServerMessage::Input(i) ==> ({
                &&& r.sends@.len() == 0
                &&& r.request matches Some(NetworkToServerMessage::Input(x)) && x == i
                &&& r.pending is None
                &&& !r.rejected_shutdown
            }),
            data is Shutdown ==> ({
                &&& r.sends@.len() == 0
                &&& (r.request is Some <==> spec_shutdown_allowed(self.registry@, id))
                &&& (r.request matches Some(q) ==> q is Shutdown)
                &&& r.pending is None
                &&& (r.rejected_shutdown <==> (self.registry@.dom().contains(id.0 as int)
                    && self.registry@[id.0 as int] is Tcp))
            }),
    {
        match data {
            crate::messages::ClientToServerMessage::Ping(task) => C2sDispatch {
                sends: self.handle_c2s_ping(id, task),
                request: None,
                pending: None,
                rejected_shutdown: false,
            },
            crate::messages::ClientToServerMessage::GetConfig(task) => {
                match self.handle_c2s_get_config(id, task) {
                    Some((request, pending)) => C2sDispatch {
                        sends: Vec::new(),
                        request: Some(request),
                        pending: Some(pending),
                        rejected_shutdown: false,
                    },
                    None => C2sDispatch {
                        sends: Vec::new(),
                        request: None,
                        pending: None,
                        rejected_shutdown: false,
                    },
                }
            },
            crate::messages::ClientToServerMessage::GetServerState(task) => {
                match self.handle_c2s_get_server_state(id, task) {
                    Some((request, pending)) => C2sDispatch {
                        sends: Vec::new(),
                        request: Some(request),
                        pending: Some(pending),
                        rejected_shutdown: false,
                    },
                    None => C2sDispatch {
                        sends: Vec::new(),
                        request: None,
                        pending: None,
                        rejected_shutdown: false,
                    },
                }
            },
            crate::messages::ClientToServerMessage::UpdateConfig(task, config) => {
                let (request, pending) = self.handle_c2s_update_config(id, task, config);
                C2sDispatch {
                    sends: Vec::new(),
                    request: Some(request),
                    pending: Some(pending),
                    rejected_shutdown: false,
                }
            },
            crate::messages::ClientToServerMessage::PerformOperation(task, operation) => {
                let dispatch = self.handle_c2s_perform_operation(id, task, operation);
                C2sDispatch {
                    sends: dispatch.sends,
                    request: Some(dispatch.request),
                    pending: Some(dispatch.pending),
                    rejected_shutdown: false,
                }
            },
            crate::messages::ClientToServerMessage::Input(input) => C2sDispatch {
                sends: Vec::new(),
                request: Some(self.handle_c2s_input(input)),
                pending: None,
                rejected_shutdown: false,
            },
            crate::messages::ClientToServerMessage::Shutdown => {
                let dispatch = self.handle_c2s_shutdown(id);
                C2sDispatch {
                    sends: Vec::new(),
                    request: dispatch.request,
                    pending: None,
                    rejected_shutdown: dispatch.rejected,
                }
            },
        }
    }
}

// --------------------------------------------------------------- completions
/// The reply to a `GetConfig`, sent to the asking client alone.
pub fn complete_get_config(id: ClientId, task_id: TaskId, config: Option<Config>) -> (plan: Vec<
    (ClientId, ServerToClientMessage),
>)
    ensures
        forall|d: ClientId|
            #[trigger] sends_to(plan@, d) == (if d == id {
                seq![
                    S2cView::CurrentConfig(
                        match config {
                            Some(c) => Some(c@),
                            None => None,
                        },
                        task_id,
                    ),
                ]
            } else {
                Seq::<S2cView>::empty()
            }),
{
    let m = ServerToClientMessage::CurrentConfig(config, task_id);
    let ghost mv = m@;
    let mut plan: Vec<(ClientId, ServerToClientMessage)> = Vec::new();
    let ghost before = plan@;
    plan.push((id, m));
    proof {
        assert forall|d: ClientId| #[trigger] sends_to(plan@, d) == (if d == id {
            seq![mv]
        } else {
            Seq::<S2cView>::empty()
        }) by {
            crate::broadcast::lemma_sends_to_push(before, plan@[0], d);
            if d == id {
                assert(sends_to(plan@, d) =~= seq![mv]);
            } else {
                assert(sends_to(plan@, d) =~= Seq::<S2cView>::empty());
            }
        }
    }
    plan
}

/// The reply to a `GetServerState`, sent to the asking client alone.
pub fn complete_get_server_state(id: ClientId, task_id: TaskId, state: ServerState) -> (plan: Vec<
    (ClientId, ServerToClientMessage),
>)
    ensures
        forall|d: ClientId|
            #[trigger] sends_to(plan@, d) == (if d == id {
                seq![S2cView::CurrentServerState(state, task_id)]
            } else {
                Seq::<S2cView>::empty()
            }),
{
    let m = ServerToClientMessage::CurrentServerState(state, task_id);
    let ghost mv = m@;
    let mut plan: Vec<(ClientId, ServerToClientMessage)> = Vec::new();
    let ghost before = plan@;
    plan.push((id, m));
    proof {
        assert forall|d: ClientId| #[trigger] sends_to(plan@, d) == (if d == id {
            seq![mv]
        } else {
            Seq::<S2cView>::empty()
        }) by {
            crate::broadcast::lemma_sends_to_push(before, plan@[0], d);
            if d == id {
                assert(sends_to(plan@, d) =~= seq![mv]);
            } else {
                assert(sends_to(plan@, d) =~= Seq::<S2cView>::empty());
            }
        }
    }
    plan
}

/// The broadcast after the supervisor confirmed a config update: the new
/// config to everyone, tagged for the initiator.
pub fn complete_update_config(broadcaster: MessageBroadcaster, config: Config) -> (plan: Vec<
    (ClientId, ServerToClientMessage),
>)
    requires
        broadcaster.wf(),
    ensures
        forall|d: ClientId|
            #[trigger] sends_to(plan@, d) == expected_reply_sends(
                broadcaster.initiator,
                broadcaster.others@,
                ReplyTemplateView::ConfigUpdated(config@),
                d,
            ),
{
    broadcaster.broadcast_with_task_id(&ReplyTemplate::ConfigUpdated(config))
}

/// The broadcast after the supervisor acknowledged an operation: the
/// outcome to everyone, tagged for the initiator.
pub fn complete_perform_operation(
    broadcaster: MessageBroadcaster,
    operation: Operation,
    op_id: OperationId,
    result: Result<(), SerdeError>,
) -> (plan: Vec<(ClientId, ServerToClientMessage)>)
    requires
        broadcaster.wf(),
    ensures
        result is Ok ==> forall|d: ClientId|
            #[trigger] sends_to(plan@, d) == expected_reply_sends(
                broadcaster.initiator,
                broadcaster.others@,
                ReplyTemplateView::OperationPerformed(operation, op_id),
                d,
            ),
        result matches Err(e) ==> forall|d: ClientId|
            #[trigger] sends_to(plan@, d) == expected_reply_sends(
                broadcaster.initiator,
                broadcaster.others@,
                ReplyTemplateView::OperationFailed(operation, op_id, e@),
                d,
            ),
{
    match result {
        Ok(()) => broadcaster.broadcast_with_task_id(
            &ReplyTemplate::OperationPerformed(operation, op_id),
        ),
        Err(e) => broadcaster.broadcast_with_task_id(
            &ReplyTemplate::OperationFailed(operation, op_id, e),
        ),
    }
}

// ---------------------------------------------------------------------- laws
/// Exactly one reply, and the request announcement comes first.
///
/// In a perform flow whose `OperationRequested` broadcast is `requested` and
/// whose completion broadcast is `completion`, every connected client
/// receives `OperationRequested` and then exactly one completion: tagged
/// with the task id for the initiator, untagged for everyone else; a client
/// that is not connected receives nothing.
pub proof fn lemma_perform_flow(
    clients: Map<int, ClientKind>,
    c: ClientId,
    t: TaskId,
    others: Seq<ClientId>,
    requested: Seq<(ClientId, ServerToClientMessage)>,
    completion: Seq<(ClientId, ServerToClientMessage)>,
    req_view: S2cView,
    tmpl: ReplyTemplateView,
)
    requires
        clients.dom().contains(c.0 as int),
        forall|d: ClientId|
            #[trigger] sends_to(requested, d) == (if clients.dom().contains(d.0 as int) {
                seq![req_view]
            } else {
                Seq::<S2cView>::empty()
            }),
        forall|d: ClientId|
            #[trigger] sends_to(completion, d) == expected_reply_sends(
                Some((c, t)),
                others,
                tmpl,
                d,
            ),
        forall|d: ClientId|
            #[trigger] others.contains(d) <==> (clients.dom().contains(d.0 as int) && d != c),
    ensures
        sends_to(requested + completion, c) == seq![req_view, spec_reply(tmpl, Some(t))],
        forall|d: ClientId|
            clients.dom().contains(d.0 as int) && d != c ==> #[trigger] sends_to(
                requested + completion,
                d,
            ) == seq![req_view, spec_reply(tmpl, None)],
        forall|d: ClientId|
            !clients.dom().contains(d.0 as int) ==> #[trigger] sends_to(requested + completion, d)
                == Seq::<S2cView>::empty(),
{
    crate::broadcast::lemma_sends_to_concat(requested, completion, c);
    assert(sends_to(requested + completion, c) =~= seq![req_view, spec_reply(tmpl, Some(t))]);
    assert forall|d: ClientId| clients.dom().contains(d.0 as int) && d != c implies #[trigger] sends_to(
        requested + completion,
        d,
    ) == seq![req_view, spec_reply(tmpl, None)] by {
        crate::broadcast::lemma_sends_to_concat(requested, completion, d);
        assert(others.contains(d));
        assert(sends_to(requested + completion, d) =~= seq![req_view, spec_reply(tmpl, None)]);
    }
    assert forall|d: ClientId| !clients.dom().contains(d.0 as int) implies #[trigger] sends_to(
        requested + completion,
        d,
    ) == Seq::<S2cView>::empty() by {
        crate::broadcast::lemma_sends_to_concat(requested, completion, d);
        assert(!others.contains(d));
        assert(d != c);
        assert(sends_to(requested + completion, d) =~= Seq::<S2cView>::empty());
    }
}

/// Disconnect isolation: dropping one client from the snapshot changes no
/// other client's sends, for tagged and untagged broadcasts alike.
pub proof fn lemma_disconnect_isolation(
    init: Option<(ClientId, TaskId)>,
    others: Seq<ClientId>,
    init2: Option<(ClientId, TaskId)>,
    others2: Seq<ClientId>,
    gone: ClientId,
    tmpl: ReplyTemplateView,
    m: S2cView,
    d: ClientId,
)
    requires
        d != gone,
        forall|e: ClientId| #[trigger] others2.contains(e) <==> (others.contains(e) && e != gone),
        init2 == (match init {
            Some(p) => if p.0 == gone {
                None::<(ClientId, TaskId)>
            } else {
                init
            },
            None => None::<(ClientId, TaskId)>,
        }),
    ensures
        expected_reply_sends(init2, others2, tmpl, d) == expected_reply_sends(
            init,
            others,
            tmpl,
            d,
        ),
        expected_plain_sends(init2, others2, m, d) == expected_plain_sends(init, others, m, d),
{
    assert(others2.contains(d) <==> others.contains(d));
}

/// Shutdown authority: a TCP client's `Shutdown` is never forwarded to the
/// supervisor, so it cannot move the supervisor out of its current state.
pub proof fn lemma_shutdown_authority(clients: Map<int, ClientKind>, id: ClientId)
    ensures
        clients.dom().contains(id.0 as int) && clients[id.0 as int] is Tcp
            ==> !spec_shutdown_allowed(clients, id),
{
}

} // verus!
