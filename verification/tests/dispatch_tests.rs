//! Protocol dispatch scenarios: ping, config update broadcast, perform
//! flows, disconnect isolation, shutdown authority.

use raphy::config::Arguments;
use raphy::config::Config;
use raphy::config::JavaPath;
use raphy::config::User;
use raphy::error::SerdeError;
use raphy::messages::ClientToServerMessage;
use raphy::messages::Operation;
use raphy::messages::ServerToClientMessage;
use raphy::network::complete_perform_operation;
use raphy::network::complete_update_config;
use raphy::network::NetworkTask;
use raphy::network::NetworkToServerMessage;
use raphy::network::PendingReply;
use raphy::registry::ClientKind;
use raphy::TaskId;

fn cfg() -> Config {
    Config {
        java_path: JavaPath::AutoDetect,
        server_jar_path: "/srv/server.jar".to_string(),
        java_arguments: Arguments::Manual(vec![]),
        server_arguments: Arguments::Manual(vec![]),
        user: User::Current,
    }
}

#[test]
fn ping_answers_the_sender_alone() {
    let mut net = NetworkTask::new();
    let a = net.register_client(ClientKind::Unix);
    let b = net.register_client(ClientKind::Tcp);
    let plan = net.handle_c2s_ping(a, TaskId::from_raw(0xAAAA));
    assert_eq!(plan.len(), 1);
    assert_eq!(plan[0].0, a);
    assert_eq!(
        plan[0].1,
        ServerToClientMessage::Pong(TaskId::from_raw(0xAAAA))
    );
    assert!(plan.iter().all(|(id, _)| *id != b));
}

#[test]
fn ping_from_an_unknown_client_sends_nothing() {
    let mut net = NetworkTask::new();
    let a = net.register_client(ClientKind::Unix);
    net.destroy_client(a);
    let plan = net.handle_c2s_ping(a, TaskId::from_raw(1));
    assert!(plan.is_empty());
}

#[test]
fn config_update_is_broadcast_tagged_and_untagged() {
    let mut net = NetworkTask::new();
    let a = net.register_client(ClientKind::Unix);
    let b = net.register_client(ClientKind::Tcp);
    let (request, pending) = net.handle_c2s_update_config(a, TaskId::from_raw(0x1), cfg());
    match request {
        NetworkToServerMessage::UpdateConfig(c) => assert_eq!(c, cfg()),
        _ => panic!("expected an update-config request"),
    }
    let plan = match pending {
        PendingReply::ConfigUpdated(br, c) => complete_update_config(br, c),
        _ => panic!("expected a config-updated pending reply"),
    };
    let to_a: Vec<_> = plan.iter().filter(|(id, _)| *id == a).collect();
    let to_b: Vec<_> = plan.iter().filter(|(id, _)| *id == b).collect();
    assert_eq!(to_a.len(), 1);
    assert_eq!(
        to_a[0].1,
        ServerToClientMessage::ConfigUpdated(cfg(), Some(TaskId::from_raw(0x1)))
    );
    assert_eq!(to_b.len(), 1);
    assert_eq!(to_b[0].1, ServerToClientMessage::ConfigUpdated(cfg(), None));
    assert_eq!(plan.len(), 2);
}

#[test]
fn perform_flow_requested_then_failed() {
    let mut net = NetworkTask::new();
    let a = net.register_client(ClientKind::Unix);
    let b = net.register_client(ClientKind::Tcp);
    let dispatch = net.handle_c2s_perform_operation(a, TaskId::from_raw(0x2), Operation::Start);
    let op_id = dispatch.op_id;
    // the request announcement reaches both clients
    let requested = dispatch.sends;
    assert_eq!(requested.len(), 2);
    for (_, m) in &requested {
        assert_eq!(
            *m,
            ServerToClientMessage::OperationRequested(Operation::Start, op_id)
        );
    }
    assert!(requested.iter().any(|(id, _)| *id == a));
    assert!(requested.iter().any(|(id, _)| *id == b));
    match dispatch.request {
        NetworkToServerMessage::PerformOperation(Operation::Start) => {}
        _ => panic!("expected a perform-operation request"),
    }
    // the supervisor fails the start; the outcome goes out once per client
    let err = SerdeError::from_message("no configuration".to_string());
    let plan = match dispatch.pending {
        PendingReply::OperationOutcome(br, op, oid) => {
            assert_eq!(op, Operation::Start);
            assert_eq!(oid, op_id);
            complete_perform_operation(br, op, oid, Err(err.clone()))
        }
        _ => panic!("expected an operation-outcome pending reply"),
    };
    let to_a: Vec<_> = plan.iter().filter(|(id, _)| *id == a).collect();
    let to_b: Vec<_> = plan.iter().filter(|(id, _)| *id == b).collect();
    assert_eq!(to_a.len(), 1);
    assert_eq!(
        to_a[0].1,
        ServerToClientMessage::OperationFailed(
            Operation::Start,
            op_id,
            err.clone(),
            Some(TaskId::from_raw(0x2))
        )
    );
    assert_eq!(to_b.len(), 1);
    assert_eq!(
        to_b[0].1,
        ServerToClientMessage::OperationFailed(Operation::Start, op_id, err, None)
    );
    assert_eq!(plan.len(), 2);
}

#[test]
fn perform_flow_success_reaches_everyone_once() {
    let mut net = NetworkTask::new();
    let a = net.register_client(ClientKind::Tcp);
    let b = net.register_client(ClientKind::Tcp);
    let c = net.register_client(ClientKind::Unix);
    let dispatch = net.handle_c2s_perform_operation(b, TaskId::from_raw(0x3), Operation::Stop);
    let op_id = dispatch.op_id;
    let plan = match dispatch.pending {
        PendingReply::OperationOutcome(br, op, oid) => {
            complete_perform_operation(br, op, oid, Ok(()))
        }
        _ => panic!("expected an operation-outcome pending reply"),
    };
    assert_eq!(plan.len(), 3);
    for id in [a, b, c] {
        let msgs: Vec<_> = plan.iter().filter(|(d, _)| *d == id).collect();
        assert_eq!(msgs.len(), 1);
        let tag = if id == b {
            Some(TaskId::from_raw(0x3))
        } else {
            None
        };
        assert_eq!(
            msgs[0].1,
            ServerToClientMessage::OperationPerformed(Operation::Stop, op_id, tag)
        );
    }
}

#[test]
fn disconnect_does_not_change_other_clients_sends() {
    let mut net = NetworkTask::new();
    let a = net.register_client(ClientKind::Unix);
    let b = net.register_client(ClientKind::Tcp);
    let gone = net.register_client(ClientKind::Tcp);
    let before: Vec<_> = net
        .broadcast_message(&ServerToClientMessage::ShuttingDown)
        .into_iter()
        .filter(|(id, _)| *id == a || *id == b)
        .collect();
    net.destroy_client(gone);
    let after: Vec<_> = net
        .broadcast_message(&ServerToClientMessage::ShuttingDown)
        .into_iter()
        .filter(|(id, _)| *id == a || *id == b)
        .collect();
    assert_eq!(before, after);
}

#[test]
fn shutdown_is_honoured_only_from_a_unix_client() {
    let mut net = NetworkTask::new();
    let local = net.register_client(ClientKind::Unix);
    let remote = net.register_client(ClientKind::Tcp);

    let d = net.handle_c2s_shutdown(remote);
    assert!(d.request.is_none());
    assert!(d.rejected);

    let d = net.handle_c2s_shutdown(local);
    assert!(matches!(d.request, Some(NetworkToServerMessage::Shutdown)));
    assert!(!d.rejected);

    net.destroy_client(local);
    let d = net.handle_c2s_shutdown(local);
    assert!(d.request.is_none());
    assert!(!d.rejected);
}

#[test]
fn client_ids_are_unique_while_connected_and_reused_after_teardown() {
    let mut net = NetworkTask::new();
    assert_eq!(net.registry.len(), 0);
    let a = net.register_client(ClientKind::Unix);
    let b = net.register_client(ClientKind::Tcp);
    let c = net.register_client(ClientKind::Tcp);
    assert_eq!(net.registry.len(), 3);
    assert_eq!(net.registry.get(a), Some(ClientKind::Unix));
    assert_ne!(a, b);
    assert_ne!(a, c);
    assert_ne!(b, c);
    assert_eq!(net.destroy_client(a), Some(ClientKind::Unix));
    assert_eq!(net.destroy_client(a), None);
    let d = net.register_client(ClientKind::Unix);
    assert_ne!(d, b);
    assert_ne!(d, c);
}

#[test]
fn get_config_is_asked_and_routed_to_the_sender() {
    let mut net = NetworkTask::new();
    let a = net.register_client(ClientKind::Unix);
    let (request, pending) = net
        .handle_c2s_get_config(a, TaskId::from_raw(0x7))
        .expect("a registered client is answered");
    assert!(matches!(request, NetworkToServerMessage::GetConfig));
    match pending {
        PendingReply::CurrentConfig(id, t) => {
            assert_eq!(id, a);
            assert_eq!(t, TaskId::from_raw(0x7));
        }
        _ => panic!("expected a current-config pending reply"),
    }
    let plan = raphy::network::complete_get_config(a, TaskId::from_raw(0x7), None);
    assert_eq!(plan.len(), 1);
    assert_eq!(
        plan[0].1,
        ServerToClientMessage::CurrentConfig(None, TaskId::from_raw(0x7))
    );
}

#[test]
fn requested_precedes_completion_in_the_sender_queue() {
    let mut net = NetworkTask::new();
    let a = net.register_client(ClientKind::Unix);
    let dispatch = net.handle_c2s_perform_operation(a, TaskId::from_raw(0x4), Operation::Restart);
    let op_id = dispatch.op_id;
    let mut queue: Vec<ServerToClientMessage> = Vec::new();
    for (id, m) in dispatch.sends {
        if id == a {
            queue.push(m);
        }
    }
    let plan = match dispatch.pending {
        PendingReply::OperationOutcome(br, op, oid) => {
            complete_perform_operation(br, op, oid, Ok(()))
        }
        _ => panic!("expected an operation-outcome pending reply"),
    };
    for (id, m) in plan {
        if id == a {
            queue.push(m);
        }
    }
    assert_eq!(
        queue,
        vec![
            ServerToClientMessage::OperationRequested(Operation::Restart, op_id),
            ServerToClientMessage::OperationPerformed(
                Operation::Restart,
                op_id,
                Some(TaskId::from_raw(0x4))
            ),
        ]
    );
}

#[test]
fn combined_dispatch_routes_by_variant() {
    let mut net = NetworkTask::new();
    let local = net.register_client(ClientKind::Unix);
    let remote = net.register_client(ClientKind::Tcp);

    let d = net.handle_c2s(local, ClientToServerMessage::Input(vec![9, 9]));
    assert!(d.sends.is_empty());
    match d.request {
        Some(NetworkToServerMessage::Input(b)) => assert_eq!(b, vec![9, 9]),
        _ => panic!("input is forwarded to the supervisor"),
    }
    assert!(d.pending.is_none());

    let d = net.handle_c2s(remote, ClientToServerMessage::Shutdown);
    assert!(d.request.is_none());
    assert!(d.rejected_shutdown);

    let d = net.handle_c2s(local, ClientToServerMessage::Ping(TaskId::from_raw(1)));
    assert_eq!(d.sends.len(), 1);
    assert!(d.request.is_none());

    let d = net.handle_c2s(local, ClientToServerMessage::GetServerState(TaskId::from_raw(2)));
    assert!(matches!(d.request, Some(NetworkToServerMessage::GetServerState)));
    assert!(matches!(d.pending, Some(PendingReply::CurrentServerState(_, _))));
}
