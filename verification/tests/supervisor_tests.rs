//! The supervisor's state machine: command construction, idempotent start,
//! stop escalation, restart, and the published state events.

use raphy::config::Arguments;
use raphy::config::Config;
use raphy::config::JavaPath;
use raphy::config::User;
use raphy::messages::ExitStatus;
use raphy::messages::Operation;
use raphy::messages::ServerState;
use raphy::messages::ServerToClientMessage;
use raphy::network::NetworkToServerMessage;
use raphy::supervisor::start_command;
use raphy::supervisor::waiter_event;
use raphy::supervisor::ChildTask;
use raphy::supervisor::ChildToServerMessage;
use raphy::supervisor::ServerTask;
use raphy::supervisor::ServerToChildMessage;
use raphy::supervisor::SignalKind;
use raphy::supervisor::StartDecision;
use raphy::supervisor::StartError;

fn full_config() -> Config {
    Config {
        java_path: JavaPath::Custom("/usr/bin/java".to_string()),
        server_jar_path: "/srv/mc/server.jar".to_string(),
        java_arguments: Arguments::Parsed("-Xmx2G -Dname='the server'".to_string()),
        server_arguments: Arguments::Manual(vec!["nogui".to_string()]),
        user: User::Specific("minecraft".to_string()),
    }
}

#[test]
fn start_command_builds_the_full_sudo_line() {
    let cmd = start_command(&full_config(), None).expect("the command should resolve");
    assert_eq!(cmd.program, "sudo");
    assert_eq!(
        cmd.args,
        vec![
            "-u",
            "minecraft",
            "/usr/bin/java",
            "-Xmx2G",
            "-Dname=the server",
            "-jar",
            "/srv/mc/server.jar",
            "nogui",
        ]
    );
    assert_eq!(cmd.working_dir, "/srv/mc");
}

#[test]
fn start_command_without_sudo_and_with_detected_java() {
    let config = Config {
        java_path: JavaPath::AutoDetect,
        user: User::Current,
        ..full_config()
    };
    let cmd = start_command(&config, Some("/opt/jdk/bin/java".to_string()))
        .expect("the command should resolve");
    assert_eq!(cmd.program, "/opt/jdk/bin/java");
    assert_eq!(
        cmd.args,
        vec!["-Xmx2G", "-Dname=the server", "-jar", "/srv/mc/server.jar", "nogui"]
    );
}

#[test]
fn start_command_error_cases() {
    let config = Config {
        java_path: JavaPath::AutoDetect,
        ..full_config()
    };
    assert_eq!(start_command(&config, None), Err(StartError::NoJavaPath));

    let config = Config {
        java_arguments: Arguments::Parsed("an 'unclosed quote".to_string()),
        ..full_config()
    };
    assert_eq!(start_command(&config, None), Err(StartError::BadJavaArguments));

    let config = Config {
        server_arguments: Arguments::Parsed("\"broken".to_string()),
        ..full_config()
    };
    assert_eq!(start_command(&config, None), Err(StartError::BadServerArguments));
}

#[test]
fn start_without_config_is_rejected() {
    let child = ChildTask::new(None);
    match child.start_decision(None) {
        StartDecision::Rejected(e) => assert_eq!(e, StartError::NoConfig),
        _ => panic!("a start without configuration must be rejected"),
    }
}

#[test]
fn start_is_idempotent_while_running() {
    let mut child = ChildTask::new(Some(full_config()));
    match child.start_decision(None) {
        StartDecision::Spawn(_) => {}
        _ => panic!("a stopped supervisor with a config should spawn"),
    }
    let ev = child.confirm_started(Some(4242));
    assert_eq!(
        ev,
        ChildToServerMessage::UpdateState(ServerState::Started)
    );
    match child.start_decision(None) {
        StartDecision::AlreadyRunning => {}
        _ => panic!("a second start while running succeeds without doing anything"),
    }
}

#[test]
fn stop_escalates_from_term_to_kill() {
    let mut child = ChildTask::new(Some(full_config()));
    child.confirm_started(Some(7));
    assert_eq!(child.handle_stop(), Some((7, SignalKind::Term)));
    assert_eq!(child.handle_stop(), Some((7, SignalKind::Kill)));
}

#[test]
fn stop_while_stopped_does_nothing() {
    let mut child = ChildTask::new(Some(full_config()));
    assert_eq!(child.handle_stop(), None);
}

#[test]
fn restart_spawns_again_after_the_exit_is_observed() {
    let mut child = ChildTask::new(Some(full_config()));
    child.confirm_started(Some(7));
    assert_eq!(child.handle_restart(), Some((7, SignalKind::Term)));
    // the exit is observed; the waiter publishes the stop, the supervisor
    // decides the fresh start
    assert_eq!(
        waiter_event(Some(ExitStatus::Success)),
        ChildToServerMessage::UpdateState(ServerState::Stopped(Some(ExitStatus::Success)))
    );
    match child.handle_dead(None) {
        Some(StartDecision::Spawn(cmd)) => assert_eq!(cmd.program, "sudo"),
        _ => panic!("a restart spawns once the exit is observed"),
    }
    let ev = child.confirm_started(Some(8));
    assert_eq!(ev, ChildToServerMessage::UpdateState(ServerState::Started));
}

#[test]
fn exit_without_restart_just_stops() {
    let mut child = ChildTask::new(Some(full_config()));
    child.confirm_started(None);
    assert_eq!(child.handle_stop(), None); // no pid: nothing to signal
    assert!(child.handle_dead(None).is_none());
    // the termination flag was cleared: a fresh stop would be graceful
    child.confirm_started(Some(9));
    assert_eq!(child.handle_stop(), Some((9, SignalKind::Term)));
}

#[test]
fn stdin_is_forwarded_only_while_running() {
    let mut child = ChildTask::new(Some(full_config()));
    assert_eq!(child.handle_stdin(vec![1, 2]), None);
    child.confirm_started(Some(1));
    assert_eq!(child.handle_stdin(vec![1, 2]), Some(vec![1, 2]));
}

#[test]
fn current_state_reports_the_child() {
    let mut child = ChildTask::new(None);
    assert_eq!(child.current_state(), ServerState::Stopped(None));
    child.config = Some(full_config());
    child.confirm_started(Some(1));
    assert_eq!(child.current_state(), ServerState::Started);
}

#[test]
fn update_config_is_persisted_forwarded_and_acknowledged() {
    let mut server = ServerTask::new(None);
    let step = server.handle_n2s(NetworkToServerMessage::UpdateConfig(full_config()));
    assert_eq!(step.persist, Some(full_config()));
    assert!(matches!(
        step.to_child,
        Some(ServerToChildMessage::UpdateConfig(_))
    ));
    assert!(step.reply_unit);
    assert!(!step.shutdown);
    assert_eq!(server.config, Some(full_config()));

    let step = server.handle_n2s(NetworkToServerMessage::GetConfig);
    assert_eq!(step.reply_config, Some(Some(full_config())));
}

#[test]
fn operations_and_input_are_forwarded_to_the_child() {
    let mut server = ServerTask::new(None);
    let step = server.handle_n2s(NetworkToServerMessage::PerformOperation(Operation::Start));
    assert!(matches!(step.to_child, Some(ServerToChildMessage::Start)));
    let step = server.handle_n2s(NetworkToServerMessage::PerformOperation(Operation::Stop));
    assert!(matches!(step.to_child, Some(ServerToChildMessage::Stop)));
    let step = server.handle_n2s(NetworkToServerMessage::PerformOperation(Operation::Restart));
    assert!(matches!(step.to_child, Some(ServerToChildMessage::Restart)));
    let step = server.handle_n2s(NetworkToServerMessage::Input(vec![10]));
    match step.to_child {
        Some(ServerToChildMessage::Stdin(b)) => assert_eq!(b, vec![10]),
        _ => panic!("input goes to the child's stdin"),
    }
    let step = server.handle_n2s(NetworkToServerMessage::Shutdown);
    assert!(step.shutdown);
}

#[test]
fn child_reports_become_broadcasts() {
    let server = ServerTask::new(None);
    assert_eq!(
        server.handle_ch2s(ChildToServerMessage::Stdout(vec![104])),
        ServerToClientMessage::Stdout(vec![104])
    );
    assert_eq!(
        server.handle_ch2s(ChildToServerMessage::Stderr(vec![101])),
        ServerToClientMessage::Stderr(vec![101])
    );
    assert_eq!(
        server.handle_ch2s(ChildToServerMessage::UpdateState(ServerState::Started)),
        ServerToClientMessage::ServerStateUpdated(ServerState::Started)
    );
}

#[test]
fn three_runs_publish_alternating_states() {
    // a scenario for the per-run state monotonicity: started, stopped,
    // started, stopped, started
    let mut child = ChildTask::new(Some(full_config()));
    let mut published: Vec<ChildToServerMessage> = Vec::new();
    for pid in [1, 2, 3] {
        published.push(child.confirm_started(Some(pid)));
        if pid < 3 {
            published.push(waiter_event(Some(ExitStatus::Success)));
            child.handle_dead(None);
        }
    }
    let states: Vec<bool> = published
        .iter()
        .map(|m| matches!(m, ChildToServerMessage::UpdateState(ServerState::Started)))
        .collect();
    assert_eq!(states, vec![true, false, true, false, true]);
}
