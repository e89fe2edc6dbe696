//! Configuration resolution, the mask round trip, and the identifiers.

use std::collections::HashSet;

use rand::RngExt;
use rand::SeedableRng;

use raphy::client::ClientMode;
use raphy::client::NotALocalClient;
use raphy::config::auto_detect_java_from_java_home_env;
use raphy::config::Arguments;
use raphy::config::Config;
use raphy::config::ConfigError;
use raphy::config::JavaPath;
use raphy::config::JavaPathKind;
use raphy::config::ServerArgumentsKind;
use raphy::config::User;
use raphy::config::UserKind;
use raphy::client::matches_task;
use raphy::messages::ClientToServerMessage;
use raphy::messages::ServerToClientMessage;
use raphy::registry::ClientKind;
use raphy::Id;
use raphy::OperationId;
use raphy::TaskId;

#[test]
fn parsed_arguments_are_shell_tokenised() {
    let args = Arguments::Parsed("-Xmx2G -Dmotd='a b'  c".to_string());
    assert_eq!(
        args.resolve().unwrap(),
        vec!["-Xmx2G".to_string(), "-Dmotd=a b".to_string(), "c".to_string()]
    );
    assert_eq!(args.kind(), ServerArgumentsKind::Parsed);
}

#[test]
fn erroneous_shell_input_is_rejected() {
    let args = Arguments::Parsed("an 'unclosed quote".to_string());
    assert_eq!(args.resolve(), Err(ConfigError::BadArguments));
}

#[test]
fn manual_arguments_pass_through() {
    let words = vec!["a".to_string(), "b c".to_string()];
    let args = Arguments::Manual(words.clone());
    assert_eq!(args.resolve().unwrap(), words);
    assert_eq!(args.kind(), ServerArgumentsKind::Manual);
}

#[test]
fn java_path_resolution() {
    let custom = JavaPath::Custom("/opt/java".to_string());
    assert_eq!(custom.resolve(None), Some("/opt/java".to_string()));
    assert_eq!(custom.kind(), JavaPathKind::Custom);

    let auto = JavaPath::AutoDetect;
    assert_eq!(auto.resolve(Some("/detected/java".to_string())), Some("/detected/java".to_string()));
    assert_eq!(auto.resolve(None), None);
    assert_eq!(auto.kind(), JavaPathKind::AutoDetect);
}

#[test]
fn java_home_detection_appends_the_binary() {
    assert_eq!(
        auto_detect_java_from_java_home_env(Some("/opt/jdk".to_string())),
        Some("/opt/jdk/bin/java".to_string())
    );
    assert_eq!(auto_detect_java_from_java_home_env(None), None);
}

#[test]
fn sudo_prefix_for_a_specific_user() {
    let user = User::Specific("mc".to_string());
    let (program, args) = user.make_command().unwrap();
    assert_eq!(program, "sudo");
    assert_eq!(args, vec!["-u".to_string(), "mc".to_string()]);
    assert_eq!(user.kind(), UserKind::Specific);
    assert_eq!(user.resolve(), Some("mc"));

    assert!(User::Current.make_command().is_none());
    assert_eq!(User::Current.resolve(), None);
}

#[test]
fn mask_round_trip_keeps_the_auto_detect_choice() {
    let config = Config {
        java_path: JavaPath::AutoDetect,
        server_jar_path: "/srv/server.jar".to_string(),
        java_arguments: Arguments::Parsed("-Xmx1G".to_string()),
        server_arguments: Arguments::Manual(vec!["nogui".to_string()]),
        user: User::Specific("mc".to_string()),
    };
    let (resolved, mask) = config
        .resolve(Some("/detected/java".to_string()))
        .expect("resolution should succeed with a detected path");
    assert_eq!(resolved.java_path, "/detected/java");
    assert_eq!(resolved.user, Some("mc".to_string()));
    let back = Config::from_resolved(resolved, mask);
    assert_eq!(back, config);
}

#[test]
fn resolve_fails_without_a_java_path() {
    let config = Config {
        java_path: JavaPath::AutoDetect,
        server_jar_path: "/srv/server.jar".to_string(),
        java_arguments: Arguments::Manual(vec![]),
        server_arguments: Arguments::Manual(vec![]),
        user: User::Current,
    };
    assert_eq!(config.resolve(None).unwrap_err(), ConfigError::NoJavaPath);
    assert!(ConfigError::NoJavaPath.message().contains("Java"));
}

#[test]
fn client_mode_from_executable_name() {
    assert_eq!(
        ClientMode::from_executable_name("raphy-local-client-app"),
        Some(ClientMode::Local)
    );
    assert_eq!(
        ClientMode::from_executable_name("raphy-remote-client-app"),
        Some(ClientMode::Remote)
    );
    assert_eq!(ClientMode::from_executable_name("something-else"), None);
    assert_eq!(NotALocalClient.message(), "not a local client");
}

#[test]
fn reply_correlation_goes_by_the_task_id() {
    let t = TaskId::from_raw(5);
    assert!(matches_task(&ServerToClientMessage::Pong(t), t));
    assert!(!matches_task(
        &ServerToClientMessage::Pong(TaskId::from_raw(6)),
        t
    ));
    assert!(!matches_task(&ServerToClientMessage::ShuttingDown, t));
    assert!(matches_task(
        &ServerToClientMessage::ConfigUpdated(
            Config {
                java_path: JavaPath::AutoDetect,
                server_jar_path: String::new(),
                java_arguments: Arguments::Manual(vec![]),
                server_arguments: Arguments::Manual(vec![]),
                user: User::Current,
            },
            Some(t)
        ),
        t
    ));
}

#[test]
fn message_accessors_expose_ids() {
    let t = TaskId::from_raw(0xBEEF);
    assert_eq!(ClientToServerMessage::Ping(t).task_id(), Some(t));
    assert_eq!(ClientToServerMessage::Shutdown.task_id(), None);
    assert_eq!(ClientToServerMessage::Input(vec![]).task_id(), None);
    let oid = OperationId::from_raw(3);
    let m = ServerToClientMessage::OperationRequested(
        raphy::messages::Operation::Start,
        oid,
    );
    assert_eq!(m.operation_id(), Some(oid));
    assert_eq!(m.task_id(), None);
}

#[test]
fn client_kind_labels() {
    assert_eq!(ClientKind::Unix.label(), "unix");
    assert_eq!(ClientKind::Tcp.label(), "tcp");
    assert_eq!(ClientKind::Unix.stream_label(), "unix stream");
    assert_eq!(ClientKind::Tcp.stream_label(), "tcp stream");
}

#[test]
fn a_million_seeded_ids_are_unique() {
    let mut rng = rand::rngs::StdRng::seed_from_u64(0xA11CE);
    let mut seen: HashSet<u64> = HashSet::with_capacity(1_000_000);
    for _ in 0..1_000_000 {
        let id = Id::from_raw(rng.random());
        assert!(seen.insert(id.value()));
    }
    assert_eq!(seen.len(), 1_000_000);
}

#[test]
fn generated_ids_draw_from_the_generator() {
    // a smoke test of the real draw: a few generated ids are very unlikely
    // to collide
    let ids: Vec<u64> = (0..8).map(|_| TaskId::generate().0.value()).collect();
    let set: HashSet<u64> = ids.iter().copied().collect();
    assert_eq!(set.len(), ids.len());
    let _ = OperationId::generate();
}

#[test]
fn serde_error_keeps_its_parts() {
    let inner = raphy::error::SerdeError::from_message("inner".to_string());
    let outer = raphy::error::SerdeError::new(
        "outer".to_string(),
        "outer: inner".to_string(),
        "Outer".to_string(),
        "Outer {}".to_string(),
        Some(Box::new(inner.clone())),
    );
    assert_eq!(outer.message(), "outer");
    assert_eq!(outer.source.as_deref(), Some(&inner));
    assert_eq!(inner.message(), "inner");
    assert!(inner.source.is_none());
}
