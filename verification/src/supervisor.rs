//! The supervisor's decision core: the child process state machine.
//!
//! The surrounding loop owns the real process, its pipes and the timers; it
//! asks these functions what to do (spawn with which command line, which
//! signal to send, what to publish) and reports back what happened (the
//! spawn succeeded, the child exited).  Start requests are idempotent while
//! the child runs; a second stop escalates from a graceful signal to a
//! forced kill; a restart stops the child and starts it again once its exit
//! is observed.

use vstd::prelude::*;

use vstd::string::StringExecFns;

use crate::config::spec_resolved_arguments;
use crate::config::spec_resolved_java;
use crate::config::Config;
use crate::config::ConfigView;
use crate::config::UserView;
use crate::messages::ExitStatus;
use crate::messages::ServerState;
use crate::messages::ServerToClientMessage;
use crate::util::copy_bytes;

verus! {

// ------------------------------------------------------------ command line
/// What `std::path::Path::parent` returns on a path: the path without its
/// final component, or `None` where there is none to take.
pub uninterp spec fn parent_of(p: Seq<char>) -> Option<Seq<char>>;

/// Relies on `std::path::Path::parent`: the path without its final
/// component.  The result depends on the characters alone; the parent of a
/// UTF-8 path is UTF-8 again.
#[verifier::external_body]
fn path_parent(p: &str) -> (r: Option<String>)
    ensures
        r.deep_view() == parent_of(p@),
{
    std::path::Path::new(p).parent().and_then(|q| q.to_str()).map(|q| q.to_string())
}

/// The working directory for a jar: its parent directory, or the root where
/// it has none.
pub open spec fn spec_workdir(jar: Seq<char>) -> Seq<char> {
    match parent_of(jar) {
        Some(p) => p,
        None => "/"@,
    }
}

/// The child's working directory for a given jar path.
pub fn workdir_for_jar(jar: &str) -> (r: String)
    ensures
        r@ == spec_workdir(jar@),
{
    match path_parent(jar) {
        Some(p) => p,
        None => String::from_str("/"),
    }
}

/// A fully resolved command: program, arguments, working directory.
#[derive(Debug, PartialEq, Eq)]
pub struct CommandSpec {
    pub program: String,
    pub args: Vec<String>,
    pub working_dir: String,
}

/// The mathematical value of a `CommandSpec`.
pub struct CommandSpecView {
    pub program: Seq<char>,
    pub args: Seq<Seq<char>>,
    pub working_dir: Seq<char>,
}

impl View for CommandSpec {
    type V = CommandSpecView;

    open spec fn view(&self) -> CommandSpecView {
        CommandSpecView {
            program: self.program@,
            args: self.args.deep_view(),
            working_dir: self.working_dir@,
        }
    }
}

/// Why a start request was refused.
#[derive(Debug, Copy, Clone, PartialEq, Eq, Structural)]
pub enum StartError {
    /// No configuration has been set yet.
    NoConfig,
    /// No Java executable could be resolved.
    NoJavaPath,
    /// The configured Java arguments do not tokenise.
    BadJavaArguments,
    /// The configured server arguments do not tokenise.
    BadServerArguments,
}

impl StartError {
    /// A rendering of the error for clients.
    pub fn message(&self) -> (r: String)
        ensures
            self is NoConfig ==> r@ == "A server configuration is required to start the server."@,
            self is NoJavaPath ==> r@ == "Failed to get the Java path."@,
            self is BadJavaArguments ==> r@ == "Failed to get the Java arguments."@,
            self is BadServerArguments ==> r@ == "Failed to get the server arguments."@,
    {
        match self {
            StartError::NoConfig => String::from_str(
                "A server configuration is required to start the server.",
            ),
            StartError::NoJavaPath => String::from_str("Failed to get the Java path."),
            StartError::BadJavaArguments => String::from_str("Failed to get the Java arguments."),
            StartError::BadServerArguments => String::from_str(
                "Failed to get the server arguments.",
            ),
        }
    }
}

/// The command a configuration resolves to: `[sudo -u <user>] <java>
/// <java-args..> -jar <jar> <server-args..>`, run in the jar's directory.
pub open spec fn spec_start_command(c: ConfigView, detected: Option<Seq<char>>) -> Result<
    CommandSpecView,
    StartError,
> {
    match spec_resolved_java(c.java_path, detected) {
        None => Err(StartError::NoJavaPath),
        Some(java) => match spec_resolved_arguments(c.java_arguments) {
            None => Err(StartError::BadJavaArguments),
            Some(java_args) => match spec_resolved_arguments(c.server_arguments) {
                None => Err(StartError::BadServerArguments),
                Some(server_args) => {
                    let tail = java_args + seq!["-jar"@, c.server_jar_path] + server_args;
                    match c.user {
                        UserView::Specific(u) => Ok(
                            CommandSpecView {
                                program: "sudo"@,
                                args: seq!["-u"@, u, java] + tail,
                                working_dir: spec_workdir(c.server_jar_path),
                            },
                        ),
                        UserView::Current => Ok(
                            CommandSpecView {
                                program: java,
                                args: tail,
                                working_dir: spec_workdir(c.server_jar_path),
                            },
                        ),
                    }
                },
            },
        },
    }
}

/// Resolves the configuration to the command to spawn.  `detected_java` is
/// what auto-detection found in the environment, if anything.
pub fn start_command(config: &Config, detected_java: Option<String>) -> (r: Result<
    CommandSpec,
    StartError,
>)
    ensures
        r matches Ok(cmd) ==> spec_start_command(config@, detected_java.deep_view()) == Ok::<
            CommandSpecView,
            StartError,
        >(cmd@),
        r matches Err(e) ==> spec_start_command(config@, detected_java.deep_view()) == Err::<
            CommandSpecView,
            StartError,
        >(e),
{
    let java = match config.java_path.resolve(detected_java) {
        Some(j) => j,
        None => {
            return Err(StartError::NoJavaPath);
        },
    };
    let java_args = match config.java_arguments.resolve() {
        Ok(a) => a,
        Err(_) => {
            return Err(StartError::BadJavaArguments);
        },
    };
    let server_args = match config.server_arguments.resolve() {
        Ok(a) => a,
        Err(_) => {
            return Err(StartError::BadServerArguments);
        },
    };
    let working_dir = workdir_for_jar(config.server_jar_path.as_str());
    let ghost jav = java@;
    let ghost jargs = java_args.deep_view();
    let ghost sargs = server_args.deep_view();
    let ghost tail_view = jargs + seq!["-jar"@, config@.server_jar_path] + sargs;
    let mut tail: Vec<String> = java_args;
    tail.push(String::from_str("-jar"));
    proof {
        assert(tail.deep_view() =~~= jargs.push("-jar"@));
    }
    let ghost t1 = tail.deep_view();
    tail.push(config.server_jar_path.clone());
    proof {
        assert(tail.deep_view() =~~= t1.push(config@.server_jar_path));
    }
    let ghost t2 = tail.deep_view();
    let mut server_args = server_args;
    tail.append(&mut server_args);
    proof {
        assert(tail.deep_view() =~~= t2 + sargs);
        assert(tail.deep_view() =~~= tail_view);
    }
    match config.user.make_command() {
        Some((program, prefix)) => {
            let ghost prefix_view = prefix.deep_view();
            let mut args = prefix;
            args.push(java);
            proof {
                assert(args.deep_view() =~~= prefix_view.push(jav));
            }
            let ghost before = args.deep_view();
            let mut tail = tail;
            args.append(&mut tail);
            proof {
                assert(args.deep_view() =~~= before + tail_view);
                assert(args.deep_view() =~~= seq!["-u"@, prefix_view[1], jav] + tail_view);
            }
            Ok(CommandSpec { program, args, working_dir })
        },
        None => {
            Ok(CommandSpec { program: java, args: tail, working_dir })
        },
    }
}

// ------------------------------------------------------------ the messages
/// A request from the supervisor loop to the child subsystem.
#[derive(Debug, PartialEq, Eq)]
pub enum ServerToChildMessage {
    Stdin(Vec<u8>),
    Start,
    Stop,
    Restart,
    ServerState,
    UpdateConfig(Config),
}

/// A report from the child subsystem to the supervisor loop.
#[derive(Debug, PartialEq, Eq)]
pub enum ChildToServerMessage {
    Stdout(Vec<u8>),
    Stderr(Vec<u8>),
    UpdateState(ServerState),
}

/// The state event the waiter publishes when the child's exit is observed.
pub fn waiter_event(status: Option<ExitStatus>) -> (r: ChildToServerMessage)
    ensures
        r == ChildToServerMessage::UpdateState(ServerState::Stopped(status)),
{
    ChildToServerMessage::UpdateState(ServerState::Stopped(status))
}

// ---------------------------------------------------------- the child task
/// Whether a child process currently exists, and under which pid.
#[derive(Debug, Copy, Clone, PartialEq, Eq, Structural)]
pub enum ChildState {
    Stopped,
    Running { pid: Option<i32> },
}

/// Which signal to send the child.
#[derive(Debug, Copy, Clone, PartialEq, Eq, Structural)]
pub enum SignalKind {
    /// Graceful termination, the first attempt.
    Term,
    /// Forced kill, once a termination is already in progress.
    Kill,
}

/// What a start request decides.
#[derive(Debug)]
pub enum StartDecision {
    /// The child already runs; the request succeeds without doing anything.
    AlreadyRunning,
    /// The request fails before any process is spawned.
    Rejected(StartError),
    /// Spawn this command, then confirm.
    Spawn(CommandSpec),
}

/// What a start request decides, given the held configuration.
pub open spec fn spec_start_outcome(config: Option<ConfigView>, detected: Option<Seq<char>>)
    -> Result<CommandSpecView, StartError> {
    match config {
        None => Err(StartError::NoConfig),
        Some(c) => spec_start_command(c, detected),
    }
}

/// The owner of the child process: its state, the termination and restart
/// flags, and the configuration the next start will use.
pub struct ChildTask {
    pub state: ChildState,
    pub sigterm_in_progress: bool,
    pub restart_in_progress: bool,
    pub config: Option<Config>,
}

/// The configuration's value, where one is held.
pub open spec fn opt_config_view(c: Option<Config>) -> Option<ConfigView> {
    match c {
        Some(c) => Some(c@),
        None => None,
    }
}

impl ChildTask {
    /// A supervisor with no child and no termination or restart under way.
    pub fn new(config: Option<Config>) -> (r: Self)
        ensures
            r.state is Stopped,
            !r.sigterm_in_progress,
            !r.restart_in_progress,
            r.config == config,
    {
        ChildTask { state: ChildState::Stopped, sigterm_in_progress: false, restart_in_progress: false, config }
    }

    /// Console input goes to the child's stdin while one runs and is
    /// silently dropped otherwise.
    pub fn handle_stdin(&self, input: Vec<u8>) -> (r: Option<Vec<u8>>)
        ensures
            self.state is Running ==> r == Some(input),
            self.state is Stopped ==> r is None,
    {
        match self.state {
            ChildState::Running { .. } => Some(input),
            ChildState::Stopped => None,
        }
    }

    /// Decides a start request: a no-op while running, otherwise the
    /// command to spawn, or the reason none can be.  The state is not
    /// touched until the spawn is confirmed.
    pub fn start_decision(&self, detected_java: Option<String>) -> (r: StartDecision)
        ensures
            self.state is Running ==> r is AlreadyRunning,
            self.state is Stopped ==> match spec_start_outcome(
                opt_config_view(self.config),
                detected_java.deep_view(),
            ) {
                Ok(v) => r matches StartDecision::Spawn(cmd) && cmd@ == v,
                Err(e) => r == StartDecision::Rejected(e),
            },
    {
        if let ChildState::Running { .. } = self.state {
            return StartDecision::AlreadyRunning;
        }
        match &self.config {
            None => StartDecision::Rejected(StartError::NoConfig),
            Some(config) => match start_command(config, detected_java) {
                Ok(cmd) => StartDecision::Spawn(cmd),
                Err(e) => StartDecision::Rejected(e),
            },
        }
    }

    /// Records a successful spawn and publishes `Started`.
    pub fn confirm_started(&mut self, pid: Option<i32>) -> (ev: ChildToServerMessage)
        requires
            old(self).state is Stopped,
        ensures
            final(self).state == (ChildState::Running { pid }),
            final(self).sigterm_in_progress == old(self).sigterm_in_progress,
            final(self).restart_in_progress == old(self).restart_in_progress,
            final(self).config == old(self).config,
            ev == ChildToServerMessage::UpdateState(ServerState::Started),
    {
        self.state = ChildState::Running { pid };
        ChildToServerMessage::UpdateState(ServerState::Started)
    }

    /// Decides a stop request: while a child with a known pid runs, signal
    /// it, gracefully on the first attempt and forcibly once a termination
    /// is already in progress.  The request always succeeds promptly; the
    /// `Stopped` event follows when the exit is observed.
    pub fn handle_stop(&mut self) -> (r: Option<(i32, SignalKind)>)
        ensures
            final(self).state == old(self).state,
            final(self).restart_in_progress == old(self).restart_in_progress,
            final(self).config == old(self).config,
            old(self).state matches ChildState::Running { pid: Some(p) } ==> r == Some(
                (
                    p,
                    if old(self).sigterm_in_progress {
                        SignalKind::Kill
                    } else {
                        SignalKind::Term
                    },
                ),
            ) && final(self).sigterm_in_progress,
            !(old(self).state matches ChildState::Running { pid: Some(p) }) ==> r is None
                && final(self).sigterm_in_progress == old(self).sigterm_in_progress,
    {
        match self.state {
            ChildState::Running { pid: Some(p) } => {
                let signal = if self.sigterm_in_progress {
                    SignalKind::Kill
                } else {
                    SignalKind::Term
                };
                self.sigterm_in_progress = true;
                Some((p, signal))
            },
            _ => None,
        }
    }

    /// Decides a restart: stop as `handle_stop` does, and remember to start
    /// again once the exit is observed.
    pub fn handle_restart(&mut self) -> (r: Option<(i32, SignalKind)>)
        ensures
            final(self).state == old(self).state,
            final(self).restart_in_progress,
            final(self).config == old(self).config,
            old(self).state matches ChildState::Running { pid: Some(p) } ==> r == Some(
                (
                    p,
                    if old(self).sigterm_in_progress {
                        SignalKind::Kill
                    } else {
                        SignalKind::Term
                    },
                ),
            ) && final(self).sigterm_in_progress,
            !(old(self).state matches ChildState::Running { pid: Some(p) }) ==> r is None
                && final(self).sigterm_in_progress == old(self).sigterm_in_progress,
    {
        let r = self.handle_stop();
        self.restart_in_progress = true;
        r
    }

    /// The state a query reports: `Started` while a child runs.
    pub fn current_state(&self) -> (r: ServerState)
        ensures
            self.state is Running ==> r == ServerState::Started,
            self.state is Stopped ==> r == ServerState::Stopped(None::<ExitStatus>),
    {
        match self.state {
            ChildState::Running { .. } => ServerState::Started,
            ChildState::Stopped => ServerState::Stopped(None),
        }
    }

    /// Keeps the new configuration for the next start.
    pub fn update_config(&mut self, config: Config)
        ensures
            final(self).config == Some(config),
            final(self).state == old(self).state,
            final(self).sigterm_in_progress == old(self).sigterm_in_progress,
            final(self).restart_in_progress == old(self).restart_in_progress,
    {
        self.config = Some(config);
    }

    /// Handles the observed exit of the child: the termination flag is
    /// cleared, the state returns to `Stopped`, and where a restart was
    /// under way, the start decision for the fresh run is returned.
    pub fn handle_dead(&mut self, detected_java: Option<String>) -> (r: Option<StartDecision>)
        requires
            old(self).state is Running,
        ensures
            final(self).state is Stopped,
            !final(self).sigterm_in_progress,
            !final(self).restart_in_progress,
            final(self).config == old(self).config,
            !old(self).restart_in_progress ==> r is None,
            old(self).restart_in_progress ==> match spec_start_outcome(
                opt_config_view(old(self).config),
                detected_java.deep_view(),
            ) {
                Ok(v) => r matches Some(StartDecision::Spawn(cmd)) && cmd@ == v,
                Err(e) => r == Some(StartDecision::Rejected(e)),
            },
    {
        self.sigterm_in_progress = false;
        self.state = ChildState::Stopped;
        if self.restart_in_progress {
            self.restart_in_progress = false;
            Some(self.start_decision(detected_java))
        } else {
            None
        }
    }
}

// --------------------------------------------------------- the server task
/// What the supervisor loop must do after one request: persist a config
/// (best effort), forward a message to the child subsystem, reply to the
/// asking client, or begin global shutdown.
pub struct ServerStep {
    pub persist: Option<Config>,
    pub to_child: Option<ServerToChildMessage>,
    pub reply_config: Option<Option<Config>>,
    pub reply_unit: bool,
    pub shutdown: bool,
}

/// The supervisor loop's own state: the configuration it answers queries
/// from.
pub struct ServerTask {
    pub config: Option<Config>,
}

impl ServerTask {
    pub fn new(config: Option<Config>) -> (r: Self)
        ensures
            r.config == config,
    {
        ServerTask { config }
    }

    /// Handles one request from the network actor.
    pub fn handle_n2s(&mut self, message: crate::network::NetworkToServerMessage) -> (r:
        ServerStep)
        ensures
            message is GetConfig ==> ({
                &&& r.reply_config matches Some(c) && opt_config_view(c) == opt_config_view(
                    old(self).config,
                )
                &&& r.persist is None
                &&& r.to_child is None
                &&& !r.reply_unit
                &&& !r.shutdown
                &&& final(self).config == old(self).config
            }),
            message is GetServerState ==> ({
                &&& r.to_child matches Some(m) && m is ServerState
                &&& r.persist is None
                &&& r.reply_config is None
                &&& !r.reply_unit
                &&& !r.shutdown
                &&& final(self).config == old(self).config
            }),
            message matches crate::network::NetworkToServerMessage::UpdateConfig(c) ==> ({
                &&& r.persist matches Some(p) && p@ == c@
                &&& final(self).config matches Some(fc) && fc@ == c@
                &&& r.to_child matches Some(ServerToChildMessage::UpdateConfig(tc)) && tc@ == c@
                &&& r.reply_config is None
                &&& r.reply_unit
                &&& !r.shutdown
            }),
            message matches crate::network::NetworkToServerMessage::PerformOperation(op) ==> ({
                &&& r.to_child matches Some(m) && m == (match op {
                    crate::messages::Operation::Start => ServerToChildMessage::Start,
                    crate::messages::Operation::Stop => ServerToChildMessage::Stop,
                    crate::messages::Operation::Restart => ServerToChildMessage::Restart,
                })
                &&& r.persist is None
                &&& r.reply_config is None
                &&& !r.reply_unit
                &&& !r.shutdown
                &&& final(self).config == old(self).config
            }),
            message matches crate::network::NetworkToServerMessage::Input(i) ==> ({
                &&& r.to_child matches Some(ServerToChildMessage::Stdin(x)) && x == i
                &&& r.persist is None
                &&& r.reply_config is None
                &&& !r.reply_unit
                &&& !r.shutdown
                &&& final(self).config == old(self).config
            }),
            message is Shutdown ==> ({
                &&& r.shutdown
                &&& r.persist is None
                &&& r.to_child is None
                &&& r.reply_config is None
                &&& !r.reply_unit
                &&& final(self).config == old(self).config
            }),
    {
        match message {
            crate::network::NetworkToServerMessage::GetConfig => {
                let copy = match &self.config {
                    Some(c) => Some(c.clone()),
                    None => None,
                };
                ServerStep {
                    persist: None,
                    to_child: None,
                    reply_config: Some(copy),
                    reply_unit: false,
                    shutdown: false,
                }
            },
            crate::network::NetworkToServerMessage::GetServerState => ServerStep {
                persist: None,
                to_child: Some(ServerToChildMessage::ServerState),
                reply_config: None,
                reply_unit: false,
                shutdown: false,
            },
            crate::network::NetworkToServerMessage::UpdateConfig(c) => {
                let persisted = c.clone();
                let forwarded = c.clone();
                self.config = Some(c);
                ServerStep {
                    persist: Some(persisted),
                    to_child: Some(ServerToChildMessage::UpdateConfig(forwarded)),
                    reply_config: None,
                    reply_unit: true,
                    shutdown: false,
                }
            },
            crate::network::NetworkToServerMessage::PerformOperation(op) => {
                let m = match op {
                    crate::messages::Operation::Start => ServerToChildMessage::Start,
                    crate::messages::Operation::Stop => ServerToChildMessage::Stop,
                    crate::messages::Operation::Restart => ServerToChildMessage::Restart,
                };
                ServerStep {
                    persist: None,
                    to_child: Some(m),
                    reply_config: None,
                    reply_unit: false,
                    shutdown: false,
                }
            },
            crate::network::NetworkToServerMessage::Input(i) => ServerStep {
                persist: None,
                to_child: Some(ServerToChildMessage::Stdin(i)),
                reply_config: None,
                reply_unit: false,
                shutdown: false,
            },
            crate::network::NetworkToServerMessage::Shutdown => ServerStep {
                persist: None,
                to_child: None,
                reply_config: None,
                reply_unit: false,
                shutdown: true,
            },
        }
    }

    /// Turns one child report into the message broadcast to every client.
    pub fn handle_ch2s(&self, message: ChildToServerMessage) -> (r: ServerToClientMessage)
        ensures
            message matches ChildToServerMessage::Stdout(b) ==> (r matches
                ServerToClientMessage::Stdout(x) && x == b),
            message matches ChildToServerMessage::Stderr(b) ==> (r matches
                ServerToClientMessage::Stderr(x) && x == b),
            message matches ChildToServerMessage::UpdateState(s) ==> r
                == ServerToClientMessage::ServerStateUpdated(s),
    {
        match message {
            ChildToServerMessage::Stdout(b) => ServerToClientMessage::Stdout(b),
            ChildToServerMessage::Stderr(b) => ServerToClientMessage::Stderr(b),
            ChildToServerMessage::UpdateState(s) => ServerToClientMessage::ServerStateUpdated(s),
        }
    }
}

// ---------------------------------------------------------------------- law
/// The two observable transitions of one daemon run.
pub enum ChildEvent {
    /// A spawn was confirmed; `Started` is published.
    Confirmed,
    /// The child's exit was observed; `Stopped` is published.
    Exited(Option<ExitStatus>),
}

/// A run is valid when spawns are confirmed only while stopped and exits
/// observed only while running, as the supervisor's contracts require.
pub open spec fn valid_child_run(running: bool, evs: Seq<ChildEvent>) -> bool
    decreases evs.len(),
{
    if evs.len() == 0 {
        true
    } else {
        match evs[0] {
            ChildEvent::Confirmed => !running && valid_child_run(true, evs.drop_first()),
            ChildEvent::Exited(_) => running && valid_child_run(false, evs.drop_first()),
        }
    }
}

/// The state events a run publishes, in order.
pub open spec fn published_states(evs: Seq<ChildEvent>) -> Seq<ServerState> {
    evs.map_values(
        |e: ChildEvent|
            match e {
                ChildEvent::Confirmed => ServerState::Started,
                ChildEvent::Exited(st) => ServerState::Stopped(st),
            },
    )
}

proof fn lemma_run_parity(running: bool, evs: Seq<ChildEvent>)
    requires
        valid_child_run(running, evs),
    ensures
        forall|i: int|
            0 <= i < evs.len() ==> ((#[trigger] published_states(evs)[i] is Started) <==> (if running {
                i % 2 == 1
            } else {
                i % 2 == 0
            })),
    decreases evs.len(),
{
    if evs.len() == 0 {
    } else {
        let tail = evs.drop_first();
        match evs[0] {
            ChildEvent::Confirmed => {
                lemma_run_parity(true, tail);
            },
            ChildEvent::Exited(_) => {
                lemma_run_parity(false, tail);
            },
        }
        assert forall|i: int|
            0 <= i < evs.len() implies ((#[trigger] published_states(evs)[i] is Started) <==> (
        if running {
            i % 2 == 1
        } else {
            i % 2 == 0
        })) by {
            if i > 0 {
                assert(published_states(evs)[i] == published_states(tail)[i - 1]);
            }
        }
    }
}

/// State monotonicity per run: starting from a stopped daemon, the
/// published state events strictly alternate, `Started` at every even
/// position and `Stopped` at every odd one.
pub proof fn lemma_state_alternation(evs: Seq<ChildEvent>)
    requires
        valid_child_run(false, evs),
    ensures
        forall|i: int|
            0 <= i < evs.len() ==> ((#[trigger] published_states(evs)[i] is Started) <==> i % 2
                == 0),
{
    lemma_run_parity(false, evs);
}

/// Between two consecutive `Started` events there is exactly one event, and
/// it is a `Stopped`.
pub proof fn lemma_one_stop_between_starts(evs: Seq<ChildEvent>, i: int, j: int)
    requires
        valid_child_run(false, evs),
        0 <= i < j < evs.len(),
        published_states(evs)[i] is Started,
        published_states(evs)[j] is Started,
        forall|k: int| i < k < j ==> !(#[trigger] published_states(evs)[k] is Started),
    ensures
        j == i + 2,
        published_states(evs)[i + 1] is Stopped,
{
    lemma_state_alternation(evs);
    if j > i + 2 {
        assert(published_states(evs)[i + 2] is Started);
        assert(false);
    }
}

} // verus!
