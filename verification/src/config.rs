//! The persisted configuration and its resolved / masked projections.
//!
//! A `Config` names the Java executable (auto-detected or custom), the server
//! jar, two argument lists (a shell-tokenised string or an explicit list) and
//! the user to launch as.  `resolve` flattens it for a UI, recording in a
//! `ConfigMask` which branch of each variant was active so that
//! `from_resolved` can round the projection back without losing the choice.

use vstd::prelude::*;

use vstd::string::StringExecFns;

use crate::util::copy_strings;

verus! {

/// Which branch of `JavaPath` is active.
#[derive(Debug, Copy, Clone, PartialEq, Eq, Structural)]
pub enum JavaPathKind {
    AutoDetect,
    Custom,
}

/// Where the Java executable comes from.
#[derive(Debug, PartialEq, Eq)]
pub enum JavaPath {
    /// Consult `JAVA_HOME`, then the executable search path.
    AutoDetect,
    /// A fixed path.
    Custom(String),
}

/// The mathematical value of a `JavaPath`.
pub enum JavaPathView {
    AutoDetect,
    Custom(Seq<char>),
}

impl View for JavaPath {
    type V = JavaPathView;

    open spec fn view(&self) -> JavaPathView {
        match self {
            JavaPath::AutoDetect => JavaPathView::AutoDetect,
            JavaPath::Custom(p) => JavaPathView::Custom(p@),
        }
    }
}

impl Clone for JavaPath {
    fn clone(&self) -> (r: Self)
        ensures
            r@ == self@,
    {
        match self {
            JavaPath::AutoDetect => JavaPath::AutoDetect,
            JavaPath::Custom(p) => JavaPath::Custom(p.clone()),
        }
    }
}

/// What a resolved `JavaPath` is: the custom path itself, or whatever the
/// auto-detection found.
pub open spec fn spec_resolved_java(jp: JavaPathView, detected: Option<Seq<char>>) -> Option<
    Seq<char>,
> {
    match jp {
        JavaPathView::AutoDetect => detected,
        JavaPathView::Custom(p) => Some(p),
    }
}

impl JavaPath {
    pub open spec fn spec_kind(self) -> JavaPathKind {
        match self {
            JavaPath::AutoDetect => JavaPathKind::AutoDetect,
            JavaPath::Custom(_) => JavaPathKind::Custom,
        }
    }

    /// The path to use: a custom path stands as it is; auto-detection takes
    /// the path the caller detected from the environment, if any.
    pub fn resolve(&self, detected: Option<String>) -> (r: Option<String>)
        ensures
            r.deep_view() == spec_resolved_java(self@, detected.deep_view()),
    {
        match self {
            JavaPath::AutoDetect => detected,
            JavaPath::Custom(p) => Some(p.clone()),
        }
    }

    pub fn kind(&self) -> (r: JavaPathKind)
        ensures
            r == self.spec_kind(),
    {
        match self {
            JavaPath::AutoDetect => JavaPathKind::AutoDetect,
            JavaPath::Custom(_) => JavaPathKind::Custom,
        }
    }
}

/// The path `JAVA_HOME` points at, extended to its `java` binary; `None`
/// when the variable is absent.
pub fn auto_detect_java_from_java_home_env(java_home: Option<String>) -> (r: Option<String>)
    ensures
        java_home is None ==> r is None,
        java_home matches Some(h) ==> (r matches Some(p) && p@ == h@ + "/bin/java"@),
{
    match java_home {
        None => None,
        Some(h) => Some(h.concat("/bin/java")),
    }
}

/// Which branch of `Arguments` is active.
#[derive(Debug, Copy, Clone, PartialEq, Eq, Structural)]
pub enum ServerArgumentsKind {
    Parsed,
    Manual,
}

/// An argument list: a string to be tokenised by POSIX shell rules, or the
/// explicit words.
#[derive(Debug, PartialEq, Eq)]
pub enum Arguments {
    Parsed(String),
    Manual(Vec<String>),
}

/// The mathematical value of an `Arguments`.
pub enum ArgumentsView {
    Parsed(Seq<char>),
    Manual(Seq<Seq<char>>),
}

impl View for Arguments {
    type V = ArgumentsView;

    open spec fn view(&self) -> ArgumentsView {
        match self {
            Arguments::Parsed(s) => ArgumentsView::Parsed(s@),
            Arguments::Manual(v) => ArgumentsView::Manual(v.deep_view()),
        }
    }
}

impl Clone for Arguments {
    fn clone(&self) -> (r: Self)
        ensures
            r@ == self@,
    {
        match self {
            Arguments::Parsed(s) => Arguments::Parsed(s.clone()),
            Arguments::Manual(v) => Arguments::Manual(copy_strings(v)),
        }
    }
}

/// What `shlex::split` returns on a string: the POSIX-shell tokens, or `None`
/// on erroneous input.
pub uninterp spec fn shell_split(s: Seq<char>) -> Option<Seq<Seq<char>>>;

/// Relies on `shlex::split`: POSIX-shell tokenisation of the whole string,
/// `None` exactly on erroneous input.  The result depends on the characters
/// alone.
#[verifier::external_body]
fn shlex_split(s: &str) -> (r: Option<Vec<String>>)
    ensures
        r.deep_view() == shell_split(s@),
{
    shlex::split(s)
}

/// Why a configuration could not be put to use.
#[derive(Debug, Copy, Clone, PartialEq, Eq, Structural)]
pub enum ConfigError {
    /// No Java executable could be resolved.
    NoJavaPath,
    /// The `Parsed` argument string has erroneous shell syntax.
    BadArguments,
}

impl ConfigError {
    /// A rendering of the error for clients.
    pub fn message(&self) -> (r: String)
        ensures
            self is NoJavaPath ==> r@ == "Failed to get the Java path. Is Java installed in your system?"@,
            self is BadArguments ==> r@ == "The provided arguments contain erroneous input or syntax; please double check the arguments and try again."@,
    {
        match self {
            ConfigError::NoJavaPath => String::from_str(
                "Failed to get the Java path. Is Java installed in your system?",
            ),
            ConfigError::BadArguments => String::from_str(
                "The provided arguments contain erroneous input or syntax; please double check the arguments and try again.",
            ),
        }
    }
}

/// What resolving an `Arguments` yields: the manual words as they are, or the
/// shell tokens of the parsed string where it tokenises.
pub open spec fn spec_resolved_arguments(a: ArgumentsView) -> Option<Seq<Seq<char>>> {
    match a {
        ArgumentsView::Parsed(s) => shell_split(s),
        ArgumentsView::Manual(v) => Some(v),
    }
}

impl Arguments {
    pub open spec fn spec_kind(self) -> ServerArgumentsKind {
        match self {
            Arguments::Parsed(_) => ServerArgumentsKind::Parsed,
            Arguments::Manual(_) => ServerArgumentsKind::Manual,
        }
    }

    /// The argument words, tokenising a `Parsed` string by POSIX shell rules;
    /// fails exactly when that string does not tokenise.
    pub fn resolve(&self) -> (r: Result<Vec<String>, ConfigError>)
        ensures
            r is Ok <==> spec_resolved_arguments(self@) is Some,
            r matches Ok(v) ==> Some(v.deep_view()) == spec_resolved_arguments(self@),
            r matches Err(e) ==> e == ConfigError::BadArguments,
    {
        match self {
            Arguments::Parsed(s) => match shlex_split(s.as_str()) {
                Some(v) => Ok(v),
                None => Err(ConfigError::BadArguments),
            },
            Arguments::Manual(v) => Ok(copy_strings(v)),
        }
    }

    pub fn kind(&self) -> (r: ServerArgumentsKind)
        ensures
            r == self.spec_kind(),
    {
        match self {
            Arguments::Parsed(_) => ServerArgumentsKind::Parsed,
            Arguments::Manual(_) => ServerArgumentsKind::Manual,
        }
    }
}

/// Which branch of `User` is active.
#[derive(Debug, Copy, Clone, PartialEq, Eq, Structural)]
pub enum UserKind {
    Current,
    Specific,
}

/// Who the child process runs as.
#[derive(Debug, PartialEq, Eq)]
pub enum User {
    /// The daemon's own user.
    Current,
    /// A named user, reached through `sudo -u`.
    Specific(String),
}

/// The mathematical value of a `User`.
pub enum UserView {
    Current,
    Specific(Seq<char>),
}

impl View for User {
    type V = UserView;

    open spec fn view(&self) -> UserView {
        match self {
            User::Current => UserView::Current,
            User::Specific(u) => UserView::Specific(u@),
        }
    }
}

impl Clone for User {
    fn clone(&self) -> (r: Self)
        ensures
            r@ == self@,
    {
        match self {
            User::Current => User::Current,
            User::Specific(u) => User::Specific(u.clone()),
        }
    }
}

impl User {
    pub open spec fn spec_kind(self) -> UserKind {
        match self {
            User::Current => UserKind::Current,
            User::Specific(_) => UserKind::Specific,
        }
    }

    pub open spec fn spec_resolve(self) -> Option<Seq<char>> {
        match self {
            User::Current => None,
            User::Specific(u) => Some(u@),
        }
    }

    /// The user name to launch as, if one is configured.
    pub fn resolve(&self) -> (r: Option<&str>)
        ensures
            r is None <==> self is Current,
            r matches Some(u) ==> Some(u@) == self.spec_resolve(),
    {
        match self {
            User::Current => None,
            User::Specific(u) => Some(u.as_str()),
        }
    }

    /// The command prefix that reaches this user: `sudo -u <name>` for a
    /// specific user, nothing for the current one.
    pub fn make_command(&self) -> (r: Option<(String, Vec<String>)>)
        ensures
            r is None <==> self is Current,
            self matches User::Specific(u) ==> (r matches Some(c) && c.0@ == "sudo"@
                && c.1.deep_view() == seq!["-u"@, u@]),
    {
        match self {
            User::Current => None,
            User::Specific(u) => {
                let mut args: Vec<String> = Vec::new();
                args.push(String::from_str("-u"));
                args.push(u.clone());
                proof {
                    assert(args.deep_view() =~= seq!["-u"@, u@]);
                }
                Some((String::from_str("sudo"), args))
            },
        }
    }

    pub fn kind(&self) -> (r: UserKind)
        ensures
            r == self.spec_kind(),
    {
        match self {
            User::Current => UserKind::Current,
            User::Specific(_) => UserKind::Specific,
        }
    }
}

/// The persisted configuration.
#[derive(Debug, PartialEq, Eq)]
pub struct Config {
    pub java_path: JavaPath,
    pub server_jar_path: String,
    pub java_arguments: Arguments,
    pub server_arguments: Arguments,
    pub user: User,
}

/// The mathematical value of a `Config`.
pub struct ConfigView {
    pub java_path: JavaPathView,
    pub server_jar_path: Seq<char>,
    pub java_arguments: ArgumentsView,
    pub server_arguments: ArgumentsView,
    pub user: UserView,
}

impl View for Config {
    type V = ConfigView;

    open spec fn view(&self) -> ConfigView {
        ConfigView {
            java_path: self.java_path@,
            server_jar_path: self.server_jar_path@,
            java_arguments: self.java_arguments@,
            server_arguments: self.server_arguments@,
            user: self.user@,
        }
    }
}

impl Clone for Config {
    fn clone(&self) -> (r: Self)
        ensures
            r@ == self@,
    {
        Config {
            java_path: self.java_path.clone(),
            server_jar_path: self.server_jar_path.clone(),
            java_arguments: self.java_arguments.clone(),
            server_arguments: self.server_arguments.clone(),
            user: self.user.clone(),
        }
    }
}

/// A configuration flattened for the UI: every variant resolved to its value.
#[derive(Debug, Clone, PartialEq, Eq)]
pub struct ResolvedConfig {
    pub java_path: String,
    pub server_jar_path: String,
    pub java_arguments: Arguments,
    pub server_arguments: Arguments,
    pub user: Option<String>,
}

/// Which branch of each `Config` variant was active, so a resolved
/// configuration can be folded back without losing the choice.
#[derive(Debug, Copy, Clone, PartialEq, Eq, Structural)]
pub struct ConfigMask {
    pub java_path: JavaPathKind,
    pub user: UserKind,
}

impl Config {
    /// Flattens the configuration for the UI.  `detected` is the path
    /// auto-detection found in the environment, if any; the call fails
    /// exactly when the Java path is `AutoDetect` and nothing was detected.
    pub fn resolve(&self, detected: Option<String>) -> (r: Result<
        (ResolvedConfig, ConfigMask),
        ConfigError,
    >)
        ensures
            r is Ok <==> spec_resolved_java(self.java_path@, detected.deep_view()) is Some,
            r matches Err(e) ==> e == ConfigError::NoJavaPath,
            r matches Ok(rc) ==> ({
                &&& Some(rc.0.java_path@) == spec_resolved_java(
                    self.java_path@,
                    detected.deep_view(),
                )
                &&& rc.0.server_jar_path@ == self.server_jar_path@
                &&& rc.0.java_arguments@ == self.java_arguments@
                &&& rc.0.server_arguments@ == self.server_arguments@
                &&& rc.0.user.deep_view() == self.user.spec_resolve()
                &&& rc.1.java_path == self.java_path.spec_kind()
                &&& rc.1.user == self.user.spec_kind()
            }),
    {
        let java_path = match self.java_path.resolve(detected) {
            Some(p) => p,
            None => {
                return Err(ConfigError::NoJavaPath);
            },
        };
        let user: Option<String> = match self.user.resolve() {
            Some(u) => Some(u.to_owned()),
            None => None,
        };
        Ok(
            (
                ResolvedConfig {
                    java_path,
                    server_jar_path: self.server_jar_path.clone(),
                    java_arguments: self.java_arguments.clone(),
                    server_arguments: self.server_arguments.clone(),
                    user,
                },
                ConfigMask { java_path: self.java_path.kind(), user: self.user.kind() },
            ),
        )
    }

    /// Folds a resolved configuration back, taking for each variant the
    /// branch the mask records.  A `Specific` user mask needs a user name.
    pub fn from_resolved(config: ResolvedConfig, mask: ConfigMask) -> (r: Self)
        requires
            mask.user is Specific ==> config.user is Some,
        ensures
            mask.java_path is AutoDetect ==> r.java_path is AutoDetect,
            mask.java_path is Custom ==> r.java_path@ == JavaPathView::Custom(
                config.java_path@,
            ),
            r.server_jar_path@ == config.server_jar_path@,
            r.java_arguments@ == config.java_arguments@,
            r.server_arguments@ == config.server_arguments@,
            mask.user is Current ==> r.user is Current,
            mask.user is Specific ==> (config.user matches Some(u) && r.user@
                == UserView::Specific(u@)),
    {
        let user = match (config.user, mask.user) {
            (Some(u), UserKind::Specific) => User::Specific(u),
            (_, UserKind::Current) => User::Current,
            (None, UserKind::Specific) => User::Current,
        };
        Config {
            java_path: match (config.java_path, mask.java_path) {
                (_, JavaPathKind::AutoDetect) => JavaPath::AutoDetect,
                (p, JavaPathKind::Custom) => JavaPath::Custom(p),
            },
            server_jar_path: config.server_jar_path,
            java_arguments: config.java_arguments,
            server_arguments: config.server_arguments,
            user,
        }
    }
}

} // verus!
