//! The wire form of every protocol message, with a proved round-trip.
//!
//! Each message is a one-byte variant tag followed by its fields, built from
//! the primitives of `codec`.  For every type there is a spec serialiser, a
//! spec parser over the remaining suffix, a round-trip lemma, and executable
//! encoders and decoders proved against them.

use vstd::prelude::*;

use crate::codec::dec_bytes;
use crate::codec::dec_string;
use crate::codec::dec_u64;
use crate::codec::dec_u8;
use crate::codec::enc_bytes;
use crate::codec::enc_str;
use crate::codec::enc_u64;
use crate::codec::enc_u8;
use crate::codec::lemma_parse_ser_bytes;
use crate::codec::lemma_parse_ser_string;
use crate::codec::lemma_parse_ser_u64;
use crate::codec::lemma_parse_ser_u8;
use crate::codec::parse_bytes;
use crate::codec::parse_string;
use crate::codec::parse_u64;
use crate::codec::parse_u8;
use crate::codec::ser_bytes;
use crate::codec::ser_string;
use crate::codec::ser_u64;
use crate::codec::ser_u8;
use crate::config::Arguments;
use crate::config::ArgumentsView;
use crate::config::Config;
use crate::config::ConfigView;
use crate::config::JavaPath;
use crate::config::JavaPathView;
use crate::config::User;
use crate::config::UserView;
use crate::error::SerdeError;
use crate::error::SerdeErrorView;
use crate::ids::Id;
use crate::ids::OperationId;
use crate::ids::TaskId;
use crate::messages::C2sView;
use crate::messages::ClientToServerMessage;
use crate::messages::ExitStatus;
use crate::messages::Operation;
use crate::messages::S2cView;
use crate::messages::ServerState;
use crate::messages::ServerToClientMessage;
use vstd::utf8::encode_utf8;

verus! {

// ------------------------------------------------------------- length fits
/// The bounds under which a value survives its length prefixes: every
/// variable-length field fits a 64-bit length.  Every value that exists in
/// memory satisfies them.
pub open spec fn fits_string(s: Seq<char>) -> bool {
    encode_utf8(s).len() <= u64::MAX
}

pub open spec fn fits_strings(v: Seq<Seq<char>>) -> bool {
    v.len() <= u64::MAX && forall|i: int| 0 <= i < v.len() ==> #[trigger] fits_string(v[i])
}

pub open spec fn fits_java_path(jp: JavaPathView) -> bool {
    match jp {
        JavaPathView::AutoDetect => true,
        JavaPathView::Custom(p) => fits_string(p),
    }
}

pub open spec fn fits_arguments(a: ArgumentsView) -> bool {
    match a {
        ArgumentsView::Parsed(s) => fits_string(s),
        ArgumentsView::Manual(v) => fits_strings(v),
    }
}

pub open spec fn fits_user(u: UserView) -> bool {
    match u {
        UserView::Current => true,
        UserView::Specific(name) => fits_string(name),
    }
}

pub open spec fn fits_config(c: ConfigView) -> bool {
    &&& fits_java_path(c.java_path)
    &&& fits_string(c.server_jar_path)
    &&& fits_arguments(c.java_arguments)
    &&& fits_arguments(c.server_arguments)
    &&& fits_user(c.user)
}

pub open spec fn fits_serde_error(e: SerdeErrorView) -> bool
    decreases e,
{
    &&& fits_string(e.display)
    &&& fits_string(e.alt_display)
    &&& fits_string(e.debug)
    &&& fits_string(e.alt_debug)
    &&& match e.source {
        None => true,
        Some(b) => fits_serde_error(*b),
    }
}

pub open spec fn fits_c2s(m: C2sView) -> bool {
    match m {
        C2sView::Ping(_) => true,
        C2sView::GetConfig(_) => true,
        C2sView::GetServerState(_) => true,
        C2sView::UpdateConfig(_, c) => fits_config(c),
        C2sView::PerformOperation(_, _) => true,
        C2sView::Input(b) => b.len() <= u64::MAX,
        C2sView::Shutdown => true,
    }
}

pub open spec fn fits_s2c(m: S2cView) -> bool {
    match m {
        S2cView::Pong(_) => true,
        S2cView::CurrentConfig(c, _) => match c {
            None => true,
            Some(c) => fits_config(c),
        },
        S2cView::CurrentServerState(_, _) => true,
        S2cView::ConfigUpdated(c, _) => fits_config(c),
        S2cView::OperationRequested(_, _) => true,
        S2cView::OperationPerformed(_, _, _) => true,
        S2cView::OperationFailed(_, _, e, _) => fits_serde_error(e),
        S2cView::ServerStateUpdated(_) => true,
        S2cView::Stdout(b) => b.len() <= u64::MAX,
        S2cView::Stderr(b) => b.len() <= u64::MAX,
        S2cView::FatalError(e) => fits_serde_error(e),
        S2cView::Error(e, _) => fits_serde_error(e),
        S2cView::ShuttingDown => true,
    }
}

// ----------------------------------------------------------- spec: ser ids
pub open spec fn ser_task_id(t: TaskId) -> Seq<u8> {
    ser_u64(t.spec_value())
}

pub open spec fn parse_task_id(b: Seq<u8>) -> Option<(TaskId, Seq<u8>)> {
    match parse_u64(b) {
        None => None,
        Some((x, r)) => Some((TaskId(Id(x)), r)),
    }
}

pub open spec fn ser_operation_id(o: OperationId) -> Seq<u8> {
    ser_u64(o.spec_value())
}

pub open spec fn parse_operation_id(b: Seq<u8>) -> Option<(OperationId, Seq<u8>)> {
    match parse_u64(b) {
        None => None,
        Some((x, r)) => Some((OperationId(Id(x)), r)),
    }
}

pub open spec fn ser_opt_task_id(t: Option<TaskId>) -> Seq<u8> {
    match t {
        None => ser_u8(0),
        Some(t) => ser_u8(1) + ser_task_id(t),
    }
}

pub open spec fn parse_opt_task_id(b: Seq<u8>) -> Option<(Option<TaskId>, Seq<u8>)> {
    match parse_u8(b) {
        None => None,
        Some((tag, r)) => if tag == 0 {
            Some((None, r))
        } else if tag == 1 {
            match parse_task_id(r) {
                None => None,
                Some((t, r2)) => Some((Some(t), r2)),
            }
        } else {
            None
        },
    }
}

// -------------------------------------------------------- spec: ser enums
pub open spec fn ser_operation(op: Operation) -> Seq<u8> {
    match op {
        Operation::Start => ser_u8(0),
        Operation::Stop => ser_u8(1),
        Operation::Restart => ser_u8(2),
    }
}

pub open spec fn parse_operation(b: Seq<u8>) -> Option<(Operation, Seq<u8>)> {
    match parse_u8(b) {
        None => None,
        Some((tag, r)) => if tag == 0 {
            Some((Operation::Start, r))
        } else if tag == 1 {
            Some((Operation::Stop, r))
        } else if tag == 2 {
            Some((Operation::Restart, r))
        } else {
            None
        },
    }
}

pub open spec fn ser_exit_status(s: ExitStatus) -> Seq<u8> {
    match s {
        ExitStatus::Success => ser_u8(0),
        ExitStatus::Failure => ser_u8(1),
    }
}

pub open spec fn parse_exit_status(b: Seq<u8>) -> Option<(ExitStatus, Seq<u8>)> {
    match parse_u8(b) {
        None => None,
        Some((tag, r)) => if tag == 0 {
            Some((ExitStatus::Success, r))
        } else if tag == 1 {
            Some((ExitStatus::Failure, r))
        } else {
            None
        },
    }
}

pub open spec fn ser_server_state(s: ServerState) -> Seq<u8> {
    match s {
        ServerState::Started => ser_u8(0),
        ServerState::Stopped(st) => match st {
            None => ser_u8(1) + ser_u8(0),
            Some(es) => ser_u8(1) + ser_u8(1) + ser_exit_status(es),
        },
    }
}

pub open spec fn parse_server_state(b: Seq<u8>) -> Option<(ServerState, Seq<u8>)> {
    match parse_u8(b) {
        None => None,
        Some((tag, r)) => if tag == 0 {
            Some((ServerState::Started, r))
        } else if tag == 1 {
            match parse_u8(r) {
                None => None,
                Some((t2, r2)) => if t2 == 0 {
                    Some((ServerState::Stopped(None), r2))
                } else if t2 == 1 {
                    match parse_exit_status(r2) {
                        None => None,
                        Some((es, r3)) => Some((ServerState::Stopped(Some(es)), r3)),
                    }
                } else {
                    None
                },
            }
        } else {
            None
        },
    }
}

// ------------------------------------------------------- spec: ser config
pub open spec fn ser_java_path(jp: JavaPathView) -> Seq<u8> {
    match jp {
        JavaPathView::AutoDetect => ser_u8(0),
        JavaPathView::Custom(p) => ser_u8(1) + ser_string(p),
    }
}

pub open spec fn parse_java_path(b: Seq<u8>) -> Option<(JavaPathView, Seq<u8>)> {
    match parse_u8(b) {
        None => None,
        Some((tag, r)) => if tag == 0 {
            Some((JavaPathView::AutoDetect, r))
        } else if tag == 1 {
            match parse_string(r) {
                None => None,
                Some((p, r2)) => Some((JavaPathView::Custom(p), r2)),
            }
        } else {
            None
        },
    }
}

/// The concatenation of the strings' encodings, in order.
pub open spec fn ser_string_list(v: Seq<Seq<char>>) -> Seq<u8>
    decreases v.len(),
{
    if v.len() == 0 {
        Seq::empty()
    } else {
        ser_string(v[0]) + ser_string_list(v.drop_first())
    }
}

/// Parses exactly `n` strings.
pub open spec fn parse_string_list(b: Seq<u8>, n: nat) -> Option<(Seq<Seq<char>>, Seq<u8>)>
    decreases n,
{
    if n == 0 {
        Some((Seq::empty(), b))
    } else {
        match parse_string(b) {
            None => None,
            Some((s, r)) => match parse_string_list(r, (n - 1) as nat) {
                None => None,
                Some((tail, r2)) => Some((seq![s] + tail, r2)),
            },
        }
    }
}

pub open spec fn ser_arguments(a: ArgumentsView) -> Seq<u8> {
    match a {
        ArgumentsView::Parsed(s) => ser_u8(0) + ser_string(s),
        ArgumentsView::Manual(v) => ser_u8(1) + ser_u64(v.len() as u64) + ser_string_list(v),
    }
}

pub open spec fn parse_arguments(b: Seq<u8>) -> Option<(ArgumentsView, Seq<u8>)> {
    match parse_u8(b) {
        None => None,
        Some((tag, r)) => if tag == 0 {
            match parse_string(r) {
                None => None,
                Some((s, r2)) => Some((ArgumentsView::Parsed(s), r2)),
            }
        } else if tag == 1 {
            match parse_u64(r) {
                None => None,
                Some((n, r2)) => match parse_string_list(r2, n as nat) {
                    None => None,
                    Some((v, r3)) => Some((ArgumentsView::Manual(v), r3)),
                },
            }
        } else {
            None
        },
    }
}

pub open spec fn ser_user(u: UserView) -> Seq<u8> {
    match u {
        UserView::Current => ser_u8(0),
        UserView::Specific(name) => ser_u8(1) + ser_string(name),
    }
}

pub open spec fn parse_user(b: Seq<u8>) -> Option<(UserView, Seq<u8>)> {
    match parse_u8(b) {
        None => None,
        Some((tag, r)) => if tag == 0 {
            Some((UserView::Current, r))
        } else if tag == 1 {
            match parse_string(r) {
                None => None,
                Some((name, r2)) => Some((UserView::Specific(name), r2)),
            }
        } else {
            None
        },
    }
}

pub open spec fn ser_config(c: ConfigView) -> Seq<u8> {
    ser_java_path(c.java_path) + ser_string(c.server_jar_path) + ser_arguments(c.java_arguments)
        + ser_arguments(c.server_arguments) + ser_user(c.user)
}

pub open spec fn parse_config(b: Seq<u8>) -> Option<(ConfigView, Seq<u8>)> {
    match parse_java_path(b) {
        None => None,
        Some((jp, r1)) => match parse_string(r1) {
            None => None,
            Some((jar, r2)) => match parse_arguments(r2) {
                None => None,
                Some((ja, r3)) => match parse_arguments(r3) {
                    None => None,
                    Some((sa, r4)) => match parse_user(r4) {
                        None => None,
                        Some((u, r5)) => Some(
                            (
                                ConfigView {
                                    java_path: jp,
                                    server_jar_path: jar,
                                    java_arguments: ja,
                                    server_arguments: sa,
                                    user: u,
                                },
                                r5,
                            ),
                        ),
                    },
                },
            },
        },
    }
}

pub open spec fn ser_opt_config(c: Option<ConfigView>) -> Seq<u8> {
    match c {
        None => ser_u8(0),
        Some(c) => ser_u8(1) + ser_config(c),
    }
}

pub open spec fn parse_opt_config(b: Seq<u8>) -> Option<(Option<ConfigView>, Seq<u8>)> {
    match parse_u8(b) {
        None => None,
        Some((tag, r)) => if tag == 0 {
            Some((None, r))
        } else if tag == 1 {
            match parse_config(r) {
                None => None,
                Some((c, r2)) => Some((Some(c), r2)),
            }
        } else {
            None
        },
    }
}

// -------------------------------------------------------- spec: ser errors
pub open spec fn ser_serde_error(e: SerdeErrorView) -> Seq<u8>
    decreases e,
{
    ser_string(e.display) + ser_string(e.alt_display) + ser_string(e.debug) + ser_string(
        e.alt_debug,
    ) + match e.source {
        None => ser_u8(0),
        Some(b) => ser_u8(1) + ser_serde_error(*b),
    }
}

#[verifier::opaque]
pub open spec fn parse_serde_error(b: Seq<u8>) -> Option<(SerdeErrorView, Seq<u8>)>
    decreases b.len(),
{
    match parse_string(b) {
        None => None,
        Some((display, r1)) => match parse_string(r1) {
            None => None,
            Some((alt_display, r2)) => match parse_string(r2) {
                None => None,
                Some((debug, r3)) => match parse_string(r3) {
                    None => None,
                    Some((alt_debug, r4)) => match parse_u8(r4) {
                        None => None,
                        Some((tag, r5)) => if tag == 0 {
                            Some(
                                (
                                    SerdeErrorView {
                                        display,
                                        alt_display,
                                        debug,
                                        alt_debug,
                                        source: None,
                                    },
                                    r5,
                                ),
                            )
                        } else if tag == 1 && r5.len() < b.len() {
                            match parse_serde_error(r5) {
                                None => None,
                                Some((src, r6)) => Some(
                                    (
                                        SerdeErrorView {
                                            display,
                                            alt_display,
                                            debug,
                                            alt_debug,
                                            source: Some(Box::new(src)),
                                        },
                                        r6,
                                    ),
                                ),
                            }
                        } else {
                            None
                        },
                    },
                },
            },
        },
    }
}

// ------------------------------------------------------ spec: ser messages
pub open spec fn ser_c2s(m: C2sView) -> Seq<u8> {
    match m {
        C2sView::Ping(t) => ser_u8(0) + ser_task_id(t),
        C2sView::GetConfig(t) => ser_u8(1) + ser_task_id(t),
        C2sView::GetServerState(t) => ser_u8(2) + ser_task_id(t),
        C2sView::UpdateConfig(t, c) => ser_u8(3) + ser_task_id(t) + ser_config(c),
        C2sView::PerformOperation(t, op) => ser_u8(4) + ser_task_id(t) + ser_operation(op),
        C2sView::Input(b) => ser_u8(5) + ser_bytes(b),
        C2sView::Shutdown => ser_u8(6),
    }
}

pub open spec fn parse_c2s(b: Seq<u8>) -> Option<(C2sView, Seq<u8>)> {
    match parse_u8(b) {
        None => None,
        Some((tag, r)) => if tag == 0 {
            match parse_task_id(r) {
                None => None,
                Some((t, r2)) => Some((C2sView::Ping(t), r2)),
            }
        } else if tag == 1 {
            match parse_task_id(r) {
                None => None,
                Some((t, r2)) => Some((C2sView::GetConfig(t), r2)),
            }
        } else if tag == 2 {
            match parse_task_id(r) {
                None => None,
                Some((t, r2)) => Some((C2sView::GetServerState(t), r2)),
            }
        } else if tag == 3 {
            match parse_task_id(r) {
                None => None,
                Some((t, r2)) => match parse_config(r2) {
                    None => None,
                    Some((c, r3)) => Some((C2sView::UpdateConfig(t, c), r3)),
                },
            }
        } else if tag == 4 {
            match parse_task_id(r) {
                None => None,
                Some((t, r2)) => match parse_operation(r2) {
                    None => None,
                    Some((op, r3)) => Some((C2sView::PerformOperation(t, op), r3)),
                },
            }
        } else if tag == 5 {
            match parse_bytes(r) {
                None => None,
                Some((d, r2)) => Some((C2sView::Input(d), r2)),
            }
        } else if tag == 6 {
            Some((C2sView::Shutdown, r))
        } else {
            None
        },
    }
}

pub open spec fn ser_s2c(m: S2cView) -> Seq<u8> {
    match m {
        S2cView::Pong(t) => ser_u8(0) + ser_task_id(t),
        S2cView::CurrentConfig(c, t) => ser_u8(1) + ser_opt_config(c) + ser_task_id(t),
        S2cView::CurrentServerState(s, t) => ser_u8(2) + ser_server_state(s) + ser_task_id(t),
        S2cView::ConfigUpdated(c, t) => ser_u8(3) + ser_config(c) + ser_opt_task_id(t),
        S2cView::OperationRequested(op, oid) => ser_u8(4) + ser_operation(op) + ser_operation_id(
            oid,
        ),
        S2cView::OperationPerformed(op, oid, t) => ser_u8(5) + ser_operation(op)
            + ser_operation_id(oid) + ser_opt_task_id(t),
        S2cView::OperationFailed(op, oid, e, t) => ser_u8(6) + ser_operation(op)
            + ser_operation_id(oid) + ser_serde_error(e) + ser_opt_task_id(t),
        S2cView::ServerStateUpdated(s) => ser_u8(7) + ser_server_state(s),
        S2cView::Stdout(b) => ser_u8(8) + ser_bytes(b),
        S2cView::Stderr(b) => ser_u8(9) + ser_bytes(b),
        S2cView::FatalError(e) => ser_u8(10) + ser_serde_error(e),
        S2cView::Error(e, t) => ser_u8(11) + ser_serde_error(e) + ser_opt_task_id(t),
        S2cView::ShuttingDown => ser_u8(12),
    }
}

pub open spec fn parse_s2c(b: Seq<u8>) -> Option<(S2cView, Seq<u8>)> {
    match parse_u8(b) {
        None => None,
        Some((tag, r)) => if tag == 0 {
            match parse_task_id(r) {
                None => None,
                Some((t, r2)) => Some((S2cView::Pong(t), r2)),
            }
        } else if tag == 1 {
            match parse_opt_config(r) {
                None => None,
                Some((c, r2)) => match parse_task_id(r2) {
                    None => None,
                    Some((t, r3)) => Some((S2cView::CurrentConfig(c, t), r3)),
                },
            }
        } else if tag == 2 {
            match parse_server_state(r) {
                None => None,
                Some((s, r2)) => match parse_task_id(r2) {
                    None => None,
                    Some((t, r3)) => Some((S2cView::CurrentServerState(s, t), r3)),
                },
            }
        } else if tag == 3 {
            match parse_config(r) {
                None => None,
                Some((c, r2)) => match parse_opt_task_id(r2) {
                    None => None,
                    Some((t, r3)) => Some((S2cView::ConfigUpdated(c, t), r3)),
                },
            }
        } else if tag == 4 {
            match parse_operation(r) {
                None => None,
                Some((op, r2)) => match parse_operation_id(r2) {
                    None => None,
                    Some((oid, r3)) => Some((S2cView::OperationRequested(op, oid), r3)),
                },
            }
        } else if tag == 5 {
            match parse_operation(r) {
                None => None,
                Some((op, r2)) => match parse_operation_id(r2) {
                    None => None,
                    Some((oid, r3)) => match parse_opt_task_id(r3) {
                        None => None,
                        Some((t, r4)) => Some((S2cView::OperationPerformed(op, oid, t), r4)),
                    },
                },
            }
        } else if tag == 6 {
            match parse_operation(r) {
                None => None,
                Some((op, r2)) => match parse_operation_id(r2) {
                    None => None,
                    Some((oid, r3)) => match parse_serde_error(r3) {
                        None => None,
                        Some((e, r4)) => match parse_opt_task_id(r4) {
                            None => None,
                            Some((t, r5)) => Some((S2cView::OperationFailed(op, oid, e, t), r5)),
                        },
                    },
                },
            }
        } else if tag == 7 {
            match parse_server_state(r) {
                None => None,
                Some((s, r2)) => Some((S2cView::ServerStateUpdated(s), r2)),
            }
        } else if tag == 8 {
            match parse_bytes(r) {
                None => None,
                Some((d, r2)) => Some((S2cView::Stdout(d), r2)),
            }
        } else if tag == 9 {
            match parse_bytes(r) {
                None => None,
                Some((d, r2)) => Some((S2cView::Stderr(d), r2)),
            }
        } else if tag == 10 {
            match parse_serde_error(r) {
                None => None,
                Some((e, r2)) => Some((S2cView::FatalError(e), r2)),
            }
        } else if tag == 11 {
            match parse_serde_error(r) {
                None => None,
                Some((e, r2)) => match parse_opt_task_id(r2) {
                    None => None,
                    Some((t, r3)) => Some((S2cView::Error(e, t), r3)),
                },
            }
        } else if tag == 12 {
            Some((S2cView::ShuttingDown, r))
        } else {
            None
        },
    }
}


// ------------------------------------------------------- round-trip lemmas
/// A tagged payload starts with its tag.
proof fn lemma_tag(tag: u8, payload: Seq<u8>, rest: Seq<u8>)
    ensures
        parse_u8((ser_u8(tag) + payload) + rest) == Some((tag, payload + rest)),
{
    assert((ser_u8(tag) + payload) + rest =~= ser_u8(tag) + (payload + rest));
    lemma_parse_ser_u8(tag, payload + rest);
}

/// Concatenation reassociates.
proof fn lemma_assoc(a: Seq<u8>, b: Seq<u8>, c: Seq<u8>)
    ensures
        (a + b) + c == a + (b + c),
{
    assert((a + b) + c =~= a + (b + c));
}

pub proof fn lemma_rt_task_id(t: TaskId, rest: Seq<u8>)
    ensures
        parse_task_id(ser_task_id(t) + rest) == Some((t, rest)),
{
    lemma_parse_ser_u64(t.spec_value(), rest);
}

pub proof fn lemma_rt_operation_id(o: OperationId, rest: Seq<u8>)
    ensures
        parse_operation_id(ser_operation_id(o) + rest) == Some((o, rest)),
{
    lemma_parse_ser_u64(o.spec_value(), rest);
}

pub proof fn lemma_rt_opt_task_id(t: Option<TaskId>, rest: Seq<u8>)
    ensures
        parse_opt_task_id(ser_opt_task_id(t) + rest) == Some((t, rest)),
{
    match t {
        None => {
            lemma_parse_ser_u8(0, rest);
        },
        Some(x) => {
            lemma_tag(1, ser_task_id(x), rest);
            lemma_rt_task_id(x, rest);
        },
    }
}

pub proof fn lemma_rt_operation(op: Operation, rest: Seq<u8>)
    ensures
        parse_operation(ser_operation(op) + rest) == Some((op, rest)),
{
    match op {
        Operation::Start => lemma_parse_ser_u8(0, rest),
        Operation::Stop => lemma_parse_ser_u8(1, rest),
        Operation::Restart => lemma_parse_ser_u8(2, rest),
    }
}

pub proof fn lemma_rt_exit_status(s: ExitStatus, rest: Seq<u8>)
    ensures
        parse_exit_status(ser_exit_status(s) + rest) == Some((s, rest)),
{
    match s {
        ExitStatus::Success => lemma_parse_ser_u8(0, rest),
        ExitStatus::Failure => lemma_parse_ser_u8(1, rest),
    }
}

pub proof fn lemma_rt_server_state(s: ServerState, rest: Seq<u8>)
    ensures
        parse_server_state(ser_server_state(s) + rest) == Some((s, rest)),
{
    match s {
        ServerState::Started => {
            lemma_parse_ser_u8(0, rest);
        },
        ServerState::Stopped(st) => {
            match st {
                None => {
                    lemma_tag(1, ser_u8(0), rest);
                    lemma_parse_ser_u8(0, rest);
                },
                Some(es) => {
                    assert((ser_u8(1) + ser_u8(1) + ser_exit_status(es)) + rest =~= ser_u8(1) + ((
                    ser_u8(1) + ser_exit_status(es)) + rest));
                    lemma_parse_ser_u8(1, (ser_u8(1) + ser_exit_status(es)) + rest);
                    lemma_tag(1, ser_exit_status(es), rest);
                    lemma_rt_exit_status(es, rest);
                },
            }
        },
    }
}

pub proof fn lemma_rt_java_path(jp: JavaPathView, rest: Seq<u8>)
    requires
        fits_java_path(jp),
    ensures
        parse_java_path(ser_java_path(jp) + rest) == Some((jp, rest)),
{
    match jp {
        JavaPathView::AutoDetect => {
            lemma_parse_ser_u8(0, rest);
        },
        JavaPathView::Custom(p) => {
            lemma_tag(1, ser_string(p), rest);
            lemma_parse_ser_string(p, rest);
        },
    }
}

pub proof fn lemma_rt_string_list(v: Seq<Seq<char>>, rest: Seq<u8>)
    requires
        forall|i: int| 0 <= i < v.len() ==> #[trigger] fits_string(v[i]),
    ensures
        parse_string_list(ser_string_list(v) + rest, v.len()) == Some((v, rest)),
    decreases v.len(),
{
    if v.len() == 0 {
        assert(ser_string_list(v) + rest =~= rest);
    } else {
        let tail = v.drop_first();
        assert(fits_string(v[0]));
        assert(ser_string_list(v) + rest =~= ser_string(v[0]) + (ser_string_list(tail) + rest));
        lemma_parse_ser_string(v[0], ser_string_list(tail) + rest);
        assert(forall|i: int| 0 <= i < tail.len() ==> #[trigger] fits_string(tail[i]));
        lemma_rt_string_list(tail, rest);
        assert(seq![v[0]] + tail =~= v);
    }
}

pub proof fn lemma_rt_arguments(a: ArgumentsView, rest: Seq<u8>)
    requires
        fits_arguments(a),
    ensures
        parse_arguments(ser_arguments(a) + rest) == Some((a, rest)),
{
    match a {
        ArgumentsView::Parsed(s) => {
            lemma_tag(0, ser_string(s), rest);
            lemma_parse_ser_string(s, rest);
        },
        ArgumentsView::Manual(v) => {
            let n = v.len() as u64;
            assert((ser_u8(1) + ser_u64(n) + ser_string_list(v)) + rest =~= ser_u8(1) + ((ser_u64(
            n) + ser_string_list(v)) + rest));
            lemma_parse_ser_u8(1, (ser_u64(n) + ser_string_list(v)) + rest);
            assert((ser_u64(n) + ser_string_list(v)) + rest =~= ser_u64(n) + (ser_string_list(v)
                + rest));
            lemma_parse_ser_u64(n, ser_string_list(v) + rest);
            lemma_rt_string_list(v, rest);
        },
    }
}

pub proof fn lemma_rt_user(u: UserView, rest: Seq<u8>)
    requires
        fits_user(u),
    ensures
        parse_user(ser_user(u) + rest) == Some((u, rest)),
{
    match u {
        UserView::Current => {
            lemma_parse_ser_u8(0, rest);
        },
        UserView::Specific(name) => {
            lemma_tag(1, ser_string(name), rest);
            lemma_parse_ser_string(name, rest);
        },
    }
}

pub proof fn lemma_rt_config(c: ConfigView, rest: Seq<u8>)
    requires
        fits_config(c),
    ensures
        parse_config(ser_config(c) + rest) == Some((c, rest)),
{
    let s1 = ser_java_path(c.java_path);
    let s2 = ser_string(c.server_jar_path);
    let s3 = ser_arguments(c.java_arguments);
    let s4 = ser_arguments(c.server_arguments);
    let s5 = ser_user(c.user);
    assert(ser_config(c) + rest =~= s1 + (s2 + (s3 + (s4 + (s5 + rest)))));
    lemma_rt_java_path(c.java_path, s2 + (s3 + (s4 + (s5 + rest))));
    lemma_parse_ser_string(c.server_jar_path, s3 + (s4 + (s5 + rest)));
    lemma_rt_arguments(c.java_arguments, s4 + (s5 + rest));
    lemma_rt_arguments(c.server_arguments, s5 + rest);
    lemma_rt_user(c.user, rest);
}

pub proof fn lemma_rt_opt_config(c: Option<ConfigView>, rest: Seq<u8>)
    requires
        c matches Some(c0) ==> fits_config(c0),
    ensures
        parse_opt_config(ser_opt_config(c) + rest) == Some((c, rest)),
{
    match c {
        None => {
            lemma_parse_ser_u8(0, rest);
        },
        Some(c0) => {
            lemma_tag(1, ser_config(c0), rest);
            lemma_rt_config(c0, rest);
        },
    }
}

#[verifier::spinoff_prover]
#[verifier::rlimit(100)]
pub proof fn lemma_rt_serde_error(e: SerdeErrorView, rest: Seq<u8>)
    requires
        fits_serde_error(e),
    ensures
        parse_serde_error(ser_serde_error(e) + rest) == Some((e, rest)),
    decreases e,
{
    reveal(parse_serde_error);
    let s1 = ser_string(e.display);
    let s2 = ser_string(e.alt_display);
    let s3 = ser_string(e.debug);
    let s4 = ser_string(e.alt_debug);
    match e.source {
        None => {
            let s5 = ser_u8(0);
            lemma_assoc(s1 + s2 + s3 + s4, s5, rest);
            lemma_assoc(s1 + s2 + s3, s4, s5 + rest);
            lemma_assoc(s1 + s2, s3, s4 + (s5 + rest));
            lemma_assoc(s1, s2, s3 + (s4 + (s5 + rest)));
            lemma_parse_ser_string(e.display, s2 + (s3 + (s4 + (s5 + rest))));
            lemma_parse_ser_string(e.alt_display, s3 + (s4 + (s5 + rest)));
            lemma_parse_ser_string(e.debug, s4 + (s5 + rest));
            lemma_parse_ser_string(e.alt_debug, s5 + rest);
            lemma_parse_ser_u8(0, rest);
        },
        Some(src) => {
            let sub = ser_serde_error(*src);
            let s5 = ser_u8(1) + sub;
            lemma_assoc(s1 + s2 + s3 + s4, s5, rest);
            lemma_assoc(s1 + s2 + s3, s4, s5 + rest);
            lemma_assoc(s1 + s2, s3, s4 + (s5 + rest));
            lemma_assoc(s1, s2, s3 + (s4 + (s5 + rest)));
            lemma_parse_ser_string(e.display, s2 + (s3 + (s4 + (s5 + rest))));
            lemma_parse_ser_string(e.alt_display, s3 + (s4 + (s5 + rest)));
            lemma_parse_ser_string(e.debug, s4 + (s5 + rest));
            lemma_parse_ser_string(e.alt_debug, s5 + rest);
            lemma_assoc(ser_u8(1), sub, rest);
            lemma_parse_ser_u8(1, sub + rest);
            lemma_rt_serde_error(*src, rest);
        },
    }
}

#[verifier::spinoff_prover]
#[verifier::rlimit(100)]
pub proof fn lemma_rt_c2s(m: C2sView, rest: Seq<u8>)
    requires
        fits_c2s(m),
    ensures
        parse_c2s(ser_c2s(m) + rest) == Some((m, rest)),
{
    match m {
        C2sView::Ping(t) => {
            lemma_tag(0, ser_task_id(t), rest);
            lemma_rt_task_id(t, rest);
        },
        C2sView::GetConfig(t) => {
            lemma_tag(1, ser_task_id(t), rest);
            lemma_rt_task_id(t, rest);
        },
        C2sView::GetServerState(t) => {
            lemma_tag(2, ser_task_id(t), rest);
            lemma_rt_task_id(t, rest);
        },
        C2sView::UpdateConfig(t, c) => {
            let p = ser_task_id(t) + ser_config(c);
            assert((ser_u8(3) + ser_task_id(t) + ser_config(c)) + rest =~= (ser_u8(3) + p) + rest);
            lemma_tag(3, p, rest);
            assert(p + rest =~= ser_task_id(t) + (ser_config(c) + rest));
            lemma_rt_task_id(t, ser_config(c) + rest);
            lemma_rt_config(c, rest);
        },
        C2sView::PerformOperation(t, op) => {
            let p = ser_task_id(t) + ser_operation(op);
            assert((ser_u8(4) + ser_task_id(t) + ser_operation(op)) + rest =~= (ser_u8(4) + p)
                + rest);
            lemma_tag(4, p, rest);
            assert(p + rest =~= ser_task_id(t) + (ser_operation(op) + rest));
            lemma_rt_task_id(t, ser_operation(op) + rest);
            lemma_rt_operation(op, rest);
        },
        C2sView::Input(b) => {
            lemma_tag(5, ser_bytes(b), rest);
            lemma_parse_ser_bytes(b, rest);
        },
        C2sView::Shutdown => {
            lemma_parse_ser_u8(6, rest);
        },
    }
}

#[verifier::spinoff_prover]
#[verifier::rlimit(100)]
proof fn lemma_rt_s2c_pong(t: TaskId, rest: Seq<u8>)
    ensures
        parse_s2c(ser_s2c(S2cView::Pong(t)) + rest) == Some((S2cView::Pong(t), rest)),
{
    lemma_tag(0, ser_task_id(t), rest);
    lemma_rt_task_id(t, rest);
}

#[verifier::spinoff_prover]
#[verifier::rlimit(100)]
proof fn lemma_rt_s2c_current_config(c: Option<ConfigView>, t: TaskId, rest: Seq<u8>)
    requires
        c matches Some(c0) ==> fits_config(c0),
    ensures
        parse_s2c(ser_s2c(S2cView::CurrentConfig(c, t)) + rest) == Some(
            (S2cView::CurrentConfig(c, t), rest),
        ),
{
    let p = ser_opt_config(c) + ser_task_id(t);
    assert((ser_u8(1) + ser_opt_config(c) + ser_task_id(t)) + rest =~= (ser_u8(1) + p) + rest);
    lemma_tag(1, p, rest);
    assert(p + rest =~= ser_opt_config(c) + (ser_task_id(t) + rest));
    lemma_rt_opt_config(c, ser_task_id(t) + rest);
    lemma_rt_task_id(t, rest);
}

#[verifier::spinoff_prover]
#[verifier::rlimit(100)]
proof fn lemma_rt_s2c_current_server_state(st: ServerState, t: TaskId, rest: Seq<u8>)
    ensures
        parse_s2c(ser_s2c(S2cView::CurrentServerState(st, t)) + rest) == Some(
            (S2cView::CurrentServerState(st, t), rest),
        ),
{
    let p = ser_server_state(st) + ser_task_id(t);
    assert((ser_u8(2) + ser_server_state(st) + ser_task_id(t)) + rest =~= (ser_u8(2) + p) + rest);
    lemma_tag(2, p, rest);
    assert(p + rest =~= ser_server_state(st) + (ser_task_id(t) + rest));
    lemma_rt_server_state(st, ser_task_id(t) + rest);
    lemma_rt_task_id(t, rest);
}

#[verifier::spinoff_prover]
#[verifier::rlimit(100)]
proof fn lemma_rt_s2c_config_updated(c: ConfigView, t: Option<TaskId>, rest: Seq<u8>)
    requires
        fits_config(c),
    ensures
        parse_s2c(ser_s2c(S2cView::ConfigUpdated(c, t)) + rest) == Some(
            (S2cView::ConfigUpdated(c, t), rest),
        ),
{
    let p = ser_config(c) + ser_opt_task_id(t);
    assert((ser_u8(3) + ser_config(c) + ser_opt_task_id(t)) + rest =~= (ser_u8(3) + p) + rest);
    lemma_tag(3, p, rest);
    assert(p + rest =~= ser_config(c) + (ser_opt_task_id(t) + rest));
    lemma_rt_config(c, ser_opt_task_id(t) + rest);
    lemma_rt_opt_task_id(t, rest);
}

#[verifier::spinoff_prover]
#[verifier::rlimit(100)]
proof fn lemma_rt_s2c_operation_requested(op: Operation, oid: OperationId, rest: Seq<u8>)
    ensures
        parse_s2c(ser_s2c(S2cView::OperationRequested(op, oid)) + rest) == Some(
            (S2cView::OperationRequested(op, oid), rest),
        ),
{
    let p = ser_operation(op) + ser_operation_id(oid);
    assert((ser_u8(4) + ser_operation(op) + ser_operation_id(oid)) + rest =~= (ser_u8(4) + p)
        + rest);
    lemma_tag(4, p, rest);
    assert(p + rest =~= ser_operation(op) + (ser_operation_id(oid) + rest));
    lemma_rt_operation(op, ser_operation_id(oid) + rest);
    lemma_rt_operation_id(oid, rest);
}

#[verifier::spinoff_prover]
#[verifier::rlimit(100)]
proof fn lemma_rt_s2c_operation_performed(
    op: Operation,
    oid: OperationId,
    t: Option<TaskId>,
    rest: Seq<u8>,
)
    ensures
        parse_s2c(ser_s2c(S2cView::OperationPerformed(op, oid, t)) + rest) == Some(
            (S2cView::OperationPerformed(op, oid, t), rest),
        ),
{
    let p = ser_operation(op) + ser_operation_id(oid) + ser_opt_task_id(t);
    assert((ser_u8(5) + ser_operation(op) + ser_operation_id(oid) + ser_opt_task_id(t)) + rest
        =~= (ser_u8(5) + p) + rest);
    lemma_tag(5, p, rest);
    assert(p + rest =~= ser_operation(op) + (ser_operation_id(oid) + (ser_opt_task_id(t)
        + rest)));
    lemma_rt_operation(op, ser_operation_id(oid) + (ser_opt_task_id(t) + rest));
    lemma_rt_operation_id(oid, ser_opt_task_id(t) + rest);
    lemma_rt_opt_task_id(t, rest);
}

#[verifier::spinoff_prover]
#[verifier::rlimit(100)]
proof fn lemma_rt_s2c_failed_from_parts(
    op: Operation,
    oid: OperationId,
    e: SerdeErrorView,
    t: Option<TaskId>,
    se: Seq<u8>,
    rest: Seq<u8>,
)
    requires
        parse_serde_error(se + (ser_opt_task_id(t) + rest)) == Some(
            (e, ser_opt_task_id(t) + rest),
        ),
    ensures
        parse_s2c((ser_u8(6) + ser_operation(op) + ser_operation_id(oid) + se + ser_opt_task_id(
            t,
        )) + rest) == Some((S2cView::OperationFailed(op, oid, e, t), rest)),
{
    let t6 = ser_u8(6);
    let so = ser_operation(op);
    let si = ser_operation_id(oid);
    let ot = ser_opt_task_id(t);
    lemma_assoc(t6 + so + si + se, ot, rest);
    lemma_assoc(t6 + so + si, se, ot + rest);
    lemma_assoc(t6 + so, si, se + (ot + rest));
    lemma_assoc(t6, so, si + (se + (ot + rest)));
    lemma_parse_ser_u8(6, so + (si + (se + (ot + rest))));
    lemma_rt_operation(op, si + (se + (ot + rest)));
    lemma_rt_operation_id(oid, se + (ot + rest));
    lemma_rt_opt_task_id(t, rest);
}

#[verifier::spinoff_prover]
#[verifier::rlimit(100)]
proof fn lemma_rt_s2c_operation_failed(
    op: Operation,
    oid: OperationId,
    e: SerdeErrorView,
    t: Option<TaskId>,
    rest: Seq<u8>,
)
    requires
        fits_serde_error(e),
    ensures
        parse_s2c(ser_s2c(S2cView::OperationFailed(op, oid, e, t)) + rest) == Some(
            (S2cView::OperationFailed(op, oid, e, t), rest),
        ),
{
    lemma_rt_serde_error(e, ser_opt_task_id(t) + rest);
    lemma_rt_s2c_failed_from_parts(op, oid, e, t, ser_serde_error(e), rest);
}

#[verifier::spinoff_prover]
#[verifier::rlimit(100)]
proof fn lemma_rt_s2c_error(e: SerdeErrorView, t: Option<TaskId>, rest: Seq<u8>)
    requires
        fits_serde_error(e),
    ensures
        parse_s2c(ser_s2c(S2cView::Error(e, t)) + rest) == Some((S2cView::Error(e, t), rest)),
{
    let t11 = ser_u8(11);
    let se = ser_serde_error(e);
    let ot = ser_opt_task_id(t);
    lemma_assoc(t11 + se, ot, rest);
    lemma_assoc(t11, se, ot + rest);
    lemma_parse_ser_u8(11, se + (ot + rest));
    lemma_rt_serde_error(e, ot + rest);
    lemma_rt_opt_task_id(t, rest);
}

pub proof fn lemma_rt_s2c(m: S2cView, rest: Seq<u8>)
    requires
        fits_s2c(m),
    ensures
        parse_s2c(ser_s2c(m) + rest) == Some((m, rest)),
{
    match m {
        S2cView::Pong(t) => lemma_rt_s2c_pong(t, rest),
        S2cView::CurrentConfig(c, t) => lemma_rt_s2c_current_config(c, t, rest),
        S2cView::CurrentServerState(s, t) => lemma_rt_s2c_current_server_state(s, t, rest),
        S2cView::ConfigUpdated(c, t) => lemma_rt_s2c_config_updated(c, t, rest),
        S2cView::OperationRequested(op, oid) => lemma_rt_s2c_operation_requested(op, oid, rest),
        S2cView::OperationPerformed(op, oid, t) => lemma_rt_s2c_operation_performed(
            op,
            oid,
            t,
            rest,
        ),
        S2cView::OperationFailed(op, oid, e, t) => lemma_rt_s2c_operation_failed(
            op,
            oid,
            e,
            t,
            rest,
        ),
        S2cView::ServerStateUpdated(s) => {
            lemma_tag(7, ser_server_state(s), rest);
            lemma_rt_server_state(s, rest);
        },
        S2cView::Stdout(b) => {
            lemma_tag(8, ser_bytes(b), rest);
            lemma_parse_ser_bytes(b, rest);
        },
        S2cView::Stderr(b) => {
            lemma_tag(9, ser_bytes(b), rest);
            lemma_parse_ser_bytes(b, rest);
        },
        S2cView::FatalError(e) => {
            lemma_tag(10, ser_serde_error(e), rest);
            lemma_rt_serde_error(e, rest);
        },
        S2cView::Error(e, t) => lemma_rt_s2c_error(e, t, rest),
        S2cView::ShuttingDown => {
            lemma_parse_ser_u8(12, rest);
        },
    }
}


// ------------------------------------------------------------ exec encoders
proof fn lemma_ser_string_list_push(v: Seq<Seq<char>>, x: Seq<char>)
    ensures
        ser_string_list(v.push(x)) == ser_string_list(v) + ser_string(x),
    decreases v.len(),
{
    if v.len() == 0 {
        assert(v.push(x).drop_first() =~= v);
        assert(ser_string_list(v) + ser_string(x) =~= ser_string(x));
        assert(ser_string_list(v.push(x)) =~= ser_string(v.push(x)[0]) + ser_string_list(
            v.push(x).drop_first(),
        ));
        assert(ser_string_list(Seq::<Seq<char>>::empty()) + ser_string(x) =~= ser_string(x));
    } else {
        lemma_ser_string_list_push(v.drop_first(), x);
        assert(v.push(x).drop_first() =~= v.drop_first().push(x));
        assert(ser_string_list(v) + ser_string(x) =~= ser_string(v[0]) + (ser_string_list(
            v.drop_first(),
        ) + ser_string(x)));
    }
}

fn enc_task_id(out: &mut Vec<u8>, t: TaskId)
    ensures
        final(out)@ == old(out)@ + ser_task_id(t),
{
    enc_u64(out, t.0.value());
}

fn enc_operation_id(out: &mut Vec<u8>, o: OperationId)
    ensures
        final(out)@ == old(out)@ + ser_operation_id(o),
{
    enc_u64(out, o.0.value());
}

fn enc_opt_task_id(out: &mut Vec<u8>, t: &Option<TaskId>)
    ensures
        final(out)@ == old(out)@ + ser_opt_task_id(*t),
{
    match t {
        None => enc_u8(out, 0),
        Some(t) => {
            enc_u8(out, 1);
            enc_task_id(out, *t);
            proof {
                assert(out@ =~= old(out)@ + ser_opt_task_id(Some(*t)));
            }
        },
    }
}

fn enc_operation(out: &mut Vec<u8>, op: Operation)
    ensures
        final(out)@ == old(out)@ + ser_operation(op),
{
    match op {
        Operation::Start => enc_u8(out, 0),
        Operation::Stop => enc_u8(out, 1),
        Operation::Restart => enc_u8(out, 2),
    }
}

fn enc_exit_status(out: &mut Vec<u8>, s: ExitStatus)
    ensures
        final(out)@ == old(out)@ + ser_exit_status(s),
{
    match s {
        ExitStatus::Success => enc_u8(out, 0),
        ExitStatus::Failure => enc_u8(out, 1),
    }
}

fn enc_server_state(out: &mut Vec<u8>, s: ServerState)
    ensures
        final(out)@ == old(out)@ + ser_server_state(s),
{
    match s {
        ServerState::Started => enc_u8(out, 0),
        ServerState::Stopped(st) => {
            enc_u8(out, 1);
            match st {
                None => enc_u8(out, 0),
                Some(es) => {
                    enc_u8(out, 1);
                    enc_exit_status(out, es);
                },
            }
            proof {
                assert(out@ =~= old(out)@ + ser_server_state(s));
            }
        },
    }
}

fn enc_java_path(out: &mut Vec<u8>, jp: &JavaPath)
    ensures
        final(out)@ == old(out)@ + ser_java_path(jp@),
{
    match jp {
        JavaPath::AutoDetect => enc_u8(out, 0),
        JavaPath::Custom(p) => {
            enc_u8(out, 1);
            enc_str(out, p.as_str());
            proof {
                assert(out@ =~= old(out)@ + ser_java_path(jp@));
            }
        },
    }
}

fn enc_string_vec(out: &mut Vec<u8>, v: &Vec<String>)
    ensures
        final(out)@ == old(out)@ + ser_u64(v@.len() as u64) + ser_string_list(v.deep_view()),
{
    enc_u64(out, v.len() as u64);
    let mut i: usize = 0;
    while i < v.len()
        invariant
            i <= v@.len(),
            out@ == old(out)@ + ser_u64(v@.len() as u64) + ser_string_list(
                v.deep_view().subrange(0, i as int),
            ),
        decreases v@.len() - i,
    {
        enc_str(out, v[i].as_str());
        proof {
            lemma_ser_string_list_push(v.deep_view().subrange(0, i as int), v@[i as int]@);
            assert(v.deep_view().subrange(0, i as int).push(v@[i as int]@) =~= v.deep_view()
                .subrange(0, i as int + 1));
            assert(out@ =~= old(out)@ + ser_u64(v@.len() as u64) + ser_string_list(
                v.deep_view().subrange(0, i as int + 1),
            ));
        }
        i = i + 1;
    }
    proof {
        assert(v.deep_view().subrange(0, v@.len() as int) =~= v.deep_view());
    }
}

fn enc_arguments(out: &mut Vec<u8>, a: &Arguments)
    ensures
        final(out)@ == old(out)@ + ser_arguments(a@),
{
    match a {
        Arguments::Parsed(s) => {
            enc_u8(out, 0);
            enc_str(out, s.as_str());
            proof {
                assert(out@ =~= old(out)@ + ser_arguments(a@));
            }
        },
        Arguments::Manual(v) => {
            enc_u8(out, 1);
            enc_string_vec(out, v);
            proof {
                assert(out@ =~= old(out)@ + ser_arguments(a@));
            }
        },
    }
}

fn enc_user(out: &mut Vec<u8>, u: &User)
    ensures
        final(out)@ == old(out)@ + ser_user(u@),
{
    match u {
        User::Current => enc_u8(out, 0),
        User::Specific(name) => {
            enc_u8(out, 1);
            enc_str(out, name.as_str());
            proof {
                assert(out@ =~= old(out)@ + ser_user(u@));
            }
        },
    }
}

fn enc_config(out: &mut Vec<u8>, c: &Config)
    ensures
        final(out)@ == old(out)@ + ser_config(c@),
{
    enc_java_path(out, &c.java_path);
    enc_str(out, c.server_jar_path.as_str());
    enc_arguments(out, &c.java_arguments);
    enc_arguments(out, &c.server_arguments);
    enc_user(out, &c.user);
    proof {
        assert(out@ =~= old(out)@ + ser_config(c@));
    }
}

fn enc_opt_config(out: &mut Vec<u8>, c: &Option<Config>)
    ensures
        final(out)@ == old(out)@ + ser_opt_config(
            match c {
                Some(c0) => Some(c0@),
                None => None,
            },
        ),
{
    match c {
        None => enc_u8(out, 0),
        Some(c0) => {
            enc_u8(out, 1);
            enc_config(out, c0);
            proof {
                assert(out@ =~= old(out)@ + ser_opt_config(Some(c0@)));
            }
        },
    }
}

fn enc_serde_error(out: &mut Vec<u8>, e: &SerdeError)
    ensures
        final(out)@ == old(out)@ + ser_serde_error(e@),
    decreases *e,
{
    enc_str(out, e.display.as_str());
    enc_str(out, e.alt_display.as_str());
    enc_str(out, e.debug.as_str());
    enc_str(out, e.alt_debug.as_str());
    match &e.source {
        None => {
            enc_u8(out, 0);
        },
        Some(src) => {
            enc_u8(out, 1);
            enc_serde_error(out, src);
        },
    }
    proof {
        assert(out@ =~= old(out)@ + ser_serde_error(e@));
    }
}

/// Encodes a client-to-server message body.
pub fn encode_c2s(m: &ClientToServerMessage) -> (r: Vec<u8>)
    ensures
        r@ == ser_c2s(m@),
{
    let mut out: Vec<u8> = Vec::new();
    match m {
        ClientToServerMessage::Ping(t) => {
            enc_u8(&mut out, 0);
            enc_task_id(&mut out, *t);
        },
        ClientToServerMessage::GetConfig(t) => {
            enc_u8(&mut out, 1);
            enc_task_id(&mut out, *t);
        },
        ClientToServerMessage::GetServerState(t) => {
            enc_u8(&mut out, 2);
            enc_task_id(&mut out, *t);
        },
        ClientToServerMessage::UpdateConfig(t, c) => {
            enc_u8(&mut out, 3);
            enc_task_id(&mut out, *t);
            enc_config(&mut out, c);
        },
        ClientToServerMessage::PerformOperation(t, op) => {
            enc_u8(&mut out, 4);
            enc_task_id(&mut out, *t);
            enc_operation(&mut out, *op);
        },
        ClientToServerMessage::Input(b) => {
            enc_u8(&mut out, 5);
            enc_bytes(&mut out, b.as_slice());
        },
        ClientToServerMessage::Shutdown => {
            enc_u8(&mut out, 6);
        },
    }
    proof {
        assert(out@ =~= ser_c2s(m@));
    }
    out
}

/// Encodes a server-to-client message body.
pub fn encode_s2c(m: &ServerToClientMessage) -> (r: Vec<u8>)
    ensures
        r@ == ser_s2c(m@),
{
    let mut out: Vec<u8> = Vec::new();
    match m {
        ServerToClientMessage::Pong(t) => {
            enc_u8(&mut out, 0);
            enc_task_id(&mut out, *t);
        },
        ServerToClientMessage::CurrentConfig(c, t) => {
            enc_u8(&mut out, 1);
            enc_opt_config(&mut out, c);
            enc_task_id(&mut out, *t);
        },
        ServerToClientMessage::CurrentServerState(s, t) => {
            enc_u8(&mut out, 2);
            enc_server_state(&mut out, *s);
            enc_task_id(&mut out, *t);
        },
        ServerToClientMessage::ConfigUpdated(c, t) => {
            enc_u8(&mut out, 3);
            enc_config(&mut out, c);
            enc_opt_task_id(&mut out, t);
        },
        ServerToClientMessage::OperationRequested(op, oid) => {
            enc_u8(&mut out, 4);
            enc_operation(&mut out, *op);
            enc_operation_id(&mut out, *oid);
        },
        ServerToClientMessage::OperationPerformed(op, oid, t) => {
            enc_u8(&mut out, 5);
            enc_operation(&mut out, *op);
            enc_operation_id(&mut out, *oid);
            enc_opt_task_id(&mut out, t);
        },
        ServerToClientMessage::OperationFailed(op, oid, e, t) => {
            enc_u8(&mut out, 6);
            enc_operation(&mut out, *op);
            enc_operation_id(&mut out, *oid);
            enc_serde_error(&mut out, e);
            enc_opt_task_id(&mut out, t);
        },
        ServerToClientMessage::ServerStateUpdated(s) => {
            enc_u8(&mut out, 7);
            enc_server_state(&mut out, *s);
        },
        ServerToClientMessage::Stdout(b) => {
            enc_u8(&mut out, 8);
            enc_bytes(&mut out, b.as_slice());
        },
        ServerToClientMessage::Stderr(b) => {
            enc_u8(&mut out, 9);
            enc_bytes(&mut out, b.as_slice());
        },
        ServerToClientMessage::FatalError(e) => {
            enc_u8(&mut out, 10);
            enc_serde_error(&mut out, e);
        },
        ServerToClientMessage::Error(e, t) => {
            enc_u8(&mut out, 11);
            enc_serde_error(&mut out, e);
            enc_opt_task_id(&mut out, t);
        },
        ServerToClientMessage::ShuttingDown => {
            enc_u8(&mut out, 12);
        },
    }
    proof {
        assert(out@ =~= ser_s2c(m@));
    }
    out
}



// ------------------------------------------------------------ exec decoders
pub fn dec_task_id(b: &[u8], pos: usize) -> (r: Option<(TaskId, usize)>)
    requires
        pos <= b@.len(),
    ensures
        r is None ==> parse_task_id(b@.skip(pos as int)) is None,
        r matches Some((t, p)) ==> pos < p <= b@.len() && parse_task_id(b@.skip(pos as int))
            == Some((t, b@.skip(p as int))),
{
    match dec_u64(b, pos) {
        None => None,
        Some((x, p)) => Some((TaskId(Id(x)), p)),
    }
}

pub fn dec_operation_id(b: &[u8], pos: usize) -> (r: Option<(OperationId, usize)>)
    requires
        pos <= b@.len(),
    ensures
        r is None ==> parse_operation_id(b@.skip(pos as int)) is None,
        r matches Some((o, p)) ==> pos < p <= b@.len() && parse_operation_id(b@.skip(pos as int))
            == Some((o, b@.skip(p as int))),
{
    match dec_u64(b, pos) {
        None => None,
        Some((x, p)) => Some((OperationId(Id(x)), p)),
    }
}

pub fn dec_opt_task_id(b: &[u8], pos: usize) -> (r: Option<(Option<TaskId>, usize)>)
    requires
        pos <= b@.len(),
    ensures
        r is None ==> parse_opt_task_id(b@.skip(pos as int)) is None,
        r matches Some((t, p)) ==> pos < p <= b@.len() && parse_opt_task_id(b@.skip(pos as int))
            == Some((t, b@.skip(p as int))),
{
    match dec_u8(b, pos) {
        None => None,
        Some((tag, p)) => {
            if tag == 0 {
                Some((None, p))
            } else if tag == 1 {
                match dec_task_id(b, p) {
                    None => None,
                    Some((t, p2)) => Some((Some(t), p2)),
                }
            } else {
                None
            }
        },
    }
}

pub fn dec_operation(b: &[u8], pos: usize) -> (r: Option<(Operation, usize)>)
    requires
        pos <= b@.len(),
    ensures
        r is None ==> parse_operation(b@.skip(pos as int)) is None,
        r matches Some((op, p)) ==> pos < p <= b@.len() && parse_operation(b@.skip(pos as int))
            == Some((op, b@.skip(p as int))),
{
    match dec_u8(b, pos) {
        None => None,
        Some((tag, p)) => {
            if tag == 0 {
                Some((Operation::Start, p))
            } else if tag == 1 {
                Some((Operation::Stop, p))
            } else if tag == 2 {
                Some((Operation::Restart, p))
            } else {
                None
            }
        },
    }
}

pub fn dec_exit_status(b: &[u8], pos: usize) -> (r: Option<(ExitStatus, usize)>)
    requires
        pos <= b@.len(),
    ensures
        r is None ==> parse_exit_status(b@.skip(pos as int)) is None,
        r matches Some((s, p)) ==> pos < p <= b@.len() && parse_exit_status(b@.skip(pos as int))
            == Some((s, b@.skip(p as int))),
{
    match dec_u8(b, pos) {
        None => None,
        Some((tag, p)) => {
            if tag == 0 {
                Some((ExitStatus::Success, p))
            } else if tag == 1 {
                Some((ExitStatus::Failure, p))
            } else {
                None
            }
        },
    }
}

pub fn dec_server_state(b: &[u8], pos: usize) -> (r: Option<(ServerState, usize)>)
    requires
        pos <= b@.len(),
    ensures
        r is None ==> parse_server_state(b@.skip(pos as int)) is None,
        r matches Some((s, p)) ==> pos < p <= b@.len() && parse_server_state(b@.skip(pos as int))
            == Some((s, b@.skip(p as int))),
{
    match dec_u8(b, pos) {
        None => None,
        Some((tag, p)) => {
            if tag == 0 {
                Some((ServerState::Started, p))
            } else if tag == 1 {
                match dec_u8(b, p) {
                    None => None,
                    Some((t2, p2)) => {
                        if t2 == 0 {
                            Some((ServerState::Stopped(None), p2))
                        } else if t2 == 1 {
                            match dec_exit_status(b, p2) {
                                None => None,
                                Some((es, p3)) => Some((ServerState::Stopped(Some(es)), p3)),
                            }
                        } else {
                            None
                        }
                    },
                }
            } else {
                None
            }
        },
    }
}

pub fn dec_java_path(b: &[u8], pos: usize) -> (r: Option<(JavaPath, usize)>)
    requires
        pos <= b@.len(),
    ensures
        r is None ==> parse_java_path(b@.skip(pos as int)) is None,
        r matches Some((jp, p)) ==> pos < p <= b@.len() && parse_java_path(b@.skip(pos as int))
            == Some((jp@, b@.skip(p as int))),
{
    match dec_u8(b, pos) {
        None => None,
        Some((tag, p)) => {
            if tag == 0 {
                Some((JavaPath::AutoDetect, p))
            } else if tag == 1 {
                match dec_string(b, p) {
                    None => None,
                    Some((s, p2)) => Some((JavaPath::Custom(s), p2)),
                }
            } else {
                None
            }
        },
    }
}

fn dec_string_list(b: &[u8], pos: usize, n: u64) -> (r: Option<(Vec<String>, usize)>)
    requires
        pos <= b@.len(),
    ensures
        r is None ==> parse_string_list(b@.skip(pos as int), n as nat) is None,
        r matches Some((v, p)) ==> pos <= p <= b@.len() && parse_string_list(
            b@.skip(pos as int),
            n as nat,
        ) == Some((v.deep_view(), b@.skip(p as int))),
    decreases n,
{
    if n == 0 {
        let v: Vec<String> = Vec::new();
        proof {
            assert(v.deep_view() =~= Seq::<Seq<char>>::empty());
        }
        Some((v, pos))
    } else {
        match dec_string(b, pos) {
            None => None,
            Some((s, p1)) => {
                match dec_string_list(b, p1, n - 1) {
                    None => None,
                    Some((mut v, p2)) => {
                        let ghost tail = v.deep_view();
                        v.insert(0, s);
                        proof {
                            assert(v.deep_view() =~= seq![s@] + tail);
                        }
                        Some((v, p2))
                    },
                }
            },
        }
    }
}

pub fn dec_arguments(b: &[u8], pos: usize) -> (r: Option<(Arguments, usize)>)
    requires
        pos <= b@.len(),
    ensures
        r is None ==> parse_arguments(b@.skip(pos as int)) is None,
        r matches Some((a, p)) ==> pos < p <= b@.len() && parse_arguments(b@.skip(pos as int))
            == Some((a@, b@.skip(p as int))),
{
    match dec_u8(b, pos) {
        None => None,
        Some((tag, p)) => {
            if tag == 0 {
                match dec_string(b, p) {
                    None => None,
                    Some((s, p2)) => Some((Arguments::Parsed(s), p2)),
                }
            } else if tag == 1 {
                match dec_u64(b, p) {
                    None => None,
                    Some((n, p2)) => {
                        match dec_string_list(b, p2, n) {
                            None => None,
                            Some((v, p3)) => Some((Arguments::Manual(v), p3)),
                        }
                    },
                }
            } else {
                None
            }
        },
    }
}

pub fn dec_user(b: &[u8], pos: usize) -> (r: Option<(User, usize)>)
    requires
        pos <= b@.len(),
    ensures
        r is None ==> parse_user(b@.skip(pos as int)) is None,
        r matches Some((u, p)) ==> pos < p <= b@.len() && parse_user(b@.skip(pos as int)) == Some(
            (u@, b@.skip(p as int)),
        ),
{
    match dec_u8(b, pos) {
        None => None,
        Some((tag, p)) => {
            if tag == 0 {
                Some((User::Current, p))
            } else if tag == 1 {
                match dec_string(b, p) {
                    None => None,
                    Some((s, p2)) => Some((User::Specific(s), p2)),
                }
            } else {
                None
            }
        },
    }
}

#[verifier::spinoff_prover]
#[verifier::rlimit(100)]
pub fn dec_config(b: &[u8], pos: usize) -> (r: Option<(Config, usize)>)
    requires
        pos <= b@.len(),
    ensures
        r is None ==> parse_config(b@.skip(pos as int)) is None,
        r matches Some((c, p)) ==> pos < p <= b@.len() && parse_config(b@.skip(pos as int))
            == Some((c@, b@.skip(p as int))),
{
    match dec_java_path(b, pos) {
        None => None,
        Some((jp, p1)) => match dec_string(b, p1) {
            None => None,
            Some((jar, p2)) => match dec_arguments(b, p2) {
                None => None,
                Some((ja, p3)) => match dec_arguments(b, p3) {
                    None => None,
                    Some((sa, p4)) => match dec_user(b, p4) {
                        None => None,
                        Some((u, p5)) => Some(
                            (
                                Config {
                                    java_path: jp,
                                    server_jar_path: jar,
                                    java_arguments: ja,
                                    server_arguments: sa,
                                    user: u,
                                },
                                p5,
                            ),
                        ),
                    },
                },
            },
        },
    }
}

pub fn dec_opt_config(b: &[u8], pos: usize) -> (r: Option<(Option<Config>, usize)>)
    requires
        pos <= b@.len(),
    ensures
        r is None ==> parse_opt_config(b@.skip(pos as int)) is None,
        r matches Some((c, p)) ==> pos < p <= b@.len() && parse_opt_config(b@.skip(pos as int))
            == Some(
            (
                match c {
                    Some(c0) => Some(c0@),
                    None => None,
                },
                b@.skip(p as int),
            ),
        ),
{
    match dec_u8(b, pos) {
        None => None,
        Some((tag, p)) => {
            if tag == 0 {
                Some((None, p))
            } else if tag == 1 {
                match dec_config(b, p) {
                    None => None,
                    Some((c, p2)) => Some((Some(c), p2)),
                }
            } else {
                None
            }
        },
    }
}

#[verifier::spinoff_prover]
#[verifier::rlimit(100)]
pub fn dec_serde_error(b: &[u8], pos: usize) -> (r: Option<(SerdeError, usize)>)
    requires
        pos <= b@.len(),
    ensures
        r is None ==> parse_serde_error(b@.skip(pos as int)) is None,
        r matches Some((e, p)) ==> pos < p <= b@.len() && parse_serde_error(b@.skip(pos as int))
            == Some((e@, b@.skip(p as int))),
    decreases b@.len() - pos,
{
    proof {
        reveal(parse_serde_error);
    }
    match dec_string(b, pos) {
        None => None,
        Some((display, p1)) => match dec_string(b, p1) {
            None => None,
            Some((alt_display, p2)) => match dec_string(b, p2) {
                None => None,
                Some((debug, p3)) => match dec_string(b, p3) {
                    None => None,
                    Some((alt_debug, p4)) => match dec_u8(b, p4) {
                        None => None,
                        Some((tag, p5)) => {
                            if tag == 0 {
                                Some(
                                    (
                                        SerdeError {
                                            display,
                                            alt_display,
                                            debug,
                                            alt_debug,
                                            source: None,
                                        },
                                        p5,
                                    ),
                                )
                            } else if tag == 1 {
                                match dec_serde_error(b, p5) {
                                    None => None,
                                    Some((src, p6)) => Some(
                                        (
                                            SerdeError {
                                                display,
                                                alt_display,
                                                debug,
                                                alt_debug,
                                                source: Some(Box::new(src)),
                                            },
                                            p6,
                                        ),
                                    ),
                                }
                            } else {
                                None
                            }
                        },
                    },
                },
            },
        },
    }
}

#[verifier::spinoff_prover]
#[verifier::rlimit(100)]
pub fn dec_c2s(b: &[u8], pos: usize) -> (r: Option<(ClientToServerMessage, usize)>)
    requires
        pos <= b@.len(),
    ensures
        r is None ==> parse_c2s(b@.skip(pos as int)) is None,
        r matches Some((m, p)) ==> pos < p <= b@.len() && parse_c2s(b@.skip(pos as int)) == Some(
            (m@, b@.skip(p as int)),
        ),
{
    match dec_u8(b, pos) {
        None => None,
        Some((tag, p)) => {
            if tag == 0 {
                match dec_task_id(b, p) {
                    None => None,
                    Some((t, p2)) => Some((ClientToServerMessage::Ping(t), p2)),
                }
            } else if tag == 1 {
                match dec_task_id(b, p) {
                    None => None,
                    Some((t, p2)) => Some((ClientToServerMessage::GetConfig(t), p2)),
                }
            } else if tag == 2 {
                match dec_task_id(b, p) {
                    None => None,
                    Some((t, p2)) => Some((ClientToServerMessage::GetServerState(t), p2)),
                }
            } else if tag == 3 {
                match dec_task_id(b, p) {
                    None => None,
                    Some((t, p2)) => match dec_config(b, p2) {
                        None => None,
                        Some((c, p3)) => Some((ClientToServerMessage::UpdateConfig(t, c), p3)),
                    },
                }
            } else if tag == 4 {
                match dec_task_id(b, p) {
                    None => None,
                    Some((t, p2)) => match dec_operation(b, p2) {
                        None => None,
                        Some((op, p3)) => Some(
                            (ClientToServerMessage::PerformOperation(t, op), p3),
                        ),
                    },
                }
            } else if tag == 5 {
                match dec_bytes(b, p) {
                    None => None,
                    Some((d, p2)) => Some((ClientToServerMessage::Input(d), p2)),
                }
            } else if tag == 6 {
                Some((ClientToServerMessage::Shutdown, p))
            } else {
                None
            }
        },
    }
}

#[verifier::spinoff_prover]
#[verifier::rlimit(100)]
pub fn dec_s2c(b: &[u8], pos: usize) -> (r: Option<(ServerToClientMessage, usize)>)
    requires
        pos <= b@.len(),
    ensures
        r is None ==> parse_s2c(b@.skip(pos as int)) is None,
        r matches Some((m, p)) ==> pos < p <= b@.len() && parse_s2c(b@.skip(pos as int)) == Some(
            (m@, b@.skip(p as int)),
        ),
{
    match dec_u8(b, pos) {
        None => None,
        Some((tag, p)) => {
            if tag == 0 {
                match dec_task_id(b, p) {
                    None => None,
                    Some((t, p2)) => Some((ServerToClientMessage::Pong(t), p2)),
                }
            } else if tag == 1 {
                match dec_opt_config(b, p) {
                    None => None,
                    Some((c, p2)) => match dec_task_id(b, p2) {
                        None => None,
                        Some((t, p3)) => Some((ServerToClientMessage::CurrentConfig(c, t), p3)),
                    },
                }
            } else if tag == 2 {
                match dec_server_state(b, p) {
                    None => None,
                    Some((s, p2)) => match dec_task_id(b, p2) {
                        None => None,
                        Some((t, p3)) => Some(
                            (ServerToClientMessage::CurrentServerState(s, t), p3),
                        ),
                    },
                }
            } else if tag == 3 {
                match dec_config(b, p) {
                    None => None,
                    Some((c, p2)) => match dec_opt_task_id(b, p2) {
                        None => None,
                        Some((t, p3)) => Some((ServerToClientMessage::ConfigUpdated(c, t), p3)),
                    },
                }
            } else if tag == 4 {
                match dec_operation(b, p) {
                    None => None,
                    Some((op, p2)) => match dec_operation_id(b, p2) {
                        None => None,
                        Some((oid, p3)) => Some(
                            (ServerToClientMessage::OperationRequested(op, oid), p3),
                        ),
                    },
                }
            } else if tag == 5 {
                match dec_operation(b, p) {
                    None => None,
                    Some((op, p2)) => match dec_operation_id(b, p2) {
                        None => None,
                        Some((oid, p3)) => match dec_opt_task_id(b, p3) {
                            None => None,
                            Some((t, p4)) => Some(
                                (ServerToClientMessage::OperationPerformed(op, oid, t), p4),
                            ),
                        },
                    },
                }
            } else if tag == 6 {
                match dec_operation(b, p) {
                    None => None,
                    Some((op, p2)) => match dec_operation_id(b, p2) {
                        None => None,
                        Some((oid, p3)) => match dec_serde_error(b, p3) {
                            None => None,
                            Some((e, p4)) => match dec_opt_task_id(b, p4) {
                                None => None,
                                Some((t, p5)) => Some(
                                    (ServerToClientMessage::OperationFailed(op, oid, e, t), p5),
                                ),
                            },
                        },
                    },
                }
            } else if tag == 7 {
                match dec_server_state(b, p) {
                    None => None,
                    Some((s, p2)) => Some((ServerToClientMessage::ServerStateUpdated(s), p2)),
                }
            } else if tag == 8 {
                match dec_bytes(b, p) {
                    None => None,
                    Some((d, p2)) => Some((ServerToClientMessage::Stdout(d), p2)),
                }
            } else if tag == 9 {
                match dec_bytes(b, p) {
                    None => None,
                    Some((d, p2)) => Some((ServerToClientMessage::Stderr(d), p2)),
                }
            } else if tag == 10 {
                match dec_serde_error(b, p) {
                    None => None,
                    Some((e, p2)) => Some((ServerToClientMessage::FatalError(e), p2)),
                }
            } else if tag == 11 {
                match dec_serde_error(b, p) {
                    None => None,
                    Some((e, p2)) => match dec_opt_task_id(b, p2) {
                        None => None,
                        Some((t, p3)) => Some((ServerToClientMessage::Error(e, t), p3)),
                    },
                }
            } else if tag == 12 {
                Some((ServerToClientMessage::ShuttingDown, p))
            } else {
                None
            }
        },
    }
}


} // verus!
