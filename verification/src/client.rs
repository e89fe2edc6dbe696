//! Client-side policy: how a client tells whether it is local, and how the
//! managed layer correlates replies.

use vstd::prelude::*;

use vstd::string::StringExecFns;

use crate::ids::TaskId;
use crate::messages::ServerToClientMessage;

verus! {

/// Whether the client runs beside the daemon or reaches it over the
/// network.
#[derive(Debug, Copy, Clone, PartialEq, Eq, Structural)]
pub enum ClientMode {
    Local,
    Remote,
}

impl ClientMode {
    /// The mode the executable's file name announces, if it is one of the
    /// two known names.
    pub fn from_executable_name(name: &str) -> (r: Option<ClientMode>)
        ensures
            name@ == "raphy-local-client-app"@ ==> r == Some(ClientMode::Local),
            name@ == "raphy-remote-client-app"@ ==> r == Some(ClientMode::Remote),
            r is None <==> (name@ != "raphy-local-client-app"@ && name@
                != "raphy-remote-client-app"@),
    {
        proof {
            reveal_strlit("raphy-local-client-app");
            reveal_strlit("raphy-remote-client-app");
            assert("raphy-local-client-app"@.len() == 22);
            assert("raphy-remote-client-app"@.len() == 23);
            assert("raphy-local-client-app"@ != "raphy-remote-client-app"@);
        }
        let n = name.to_owned();
        if n == String::from_str("raphy-local-client-app") {
            Some(ClientMode::Local)
        } else if n == String::from_str("raphy-remote-client-app") {
            Some(ClientMode::Remote)
        } else {
            None
        }
    }
}

/// The error returned where an operation needs a local (Unix-domain)
/// connection and the client has none.
#[derive(Debug, Copy, Clone, PartialEq, Eq, Structural)]
pub struct NotALocalClient;

impl NotALocalClient {
    /// A rendering of the error.
    pub fn message(&self) -> (r: String)
        ensures
            r@ == "not a local client"@,
    {
        String::from_str("not a local client")
    }
}

/// Whether a broadcast message answers the request with the given task id;
/// the managed client waits for the first message that does.
pub fn matches_task(message: &ServerToClientMessage, task_id: TaskId) -> (r: bool)
    ensures
        r == (message.spec_task_id() == Some(task_id)),
{
    match message.task_id() {
        Some(t) => t.0.value() == task_id.0.value(),
        None => false,
    }
}

} // verus!
