//! A verified core for a daemon that supervises a single child process on
//! behalf of local (Unix-domain) and remote (TCP) clients.
//!
//! The crate holds the protocol data model, a length-prefixed binary wire
//! codec with a proved round-trip, the client registry and broadcast policy
//! of the network actor, and the supervisor's state machine.  The surrounding
//! I/O (sockets, the child process, the config file) is driven by an
//! unverified shell that calls into these functions.

pub mod broadcast;
pub mod client;
pub mod codec;
pub mod config;
pub mod error;
pub mod ids;
pub mod messages;
pub mod network;
pub mod registry;
pub mod stream;
pub mod supervisor;
pub mod util;
pub mod wire;

pub use ids::Id;
pub use ids::OperationId;
pub use ids::TaskId;

use vstd::prelude::*;

verus! {

/// The mDNS service type the daemon registers.
pub const SERVICE_TYPE: &'static str = "_raphy._tcp.local.";

/// The mDNS instance name.
pub const INSTANCE_NAME: &'static str = "Raphy";

/// The Unix-domain socket the daemon listens on.
pub const UNIX_SOCKET_PATH: &'static str = "/tmp/raphy.sock";

/// The default TCP port, where no address or port is given.
pub const DEFAULT_PORT: u16 = 18000;

} // verus!
