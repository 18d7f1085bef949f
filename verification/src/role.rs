//! Roles and transport-endpoint descriptions.
//!
//! Each process of the topology carries exactly one role.  An endpoint
//! description tells the driver everything the message-transport layer needs
//! to stand the corresponding endpoint up; the transport itself is an
//! external collaborator and is not modelled here.

use vstd::prelude::*;

verus! {

/// The role a process of the topology carries.
#[derive(Debug, Clone, Copy, PartialEq, Eq, Structural)]
pub enum Role {
    /// The first-tier message broker.
    Broker,
    /// A worker bound to one core.
    Client { core: usize },
    /// The second-tier broker that aggregates across first-tier islands.
    CentralizedBroker,
    /// The one authoritative worker of a two-tier topology.
    MainClient { core: usize },
    /// A contributing, non-authoritative worker of a two-tier topology.
    SecondaryClient { core: usize },
}

/// When a worker's application state is serialized across restarts.
#[derive(Debug, Clone, Copy, PartialEq, Eq, Structural)]
pub enum StatePersistence {
    /// Serialize on every restart boundary.
    Always,
    /// Serialize only when restarting after a crash.
    OnRestart,
    /// Never serialize.
    Never,
}

/// How worker processes are created.
#[derive(Debug, Clone, Copy, PartialEq, Eq, Structural)]
pub enum SpawnStrategy {
    /// Duplicate the running process image once per core.
    NativeDuplication,
    /// Re-launch the current executable once per core, handing each child its
    /// core in an environment marker.
    ReExec,
}

/// Everything the transport layer needs to build one endpoint.
#[derive(Debug)]
pub struct EndpointSpec {
    /// The role of the endpoint.
    pub role: Role,
    /// The broker port to listen on or to connect to.
    pub port: u16,
    /// For a broker: terminate once this many clients have disconnected.
    pub exit_after_clients: Option<usize>,
    /// For a broker: the address of a remote broker to join, if any.
    pub remote_broker_addr: Option<String>,
    /// The state-persistence policy handed to the endpoint.
    pub serialize_state: StatePersistence,
}

} // verus!
