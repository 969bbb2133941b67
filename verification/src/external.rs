//! The values of the control plane as its own interfaces know them.

use crate::error::Uuid;
use crate::model::{Generation, Timestamp};
use vstd::prelude::*;

verus! {

/// The state of a disk.
#[derive(Clone, Copy, Debug, PartialEq, Eq, Hash, Structural)]
pub enum DiskState {
    Creating,
    Detached,
    ImportReady,
    ImportingFromUrl,
    ImportingFromBulkWrites,
    Finalizing,
    Maintenance,
    Attaching(Uuid),
    Attached(Uuid),
    Detaching(Uuid),
    Destroyed,
    Faulted,
}

/// The state of an instance.
#[derive(Clone, Copy, Debug, PartialEq, Eq, Hash, Structural)]
pub enum InstanceState {
    Creating,
    Starting,
    Running,
    Stopping,
    Stopped,
    Rebooting,
    Migrating,
    Repairing,
    Failed,
    Destroyed,
}

/// The kind of a producer of metrics.
#[derive(Clone, Copy, Debug, PartialEq, Eq, Hash, Structural)]
pub enum ProducerKind {
    SledAgent,
    Service,
    Instance,
}

/// The speed of a switch port.
#[derive(Clone, Copy, Debug, PartialEq, Eq, Hash, Structural)]
pub enum PortSpeed {
    Speed0G,
    Speed1G,
    Speed10G,
    Speed25G,
    Speed40G,
    Speed50G,
    Speed100G,
    Speed200G,
    Speed400G,
}

/// The forward error correction of a switch port.
#[derive(Clone, Copy, Debug, PartialEq, Eq, Hash, Structural)]
pub enum PortFec {
    Firecode,
    /// No forward error correction.
    Off,
    Rs,
}

/// Which of the two switches of a rack.
#[derive(Clone, Copy, Debug, PartialEq, Eq, Hash, Structural)]
pub enum SwitchLocation {
    Switch0,
    Switch1,
}

/// A span of time: whole seconds, and the nanoseconds beyond them.
#[derive(Clone, Copy, Debug, PartialEq, Eq, Hash, Structural)]
pub struct Duration {
    pub secs: u64,
    pub nanos: u32,
}

/// A number of bytes.
#[derive(Clone, Copy, Debug, PartialEq, Eq, Hash, Structural)]
pub struct ByteCount(pub u64);

impl ByteCount {
    pub fn to_bytes(self) -> (res: u64)
        ensures
            res == self.0,
    {
        self.0
    }
}

/// Where the traffic of an instance is translated to an external address:
/// the address, and the ports that the instance may use.
#[derive(Clone, Copy, Debug, PartialEq, Eq, Structural)]
pub struct SourceNatConfig {
    ip: crate::ip_net::IpAddr,
    first_port: u16,
    last_port: u16,
}

impl SourceNatConfig {
    #[verifier::type_invariant]
    closed spec fn inv(self) -> bool {
        self.first_port <= self.last_port
    }

    pub closed spec fn spec_ip(self) -> crate::ip_net::IpAddr {
        self.ip
    }

    /// The address that the traffic is translated to.
    pub fn ip(&self) -> (res: crate::ip_net::IpAddr)
        ensures
            res == self.spec_ip(),
    {
        self.ip
    }

    pub closed spec fn spec_port_range(self) -> (u16, u16) {
        (self.first_port, self.last_port)
    }

    /// The configuration with the address and the ports, if the first port
    /// is at most the last.
    pub fn new(ip: crate::ip_net::IpAddr, first_port: u16, last_port: u16) -> (res: Option<
        SourceNatConfig,
    >)
        ensures
            res is Some <==> first_port <= last_port,
            res matches Some(config) ==> config.spec_ip() == ip && config.spec_port_range() == (
                first_port,
                last_port,
            ),
    {
        if first_port <= last_port {
            Some(SourceNatConfig { ip, first_port, last_port })
        } else {
            None
        }
    }

    /// The first and the last port.
    pub fn port_range_raw(&self) -> (res: (u16, u16))
        ensures
            res == self.spec_port_range(),
            res.0 <= res.1,
    {
        proof {
            use_type_invariant(self);
        }
        (self.first_port, self.last_port)
    }
}

/// What the control plane knows of a running instance: the processes that
/// hold it, and how often and when that last changed.
#[derive(Clone, Copy, Debug, PartialEq, Eq, Structural)]
pub struct InstanceRuntimeState {
    /// The process that runs the instance, if there is one.
    pub propolis_id: Option<Uuid>,
    /// The process that the instance migrates to, if it migrates.
    pub dst_propolis_id: Option<Uuid>,
    /// The migration under way, if there is one.
    pub migration_id: Option<Uuid>,
    pub gen: Generation,
    pub time_updated: Timestamp,
}

/// What the control plane knows of one process that runs an instance.
#[derive(Clone, Copy, Debug, PartialEq, Eq, Structural)]
pub struct VmmRuntimeState {
    pub state: InstanceState,
    pub gen: Generation,
    pub time_updated: Timestamp,
}

/// What a sled reports of an instance that it holds.
#[derive(Clone, Copy, Debug, PartialEq, Eq, Structural)]
pub struct SledInstanceState {
    pub instance_state: InstanceRuntimeState,
    /// The process that the report is about.
    pub propolis_id: Uuid,
    pub vmm_state: VmmRuntimeState,
}

/// What the control plane knows of a disk.
#[derive(Clone, Copy, Debug, PartialEq, Eq, Structural)]
pub struct DiskRuntimeState {
    pub disk_state: DiskState,
    pub gen: Generation,
    pub time_updated: Timestamp,
}

/// How the ports of the rack's switches are found: by asking at an address
/// of each switch, or from a list of port names for each switch. Each
/// switch occurs once.
#[derive(Clone, Debug, PartialEq, Eq)]
pub enum ExternalPortDiscovery {
    Auto(Vec<(SwitchLocation, u128)>),
    Static(Vec<(SwitchLocation, Vec<String>)>),
}

impl SwitchLocation {
    /// The name of the slot as text.
    pub open spec fn spec_name(self) -> Seq<char> {
        match self {
            SwitchLocation::Switch0 => "switch0"@,
            SwitchLocation::Switch1 => "switch1"@,
        }
    }

    /// The name of the slot as text.
    pub fn name(self) -> (res: String)
        ensures
            res@ == self.spec_name(),
    {
        match self {
            SwitchLocation::Switch0 => String::from_str("switch0"),
            SwitchLocation::Switch1 => String::from_str("switch1"),
        }
    }

    /// Two slots have two names.
    pub proof fn lemma_names_differ(a: SwitchLocation, b: SwitchLocation)
        ensures
            a.spec_name() == b.spec_name() <==> a == b,
    {
        reveal_strlit("switch0");
        reveal_strlit("switch1");
        assert("switch0"@[6] != "switch1"@[6]);
    }
}

/// An address and a port of it.
#[derive(Clone, Copy, Debug, PartialEq, Eq, Structural)]
pub struct SocketAddr {
    pub ip: crate::ip_net::IpAddr,
    pub port: u16,
}

/// A producer of metrics: where it is asked for them, and how often.
#[derive(Clone, Copy, Debug, PartialEq, Eq, Structural)]
pub struct ProducerEndpoint {
    pub id: Uuid,
    pub kind: ProducerKind,
    pub address: SocketAddr,
    pub interval: Duration,
}

/// The sources from which traffic to the control plane's own services is
/// let in: any, or the blocks of a list.
#[derive(Clone, Debug, PartialEq, Eq)]
pub enum AllowedSourceIps {
    Any,
    List(Vec<crate::ip_net::IpNetwork>),
}

} // verus!
