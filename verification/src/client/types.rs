//! The values of the control plane as the client of its internal API
//! knows them.

use crate::error::Uuid;
use crate::model::{Generation, Timestamp};
use vstd::prelude::*;

verus! {

/// The state of a disk.
#[derive(Clone, Copy, Debug, PartialEq, Eq, Hash, Structural)]
pub enum DiskState {
    Creating,
    Detached,
    ImportReady,
    ImportingFromUrl,
    ImportingFromBulkWrites,
    Finalizing,
    Maintenance,
    Attaching(Uuid),
    Attached(Uuid),
    Detaching(Uuid),
    Destroyed,
    Faulted,
}

/// The state of an instance.
#[derive(Clone, Copy, Debug, PartialEq, Eq, Hash, Structural)]
pub enum InstanceState {
    Creating,
    Starting,
    Running,
    Stopping,
    Stopped,
    Rebooting,
    Migrating,
    Repairing,
    Failed,
    Destroyed,
}

/// The kind of a producer of metrics.
#[derive(Clone, Copy, Debug, PartialEq, Eq, Hash, Structural)]
pub enum ProducerKind {
    SledAgent,
    Service,
    Instance,
}

/// The speed of a switch port.
#[derive(Clone, Copy, Debug, PartialEq, Eq, Hash, Structural)]
pub enum PortSpeed {
    Speed0G,
    Speed1G,
    Speed10G,
    Speed25G,
    Speed40G,
    Speed50G,
    Speed100G,
    Speed200G,
    Speed400G,
}

/// The forward error correction of a switch port.
#[derive(Clone, Copy, Debug, PartialEq, Eq, Hash, Structural)]
pub enum PortFec {
    Firecode,
    /// No forward error correction.
    Off,
    Rs,
}

/// Which of the two switches of a rack.
#[derive(Clone, Copy, Debug, PartialEq, Eq, Hash, Structural)]
pub enum SwitchLocation {
    Switch0,
    Switch1,
}

/// A span of time: whole seconds, and the nanoseconds beyond them.
#[derive(Clone, Copy, Debug, PartialEq, Eq, Hash, Structural)]
pub struct Duration {
    pub secs: u64,
    pub nanos: u32,
}

/// A number of bytes.
#[derive(Clone, Copy, Debug, PartialEq, Eq, Hash, Structural)]
pub struct ByteCount(pub u64);

/// An inclusive range of IPv4 addresses.
#[derive(Clone, Copy, Debug, PartialEq, Eq, Hash, Structural)]
pub struct Ipv4Range {
    pub first: u32,
    pub last: u32,
}

/// An inclusive range of IPv6 addresses.
#[derive(Clone, Copy, Debug, PartialEq, Eq, Hash, Structural)]
pub struct Ipv6Range {
    pub first: u128,
    pub last: u128,
}

/// An inclusive range of addresses of one family.
#[derive(Clone, Copy, Debug, PartialEq, Eq, Hash, Structural)]
pub enum IpRange {
    V4(Ipv4Range),
    V6(Ipv6Range),
}

/// Where the traffic of an instance is translated to an external address.
#[derive(Clone, Copy, Debug, PartialEq, Eq, Structural)]
pub struct SourceNatConfig {
    pub ip: crate::ip_net::IpAddr,
    pub first_port: u16,
    pub last_port: u16,
}

/// What the control plane knows of a running instance.
#[derive(Clone, Copy, Debug, PartialEq, Eq, Structural)]
pub struct InstanceRuntimeState {
    pub propolis_id: Option<Uuid>,
    pub dst_propolis_id: Option<Uuid>,
    pub migration_id: Option<Uuid>,
    pub gen: Generation,
    pub time_updated: Timestamp,
}

/// What the control plane knows of one process that runs an instance.
#[derive(Clone, Copy, Debug, PartialEq, Eq, Structural)]
pub struct VmmRuntimeState {
    pub state: InstanceState,
    pub gen: Generation,
    pub time_updated: Timestamp,
}

/// What a sled reports of an instance that it holds.
#[derive(Clone, Copy, Debug, PartialEq, Eq, Structural)]
pub struct SledInstanceState {
    pub instance_state: InstanceRuntimeState,
    pub propolis_id: Uuid,
    pub vmm_state: VmmRuntimeState,
}

/// What the control plane knows of a disk.
#[derive(Clone, Copy, Debug, PartialEq, Eq, Structural)]
pub struct DiskRuntimeState {
    pub disk_state: DiskState,
    pub gen: Generation,
    pub time_updated: Timestamp,
}

/// How the ports of the rack's switches are found, each switch by the
/// name of its slot.
#[derive(Clone, Debug, PartialEq, Eq)]
pub enum ExternalPortDiscovery {
    Auto(Vec<(String, u128)>),
    Static(Vec<(String, Vec<String>)>),
}

/// A producer of metrics, its address as text.
#[derive(Clone, Debug, PartialEq, Eq)]
pub struct ProducerEndpoint {
    pub id: Uuid,
    pub kind: ProducerKind,
    pub address: String,
    pub interval: Duration,
}

/// An IPv4 block as text: its address, a stroke, and its prefix length.
#[derive(Clone, Debug, PartialEq, Eq)]
pub struct Ipv4Net(pub String);

/// An IPv6 block as text: its address, a stroke, and its prefix length.
#[derive(Clone, Debug, PartialEq, Eq)]
pub struct Ipv6Net(pub String);

/// A block of either family as text.
#[derive(Clone, Debug, PartialEq, Eq)]
pub enum IpNet {
    V4(Ipv4Net),
    V6(Ipv6Net),
}

/// The sources from which traffic to the control plane's own services is
/// let in: any, or the blocks of a list.
#[derive(Clone, Debug, PartialEq, Eq)]
pub enum AllowedSourceIps {
    Any,
    List(Vec<IpNet>),
}

} // verus!
