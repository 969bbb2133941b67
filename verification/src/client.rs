//! Conversions between the values of the control plane and the values of
//! the client of its internal API. Each conversion keeps the value: a
//! variant goes to the variant of its name, a field to the field of its
//! name.

use crate::config::decimal;
use crate::external;
use crate::ip_net;
use crate::names::texts;
use vstd::prelude::*;
use vstd::std_specs::convert::{FromSpec, FromSpecImpl};

pub mod types;

verus! {

impl From<types::DiskState> for external::DiskState {
    fn from(s: types::DiskState) -> (ret: external::DiskState) {
        match s {
            types::DiskState::Creating => external::DiskState::Creating,
            types::DiskState::Detached => external::DiskState::Detached,
            types::DiskState::ImportReady => external::DiskState::ImportReady,
            types::DiskState::ImportingFromUrl => external::DiskState::ImportingFromUrl,
            types::DiskState::ImportingFromBulkWrites => external::DiskState::ImportingFromBulkWrites,
            types::DiskState::Finalizing => external::DiskState::Finalizing,
            types::DiskState::Maintenance => external::DiskState::Maintenance,
            types::DiskState::Attaching(id) => external::DiskState::Attaching(id),
            types::DiskState::Attached(id) => external::DiskState::Attached(id),
            types::DiskState::Detaching(id) => external::DiskState::Detaching(id),
            types::DiskState::Destroyed => external::DiskState::Destroyed,
            types::DiskState::Faulted => external::DiskState::Faulted,
        }
    }
}

impl FromSpecImpl<types::DiskState> for external::DiskState {
    open spec fn obeys_from_spec() -> bool {
        true
    }

    open spec fn from_spec(s: types::DiskState) -> external::DiskState {
        match s {
            types::DiskState::Creating => external::DiskState::Creating,
            types::DiskState::Detached => external::DiskState::Detached,
            types::DiskState::ImportReady => external::DiskState::ImportReady,
            types::DiskState::ImportingFromUrl => external::DiskState::ImportingFromUrl,
            types::DiskState::ImportingFromBulkWrites => external::DiskState::ImportingFromBulkWrites,
            types::DiskState::Finalizing => external::DiskState::Finalizing,
            types::DiskState::Maintenance => external::DiskState::Maintenance,
            types::DiskState::Attaching(id) => external::DiskState::Attaching(id),
            types::DiskState::Attached(id) => external::DiskState::Attached(id),
            types::DiskState::Detaching(id) => external::DiskState::Detaching(id),
            types::DiskState::Destroyed => external::DiskState::Destroyed,
            types::DiskState::Faulted => external::DiskState::Faulted,
        }
    }
}

impl From<external::DiskState> for types::DiskState {
    fn from(s: external::DiskState) -> (ret: types::DiskState) {
        match s {
            external::DiskState::Creating => types::DiskState::Creating,
            external::DiskState::Detached => types::DiskState::Detached,
            external::DiskState::ImportReady => types::DiskState::ImportReady,
            external::DiskState::ImportingFromUrl => types::DiskState::ImportingFromUrl,
            external::DiskState::ImportingFromBulkWrites => types::DiskState::ImportingFromBulkWrites,
            external::DiskState::Finalizing => types::DiskState::Finalizing,
            external::DiskState::Maintenance => types::DiskState::Maintenance,
            external::DiskState::Attaching(id) => types::DiskState::Attaching(id),
            external::DiskState::Attached(id) => types::DiskState::Attached(id),
            external::DiskState::Detaching(id) => types::DiskState::Detaching(id),
            external::DiskState::Destroyed => types::DiskState::Destroyed,
            external::DiskState::Faulted => types::DiskState::Faulted,
        }
    }
}

impl FromSpecImpl<external::DiskState> for types::DiskState {
    open spec fn obeys_from_spec() -> bool {
        true
    }

    open spec fn from_spec(s: external::DiskState) -> types::DiskState {
        match s {
            external::DiskState::Creating => types::DiskState::Creating,
            external::DiskState::Detached => types::DiskState::Detached,
            external::DiskState::ImportReady => types::DiskState::ImportReady,
            external::DiskState::ImportingFromUrl => types::DiskState::ImportingFromUrl,
            external::DiskState::ImportingFromBulkWrites => types::DiskState::ImportingFromBulkWrites,
            external::DiskState::Finalizing => types::DiskState::Finalizing,
            external::DiskState::Maintenance => types::DiskState::Maintenance,
            external::DiskState::Attaching(id) => types::DiskState::Attaching(id),
            external::DiskState::Attached(id) => types::DiskState::Attached(id),
            external::DiskState::Detaching(id) => types::DiskState::Detaching(id),
            external::DiskState::Destroyed => types::DiskState::Destroyed,
            external::DiskState::Faulted => types::DiskState::Faulted,
        }
    }
}

impl From<types::InstanceState> for external::InstanceState {
    fn from(s: types::InstanceState) -> (ret: external::InstanceState) {
        match s {
            types::InstanceState::Creating => external::InstanceState::Creating,
            types::InstanceState::Starting => external::InstanceState::Starting,
            types::InstanceState::Running => external::InstanceState::Running,
            types::InstanceState::Stopping => external::InstanceState::Stopping,
            types::InstanceState::Stopped => external::InstanceState::Stopped,
            types::InstanceState::Rebooting => external::InstanceState::Rebooting,
            types::InstanceState::Migrating => external::InstanceState::Migrating,
            types::InstanceState::Repairing => external::InstanceState::Repairing,
            types::InstanceState::Failed => external::InstanceState::Failed,
            types::InstanceState::Destroyed => external::InstanceState::Destroyed,
        }
    }
}

impl FromSpecImpl<types::InstanceState> for external::InstanceState {
    open spec fn obeys_from_spec() -> bool {
        true
    }

    open spec fn from_spec(s: types::InstanceState) -> external::InstanceState {
        match s {
            types::InstanceState::Creating => external::InstanceState::Creating,
            types::InstanceState::Starting => external::InstanceState::Starting,
            types::InstanceState::Running => external::InstanceState::Running,
            types::InstanceState::Stopping => external::InstanceState::Stopping,
            types::InstanceState::Stopped => external::InstanceState::Stopped,
            types::InstanceState::Rebooting => external::InstanceState::Rebooting,
            types::InstanceState::Migrating => external::InstanceState::Migrating,
            types::InstanceState::Repairing => external::InstanceState::Repairing,
            types::InstanceState::Failed => external::InstanceState::Failed,
            types::InstanceState::Destroyed => external::InstanceState::Destroyed,
        }
    }
}

impl From<external::InstanceState> for types::InstanceState {
    fn from(s: external::InstanceState) -> (ret: types::InstanceState) {
        match s {
            external::InstanceState::Creating => types::InstanceState::Creating,
            external::InstanceState::Starting => types::InstanceState::Starting,
            external::InstanceState::Running => types::InstanceState::Running,
            external::InstanceState::Stopping => types::InstanceState::Stopping,
            external::InstanceState::Stopped => types::InstanceState::Stopped,
            external::InstanceState::Rebooting => types::InstanceState::Rebooting,
            external::InstanceState::Migrating => types::InstanceState::Migrating,
            external::InstanceState::Repairing => types::InstanceState::Repairing,
            external::InstanceState::Failed => types::InstanceState::Failed,
            external::InstanceState::Destroyed => types::InstanceState::Destroyed,
        }
    }
}

impl FromSpecImpl<external::InstanceState> for types::InstanceState {
    open spec fn obeys_from_spec() -> bool {
        true
    }

    open spec fn from_spec(s: external::InstanceState) -> types::InstanceState {
        match s {
            external::InstanceState::Creating => types::InstanceState::Creating,
            external::InstanceState::Starting => types::InstanceState::Starting,
            external::InstanceState::Running => types::InstanceState::Running,
            external::InstanceState::Stopping => types::InstanceState::Stopping,
            external::InstanceState::Stopped => types::InstanceState::Stopped,
            external::InstanceState::Rebooting => types::InstanceState::Rebooting,
            external::InstanceState::Migrating => types::InstanceState::Migrating,
            external::InstanceState::Repairing => types::InstanceState::Repairing,
            external::InstanceState::Failed => types::InstanceState::Failed,
            external::InstanceState::Destroyed => types::InstanceState::Destroyed,
        }
    }
}

impl From<&types::InstanceState> for external::InstanceState {
    fn from(s: &types::InstanceState) -> (ret: external::InstanceState) {
        match s {
            types::InstanceState::Creating => external::InstanceState::Creating,
            types::InstanceState::Starting => external::InstanceState::Starting,
            types::InstanceState::Running => external::InstanceState::Running,
            types::InstanceState::Stopping => external::InstanceState::Stopping,
            types::InstanceState::Stopped => external::InstanceState::Stopped,
            types::InstanceState::Rebooting => external::InstanceState::Rebooting,
            types::InstanceState::Migrating => external::InstanceState::Migrating,
            types::InstanceState::Repairing => external::InstanceState::Repairing,
            types::InstanceState::Failed => external::InstanceState::Failed,
            types::InstanceState::Destroyed => external::InstanceState::Destroyed,
        }
    }
}

impl FromSpecImpl<&types::InstanceState> for external::InstanceState {
    open spec fn obeys_from_spec() -> bool {
        true
    }

    open spec fn from_spec(s: &types::InstanceState) -> external::InstanceState {
        match *s {
            types::InstanceState::Creating => external::InstanceState::Creating,
            types::InstanceState::Starting => external::InstanceState::Starting,
            types::InstanceState::Running => external::InstanceState::Running,
            types::InstanceState::Stopping => external::InstanceState::Stopping,
            types::InstanceState::Stopped => external::InstanceState::Stopped,
            types::InstanceState::Rebooting => external::InstanceState::Rebooting,
            types::InstanceState::Migrating => external::InstanceState::Migrating,
            types::InstanceState::Repairing => external::InstanceState::Repairing,
            types::InstanceState::Failed => external::InstanceState::Failed,
            types::InstanceState::Destroyed => external::InstanceState::Destroyed,
        }
    }
}

impl From<external::ProducerKind> for types::ProducerKind {
    fn from(s: external::ProducerKind) -> (ret: types::ProducerKind) {
        match s {
            external::ProducerKind::SledAgent => types::ProducerKind::SledAgent,
            external::ProducerKind::Service => types::ProducerKind::Service,
            external::ProducerKind::Instance => types::ProducerKind::Instance,
        }
    }
}

impl FromSpecImpl<external::ProducerKind> for types::ProducerKind {
    open spec fn obeys_from_spec() -> bool {
        true
    }

    open spec fn from_spec(s: external::ProducerKind) -> types::ProducerKind {
        match s {
            external::ProducerKind::SledAgent => types::ProducerKind::SledAgent,
            external::ProducerKind::Service => types::ProducerKind::Service,
            external::ProducerKind::Instance => types::ProducerKind::Instance,
        }
    }
}

impl From<types::ProducerKind> for external::ProducerKind {
    fn from(s: types::ProducerKind) -> (ret: external::ProducerKind) {
        match s {
            types::ProducerKind::SledAgent => external::ProducerKind::SledAgent,
            types::ProducerKind::Service => external::ProducerKind::Service,
            types::ProducerKind::Instance => external::ProducerKind::Instance,
        }
    }
}

impl FromSpecImpl<types::ProducerKind> for external::ProducerKind {
    open spec fn obeys_from_spec() -> bool {
        true
    }

    open spec fn from_spec(s: types::ProducerKind) -> external::ProducerKind {
        match s {
            types::ProducerKind::SledAgent => external::ProducerKind::SledAgent,
            types::ProducerKind::Service => external::ProducerKind::Service,
            types::ProducerKind::Instance => external::ProducerKind::Instance,
        }
    }
}

impl From<external::PortSpeed> for types::PortSpeed {
    fn from(s: external::PortSpeed) -> (ret: types::PortSpeed) {
        match s {
            external::PortSpeed::Speed0G => types::PortSpeed::Speed0G,
            external::PortSpeed::Speed1G => types::PortSpeed::Speed1G,
            external::PortSpeed::Speed10G => types::PortSpeed::Speed10G,
            external::PortSpeed::Speed25G => types::PortSpeed::Speed25G,
            external::PortSpeed::Speed40G => types::PortSpeed::Speed40G,
            external::PortSpeed::Speed50G => types::PortSpeed::Speed50G,
            external::PortSpeed::Speed100G => types::PortSpeed::Speed100G,
            external::PortSpeed::Speed200G => types::PortSpeed::Speed200G,
            external::PortSpeed::Speed400G => types::PortSpeed::Speed400G,
        }
    }
}

impl FromSpecImpl<external::PortSpeed> for types::PortSpeed {
    open spec fn obeys_from_spec() -> bool {
        true
    }

    open spec fn from_spec(s: external::PortSpeed) -> types::PortSpeed {
        match s {
            external::PortSpeed::Speed0G => types::PortSpeed::Speed0G,
            external::PortSpeed::Speed1G => types::PortSpeed::Speed1G,
            external::PortSpeed::Speed10G => types::PortSpeed::Speed10G,
            external::PortSpeed::Speed25G => types::PortSpeed::Speed25G,
            external::PortSpeed::Speed40G => types::PortSpeed::Speed40G,
            external::PortSpeed::Speed50G => types::PortSpeed::Speed50G,
            external::PortSpeed::Speed100G => types::PortSpeed::Speed100G,
            external::PortSpeed::Speed200G => types::PortSpeed::Speed200G,
            external::PortSpeed::Speed400G => types::PortSpeed::Speed400G,
        }
    }
}

impl From<external::PortFec> for types::PortFec {
    fn from(s: external::PortFec) -> (ret: types::PortFec) {
        match s {
            external::PortFec::Firecode => types::PortFec::Firecode,
            external::PortFec::Off => types::PortFec::Off,
            external::PortFec::Rs => types::PortFec::Rs,
        }
    }
}

impl FromSpecImpl<external::PortFec> for types::PortFec {
    open spec fn obeys_from_spec() -> bool {
        true
    }

    open spec fn from_spec(s: external::PortFec) -> types::PortFec {
        match s {
            external::PortFec::Firecode => types::PortFec::Firecode,
            external::PortFec::Off => types::PortFec::Off,
            external::PortFec::Rs => types::PortFec::Rs,
        }
    }
}

impl From<external::SwitchLocation> for types::SwitchLocation {
    fn from(s: external::SwitchLocation) -> (ret: types::SwitchLocation) {
        match s {
            external::SwitchLocation::Switch0 => types::SwitchLocation::Switch0,
            external::SwitchLocation::Switch1 => types::SwitchLocation::Switch1,
        }
    }
}

impl FromSpecImpl<external::SwitchLocation> for types::SwitchLocation {
    open spec fn obeys_from_spec() -> bool {
        true
    }

    open spec fn from_spec(s: external::SwitchLocation) -> types::SwitchLocation {
        match s {
            external::SwitchLocation::Switch0 => types::SwitchLocation::Switch0,
            external::SwitchLocation::Switch1 => types::SwitchLocation::Switch1,
        }
    }
}

impl From<external::ByteCount> for types::ByteCount {
    fn from(s: external::ByteCount) -> (ret: types::ByteCount) {
        types::ByteCount(s.to_bytes())
    }
}

impl FromSpecImpl<external::ByteCount> for types::ByteCount {
    open spec fn obeys_from_spec() -> bool {
        true
    }

    open spec fn from_spec(s: external::ByteCount) -> types::ByteCount {
        types::ByteCount(s.0)
    }
}

impl From<external::Duration> for types::Duration {
    fn from(s: external::Duration) -> (ret: types::Duration) {
        types::Duration { secs: s.secs, nanos: s.nanos }
    }
}

impl FromSpecImpl<external::Duration> for types::Duration {
    open spec fn obeys_from_spec() -> bool {
        true
    }

    open spec fn from_spec(s: external::Duration) -> types::Duration {
        types::Duration { secs: s.secs, nanos: s.nanos }
    }
}

/// The nanoseconds in a second.
pub const NANOS_PER_SEC: u64 = 1_000_000_000;

impl types::Duration {
    /// The span of time in nanoseconds.
    pub open spec fn spec_nanos(self) -> int {
        self.secs * 1_000_000_000 + self.nanos
    }

    /// The span of time as the control plane knows it, if it is no longer
    /// than a count of nanoseconds in 64 bits can say: the whole seconds of
    /// the span, and the nanoseconds beyond them.
    pub fn to_external(self) -> (res: Option<external::Duration>)
        ensures
            res is Some <==> self.spec_nanos() <= u64::MAX,
            res matches Some(d) ==> d.nanos < 1_000_000_000 && d.secs * 1_000_000_000 + d.nanos
                == self.spec_nanos(),
    {
        match self.secs.checked_mul(NANOS_PER_SEC) {
            None => None,
            Some(whole) => match whole.checked_add(self.nanos as u64) {
                None => None,
                Some(total) => Some(
                    external::Duration {
                        secs: total / NANOS_PER_SEC,
                        nanos: (total % NANOS_PER_SEC) as u32,
                    },
                ),
            },
        }
    }
}

impl From<ip_net::Ipv4Range> for types::Ipv4Range {
    fn from(r: ip_net::Ipv4Range) -> (ret: types::Ipv4Range) {
        types::Ipv4Range { first: r.first_address(), last: r.last_address() }
    }
}

impl FromSpecImpl<ip_net::Ipv4Range> for types::Ipv4Range {
    open spec fn obeys_from_spec() -> bool {
        true
    }

    open spec fn from_spec(r: ip_net::Ipv4Range) -> types::Ipv4Range {
        types::Ipv4Range { first: r.spec_first(), last: r.spec_last() }
    }
}

impl From<ip_net::Ipv6Range> for types::Ipv6Range {
    fn from(r: ip_net::Ipv6Range) -> (ret: types::Ipv6Range) {
        types::Ipv6Range { first: r.first_address(), last: r.last_address() }
    }
}

impl FromSpecImpl<ip_net::Ipv6Range> for types::Ipv6Range {
    open spec fn obeys_from_spec() -> bool {
        true
    }

    open spec fn from_spec(r: ip_net::Ipv6Range) -> types::Ipv6Range {
        types::Ipv6Range { first: r.spec_first(), last: r.spec_last() }
    }
}

impl From<ip_net::IpRange> for types::IpRange {
    fn from(r: ip_net::IpRange) -> (ret: types::IpRange) {
        match r {
            ip_net::IpRange::V4(r) => types::IpRange::V4(
                types::Ipv4Range { first: r.first_address(), last: r.last_address() },
            ),
            ip_net::IpRange::V6(r) => types::IpRange::V6(
                types::Ipv6Range { first: r.first_address(), last: r.last_address() },
            ),
        }
    }
}

impl FromSpecImpl<ip_net::IpRange> for types::IpRange {
    open spec fn obeys_from_spec() -> bool {
        true
    }

    open spec fn from_spec(r: ip_net::IpRange) -> types::IpRange {
        match r {
            ip_net::IpRange::V4(r) => types::IpRange::V4(
                types::Ipv4Range { first: r.spec_first(), last: r.spec_last() },
            ),
            ip_net::IpRange::V6(r) => types::IpRange::V6(
                types::Ipv6Range { first: r.spec_first(), last: r.spec_last() },
            ),
        }
    }
}

impl From<&external::SourceNatConfig> for types::SourceNatConfig {
    fn from(r: &external::SourceNatConfig) -> (ret: types::SourceNatConfig) {
        let (first_port, last_port) = r.port_range_raw();
        types::SourceNatConfig { ip: r.ip(), first_port, last_port }
    }
}

impl FromSpecImpl<&external::SourceNatConfig> for types::SourceNatConfig {
    open spec fn obeys_from_spec() -> bool {
        true
    }

    open spec fn from_spec(r: &external::SourceNatConfig) -> types::SourceNatConfig {
        types::SourceNatConfig {
            ip: r.spec_ip(),
            first_port: r.spec_port_range().0,
            last_port: r.spec_port_range().1,
        }
    }
}

impl From<external::InstanceRuntimeState> for types::InstanceRuntimeState {
    fn from(s: external::InstanceRuntimeState) -> (ret: types::InstanceRuntimeState) {
        types::InstanceRuntimeState {
            dst_propolis_id: s.dst_propolis_id,
            gen: s.gen,
            migration_id: s.migration_id,
            propolis_id: s.propolis_id,
            time_updated: s.time_updated,
        }
    }
}

impl FromSpecImpl<external::InstanceRuntimeState> for types::InstanceRuntimeState {
    open spec fn obeys_from_spec() -> bool {
        true
    }

    open spec fn from_spec(s: external::InstanceRuntimeState) -> types::InstanceRuntimeState {
        types::InstanceRuntimeState {
            dst_propolis_id: s.dst_propolis_id,
            gen: s.gen,
            migration_id: s.migration_id,
            propolis_id: s.propolis_id,
            time_updated: s.time_updated,
        }
    }
}

impl From<external::VmmRuntimeState> for types::VmmRuntimeState {
    fn from(s: external::VmmRuntimeState) -> (ret: types::VmmRuntimeState) {
        types::VmmRuntimeState {
            gen: s.gen,
            state: types::InstanceState::from(s.state),
            time_updated: s.time_updated,
        }
    }
}

impl FromSpecImpl<external::VmmRuntimeState> for types::VmmRuntimeState {
    open spec fn obeys_from_spec() -> bool {
        true
    }

    open spec fn from_spec(s: external::VmmRuntimeState) -> types::VmmRuntimeState {
        types::VmmRuntimeState {
            gen: s.gen,
            state: <types::InstanceState as FromSpec<external::InstanceState>>::from_spec(s.state),
            time_updated: s.time_updated,
        }
    }
}

impl From<external::SledInstanceState> for types::SledInstanceState {
    fn from(s: external::SledInstanceState) -> (ret: types::SledInstanceState) {
        types::SledInstanceState {
            instance_state: types::InstanceRuntimeState::from(s.instance_state),
            propolis_id: s.propolis_id,
            vmm_state: types::VmmRuntimeState::from(s.vmm_state),
        }
    }
}

impl FromSpecImpl<external::SledInstanceState> for types::SledInstanceState {
    open spec fn obeys_from_spec() -> bool {
        true
    }

    open spec fn from_spec(s: external::SledInstanceState) -> types::SledInstanceState {
        types::SledInstanceState {
            instance_state: <types::InstanceRuntimeState as FromSpec<external::InstanceRuntimeState>>::from_spec(s.instance_state),
            propolis_id: s.propolis_id,
            vmm_state: <types::VmmRuntimeState as FromSpec<external::VmmRuntimeState>>::from_spec(s.vmm_state),
        }
    }
}

impl From<external::DiskRuntimeState> for types::DiskRuntimeState {
    fn from(s: external::DiskRuntimeState) -> (ret: types::DiskRuntimeState) {
        types::DiskRuntimeState {
            disk_state: types::DiskState::from(s.disk_state),
            gen: s.gen,
            time_updated: s.time_updated,
        }
    }
}

impl FromSpecImpl<external::DiskRuntimeState> for types::DiskRuntimeState {
    open spec fn obeys_from_spec() -> bool {
        true
    }

    open spec fn from_spec(s: external::DiskRuntimeState) -> types::DiskRuntimeState {
        types::DiskRuntimeState {
            disk_state: <types::DiskState as FromSpec<external::DiskState>>::from_spec(s.disk_state),
            gen: s.gen,
            time_updated: s.time_updated,
        }
    }
}

/// Whether `to` finds the switches as `from` does: at the same addresses,
/// or by the same port names, each switch by the name of its slot and in
/// the same place.
pub open spec fn same_discovery(
    from: external::ExternalPortDiscovery,
    to: types::ExternalPortDiscovery,
) -> bool {
    match from {
        external::ExternalPortDiscovery::Auto(slots) => {
            &&& to matches types::ExternalPortDiscovery::Auto(named)
            &&& named@.len() == slots@.len()
            &&& forall|i: int|
                0 <= i < slots@.len() ==> #[trigger] named@[i].0@ == slots@[i].0.spec_name()
                    && named@[i].1 == slots@[i].1
        },
        external::ExternalPortDiscovery::Static(slots) => {
            &&& to matches types::ExternalPortDiscovery::Static(named)
            &&& named@.len() == slots@.len()
            &&& forall|i: int|
                0 <= i < slots@.len() ==> #[trigger] named@[i].0@ == slots@[i].0.spec_name()
                    && texts(named@[i].1@) == texts(slots@[i].1@)
        },
    }
}

/// A list of the same names.
fn copy_names(names: &Vec<String>) -> (res: Vec<String>)
    ensures
        texts(res@) == texts(names@),
{
    let mut res: Vec<String> = Vec::new();
    let mut i: usize = 0;
    while i < names.len()
        invariant
            i <= names@.len(),
            res@.len() == i,
            forall|j: int| 0 <= j < i ==> res@[j]@ == names@[j]@,
        decreases names@.len() - i,
    {
        res.push(names[i].clone());
        i += 1;
    }
    assert(texts(res@) =~= texts(names@));
    res
}

impl From<external::ExternalPortDiscovery> for types::ExternalPortDiscovery {
    fn from(value: external::ExternalPortDiscovery) -> (ret: types::ExternalPortDiscovery)
        ensures
            same_discovery(value, ret),
    {
        match value {
            external::ExternalPortDiscovery::Auto(slots) => {
                let mut named: Vec<(String, u128)> = Vec::new();
                let mut i: usize = 0;
                while i < slots.len()
                    invariant
                        i <= slots@.len(),
                        named@.len() == i,
                        forall|j: int|
                            0 <= j < i ==> #[trigger] named@[j].0@ == slots@[j].0.spec_name()
                                && named@[j].1 == slots@[j].1,
                    decreases slots@.len() - i,
                {
                    named.push((slots[i].0.name(), slots[i].1));
                    i += 1;
                }
                types::ExternalPortDiscovery::Auto(named)
            },
            external::ExternalPortDiscovery::Static(slots) => {
                let mut named: Vec<(String, Vec<String>)> = Vec::new();
                let mut i: usize = 0;
                while i < slots.len()
                    invariant
                        i <= slots@.len(),
                        named@.len() == i,
                        forall|j: int|
                            0 <= j < i ==> #[trigger] named@[j].0@ == slots@[j].0.spec_name()
                                && texts(named@[j].1@) == texts(slots@[j].1@),
                    decreases slots@.len() - i,
                {
                    named.push((slots[i].0.name(), copy_names(&slots[i].1)));
                    i += 1;
                }
                types::ExternalPortDiscovery::Static(named)
            },
        }
    }
}

impl FromSpecImpl<external::ExternalPortDiscovery> for types::ExternalPortDiscovery {
    open spec fn obeys_from_spec() -> bool {
        false
    }

    open spec fn from_spec(value: external::ExternalPortDiscovery) -> types::ExternalPortDiscovery {
        arbitrary()
    }
}

/// What is said of an address that cannot be read: the address follows.
pub open spec fn invalid_address_message(address: Seq<char>) -> Seq<char> {
    "Invalid IP address: "@ + address
}

impl types::ProducerEndpoint {
    /// The producer as the client knows it. `address` is the producer's
    /// address as text.
    pub fn from_external(s: &external::ProducerEndpoint, address: String) -> (res:
        types::ProducerEndpoint)
        ensures
            res.id == s.id,
            res.kind == <types::ProducerKind as FromSpec<external::ProducerKind>>::from_spec(
                s.kind,
            ),
            res.address == address,
            res.interval == <types::Duration as FromSpec<external::Duration>>::from_spec(
                s.interval,
            ),
    {
        types::ProducerEndpoint {
            address,
            id: s.id,
            kind: types::ProducerKind::from(s.kind),
            interval: types::Duration::from(s.interval),
        }
    }

    /// The producer as the control plane knows it. `parsed` is what the
    /// text of the address says, if it says an address and a port: without
    /// it the text is refused by name.
    pub fn into_external(self, parsed: Option<external::SocketAddr>) -> (res: Result<
        external::ProducerEndpoint,
        String,
    >)
        requires
            self.interval.spec_nanos() <= u64::MAX,
        ensures
            match parsed {
                None => res matches Err(message) && message@ == invalid_address_message(
                    self.address@,
                ),
                Some(address) => res matches Ok(ep) && ep.id == self.id && ep.kind
                    == <external::ProducerKind as FromSpec<types::ProducerKind>>::from_spec(
                    self.kind,
                ) && ep.address == address && ep.interval.nanos < 1_000_000_000
                    && ep.interval.secs * 1_000_000_000 + ep.interval.nanos
                    == self.interval.spec_nanos(),
            },
    {
        let Some(address) = parsed else {
            return Err(String::from_str("Invalid IP address: ").concat(self.address.as_str()));
        };
        let interval = self.interval.to_external().unwrap();
        Ok(
            external::ProducerEndpoint {
                id: self.id,
                kind: external::ProducerKind::from(self.kind),
                address,
                interval,
            },
        )
    }
}

/// The four bytes of an IPv4 address in decimal, a dot between each two.
pub open spec fn dotted_quad(addr: u32) -> Seq<char> {
    decimal((addr / 0x100_0000) as nat) + "."@ + decimal((addr / 0x1_0000 % 0x100) as nat) + "."@
        + decimal((addr / 0x100 % 0x100) as nat) + "."@ + decimal((addr % 0x100) as nat)
}

/// The text of an IPv4 block: its address, a stroke, and its prefix length
/// in decimal.
pub open spec fn ipv4_net_text(addr: u32, prefix: u8) -> Seq<char> {
    dotted_quad(addr) + "/"@ + decimal(prefix as nat)
}

/// The text of an IPv6 block, as the `ipnetwork` crate writes it: the
/// address in its standard short form, a stroke, and the prefix length.
pub uninterp spec fn ipv6_net_text(addr: u128, prefix: u8) -> Seq<char>;

/// Writes an IPv4 block out.
///
/// Calls `Ipv4Network::new` of the `ipnetwork` crate, which refuses only a
/// prefix length beyond 32, and the `to_string` of the block, which writes
/// the address as four decimal numbers with dots between them, a stroke,
/// and the prefix length in decimal.
#[verifier::external_body]
fn write_ipv4_net(addr: u32, prefix: u8) -> (res: String)
    requires
        prefix <= 32,
    ensures
        res@ == ipv4_net_text(addr, prefix),
{
    match ipnetwork::Ipv4Network::new(addr.into(), prefix) {
        Ok(network) => network.to_string(),
        Err(_) => String::new(),
    }
}

/// Writes an IPv6 block out.
///
/// Calls `Ipv6Network::new` of the `ipnetwork` crate, which refuses only a
/// prefix length beyond 128, and the `to_string` of the block. What it
/// writes depends on the address and the prefix length alone.
#[verifier::external_body]
fn write_ipv6_net(addr: u128, prefix: u8) -> (res: String)
    requires
        prefix <= 128,
    ensures
        res@ == ipv6_net_text(addr, prefix),
{
    match ipnetwork::Ipv6Network::new(addr.into(), prefix) {
        Ok(network) => network.to_string(),
        Err(_) => String::new(),
    }
}

/// The text of a block of either family.
pub open spec fn ip_net_text(net: ip_net::IpNetwork) -> Seq<char> {
    match net {
        ip_net::IpNetwork::V4(v4) => ipv4_net_text(v4.spec_addr(), v4.spec_prefix()),
        ip_net::IpNetwork::V6(v6) => ipv6_net_text(v6.spec_addr(), v6.spec_prefix()),
    }
}

impl types::Ipv4Net {
    /// The block as the client knows it: written out.
    pub fn try_from(net: &ip_net::Ipv4Net) -> (res: Result<types::Ipv4Net, String>)
        ensures
            res matches Ok(text) && text.0@ == ipv4_net_text(net.spec_addr(), net.spec_prefix()),
    {
        Ok(types::Ipv4Net(write_ipv4_net(net.addr(), net.prefix())))
    }
}

impl types::Ipv6Net {
    /// The block as the client knows it: written out.
    pub fn try_from(net: &ip_net::Ipv6Net) -> (res: Result<types::Ipv6Net, String>)
        ensures
            res matches Ok(text) && text.0@ == ipv6_net_text(net.spec_addr(), net.spec_prefix()),
    {
        Ok(types::Ipv6Net(write_ipv6_net(net.addr(), net.prefix())))
    }
}

impl types::IpNet {
    /// Whether this is `net` written out, as a block of its family.
    pub open spec fn is_text_of(self, net: ip_net::IpNetwork) -> bool {
        match net {
            ip_net::IpNetwork::V4(_) => self matches types::IpNet::V4(text) && text.0@
                == ip_net_text(net),
            ip_net::IpNetwork::V6(_) => self matches types::IpNet::V6(text) && text.0@
                == ip_net_text(net),
        }
    }

    /// The block as the client knows it: written out, as a block of its
    /// family.
    pub fn try_from(net: &ip_net::IpNetwork) -> (res: Result<types::IpNet, String>)
        ensures
            res matches Ok(text) && text.is_text_of(*net),
    {
        match net {
            ip_net::IpNetwork::V4(v4) => match types::Ipv4Net::try_from(v4) {
                Ok(text) => Ok(types::IpNet::V4(text)),
                Err(e) => Err(e),
            },
            ip_net::IpNetwork::V6(v6) => match types::Ipv6Net::try_from(v6) {
                Ok(text) => Ok(types::IpNet::V6(text)),
                Err(e) => Err(e),
            },
        }
    }
}

impl types::AllowedSourceIps {
    /// Whether this lets in what `ips` lets in: any source, or the blocks
    /// of the same list, each written out in its place.
    pub open spec fn is_text_of(self, ips: external::AllowedSourceIps) -> bool {
        match ips {
            external::AllowedSourceIps::Any => self is Any,
            external::AllowedSourceIps::List(nets) => {
                &&& self matches types::AllowedSourceIps::List(written)
                &&& written@.len() == nets@.len()
                &&& forall|i: int|
                    0 <= i < nets@.len() ==> (#[trigger] written@[i]).is_text_of(nets@[i])
            },
        }
    }

    /// The allowed sources as the client knows them.
    pub fn try_from(ips: &external::AllowedSourceIps) -> (res: Result<
        types::AllowedSourceIps,
        String,
    >)
        ensures
            res matches Ok(written) && written.is_text_of(*ips),
    {
        match ips {
            external::AllowedSourceIps::Any => Ok(types::AllowedSourceIps::Any),
            external::AllowedSourceIps::List(nets) => {
                let mut written: Vec<types::IpNet> = Vec::new();
                let mut i: usize = 0;
                while i < nets.len()
                    invariant
                        i <= nets@.len(),
                        written@.len() == i,
                        forall|j: int|
                            0 <= j < i ==> (#[trigger] written@[j]).is_text_of(nets@[j]),
                    decreases nets@.len() - i,
                {
                    match types::IpNet::try_from(&nets[i]) {
                        Ok(text) => written.push(text),
                        Err(e) => {
                            return Err(e);
                        },
                    }
                    i += 1;
                }
                Ok(types::AllowedSourceIps::List(written))
            },
        }
    }
}

} // verus!
