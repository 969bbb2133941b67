//! The rows of the store.
//!
//! Every resource row carries an [`Identity`]. A row is live while its
//! `time_deleted` is unset; a deleted row is kept, and never becomes live
//! again.

use crate::error::Uuid;
use crate::ip_net::{IpAddr, IpNetwork, Ipv4Net, Ipv6Net};
use crate::planning_input::{SledPolicy, SledState};
use crate::vni::Vni;
use vstd::prelude::*;
use vstd::string::*;

verus! {

/// A point in time, in microseconds since the Unix epoch.
pub type Timestamp = i64;

/// A counter of the structural changes made to the children of a row.
#[derive(Clone, Copy, Debug, PartialEq, Eq, Hash, PartialOrd, Ord, Structural)]
pub struct Generation(pub u64);

impl Generation {
    /// The generation of a row that has just been made.
    pub fn new() -> (res: Generation)
        ensures
            res == Generation(1),
    {
        Generation(1)
    }

    /// The generation after this one, unless the counter is exhausted.
    pub fn next(self) -> (res: Option<Generation>)
        ensures
            res == if self.0 < u64::MAX {
                Some(Generation((self.0 + 1) as u64))
            } else {
                None
            },
    {
        if self.0 < u64::MAX {
            Some(Generation(self.0 + 1))
        } else {
            None
        }
    }
}

/// What every resource row carries.
#[derive(Clone, Debug, PartialEq, Eq)]
pub struct Identity {
    pub id: Uuid,
    pub name: String,
    pub description: String,
    pub time_created: Timestamp,
    pub time_modified: Timestamp,
    pub time_deleted: Option<Timestamp>,
}

impl Identity {
    /// The identity of a new, live row.
    pub fn new(id: Uuid, name: &str, description: &str, now: Timestamp) -> (res: Identity)
        ensures
            res.id == id,
            res.name@ == name@,
            res.description@ == description@,
            res.time_created == now,
            res.time_modified == now,
            res.time_deleted is None,
    {
        Identity {
            id,
            name: String::from_str(name),
            description: String::from_str(description),
            time_created: now,
            time_modified: now,
            time_deleted: None,
        }
    }

    pub fn duplicate(&self) -> (res: Identity)
        ensures
            res == *self,
    {
        Identity {
            id: self.id,
            name: self.name.clone(),
            description: self.description.clone(),
            time_created: self.time_created,
            time_modified: self.time_modified,
            time_deleted: self.time_deleted,
        }
    }

    /// Whether the row has not been deleted.
    pub open spec fn live(self) -> bool {
        self.time_deleted is None
    }

    /// This identity after a soft delete at `now`.
    pub open spec fn deleted_at(self, now: Timestamp) -> Identity {
        Identity { time_deleted: Some(now), ..self }
    }
}

/// A row with an identity and a parent.
///
/// The view of a row is the value that it holds. Two rows with the same
/// view differ at most in how their lists are stored.
pub trait Resource: Sized + View {
    /// The identity of the row.
    spec fn identity_of(&self) -> Identity;

    /// The id of the row that this row is a child of.
    spec fn parent_of(&self) -> Uuid;

    /// Identity and parent are part of the value of a row.
    proof fn lemma_view_has_identity(a: &Self, b: &Self)
        requires
            a@ == b@,
        ensures
            a.identity_of() == b.identity_of(),
            a.parent_of() == b.parent_of(),
    ;

    fn identity(&self) -> (res: &Identity)
        ensures
            *res == self.identity_of(),
    ;

    fn parent_id(&self) -> (res: Uuid)
        ensures
            res == self.parent_of(),
    ;

    /// A copy of the row, with the same value.
    fn duplicate(&self) -> (res: Self)
        ensures
            res@ == self@,
    ;
}

/// A project: the parent of VPCs.
#[derive(Clone, Debug, PartialEq, Eq)]
pub struct Project {
    pub identity: Identity,
    pub silo_id: Uuid,
    /// Bumped by every VPC inserted into the project.
    pub rcgen: Generation,
}

/// A VPC that has not been inserted yet: its VNI is only the seed of the
/// search for a free one.
#[derive(Clone, Debug, PartialEq, Eq)]
pub struct IncompleteVpc {
    pub identity: Identity,
    pub project_id: Uuid,
    pub system_router_id: Uuid,
    pub vni: Vni,
    pub ipv6_prefix: Ipv6Net,
    pub dns_name: String,
}

/// A virtual private cloud.
#[derive(Clone, Debug, PartialEq, Eq)]
pub struct Vpc {
    pub identity: Identity,
    pub project_id: Uuid,
    pub system_router_id: Uuid,
    pub vni: Vni,
    pub ipv6_prefix: Ipv6Net,
    pub dns_name: String,
    /// Bumped by every firewall rule set inserted into the VPC.
    pub firewall_gen: Generation,
    /// Checked, unchanged, by the deletion of the VPC.
    pub subnet_gen: Generation,
}

/// Changes to a VPC; an unset field is left as it is.
#[derive(Clone, Debug, PartialEq, Eq)]
pub struct VpcUpdate {
    pub name: Option<String>,
    pub description: Option<String>,
    pub time_modified: Timestamp,
    pub dns_name: Option<String>,
}

/// A subnet of a VPC.
#[derive(Clone, Debug, PartialEq, Eq)]
pub struct VpcSubnet {
    pub identity: Identity,
    pub vpc_id: Uuid,
    /// Bumped by every network interface inserted into the subnet.
    pub rcgen: Generation,
    pub ipv4_block: Ipv4Net,
    pub ipv6_block: Ipv6Net,
    pub custom_router_id: Option<Uuid>,
}

/// Changes to a VPC subnet; an unset field is left as it is.
#[derive(Clone, Debug, PartialEq, Eq)]
pub struct VpcSubnetUpdate {
    pub name: Option<String>,
    pub description: Option<String>,
    pub time_modified: Timestamp,
}

/// Whether a router was made with its VPC or by a user.
#[derive(Clone, Copy, Debug, PartialEq, Eq, Hash, Structural)]
pub enum VpcRouterKind {
    System,
    Custom,
}

/// A router of a VPC.
#[derive(Clone, Debug, PartialEq, Eq)]
pub struct VpcRouter {
    pub identity: Identity,
    pub kind: VpcRouterKind,
    pub vpc_id: Uuid,
    /// Bumped by every route inserted into the router.
    pub rcgen: Generation,
}

/// Changes to a VPC router; an unset field is left as it is.
#[derive(Clone, Debug, PartialEq, Eq)]
pub struct VpcRouterUpdate {
    pub name: Option<String>,
    pub description: Option<String>,
    pub time_modified: Timestamp,
}

/// How a route came to be.
#[derive(Clone, Copy, Debug, PartialEq, Eq, Hash, Structural)]
pub enum RouterRouteKind {
    /// The gateway route that every router starts with.
    Default,
    /// Made for a subnet of the VPC.
    VpcSubnet,
    /// Made for a peering of two VPCs.
    VpcPeering,
    /// Made by a user.
    Custom,
}

/// Where a route sends traffic.
#[derive(Clone, Debug, PartialEq, Eq)]
pub enum RouteTarget {
    Ip(IpAddr),
    Vpc(String),
    Subnet(String),
    Instance(String),
    InternetGateway(String),
    Drop,
}

/// Which traffic a route applies to.
#[derive(Clone, Debug, PartialEq, Eq)]
pub enum RouteDestination {
    Ip(IpAddr),
    IpNet(IpNetwork),
    Vpc(String),
    Subnet(String),
}

/// A route of a router.
#[derive(Clone, Debug, PartialEq, Eq)]
pub struct RouterRoute {
    pub identity: Identity,
    pub vpc_router_id: Uuid,
    pub kind: RouterRouteKind,
    pub target: RouteTarget,
    pub destination: RouteDestination,
}

/// Changes to a route. Name and description are left as they are when
/// unset; target and destination are always replaced.
#[derive(Clone, Debug, PartialEq, Eq)]
pub struct RouterRouteUpdate {
    pub name: Option<String>,
    pub description: Option<String>,
    pub time_modified: Timestamp,
    pub target: RouteTarget,
    pub destination: RouteDestination,
}

#[derive(Clone, Copy, Debug, PartialEq, Eq, Hash, Structural)]
pub enum VpcFirewallRuleStatus {
    Disabled,
    Enabled,
}

#[derive(Clone, Copy, Debug, PartialEq, Eq, Hash, Structural)]
pub enum VpcFirewallRuleDirection {
    Inbound,
    Outbound,
}

#[derive(Clone, Copy, Debug, PartialEq, Eq, Hash, Structural)]
pub enum VpcFirewallRuleAction {
    Allow,
    Deny,
}

#[derive(Clone, Copy, Debug, PartialEq, Eq, Hash, Structural)]
pub enum VpcFirewallRuleProtocol {
    Tcp,
    Udp,
    Icmp,
}

/// An inclusive range of ports.
#[derive(Clone, Copy, Debug, PartialEq, Eq, Hash, Structural)]
pub struct L4PortRange {
    pub first: u16,
    pub last: u16,
}

/// What a firewall rule applies to, or a host that it matches.
#[derive(Clone, Debug, PartialEq, Eq)]
pub enum VpcFirewallRuleTarget {
    Vpc(String),
    Subnet(String),
    Instance(String),
    Ip(IpAddr),
    IpNet(IpNetwork),
}

/// A firewall rule of a VPC.
#[derive(Clone, Debug, PartialEq, Eq)]
pub struct VpcFirewallRule {
    pub identity: Identity,
    pub vpc_id: Uuid,
    pub status: VpcFirewallRuleStatus,
    pub direction: VpcFirewallRuleDirection,
    pub targets: Vec<VpcFirewallRuleTarget>,
    pub filter_hosts: Option<Vec<VpcFirewallRuleTarget>>,
    pub filter_ports: Option<Vec<L4PortRange>>,
    pub filter_protocols: Option<Vec<VpcFirewallRuleProtocol>>,
    pub action: VpcFirewallRuleAction,
    pub priority: u16,
}

/// A network interface of a guest instance.
#[derive(Clone, Debug, PartialEq, Eq)]
pub struct InstanceNetworkInterface {
    pub identity: Identity,
    pub instance_id: Uuid,
    pub vpc_id: Uuid,
    pub subnet_id: Uuid,
    pub mac: u64,
    pub ip: IpAddr,
    pub slot: u8,
    pub primary: bool,
}

/// A network interface of a control-plane zone.
#[derive(Clone, Debug, PartialEq, Eq)]
pub struct ServiceNetworkInterface {
    pub identity: Identity,
    /// The zone that the interface belongs to.
    pub service_id: Uuid,
    pub vpc_id: Uuid,
    pub subnet_id: Uuid,
    pub mac: u64,
    pub ip: IpAddr,
    pub slot: u8,
    pub primary: bool,
}

/// A guest instance, as far as the store needs it.
#[derive(Clone, Copy, Debug, PartialEq, Eq, Structural)]
pub struct Instance {
    pub id: Uuid,
    pub time_deleted: Option<Timestamp>,
    /// The VMM that runs the instance, if one does.
    pub active_propolis_id: Option<Uuid>,
}

/// A virtual machine monitor, which runs an instance on a sled.
#[derive(Clone, Copy, Debug, PartialEq, Eq, Structural)]
pub struct Vmm {
    pub id: Uuid,
    pub time_deleted: Option<Timestamp>,
    pub sled_id: Uuid,
}

/// A sled.
#[derive(Clone, Copy, Debug, PartialEq, Eq, Structural)]
pub struct Sled {
    pub id: Uuid,
    pub time_deleted: Option<Timestamp>,
    pub policy: SledPolicy,
    pub state: SledState,
}

/// The request to make a blueprint the target.
#[derive(Clone, Copy, Debug, PartialEq, Eq, Structural)]
pub struct BlueprintTarget {
    pub target_id: Uuid,
    /// Whether the blueprint is to be carried out. The store records it and
    /// never reads it.
    pub enabled: bool,
    pub time_made_target: Timestamp,
}

/// One entry of the history of target blueprints. The entry with the
/// greatest version is the current target.
#[derive(Clone, Copy, Debug, PartialEq, Eq, Structural)]
pub struct BpTarget {
    pub version: u64,
    pub blueprint_id: Uuid,
    pub enabled: bool,
    pub time_made_target: Timestamp,
}

/// What a blueprint intends for a zone.
#[derive(Clone, Copy, Debug, PartialEq, Eq, Hash, Structural)]
pub enum BlueprintZoneDisposition {
    /// The zone is in service.
    InService,
    /// The zone is being drained and still runs.
    Quiesced,
    /// The zone is to be removed.
    Expunged,
}

/// Filters that apply to the zones of a blueprint.
#[derive(Clone, Copy, Debug, PartialEq, Eq, Hash, Structural)]
pub enum BlueprintZoneFilter {
    /// All zones.
    All,
    /// Zones whose sleds should be sent VPC firewall rules.
    ShouldDeployVpcFirewallRules,
}

impl BlueprintZoneDisposition {
    pub open spec fn spec_matches(self, filter: BlueprintZoneFilter) -> bool {
        match filter {
            BlueprintZoneFilter::All => true,
            BlueprintZoneFilter::ShouldDeployVpcFirewallRules => !(self is Expunged),
        }
    }

    /// Returns true if a zone with this disposition matches the filter.
    pub fn matches(self, filter: BlueprintZoneFilter) -> (res: bool)
        ensures
            res == self.spec_matches(filter),
    {
        match self {
            BlueprintZoneDisposition::InService => match filter {
                BlueprintZoneFilter::All => true,
                BlueprintZoneFilter::ShouldDeployVpcFirewallRules => true,
            },
            BlueprintZoneDisposition::Quiesced => match filter {
                BlueprintZoneFilter::All => true,
                BlueprintZoneFilter::ShouldDeployVpcFirewallRules => true,
            },
            BlueprintZoneDisposition::Expunged => match filter {
                BlueprintZoneFilter::All => true,
                BlueprintZoneFilter::ShouldDeployVpcFirewallRules => false,
            },
        }
    }
}

/// A zone as a blueprint describes it.
#[derive(Clone, Copy, Debug, PartialEq, Eq, Structural)]
pub struct BlueprintZoneConfig {
    pub id: Uuid,
    pub sled_id: Uuid,
    pub disposition: BlueprintZoneDisposition,
}

/// A zone of a blueprint, placed on a sled.
#[derive(Clone, Copy, Debug, PartialEq, Eq, Structural)]
pub struct BpOmicronZone {
    pub blueprint_id: Uuid,
    pub sled_id: Uuid,
    pub id: Uuid,
    pub disposition: BlueprintZoneDisposition,
}

impl RouteTarget {
    pub fn duplicate(&self) -> (res: RouteTarget)
        ensures
            res == *self,
    {
        match self {
            RouteTarget::Ip(addr) => RouteTarget::Ip(*addr),
            RouteTarget::Vpc(name) => RouteTarget::Vpc(name.clone()),
            RouteTarget::Subnet(name) => RouteTarget::Subnet(name.clone()),
            RouteTarget::Instance(name) => RouteTarget::Instance(name.clone()),
            RouteTarget::InternetGateway(name) => RouteTarget::InternetGateway(name.clone()),
            RouteTarget::Drop => RouteTarget::Drop,
        }
    }
}

impl RouteDestination {
    pub fn duplicate(&self) -> (res: RouteDestination)
        ensures
            res == *self,
    {
        match self {
            RouteDestination::Ip(addr) => RouteDestination::Ip(*addr),
            RouteDestination::IpNet(net) => RouteDestination::IpNet(*net),
            RouteDestination::Vpc(name) => RouteDestination::Vpc(name.clone()),
            RouteDestination::Subnet(name) => RouteDestination::Subnet(name.clone()),
        }
    }
}

impl VpcFirewallRuleTarget {
    pub fn duplicate(&self) -> (res: VpcFirewallRuleTarget)
        ensures
            res == *self,
    {
        match self {
            VpcFirewallRuleTarget::Vpc(name) => VpcFirewallRuleTarget::Vpc(name.clone()),
            VpcFirewallRuleTarget::Subnet(name) => VpcFirewallRuleTarget::Subnet(name.clone()),
            VpcFirewallRuleTarget::Instance(name) => VpcFirewallRuleTarget::Instance(name.clone()),
            VpcFirewallRuleTarget::Ip(addr) => VpcFirewallRuleTarget::Ip(*addr),
            VpcFirewallRuleTarget::IpNet(net) => VpcFirewallRuleTarget::IpNet(*net),
        }
    }
}

fn duplicate_targets(targets: &Vec<VpcFirewallRuleTarget>) -> (res: Vec<VpcFirewallRuleTarget>)
    ensures
        res@ == targets@,
{
    let mut res: Vec<VpcFirewallRuleTarget> = Vec::new();
    let mut i: usize = 0;
    while i < targets.len()
        invariant
            i <= targets.len(),
            res@ == targets@.take(i as int),
        decreases targets.len() - i,
    {
        res.push(targets[i].duplicate());
        assert(targets@.take(i + 1) == targets@.take(i as int).push(targets@[i as int]));
        i += 1;
    }
    assert(targets@.take(targets.len() as int) == targets@);
    res
}

/// Mathematical value of a [`VpcFirewallRule`].
pub struct VpcFirewallRuleView {
    pub identity: Identity,
    pub vpc_id: Uuid,
    pub status: VpcFirewallRuleStatus,
    pub direction: VpcFirewallRuleDirection,
    pub targets: Seq<VpcFirewallRuleTarget>,
    pub filter_hosts: Option<Seq<VpcFirewallRuleTarget>>,
    pub filter_ports: Option<Seq<L4PortRange>>,
    pub filter_protocols: Option<Seq<VpcFirewallRuleProtocol>>,
    pub action: VpcFirewallRuleAction,
    pub priority: u16,
}

impl View for VpcFirewallRule {
    type V = VpcFirewallRuleView;

    open spec fn view(&self) -> VpcFirewallRuleView {
        VpcFirewallRuleView {
            identity: self.identity,
            vpc_id: self.vpc_id,
            status: self.status,
            direction: self.direction,
            targets: self.targets@,
            filter_hosts: match self.filter_hosts {
                Some(hosts) => Some(hosts@),
                None => None,
            },
            filter_ports: match self.filter_ports {
                Some(ports) => Some(ports@),
                None => None,
            },
            filter_protocols: match self.filter_protocols {
                Some(protocols) => Some(protocols@),
                None => None,
            },
            action: self.action,
            priority: self.priority,
        }
    }
}

impl Resource for VpcFirewallRule {
    open spec fn identity_of(&self) -> Identity {
        self.identity
    }

    open spec fn parent_of(&self) -> Uuid {
        self.vpc_id
    }

    proof fn lemma_view_has_identity(a: &Self, b: &Self) {
    }

    fn identity(&self) -> (res: &Identity) {
        &self.identity
    }

    fn parent_id(&self) -> (res: Uuid) {
        self.vpc_id
    }

    fn duplicate(&self) -> (res: Self) {
        let filter_hosts = match &self.filter_hosts {
            Some(hosts) => Some(duplicate_targets(hosts)),
            None => None,
        };
        let filter_ports = match &self.filter_ports {
            Some(ports) => Some(ports.clone()),
            None => None,
        };
        let filter_protocols = match &self.filter_protocols {
            Some(protocols) => Some(protocols.clone()),
            None => None,
        };
        proof {
            if self.filter_ports is Some {
                assert(filter_ports->0@ =~= self.filter_ports->0@);
            }
            if self.filter_protocols is Some {
                assert(filter_protocols->0@ =~= self.filter_protocols->0@);
            }
        }
        VpcFirewallRule {
            identity: self.identity.duplicate(),
            vpc_id: self.vpc_id,
            status: self.status,
            direction: self.direction,
            targets: duplicate_targets(&self.targets),
            filter_hosts,
            filter_ports,
            filter_protocols,
            action: self.action,
            priority: self.priority,
        }
    }
}

impl View for Project {
    type V = Project;

    open spec fn view(&self) -> Project {
        *self
    }
}

impl Resource for Project {
    open spec fn identity_of(&self) -> Identity {
        self.identity
    }

    open spec fn parent_of(&self) -> Uuid {
        self.silo_id
    }

    proof fn lemma_view_has_identity(a: &Self, b: &Self) {
    }

    fn identity(&self) -> (res: &Identity) {
        &self.identity
    }

    fn parent_id(&self) -> (res: Uuid) {
        self.silo_id
    }

    fn duplicate(&self) -> (res: Self) {
        Project {
            identity: self.identity.duplicate(),
            silo_id: self.silo_id,
            rcgen: self.rcgen,
        }
    }
}

impl View for Vpc {
    type V = Vpc;

    open spec fn view(&self) -> Vpc {
        *self
    }
}

impl Resource for Vpc {
    open spec fn identity_of(&self) -> Identity {
        self.identity
    }

    open spec fn parent_of(&self) -> Uuid {
        self.project_id
    }

    proof fn lemma_view_has_identity(a: &Self, b: &Self) {
    }

    fn identity(&self) -> (res: &Identity) {
        &self.identity
    }

    fn parent_id(&self) -> (res: Uuid) {
        self.project_id
    }

    fn duplicate(&self) -> (res: Self) {
        Vpc {
            identity: self.identity.duplicate(),
            project_id: self.project_id,
            system_router_id: self.system_router_id,
            vni: self.vni,
            ipv6_prefix: self.ipv6_prefix,
            dns_name: self.dns_name.clone(),
            firewall_gen: self.firewall_gen,
            subnet_gen: self.subnet_gen,
        }
    }
}

impl View for VpcSubnet {
    type V = VpcSubnet;

    open spec fn view(&self) -> VpcSubnet {
        *self
    }
}

impl Resource for VpcSubnet {
    open spec fn identity_of(&self) -> Identity {
        self.identity
    }

    open spec fn parent_of(&self) -> Uuid {
        self.vpc_id
    }

    proof fn lemma_view_has_identity(a: &Self, b: &Self) {
    }

    fn identity(&self) -> (res: &Identity) {
        &self.identity
    }

    fn parent_id(&self) -> (res: Uuid) {
        self.vpc_id
    }

    fn duplicate(&self) -> (res: Self) {
        VpcSubnet {
            identity: self.identity.duplicate(),
            vpc_id: self.vpc_id,
            rcgen: self.rcgen,
            ipv4_block: self.ipv4_block,
            ipv6_block: self.ipv6_block,
            custom_router_id: self.custom_router_id,
        }
    }
}

impl View for VpcRouter {
    type V = VpcRouter;

    open spec fn view(&self) -> VpcRouter {
        *self
    }
}

impl Resource for VpcRouter {
    open spec fn identity_of(&self) -> Identity {
        self.identity
    }

    open spec fn parent_of(&self) -> Uuid {
        self.vpc_id
    }

    proof fn lemma_view_has_identity(a: &Self, b: &Self) {
    }

    fn identity(&self) -> (res: &Identity) {
        &self.identity
    }

    fn parent_id(&self) -> (res: Uuid) {
        self.vpc_id
    }

    fn duplicate(&self) -> (res: Self) {
        VpcRouter {
            identity: self.identity.duplicate(),
            kind: self.kind,
            vpc_id: self.vpc_id,
            rcgen: self.rcgen,
        }
    }
}

impl View for RouterRoute {
    type V = RouterRoute;

    open spec fn view(&self) -> RouterRoute {
        *self
    }
}

impl Resource for RouterRoute {
    open spec fn identity_of(&self) -> Identity {
        self.identity
    }

    open spec fn parent_of(&self) -> Uuid {
        self.vpc_router_id
    }

    proof fn lemma_view_has_identity(a: &Self, b: &Self) {
    }

    fn identity(&self) -> (res: &Identity) {
        &self.identity
    }

    fn parent_id(&self) -> (res: Uuid) {
        self.vpc_router_id
    }

    fn duplicate(&self) -> (res: Self) {
        RouterRoute {
            identity: self.identity.duplicate(),
            vpc_router_id: self.vpc_router_id,
            kind: self.kind,
            target: self.target.duplicate(),
            destination: self.destination.duplicate(),
        }
    }
}

impl View for InstanceNetworkInterface {
    type V = InstanceNetworkInterface;

    open spec fn view(&self) -> InstanceNetworkInterface {
        *self
    }
}

impl Resource for InstanceNetworkInterface {
    open spec fn identity_of(&self) -> Identity {
        self.identity
    }

    open spec fn parent_of(&self) -> Uuid {
        self.subnet_id
    }

    proof fn lemma_view_has_identity(a: &Self, b: &Self) {
    }

    fn identity(&self) -> (res: &Identity) {
        &self.identity
    }

    fn parent_id(&self) -> (res: Uuid) {
        self.subnet_id
    }

    fn duplicate(&self) -> (res: Self) {
        InstanceNetworkInterface {
            identity: self.identity.duplicate(),
            instance_id: self.instance_id,
            vpc_id: self.vpc_id,
            subnet_id: self.subnet_id,
            mac: self.mac,
            ip: self.ip,
            slot: self.slot,
            primary: self.primary,
        }
    }
}

impl View for ServiceNetworkInterface {
    type V = ServiceNetworkInterface;

    open spec fn view(&self) -> ServiceNetworkInterface {
        *self
    }
}

impl Resource for ServiceNetworkInterface {
    open spec fn identity_of(&self) -> Identity {
        self.identity
    }

    open spec fn parent_of(&self) -> Uuid {
        self.subnet_id
    }

    proof fn lemma_view_has_identity(a: &Self, b: &Self) {
    }

    fn identity(&self) -> (res: &Identity) {
        &self.identity
    }

    fn parent_id(&self) -> (res: Uuid) {
        self.subnet_id
    }

    fn duplicate(&self) -> (res: Self) {
        ServiceNetworkInterface {
            identity: self.identity.duplicate(),
            service_id: self.service_id,
            vpc_id: self.vpc_id,
            subnet_id: self.subnet_id,
            mac: self.mac,
            ip: self.ip,
            slot: self.slot,
            primary: self.primary,
        }
    }
}

} // verus!
