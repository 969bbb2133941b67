//! The store: the tables of the control plane that concern VPCs, and the
//! operations on them.
//!
//! Each operation stands for one transaction. It checks the caller's
//! permission first, and either takes effect as a whole or leaves the store
//! as it was.

use crate::config::{InvalidTunable, Tunables, MAX_VPC_IPV4_SUBNET_PREFIX};
use crate::error::Uuid;
use crate::model::{
    BpOmicronZone, BpTarget, Instance, InstanceNetworkInterface, Project, RouterRoute,
    ServiceNetworkInterface, Sled, Timestamp, Vmm, Vpc, VpcFirewallRule, VpcRouter, VpcSubnet,
};
use crate::table::{ids_unique, names_unique};
use vstd::prelude::*;

pub mod builtin;
pub mod firewall;
pub mod resolve;
pub mod router;
pub mod subnet;
pub mod vpc;

verus! {

/// The tables of the store.
pub struct DataStore {
    pub(crate) max_vpc_ipv4_subnet_prefix: u8,
    pub(crate) projects: Vec<Project>,
    pub(crate) vpcs: Vec<Vpc>,
    pub(crate) vpc_subnets: Vec<VpcSubnet>,
    pub(crate) vpc_routers: Vec<VpcRouter>,
    pub(crate) router_routes: Vec<RouterRoute>,
    pub(crate) vpc_firewall_rules: Vec<VpcFirewallRule>,
    pub(crate) instance_network_interfaces: Vec<InstanceNetworkInterface>,
    pub(crate) service_network_interfaces: Vec<ServiceNetworkInterface>,
    pub(crate) instances: Vec<Instance>,
    pub(crate) vmms: Vec<Vmm>,
    pub(crate) sleds: Vec<Sled>,
    pub(crate) blueprints: Vec<Uuid>,
    pub(crate) bp_targets: Vec<BpTarget>,
    pub(crate) bp_omicron_zones: Vec<BpOmicronZone>,
}

/// Mathematical value of the store: each table as the sequence of its rows,
/// in the order in which they were inserted.
pub struct DataStoreView {
    pub max_vpc_ipv4_subnet_prefix: u8,
    pub projects: Seq<Project>,
    pub vpcs: Seq<Vpc>,
    pub vpc_subnets: Seq<VpcSubnet>,
    pub vpc_routers: Seq<VpcRouter>,
    pub router_routes: Seq<RouterRoute>,
    pub vpc_firewall_rules: Seq<VpcFirewallRule>,
    pub instance_network_interfaces: Seq<InstanceNetworkInterface>,
    pub service_network_interfaces: Seq<ServiceNetworkInterface>,
    pub instances: Seq<Instance>,
    pub vmms: Seq<Vmm>,
    pub sleds: Seq<Sled>,
    pub blueprints: Seq<Uuid>,
    pub bp_targets: Seq<BpTarget>,
    pub bp_omicron_zones: Seq<BpOmicronZone>,
}

impl View for DataStore {
    type V = DataStoreView;

    closed spec fn view(&self) -> DataStoreView {
        DataStoreView {
            max_vpc_ipv4_subnet_prefix: self.max_vpc_ipv4_subnet_prefix,
            projects: self.projects@,
            vpcs: self.vpcs@,
            vpc_subnets: self.vpc_subnets@,
            vpc_routers: self.vpc_routers@,
            router_routes: self.router_routes@,
            vpc_firewall_rules: self.vpc_firewall_rules@,
            instance_network_interfaces: self.instance_network_interfaces@,
            service_network_interfaces: self.service_network_interfaces@,
            instances: self.instances@,
            vmms: self.vmms@,
            sleds: self.sleds@,
            blueprints: self.blueprints@,
            bp_targets: self.bp_targets@,
            bp_omicron_zones: self.bp_omicron_zones@,
        }
    }
}

/// Some live VPC has the VNI.
pub open spec fn vni_in_use(vpcs: Seq<Vpc>, vni: int) -> bool {
    exists|j: int|
        0 <= j < vpcs.len() && (#[trigger] vpcs[j]).identity.live() && vpcs[j].vni.as_u32() == vni
}

/// Every VNI is in range, and no two live VPCs have the same VNI.
pub open spec fn vnis_unique(vpcs: Seq<Vpc>) -> bool {
    &&& forall|i: int| 0 <= i < vpcs.len() ==> (#[trigger] vpcs[i]).vni.valid()
    &&& forall|i: int, j: int|
        0 <= i < j < vpcs.len() && (#[trigger] vpcs[i]).identity.live() && (
        #[trigger] vpcs[j]).identity.live() ==> vpcs[i].vni.as_u32() != vpcs[j].vni.as_u32()
}

/// The two subnets are live siblings.
pub open spec fn live_siblings(a: VpcSubnet, b: VpcSubnet) -> bool {
    a.identity.live() && b.identity.live() && a.vpc_id == b.vpc_id
}

/// No two live subnets of one VPC share an address, IPv4 or IPv6.
pub open spec fn subnets_disjoint(subnets: Seq<VpcSubnet>) -> bool {
    forall|i: int, j: int|
        0 <= i < j < subnets.len() && live_siblings(#[trigger] subnets[i], #[trigger] subnets[j])
            ==> !subnets[i].ipv4_block.spec_overlaps(subnets[j].ipv4_block)
            && !subnets[i].ipv6_block.spec_overlaps(subnets[j].ipv6_block)
}

/// Every live subnet belongs to a live VPC.
pub open spec fn subnets_have_parents(vpcs: Seq<Vpc>, subnets: Seq<VpcSubnet>) -> bool {
    forall|j: int|
        0 <= j < subnets.len() && (#[trigger] subnets[j]).identity.live() ==> crate::table::has_live(
            vpcs,
            subnets[j].vpc_id,
        )
}

/// Every system router is the one that its VPC names.
pub open spec fn system_routers_anchored(vpcs: Seq<Vpc>, routers: Seq<VpcRouter>) -> bool {
    forall|j: int|
        0 <= j < routers.len() && (#[trigger] routers[j]).kind is System ==> exists|i: int|
            0 <= i < vpcs.len() && (#[trigger] vpcs[i]).identity.id == routers[j].vpc_id
                && vpcs[i].system_router_id == routers[j].identity.id
}

/// The route is live, of the router, and its default route.
pub open spec fn live_default_route(route: RouterRoute, router_id: Uuid) -> bool {
    route.identity.live() && route.vpc_router_id == router_id && route.kind is Default
}

/// No router has two live default routes.
pub open spec fn default_routes_unique(routes: Seq<RouterRoute>) -> bool {
    forall|i: int, j: int|
        0 <= i < j < routes.len() && live_default_route(
            #[trigger] routes[i],
            routes[j].vpc_router_id,
        ) ==> !live_default_route(#[trigger] routes[j], routes[j].vpc_router_id)
}

/// No two live interfaces of one instance sit in the same slot.
pub open spec fn instance_slots_unique(nics: Seq<InstanceNetworkInterface>) -> bool {
    forall|i: int, j: int|
        0 <= i < j < nics.len() && (#[trigger] nics[i]).identity.live() && (
        #[trigger] nics[j]).identity.live() && nics[i].instance_id == nics[j].instance_id
            ==> nics[i].slot != nics[j].slot
}

/// No two live interfaces of one zone sit in the same slot.
pub open spec fn service_slots_unique(nics: Seq<ServiceNetworkInterface>) -> bool {
    forall|i: int, j: int|
        0 <= i < j < nics.len() && (#[trigger] nics[i]).identity.live() && (
        #[trigger] nics[j]).identity.live() && nics[i].service_id == nics[j].service_id
            ==> nics[i].slot != nics[j].slot
}

/// No two sleds have the same id.
pub open spec fn sled_ids_unique(sleds: Seq<Sled>) -> bool {
    forall|i: int, j: int|
        0 <= i < j < sleds.len() ==> (#[trigger] sleds[i]).id != (#[trigger] sleds[j]).id
}

/// Each target has a greater version than the targets before it.
pub open spec fn targets_increasing(targets: Seq<BpTarget>) -> bool {
    forall|i: int, j: int|
        0 <= i < j < targets.len() ==> (#[trigger] targets[i]).version < (
        #[trigger] targets[j]).version
}

impl DataStoreView {
    /// The invariants of the store.
    pub open spec fn wf(self) -> bool {
        &&& ids_unique(self.projects)
        &&& ids_unique(self.vpcs)
        &&& names_unique(self.vpcs)
        &&& vnis_unique(self.vpcs)
        &&& ids_unique(self.vpc_subnets)
        &&& names_unique(self.vpc_subnets)
        &&& subnets_disjoint(self.vpc_subnets)
        &&& subnets_have_parents(self.vpcs, self.vpc_subnets)
        &&& ids_unique(self.vpc_routers)
        &&& names_unique(self.vpc_routers)
        &&& system_routers_anchored(self.vpcs, self.vpc_routers)
        &&& ids_unique(self.router_routes)
        &&& names_unique(self.router_routes)
        &&& default_routes_unique(self.router_routes)
        &&& ids_unique(self.vpc_firewall_rules)
        &&& names_unique(self.vpc_firewall_rules)
        &&& ids_unique(self.instance_network_interfaces)
        &&& instance_slots_unique(self.instance_network_interfaces)
        &&& ids_unique(self.service_network_interfaces)
        &&& service_slots_unique(self.service_network_interfaces)
        &&& sled_ids_unique(self.sleds)
        &&& targets_increasing(self.bp_targets)
    }
}

/// The time now, in microseconds since the Unix epoch.
///
/// Calls `chrono::Utc::now` and `DateTime::timestamp_micros`. Nothing is
/// claimed of the result: two calls may give any two values.
#[verifier::external_body]
pub(crate) fn utc_now() -> (now: Timestamp) {
    chrono::Utc::now().timestamp_micros()
}

/// A fresh random id.
///
/// Calls `uuid::Uuid::new_v4` and `Uuid::as_u128`. Nothing is claimed of
/// the result: it is any 128-bit value.
#[verifier::external_body]
pub(crate) fn new_uuid_v4() -> (id: Uuid) {
    uuid::Uuid::new_v4().as_u128()
}

impl DataStore {
    /// What the view of the store is made of.
    pub(crate) proof fn lemma_view(&self)
        ensures
            self@.max_vpc_ipv4_subnet_prefix == self.max_vpc_ipv4_subnet_prefix,
            self@.projects == self.projects@,
            self@.vpcs == self.vpcs@,
            self@.vpc_subnets == self.vpc_subnets@,
            self@.vpc_routers == self.vpc_routers@,
            self@.router_routes == self.router_routes@,
            self@.vpc_firewall_rules == self.vpc_firewall_rules@,
            self@.instance_network_interfaces == self.instance_network_interfaces@,
            self@.service_network_interfaces == self.service_network_interfaces@,
            self@.instances == self.instances@,
            self@.vmms == self.vmms@,
            self@.sleds == self.sleds@,
            self@.blueprints == self.blueprints@,
            self@.bp_targets == self.bp_targets@,
            self@.bp_omicron_zones == self.bp_omicron_zones@,
    {
    }

    /// An empty store with the given tunables, if they are valid.
    pub fn with_tunables(tunables: Tunables) -> (res: Result<DataStore, InvalidTunable>)
        ensures
            res is Ok <==> Tunables::valid_ipv4_prefix(tunables.max_vpc_ipv4_subnet_prefix),
            res matches Ok(store) ==> store@.wf() && store@.max_vpc_ipv4_subnet_prefix
                == tunables.max_vpc_ipv4_subnet_prefix && store@ == (DataStoreView {
                max_vpc_ipv4_subnet_prefix: tunables.max_vpc_ipv4_subnet_prefix,
                ..DataStore::spec_empty()
            }),
    {
        match Tunables::validate_ipv4_prefix(tunables.max_vpc_ipv4_subnet_prefix) {
            Err(e) => Err(e),
            Ok(()) => {
                let mut store = DataStore::new();
                store.max_vpc_ipv4_subnet_prefix = tunables.max_vpc_ipv4_subnet_prefix;
                Ok(store)
            },
        }
    }

    /// The empty store with the default tunables.
    pub open spec fn spec_empty() -> DataStoreView {
        DataStoreView {
            max_vpc_ipv4_subnet_prefix: MAX_VPC_IPV4_SUBNET_PREFIX,
            projects: Seq::empty(),
            vpcs: Seq::empty(),
            vpc_subnets: Seq::empty(),
            vpc_routers: Seq::empty(),
            router_routes: Seq::empty(),
            vpc_firewall_rules: Seq::empty(),
            instance_network_interfaces: Seq::empty(),
            service_network_interfaces: Seq::empty(),
            instances: Seq::empty(),
            vmms: Seq::empty(),
            sleds: Seq::empty(),
            blueprints: Seq::empty(),
            bp_targets: Seq::empty(),
            bp_omicron_zones: Seq::empty(),
        }
    }

    /// An empty store, with the default limit on the IPv4 prefix of a
    /// subnet.
    pub fn new() -> (res: DataStore)
        ensures
            res@.wf(),
            res@ == DataStore::spec_empty(),
    {
        DataStore {
            max_vpc_ipv4_subnet_prefix: MAX_VPC_IPV4_SUBNET_PREFIX,
            projects: Vec::new(),
            vpcs: Vec::new(),
            vpc_subnets: Vec::new(),
            vpc_routers: Vec::new(),
            router_routes: Vec::new(),
            vpc_firewall_rules: Vec::new(),
            instance_network_interfaces: Vec::new(),
            service_network_interfaces: Vec::new(),
            instances: Vec::new(),
            vmms: Vec::new(),
            sleds: Vec::new(),
            blueprints: Vec::new(),
            bp_targets: Vec::new(),
            bp_omicron_zones: Vec::new(),
        }
    }
}

} // verus!
