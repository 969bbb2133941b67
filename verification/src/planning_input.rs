//! Sled and disk eligibility: policies, states, and the filters over them.

use crate::error::Uuid;
use crate::ip_net::{IpNetwork, IpRange, Ipv6Net};
use crate::model::Generation;
use crate::network_resources::{
    AddNetworkResourceError, OmicronZoneExternalIp, OmicronZoneNetworkResources, OmicronZoneNic,
};
use crate::ordered_map::{insert_new, is_key_list, lookup, sorted_keys};
use std::collections::BTreeMap;
use vstd::prelude::*;

verus! {

/// Operator-set provisioning intent for an in-service sled.
#[derive(Clone, Copy, Debug, PartialEq, Eq, Hash, PartialOrd, Ord, Structural)]
pub enum SledProvisionPolicy {
    /// New resources may be placed on the sled.
    Provisionable,
    /// Existing resources stay, but nothing new is placed on the sled.
    NonProvisionable,
}

/// Operator intent for a sled.
#[derive(Clone, Copy, Debug, PartialEq, Eq, Hash, PartialOrd, Ord, Structural)]
pub enum SledPolicy {
    /// The sled is part of the control plane.
    InService { provision_policy: SledProvisionPolicy },
    /// The sled has been permanently removed from service.
    Expunged,
}

/// Observed lifecycle state of a sled.
#[derive(Clone, Copy, Debug, PartialEq, Eq, Hash, PartialOrd, Ord, Structural)]
pub enum SledState {
    /// The sled is a member of the control plane cluster.
    Active,
    /// The sled has left the control plane for good.
    Decommissioned,
}

/// Filters that apply to sleds.
///
/// Each variant names one use case; a new use case gets a new variant
/// rather than a new meaning for an old one.
#[derive(Clone, Copy, Debug, PartialEq, Eq, Hash, Structural)]
pub enum SledFilter {
    /// All sleds that are currently part of the control plane cluster.
    Commissioned,
    /// All sleds that were part of the cluster and have been decommissioned.
    Decommissioned,
    /// Sleds that are eligible for discretionary services.
    Discretionary,
    /// Sleds that are in service, eligible for discretionary services or not.
    InService,
    /// Sleds whose sled agents should be queried for inventory.
    QueryDuringInventory,
    /// Sleds on which reservations can be created.
    ReservationCreate,
    /// Sleds which should be sent VPC firewall rules.
    VpcFirewall,
}

impl SledPolicy {
    /// The policy column of the sled truth table.
    pub open spec fn spec_matches(self, filter: SledFilter) -> bool {
        match self {
            SledPolicy::InService { provision_policy: SledProvisionPolicy::Provisionable } => {
                !(filter is Decommissioned)
            },
            SledPolicy::InService { provision_policy: SledProvisionPolicy::NonProvisionable } => {
                filter is Commissioned || filter is InService || filter is QueryDuringInventory
                    || filter is VpcFirewall
            },
            SledPolicy::Expunged => filter is Commissioned || filter is Decommissioned,
        }
    }

    /// Returns true if this policy matches the filter.
    ///
    /// A sled matches a filter only when its state matches too: see
    /// [`SledFilter::matches_policy_and_state`].
    pub fn matches(self, filter: SledFilter) -> (res: bool)
        ensures
            res == self.spec_matches(filter),
    {
        match self {
            SledPolicy::InService { provision_policy: SledProvisionPolicy::Provisionable } => {
                match filter {
                    SledFilter::Commissioned => true,
                    SledFilter::Decommissioned => false,
                    SledFilter::Discretionary => true,
                    SledFilter::InService => true,
                    SledFilter::QueryDuringInventory => true,
                    SledFilter::ReservationCreate => true,
                    SledFilter::VpcFirewall => true,
                }
            },
            SledPolicy::InService { provision_policy: SledProvisionPolicy::NonProvisionable } => {
                match filter {
                    SledFilter::Commissioned => true,
                    SledFilter::Decommissioned => false,
                    SledFilter::Discretionary => false,
                    SledFilter::InService => true,
                    SledFilter::QueryDuringInventory => true,
                    SledFilter::ReservationCreate => false,
                    SledFilter::VpcFirewall => true,
                }
            },
            SledPolicy::Expunged => match filter {
                SledFilter::Commissioned => true,
                SledFilter::Decommissioned => true,
                SledFilter::Discretionary => false,
                SledFilter::InService => false,
                SledFilter::QueryDuringInventory => false,
                SledFilter::ReservationCreate => false,
                SledFilter::VpcFirewall => false,
            },
        }
    }
}


impl SledState {
    /// The state column of the sled truth table.
    pub open spec fn spec_matches(self, filter: SledFilter) -> bool {
        match self {
            SledState::Active => !(filter is Decommissioned),
            SledState::Decommissioned => filter is Decommissioned,
        }
    }

    /// Returns true if this state matches the filter.
    ///
    /// A sled matches a filter only when its policy matches too: see
    /// [`SledFilter::matches_policy_and_state`].
    pub fn matches(self, filter: SledFilter) -> (res: bool)
        ensures
            res == self.spec_matches(filter),
    {
        match self {
            SledState::Active => match filter {
                SledFilter::Commissioned => true,
                SledFilter::Decommissioned => false,
                SledFilter::Discretionary => true,
                SledFilter::InService => true,
                SledFilter::QueryDuringInventory => true,
                SledFilter::ReservationCreate => true,
                SledFilter::VpcFirewall => true,
            },
            SledState::Decommissioned => match filter {
                SledFilter::Commissioned => false,
                SledFilter::Decommissioned => true,
                SledFilter::Discretionary => false,
                SledFilter::InService => false,
                SledFilter::QueryDuringInventory => false,
                SledFilter::ReservationCreate => false,
                SledFilter::VpcFirewall => false,
            },
        }
    }

    /// Every sled state, in declaration order.
    pub open spec fn all() -> Seq<SledState> {
        seq![SledState::Active, SledState::Decommissioned]
    }

    /// Returns all states matching the given filter, in declaration order.
    ///
    /// Meant for building database predicates of the form
    /// `state IN (..)`, paired with [`SledPolicy::all_matching`].
    pub fn all_matching(filter: SledFilter) -> (res: Vec<SledState>)
        ensures
            res@ == Self::all().filter(|s: SledState| s.spec_matches(filter)),
    {
        let candidates = [SledState::Active, SledState::Decommissioned];
        let mut res: Vec<SledState> = Vec::new();
        let ghost pred = |s: SledState| s.spec_matches(filter);
        let mut i: usize = 0;
        while i < 2
            invariant
                i <= 2,
                candidates@ == Self::all(),
                pred == |s: SledState| s.spec_matches(filter),
                res@ == Self::all().take(i as int).filter(pred),
            decreases 2 - i,
        {
            let state = candidates[i];
            proof {
                lemma_filter_take_step(Self::all(), pred, i as int);
            }
            if state.matches(filter) {
                res.push(state);
            }
            i += 1;
        }
        assert(Self::all().take(2) == Self::all());
        res
    }
}

impl SledPolicy {
    /// Every sled policy, in declaration order.
    pub open spec fn all() -> Seq<SledPolicy> {
        seq![
            SledPolicy::InService { provision_policy: SledProvisionPolicy::Provisionable },
            SledPolicy::InService { provision_policy: SledProvisionPolicy::NonProvisionable },
            SledPolicy::Expunged,
        ]
    }

    /// Returns all policies matching the given filter, in declaration order.
    ///
    /// Meant for building database predicates of the form
    /// `policy IN (..)`, paired with [`SledState::all_matching`].
    pub fn all_matching(filter: SledFilter) -> (res: Vec<SledPolicy>)
        ensures
            res@ == Self::all().filter(|p: SledPolicy| p.spec_matches(filter)),
    {
        let candidates = [
            SledPolicy::InService { provision_policy: SledProvisionPolicy::Provisionable },
            SledPolicy::InService { provision_policy: SledProvisionPolicy::NonProvisionable },
            SledPolicy::Expunged,
        ];
        let mut res: Vec<SledPolicy> = Vec::new();
        let ghost pred = |p: SledPolicy| p.spec_matches(filter);
        let mut i: usize = 0;
        while i < 3
            invariant
                i <= 3,
                candidates@ == Self::all(),
                pred == |p: SledPolicy| p.spec_matches(filter),
                res@ == Self::all().take(i as int).filter(pred),
            decreases 3 - i,
        {
            let policy = candidates[i];
            proof {
                lemma_filter_take_step(Self::all(), pred, i as int);
            }
            if policy.matches(filter) {
                res.push(policy);
            }
            i += 1;
        }
        assert(Self::all().take(3) == Self::all());
        res
    }
}

impl SledFilter {
    /// A sled matches a filter iff its policy and its state both do.
    pub open spec fn spec_matches_policy_and_state(
        self,
        policy: SledPolicy,
        state: SledState,
    ) -> bool {
        policy.spec_matches(self) && state.spec_matches(self)
    }

    /// Returns true if this filter matches the provided policy and state.
    pub fn matches_policy_and_state(self, policy: SledPolicy, state: SledState) -> (res: bool)
        ensures
            res == self.spec_matches_policy_and_state(policy, state),
    {
        policy.matches(self) && state.matches(self)
    }
}

/// Operator intent for a physical disk.
#[derive(Clone, Copy, Debug, PartialEq, Eq, Hash, PartialOrd, Ord, Structural)]
pub enum PhysicalDiskPolicy {
    /// The disk is part of the control plane.
    InService,
    /// The disk has been permanently removed from service.
    Expunged,
}

/// Observed lifecycle state of a physical disk.
#[derive(Clone, Copy, Debug, PartialEq, Eq, Hash, PartialOrd, Ord, Structural)]
pub enum PhysicalDiskState {
    /// The disk is in use by the control plane.
    Active,
    /// The disk has been removed from the control plane for good.
    Decommissioned,
}

/// Filters that apply to disks.
#[derive(Clone, Copy, Debug, PartialEq, Eq, Hash, Structural)]
pub enum DiskFilter {
    /// All disks.
    All,
    /// All disks which are in service.
    InService,
}

/// Filters that apply to zpools.
#[derive(Clone, Copy, Debug, PartialEq, Eq, Hash, Structural)]
pub enum ZpoolFilter {
    /// All zpools.
    All,
    /// All zpools which are in service.
    InService,
}

/// A disk is in service when policy and state both say so.
pub open spec fn disk_in_service(policy: PhysicalDiskPolicy, state: PhysicalDiskState) -> bool {
    policy is InService && state is Active
}

impl DiskFilter {
    pub open spec fn spec_matches_policy_and_state(
        self,
        policy: PhysicalDiskPolicy,
        state: PhysicalDiskState,
    ) -> bool {
        self is All || disk_in_service(policy, state)
    }

    /// Returns true if this filter matches the provided policy and state.
    pub fn matches_policy_and_state(
        self,
        policy: PhysicalDiskPolicy,
        state: PhysicalDiskState,
    ) -> (res: bool)
        ensures
            res == self.spec_matches_policy_and_state(policy, state),
    {
        match self {
            DiskFilter::All => true,
            DiskFilter::InService => match (policy, state) {
                (PhysicalDiskPolicy::InService, PhysicalDiskState::Active) => true,
                _ => false,
            },
        }
    }
}

impl ZpoolFilter {
    pub open spec fn spec_matches_policy_and_state(
        self,
        policy: PhysicalDiskPolicy,
        state: PhysicalDiskState,
    ) -> bool {
        self is All || disk_in_service(policy, state)
    }

    /// Returns true if this filter matches the provided policy and state.
    pub fn matches_policy_and_state(
        self,
        policy: PhysicalDiskPolicy,
        state: PhysicalDiskState,
    ) -> (res: bool)
        ensures
            res == self.spec_matches_policy_and_state(policy, state),
    {
        match self {
            ZpoolFilter::All => true,
            ZpoolFilter::InService => match (policy, state) {
                (PhysicalDiskPolicy::InService, PhysicalDiskState::Active) => true,
                _ => false,
            },
        }
    }
}

/// Filtering one more element of a sequence either appends it or changes
/// nothing.
pub proof fn lemma_filter_take_step<A>(s: Seq<A>, pred: spec_fn(A) -> bool, i: int)
    requires
        0 <= i < s.len(),
    ensures
        s.take(i + 1).filter(pred) == if pred(s[i]) {
            s.take(i).filter(pred).push(s[i])
        } else {
            s.take(i).filter(pred)
        },
{
    assert(s.take(i + 1).drop_last() == s.take(i));
    reveal(Seq::filter);
}

/// The sled filter algebra factors: matching a filter is matching it on
/// the policy and on the state, for every policy, state and filter; and the
/// two factors are the truth tables of the policy and of the state.
pub proof fn lemma_sled_filter_product(filter: SledFilter, policy: SledPolicy, state: SledState)
    ensures
        filter.spec_matches_policy_and_state(policy, state) == (policy.spec_matches(filter)
            && state.spec_matches(filter)),
        filter is Decommissioned ==> (filter.spec_matches_policy_and_state(policy, state) <==> (
        policy is Expunged && state is Decommissioned)),
        filter is Commissioned ==> (filter.spec_matches_policy_and_state(policy, state)
            <==> state is Active),
        filter is InService || filter is QueryDuringInventory || filter is VpcFirewall ==> (
        filter.spec_matches_policy_and_state(policy, state) <==> (policy is InService
            && state is Active)),
        filter is Discretionary || filter is ReservationCreate ==> (
        filter.spec_matches_policy_and_state(policy, state) <==> (policy
            == SledPolicy::InService { provision_policy: SledProvisionPolicy::Provisionable }
            && state is Active)),
{
}

/// What identifies a physical disk.
#[derive(Clone, Debug, PartialEq, Eq)]
pub struct DiskIdentity {
    pub vendor: String,
    pub serial: String,
    pub model: String,
}

/// A disk that a sled manages.
#[derive(Clone, Debug, PartialEq, Eq)]
pub struct SledDisk {
    pub disk_identity: DiskIdentity,
    pub disk_id: Uuid,
    pub policy: PhysicalDiskPolicy,
    pub state: PhysicalDiskState,
}

impl SledDisk {
    /// Whether storage may be provisioned on the disk.
    pub open spec fn spec_provisionable(&self) -> bool {
        disk_in_service(self.policy, self.state)
    }

    fn provisionable(&self) -> (res: bool)
        ensures
            res == self.spec_provisionable(),
    {
        DiskFilter::InService.matches_policy_and_state(self.policy, self.state)
    }
}

/// The resources of a sled that the planner works with.
#[derive(Clone, Debug, PartialEq, Eq)]
pub struct SledResources {
    /// The zpools of the sled, each with the disk behind it.
    pub zpools: BTreeMap<Uuid, SledDisk>,
    /// The IPv6 subnet of the sled on the underlay network.
    pub subnet: Ipv6Net,
}

/// The ids are the ids of the map whose values the predicate holds of,
/// each once, in rising order.
pub open spec fn is_selection<V>(map: Map<Uuid, V>, keep: spec_fn(V) -> bool, ids: Seq<Uuid>)
    -> bool {
    &&& forall|i: int|
        0 <= i < ids.len() ==> map.contains_key(#[trigger] ids[i]) && keep(map[ids[i]])
    &&& forall|id: Uuid| map.contains_key(id) && keep(#[trigger] map[id]) ==> ids.contains(id)
    &&& forall|i: int, j: int| 0 <= i < j < ids.len() ==> ids[i] < ids[j]
}

impl SledResources {
    /// Whether the zpool is known, in service and active.
    pub fn zpool_is_provisionable(&self, zpool: &Uuid) -> (res: bool)
        ensures
            res == (self.zpools@.contains_key(*zpool) && self.zpools@[*zpool].spec_provisionable()),
    {
        match lookup(&self.zpools, *zpool) {
            None => false,
            Some(disk) => disk.provisionable(),
        }
    }

    /// The zpools with a disk that the filter matches, in the order of
    /// their ids.
    #[verifier::loop_isolation(false)]
    pub fn all_zpools(&self, filter: ZpoolFilter) -> (res: Vec<Uuid>)
        ensures
            is_selection(
                self.zpools@,
                |disk: SledDisk| filter.spec_matches_policy_and_state(disk.policy, disk.state),
                res@,
            ),
    {
        let ghost keep = |disk: SledDisk|
            filter.spec_matches_policy_and_state(disk.policy, disk.state);
        let keys = sorted_keys(&self.zpools);
        let mut res: Vec<Uuid> = Vec::new();
        let ghost mut src: Seq<int> = Seq::empty();
        let mut i: usize = 0;
        while i < keys.len()
            invariant
                i <= keys.len(),
                src.len() == res@.len(),
                forall|a: int|
                    0 <= a < src.len() ==> 0 <= #[trigger] src[a] < i && res@[a] == keys@[src[a]]
                        && keep(self.zpools@[res@[a]]),
                forall|a: int, b: int| 0 <= a < b < src.len() ==> #[trigger] src[a] < #[trigger] src[b],
                forall|k: int|
                    0 <= k < i && keep(self.zpools@[#[trigger] keys@[k]]) ==> res@.contains(keys@[k]),
            decreases keys.len() - i,
        {
            let id = keys[i];
            assert(self.zpools@.contains_key(keys@[i as int]));
            let wanted = match lookup(&self.zpools, id) {
                Some(disk) => filter.matches_policy_and_state(disk.policy, disk.state),
                None => false,
            };
            assert(wanted == keep(self.zpools@[id]));
            if wanted {
                let ghost before = res@;
                let ghost chosen = src;
                res.push(id);
                proof {
                    src = src.push(i as int);
                    assert forall|a: int| 0 <= a < src.len() implies 0 <= #[trigger] src[a] < i + 1
                        && res@[a] == keys@[src[a]] && keep(self.zpools@[res@[a]]) by {
                        if a < chosen.len() {
                            assert(src[a] == chosen[a]);
                            assert(res@[a] == before[a]);
                        }
                    }
                    assert forall|k: int|
                        0 <= k < i + 1 && keep(
                            self.zpools@[#[trigger] keys@[k]],
                        ) implies res@.contains(keys@[k]) by {
                        if k == i {
                            assert(res@[before.len() as int] == keys@[k]);
                        } else {
                            let w = choose|w: int| 0 <= w < before.len() && before[w] == keys@[k];
                            assert(res@[w] == keys@[k]);
                        }
                    }
                }
            }
            i += 1;
        }
        proof {
            assert forall|id: Uuid|
                self.zpools@.contains_key(id) && keep(
                    #[trigger] self.zpools@[id],
                ) implies res@.contains(id) by {
                assert(keys@.contains(id));
                let k = choose|k: int| 0 <= k < keys@.len() && keys@[k] == id;
                assert(keep(self.zpools@[keys@[k]]));
            }
            assert forall|a: int, b: int| 0 <= a < b < res@.len() implies res@[a] < res@[b] by {
                assert(src[a] < src[b]);
            }
            assert forall|a: int| 0 <= a < res@.len() implies self.zpools@.contains_key(
                #[trigger] res@[a],
            ) && keep(self.zpools@[res@[a]]) by {
                assert(res@[a] == keys@[src[a]]);
                assert(self.zpools@.contains_key(keys@[src[a]]));
            }
        }
        res
    }

    /// The zpools with a disk that the filter matches, each with its disk,
    /// in the order of their ids.
    #[verifier::loop_isolation(false)]
    pub fn all_disks(&self, filter: DiskFilter) -> (res: Vec<(Uuid, &SledDisk)>)
        ensures
            is_selection(
                self.zpools@,
                |disk: SledDisk| filter.spec_matches_policy_and_state(disk.policy, disk.state),
                res@.map_values(|entry: (Uuid, &SledDisk)| entry.0),
            ),
            forall|i: int| 0 <= i < res@.len() ==> *(#[trigger] res@[i]).1 == self.zpools@[res@[i].0],
    {
        let zpool_filter = match filter {
            DiskFilter::All => ZpoolFilter::All,
            DiskFilter::InService => ZpoolFilter::InService,
        };
        let ids = self.all_zpools(zpool_filter);
        let ghost keep = |disk: SledDisk|
            filter.spec_matches_policy_and_state(disk.policy, disk.state);
        let ghost zkeep = |disk: SledDisk|
            zpool_filter.spec_matches_policy_and_state(disk.policy, disk.state);
        let mut res: Vec<(Uuid, &SledDisk)> = Vec::new();
        let mut i: usize = 0;
        while i < ids.len()
            invariant
                i <= ids.len(),
                res@.len() == i,
                forall|a: int|
                    0 <= a < i ==> (#[trigger] res@[a]).0 == ids@[a] && *res@[a].1
                        == self.zpools@[ids@[a]],
            decreases ids.len() - i,
        {
            let id = ids[i];
            assert(self.zpools@.contains_key(ids@[i as int]));
            match lookup(&self.zpools, id) {
                Some(disk) => {
                    res.push((id, disk));
                },
                None => {},
            }
            i += 1;
        }
        proof {
            let listed = res@.map_values(|entry: (Uuid, &SledDisk)| entry.0);
            assert(listed =~= ids@);
            assert forall|id: Uuid|
                self.zpools@.contains_key(id) && keep(
                    #[trigger] self.zpools@[id],
                ) implies listed.contains(id) by {
                assert(zkeep(self.zpools@[id]));
            }
            assert forall|a: int| 0 <= a < listed.len() implies self.zpools@.contains_key(
                #[trigger] listed[a],
            ) && keep(self.zpools@[listed[a]]) by {
                assert(zkeep(self.zpools@[ids@[a]]));
            }
        }
        res
    }
}

/// Fleet-wide deployment policy: what operators set directly.
#[derive(Clone, Debug, PartialEq, Eq)]
pub struct Policy {
    /// The ranges of the IP pool for the externally visible control-plane
    /// services.
    pub service_ip_pool_ranges: Vec<IpRange>,
    /// The desired number of deployed Nexus zones.
    pub target_nexus_zone_count: usize,
}

/// What the planner knows of a sled.
#[derive(Clone, Debug, PartialEq, Eq)]
pub struct SledDetails {
    pub policy: SledPolicy,
    pub state: SledState,
    pub resources: SledResources,
}

/// Why a planning input could not be built.
#[derive(Clone, Copy, Debug, PartialEq, Eq, Structural)]
pub enum PlanningInputBuildError {
    /// A sled with the id was added before.
    DuplicateSledId(Uuid),
    /// The zone has a range of IPs, where a single IP is supported.
    NotSingleIp { zone_id: Uuid, ip: IpNetwork },
    /// A network resource clashes with one added before.
    AddNetworkResource(AddNetworkResourceError),
    /// The zone has an ephemeral IP, which is not supported.
    EphemeralIpUnsupported(Uuid),
    /// The zone has a source NAT configuration that is not valid.
    BadSnatConfig { zone_id: Uuid },
}

/// Policy and database inputs to the planner.
///
/// Each zone has at most one external IP and at most one network
/// interface, and each of those belongs to one zone only.
#[derive(Debug, PartialEq, Eq)]
pub struct PlanningInput {
    policy: Policy,
    internal_dns_version: Generation,
    external_dns_version: Generation,
    sleds: BTreeMap<Uuid, SledDetails>,
    network_resources: OmicronZoneNetworkResources,
}

/// Constructor for [`PlanningInput`].
#[derive(Debug, PartialEq, Eq)]
pub struct PlanningInputBuilder {
    policy: Policy,
    internal_dns_version: Generation,
    external_dns_version: Generation,
    sleds: BTreeMap<Uuid, SledDetails>,
    network_resources: OmicronZoneNetworkResources,
}

/// Mathematical value of a planning input, and of its builder.
pub struct PlanningInputView {
    pub policy: Policy,
    pub internal_dns_version: Generation,
    pub external_dns_version: Generation,
    pub sleds: Map<Uuid, SledDetails>,
    pub network_resources: OmicronZoneNetworkResources,
}

impl View for PlanningInput {
    type V = PlanningInputView;

    closed spec fn view(&self) -> PlanningInputView {
        PlanningInputView {
            policy: self.policy,
            internal_dns_version: self.internal_dns_version,
            external_dns_version: self.external_dns_version,
            sleds: self.sleds@,
            network_resources: self.network_resources,
        }
    }
}

impl View for PlanningInputBuilder {
    type V = PlanningInputView;

    closed spec fn view(&self) -> PlanningInputView {
        PlanningInputView {
            policy: self.policy,
            internal_dns_version: self.internal_dns_version,
            external_dns_version: self.external_dns_version,
            sleds: self.sleds@,
            network_resources: self.network_resources,
        }
    }
}

/// The sled is one that the filter matches.
pub open spec fn sled_matches(filter: SledFilter, details: SledDetails) -> bool {
    filter.spec_matches_policy_and_state(details.policy, details.state)
}

impl PlanningInput {
    pub fn internal_dns_version(&self) -> (res: Generation)
        ensures
            res == self@.internal_dns_version,
    {
        self.internal_dns_version
    }

    pub fn external_dns_version(&self) -> (res: Generation)
        ensures
            res == self@.external_dns_version,
    {
        self.external_dns_version
    }

    pub fn target_nexus_zone_count(&self) -> (res: usize)
        ensures
            res == self@.policy.target_nexus_zone_count,
    {
        self.policy.target_nexus_zone_count
    }

    pub fn service_ip_pool_ranges(&self) -> (res: &Vec<IpRange>)
        ensures
            *res == self@.policy.service_ip_pool_ranges,
    {
        &self.policy.service_ip_pool_ranges
    }

    /// The ids of the sleds that the filter matches, in rising order.
    #[verifier::loop_isolation(false)]
    pub fn all_sled_ids(&self, filter: SledFilter) -> (res: Vec<Uuid>)
        ensures
            is_selection(
                self@.sleds,
                |details: SledDetails| sled_matches(filter, details),
                res@,
            ),
    {
        let ghost keep = |details: SledDetails| sled_matches(filter, details);
        let keys = sorted_keys(&self.sleds);
        let mut res: Vec<Uuid> = Vec::new();
        let ghost mut src: Seq<int> = Seq::empty();
        let mut i: usize = 0;
        while i < keys.len()
            invariant
                i <= keys.len(),
                src.len() == res@.len(),
                forall|a: int|
                    0 <= a < src.len() ==> 0 <= #[trigger] src[a] < i && res@[a] == keys@[src[a]]
                        && keep(self.sleds@[res@[a]]),
                forall|a: int, b: int| 0 <= a < b < src.len() ==> #[trigger] src[a] < #[trigger] src[b],
                forall|k: int|
                    0 <= k < i && keep(self.sleds@[#[trigger] keys@[k]]) ==> res@.contains(keys@[k]),
            decreases keys.len() - i,
        {
            let id = keys[i];
            let wanted = match lookup(&self.sleds, id) {
                Some(details) => filter.matches_policy_and_state(details.policy, details.state),
                None => false,
            };
            if wanted {
                let ghost before = res@;
                res.push(id);
                proof {
                    src = src.push(i as int);
                    assert forall|k: int|
                        0 <= k < i + 1 && keep(
                            self.sleds@[#[trigger] keys@[k]],
                        ) implies res@.contains(keys@[k]) by {
                        if k == i {
                            assert(res@[before.len() as int] == keys@[k]);
                        } else {
                            let w = choose|w: int| 0 <= w < before.len() && before[w] == keys@[k];
                            assert(res@[w] == keys@[k]);
                        }
                    }
                }
            }
            i += 1;
        }
        proof {
            assert forall|id: Uuid|
                self.sleds@.contains_key(id) && keep(
                    #[trigger] self.sleds@[id],
                ) implies res@.contains(id) by {
                assert(keys@.contains(id));
                let k = choose|k: int| 0 <= k < keys@.len() && keys@[k] == id;
                assert(keep(self.sleds@[keys@[k]]));
            }
            assert forall|a: int, b: int| 0 <= a < b < res@.len() implies res@[a] < res@[b] by {
                assert(src[a] < src[b]);
            }
            assert forall|a: int| 0 <= a < res@.len() implies self.sleds@.contains_key(
                #[trigger] res@[a],
            ) && keep(self.sleds@[res@[a]]) by {
                assert(res@[a] == keys@[src[a]]);
                assert(self.sleds@.contains_key(keys@[src[a]]));
            }
        }
        res
    }

    /// The sleds that the filter matches, each with its id, in the order of
    /// the ids.
    #[verifier::loop_isolation(false)]
    pub fn all_sleds(&self, filter: SledFilter) -> (res: Vec<(Uuid, &SledDetails)>)
        ensures
            is_selection(
                self@.sleds,
                |details: SledDetails| sled_matches(filter, details),
                res@.map_values(|entry: (Uuid, &SledDetails)| entry.0),
            ),
            forall|i: int| 0 <= i < res@.len() ==> *(#[trigger] res@[i]).1 == self@.sleds[res@[i].0],
    {
        let ids = self.all_sled_ids(filter);
        let mut res: Vec<(Uuid, &SledDetails)> = Vec::new();
        let mut i: usize = 0;
        while i < ids.len()
            invariant
                i <= ids.len(),
                res@.len() == i,
                forall|a: int|
                    0 <= a < i ==> (#[trigger] res@[a]).0 == ids@[a] && *res@[a].1
                        == self.sleds@[ids@[a]],
            decreases ids.len() - i,
        {
            let id = ids[i];
            assert(self.sleds@.contains_key(ids@[i as int]));
            match lookup(&self.sleds, id) {
                Some(details) => {
                    res.push((id, details));
                },
                None => {},
            }
            i += 1;
        }
        assert(res@.map_values(|entry: (Uuid, &SledDetails)| entry.0) =~= ids@);
        res
    }

    /// The resources of the sleds that the filter matches, each with the id
    /// of its sled, in the order of the ids.
    #[verifier::loop_isolation(false)]
    pub fn all_sled_resources(&self, filter: SledFilter) -> (res: Vec<(Uuid, &SledResources)>)
        ensures
            is_selection(
                self@.sleds,
                |details: SledDetails| sled_matches(filter, details),
                res@.map_values(|entry: (Uuid, &SledResources)| entry.0),
            ),
            forall|i: int|
                0 <= i < res@.len() ==> *(#[trigger] res@[i]).1 == self@.sleds[res@[i].0].resources,
    {
        let ids = self.all_sled_ids(filter);
        let mut res: Vec<(Uuid, &SledResources)> = Vec::new();
        let mut i: usize = 0;
        while i < ids.len()
            invariant
                i <= ids.len(),
                res@.len() == i,
                forall|a: int|
                    0 <= a < i ==> (#[trigger] res@[a]).0 == ids@[a] && *res@[a].1
                        == self.sleds@[ids@[a]].resources,
            decreases ids.len() - i,
        {
            let id = ids[i];
            assert(self.sleds@.contains_key(ids@[i as int]));
            match lookup(&self.sleds, id) {
                Some(details) => {
                    res.push((id, &details.resources));
                },
                None => {},
            }
            i += 1;
        }
        assert(res@.map_values(|entry: (Uuid, &SledResources)| entry.0) =~= ids@);
        res
    }

    /// The policy of the sled with the id.
    pub fn sled_policy(&self, sled_id: &Uuid) -> (res: Option<SledPolicy>)
        ensures
            res == if self@.sleds.contains_key(*sled_id) {
                Some(self@.sleds[*sled_id].policy)
            } else {
                None
            },
    {
        match lookup(&self.sleds, *sled_id) {
            Some(details) => Some(details.policy),
            None => None,
        }
    }

    /// The resources of the sled with the id.
    pub fn sled_resources(&self, sled_id: &Uuid) -> (res: Option<&SledResources>)
        ensures
            res is Some <==> self@.sleds.contains_key(*sled_id),
            res matches Some(resources) ==> *resources == self@.sleds[*sled_id].resources,
    {
        match lookup(&self.sleds, *sled_id) {
            Some(details) => Some(&details.resources),
            None => None,
        }
    }

    pub fn network_resources(&self) -> (res: &OmicronZoneNetworkResources)
        ensures
            *res == self@.network_resources,
    {
        &self.network_resources
    }

    /// The builder that builds this input again.
    pub fn into_builder(self) -> (res: PlanningInputBuilder)
        ensures
            res@ == self@,
    {
        PlanningInputBuilder {
            policy: self.policy,
            internal_dns_version: self.internal_dns_version,
            external_dns_version: self.external_dns_version,
            sleds: self.sleds,
            network_resources: self.network_resources,
        }
    }
}

impl PlanningInputBuilder {
    /// The input without sleds, ranges or network resources.
    pub fn empty_input() -> (res: PlanningInput)
        ensures
            res@.policy.service_ip_pool_ranges@.len() == 0,
            res@.policy.target_nexus_zone_count == 0,
            res@.internal_dns_version == Generation(1),
            res@.external_dns_version == Generation(1),
            res@.sleds == Map::<Uuid, SledDetails>::empty(),
            res@.network_resources.external_ips().len() == 0,
            res@.network_resources.nics().len() == 0,
    {
        PlanningInput {
            policy: Policy { service_ip_pool_ranges: Vec::new(), target_nexus_zone_count: 0 },
            internal_dns_version: Generation::new(),
            external_dns_version: Generation::new(),
            sleds: BTreeMap::new(),
            network_resources: OmicronZoneNetworkResources::new(),
        }
    }

    /// A builder with the policy and the DNS versions, and nothing else.
    pub fn new(policy: Policy, internal_dns_version: Generation, external_dns_version: Generation)
        -> (res: PlanningInputBuilder)
        ensures
            res@.policy == policy,
            res@.internal_dns_version == internal_dns_version,
            res@.external_dns_version == external_dns_version,
            res@.sleds == Map::<Uuid, SledDetails>::empty(),
            res@.network_resources.external_ips().len() == 0,
            res@.network_resources.nics().len() == 0,
    {
        PlanningInputBuilder {
            policy,
            internal_dns_version,
            external_dns_version,
            sleds: BTreeMap::new(),
            network_resources: OmicronZoneNetworkResources::new(),
        }
    }

    /// Adds a sled, unless a sled with the id was added before.
    pub fn add_sled(&mut self, sled_id: Uuid, details: SledDetails) -> (res: Result<
        (),
        PlanningInputBuildError,
    >)
        ensures
            old(self)@.sleds.contains_key(sled_id) ==> res == Err::<(), PlanningInputBuildError>(
                PlanningInputBuildError::DuplicateSledId(sled_id),
            ) && final(self)@ == old(self)@,
            !old(self)@.sleds.contains_key(sled_id) ==> res is Ok && final(self)@ == (
            PlanningInputView { sleds: old(self)@.sleds.insert(sled_id, details), ..old(self)@ }),
    {
        if insert_new(&mut self.sleds, sled_id, details) {
            Ok(())
        } else {
            Err(PlanningInputBuildError::DuplicateSledId(sled_id))
        }
    }

    /// Adds an external IP of a zone.
    pub fn add_omicron_zone_external_ip(&mut self, zone_id: Uuid, ip: OmicronZoneExternalIp) -> (res:
        Result<(), PlanningInputBuildError>)
        ensures
            final(self)@ == (PlanningInputView {
                network_resources: final(self)@.network_resources,
                ..old(self)@
            }),
            final(self)@.network_resources.nics() == old(self)@.network_resources.nics(),
            res is Ok ==> final(self)@.network_resources.external_ips().contains((zone_id, ip)),
            res matches Err(e) ==> e == PlanningInputBuildError::AddNetworkResource(
                AddNetworkResourceError::DuplicateOmicronZoneExternalIp { zone_id, ip },
            ) && final(self)@.network_resources.external_ips() == old(self)@.network_resources.external_ips(),
            res is Err <==> !old(self)@.network_resources.external_ips().contains((zone_id, ip))
                && crate::network_resources::ip_clashes(
                old(self)@.network_resources.external_ips(),
                (zone_id, ip),
            ),
    {
        match self.network_resources.add_external_ip(zone_id, ip) {
            Ok(()) => {
                proof {
                    let before = old(self)@.network_resources.external_ips();
                    if !before.contains((zone_id, ip)) {
                        assert(before.push((zone_id, ip))[before.len() as int] == (zone_id, ip));
                    }
                }
                Ok(())
            },
            Err(e) => Err(PlanningInputBuildError::AddNetworkResource(e)),
        }
    }

    /// Adds a network interface of a zone.
    pub fn add_omicron_zone_nic(&mut self, zone_id: Uuid, nic: OmicronZoneNic) -> (res: Result<
        (),
        PlanningInputBuildError,
    >)
        ensures
            final(self)@ == (PlanningInputView {
                network_resources: final(self)@.network_resources,
                ..old(self)@
            }),
            final(self)@.network_resources.external_ips() == old(self)@.network_resources.external_ips(),
            res is Ok ==> final(self)@.network_resources.nics().contains((zone_id, nic)),
            res matches Err(e) ==> e == PlanningInputBuildError::AddNetworkResource(
                AddNetworkResourceError::DuplicateOmicronZoneNic { zone_id, nic },
            ) && final(self)@.network_resources.nics() == old(self)@.network_resources.nics(),
            res is Err <==> !old(self)@.network_resources.nics().contains((zone_id, nic))
                && crate::network_resources::nic_clashes(
                old(self)@.network_resources.nics(),
                (zone_id, nic),
            ),
    {
        match self.network_resources.add_nic(zone_id, nic) {
            Ok(()) => {
                proof {
                    let before = old(self)@.network_resources.nics();
                    if !before.contains((zone_id, nic)) {
                        assert(before.push((zone_id, nic))[before.len() as int] == (zone_id, nic));
                    }
                }
                Ok(())
            },
            Err(e) => Err(PlanningInputBuildError::AddNetworkResource(e)),
        }
    }

    /// The network resources, to be changed in place.
    pub fn network_resources_mut(&mut self) -> (res: &mut OmicronZoneNetworkResources)
        ensures
            *res == old(self)@.network_resources,
            final(self)@ == (PlanningInputView {
                network_resources: *final(res),
                ..old(self)@
            }),
    {
        &mut self.network_resources
    }

    /// The policy, to be changed in place.
    pub fn policy_mut(&mut self) -> (res: &mut Policy)
        ensures
            *res == old(self)@.policy,
            final(self)@ == (PlanningInputView { policy: *final(res), ..old(self)@ }),
    {
        &mut self.policy
    }

    /// The sleds added so far.
    pub fn sleds(&mut self) -> (res: &BTreeMap<Uuid, SledDetails>)
        ensures
            res@ == old(self)@.sleds,
            final(self)@ == old(self)@,
    {
        &self.sleds
    }

    /// The sleds added so far, to be changed in place.
    pub fn sleds_mut(&mut self) -> (res: &mut BTreeMap<Uuid, SledDetails>)
        ensures
            res@ == old(self)@.sleds,
            final(self)@ == (PlanningInputView { sleds: final(res)@, ..old(self)@ }),
    {
        &mut self.sleds
    }

    pub fn set_internal_dns_version(&mut self, new_version: Generation)
        ensures
            final(self)@ == (PlanningInputView { internal_dns_version: new_version, ..old(self)@ }),
    {
        self.internal_dns_version = new_version;
    }

    pub fn set_external_dns_version(&mut self, new_version: Generation)
        ensures
            final(self)@ == (PlanningInputView { external_dns_version: new_version, ..old(self)@ }),
    {
        self.external_dns_version = new_version;
    }

    /// The input that has been built.
    pub fn build(self) -> (res: PlanningInput)
        ensures
            res@ == self@,
    {
        PlanningInput {
            policy: self.policy,
            internal_dns_version: self.internal_dns_version,
            external_dns_version: self.external_dns_version,
            sleds: self.sleds,
            network_resources: self.network_resources,
        }
    }
}

} // verus!
