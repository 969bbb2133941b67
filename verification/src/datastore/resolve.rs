//! Which sleds host a VPC, and the operations that record what the answer
//! depends on: sleds, instances and their VMMs, network interfaces,
//! blueprints and the target blueprint.
//!
//! A sled hosts a VPC if a live instance with a live interface on the VPC
//! runs on it, or if the current target blueprint places a zone with a live
//! interface on the VPC on it. The target blueprint counts whether or not
//! it is enabled: it says what is intended, and firewall rules have to be
//! on a sled before a zone starts there.

use crate::datastore::subnet::lemma_update_subnet_keeps_rest;
use crate::datastore::vpc::generation_exhausted;
use crate::datastore::{
    instance_slots_unique, service_slots_unique, sled_ids_unique, targets_increasing, DataStore,
    DataStoreView,
};
use crate::error::{Error, ErrorView, LookupType, LookupTypeView, ResourceType, Uuid};
use crate::model::{
    BlueprintTarget, BlueprintZoneConfig, BlueprintZoneFilter, BpOmicronZone, BpTarget,
    Generation, Instance, InstanceNetworkInterface, Resource, ServiceNetworkInterface, Sled,
    Timestamp, Vmm, VpcSubnet,
};
use crate::planning_input::{lemma_filter_take_step, SledFilter};
use crate::table::{
    find_live, has_live, id_in_use, is_id_in_use, lemma_live_index, lemma_push_keeps_unique,
    lemma_update_keeps_unique, live_index,
};
use vstd::prelude::*;
use vstd::string::*;

verus! {

/// The message of the error for an interface whose slot is taken.
pub open spec fn slot_in_use_message() -> Seq<char> {
    "network interface slot is in use"@
}

/// The blueprint is the current target: no target has a greater version
/// than one that names it.
pub open spec fn is_current_target(targets: Seq<BpTarget>, blueprint_id: Uuid) -> bool {
    exists|i: int|
        0 <= i < targets.len() && (#[trigger] targets[i]).blueprint_id == blueprint_id
            && is_latest(targets, targets[i].version)
}

/// No target has a greater version.
pub open spec fn is_latest(targets: Seq<BpTarget>, version: u64) -> bool {
    forall|j: int| 0 <= j < targets.len() ==> (#[trigger] targets[j]).version <= version
}

/// A live VMM with the id runs on the sled.
pub open spec fn vmm_on_sled(vmms: Seq<Vmm>, vmm_id: Uuid, sled_id: Uuid) -> bool {
    exists|v: int|
        0 <= v < vmms.len() && (#[trigger] vmms[v]).id == vmm_id && vmms[v].time_deleted is None
            && vmms[v].sled_id == sled_id
}

/// A live instance with the id runs on the sled.
pub open spec fn instance_on_sled(
    instances: Seq<Instance>,
    vmms: Seq<Vmm>,
    instance_id: Uuid,
    sled_id: Uuid,
) -> bool {
    exists|i: int|
        0 <= i < instances.len() && (#[trigger] instances[i]).id == instance_id
            && instances[i].time_deleted is None && instances[i].active_propolis_id is Some
            && vmm_on_sled(vmms, instances[i].active_propolis_id->0, sled_id)
}

/// The current target blueprint places a zone with the id on the sled, and
/// the zone is one whose sled firewall rules go to.
pub open spec fn zone_on_sled(
    zones: Seq<BpOmicronZone>,
    targets: Seq<BpTarget>,
    zone_id: Uuid,
    sled_id: Uuid,
) -> bool {
    exists|z: int|
        0 <= z < zones.len() && (#[trigger] zones[z]).id == zone_id && zones[z].sled_id == sled_id
            && zones[z].disposition.spec_matches(BlueprintZoneFilter::ShouldDeployVpcFirewallRules)
            && is_current_target(targets, zones[z].blueprint_id)
}

/// The blueprint has been inserted.
pub open spec fn blueprint_known(blueprints: Seq<Uuid>, id: Uuid) -> bool {
    blueprints.contains(id)
}

/// Some row of the table has the id.
pub open spec fn sled_known(sleds: Seq<Sled>, id: Uuid) -> bool {
    exists|j: int| 0 <= j < sleds.len() && (#[trigger] sleds[j]).id == id
}

/// The first position of a row with the id.
pub open spec fn first_sled(sleds: Seq<Sled>, id: Uuid, at: int) -> bool {
    &&& 0 <= at < sleds.len()
    &&& sleds[at].id == id
    &&& forall|j: int| 0 <= j < at ==> (#[trigger] sleds[j]).id != id
}

/// The rows that a blueprint adds to the table of zones.
pub open spec fn zone_rows(blueprint_id: Uuid, zones: Seq<BlueprintZoneConfig>) -> Seq<
    BpOmicronZone,
> {
    Seq::new(
        zones.len(),
        |i: int|
            BpOmicronZone {
                blueprint_id,
                sled_id: zones[i].sled_id,
                id: zones[i].id,
                disposition: zones[i].disposition,
            },
    )
}

impl DataStoreView {
    /// A live instance with a live interface on the VPC runs on the sled.
    pub open spec fn hosts_guest(self, vpc_id: Uuid, sled_id: Uuid) -> bool {
        exists|n: int|
            0 <= n < self.instance_network_interfaces.len() && (
            #[trigger] self.instance_network_interfaces[n]).identity.live()
                && self.instance_network_interfaces[n].vpc_id == vpc_id && instance_on_sled(
                self.instances,
                self.vmms,
                self.instance_network_interfaces[n].instance_id,
                sled_id,
            )
    }

    /// The current target blueprint places a zone with a live interface on
    /// the VPC on the sled.
    pub open spec fn hosts_service(self, vpc_id: Uuid, sled_id: Uuid) -> bool {
        exists|n: int|
            0 <= n < self.service_network_interfaces.len() && (
            #[trigger] self.service_network_interfaces[n]).identity.live()
                && self.service_network_interfaces[n].vpc_id == vpc_id && zone_on_sled(
                self.bp_omicron_zones,
                self.bp_targets,
                self.service_network_interfaces[n].service_id,
                sled_id,
            )
    }

    /// The sled is one that firewall rules of the VPC go to: it is live, it
    /// matches the filter for firewall rules, it is on the allow-list
    /// unless that is empty, and it hosts the VPC.
    pub open spec fn resolves(self, vpc_id: Uuid, sleds_filter: Seq<Uuid>, sled: Sled) -> bool {
        &&& sled.time_deleted is None
        &&& SledFilter::VpcFirewall.spec_matches_policy_and_state(sled.policy, sled.state)
        &&& sleds_filter.len() == 0 || sleds_filter.contains(sled.id)
        &&& self.hosts_guest(vpc_id, sled.id) || self.hosts_service(vpc_id, sled.id)
    }

    /// The sleds that firewall rules of the VPC go to, in the order of the
    /// table of sleds.
    pub open spec fn resolved_sleds(self, vpc_id: Uuid, sleds_filter: Seq<Uuid>) -> Seq<Sled> {
        self.sleds.filter(|sled: Sled| self.resolves(vpc_id, sleds_filter, sled))
    }
}

/// With versions that only grow, the current target is the blueprint of
/// the last entry.
pub proof fn lemma_current_target_is_last(targets: Seq<BpTarget>, blueprint_id: Uuid)
    requires
        targets_increasing(targets),
    ensures
        is_current_target(targets, blueprint_id) <==> targets.len() > 0
            && targets.last().blueprint_id == blueprint_id,
{
    if targets.len() > 0 {
        let last = targets.len() - 1;
        assert(is_latest(targets, targets[last].version)) by {
            assert forall|j: int| 0 <= j < targets.len() implies (#[trigger] targets[j]).version
                <= targets[last].version by {
                if j < last {
                    assert(targets[j].version < targets[last].version);
                }
            }
        }
        if is_current_target(targets, blueprint_id) {
            let i = choose|i: int|
                0 <= i < targets.len() && (#[trigger] targets[i]).blueprint_id == blueprint_id
                    && is_latest(targets, targets[i].version);
            if i < last {
                assert(targets[i].version < targets[last].version);
                assert(targets[last].version <= targets[i].version);
            }
        }
    }
}

impl DataStore {
    /// Inserts a sled, or replaces the sled with the same id.
    #[verifier::loop_isolation(false)]
    pub fn sled_upsert(&mut self, sled: Sled)
        requires
            old(self)@.wf(),
        ensures
            final(self)@.wf(),
            !sled_known(old(self)@.sleds, sled.id) ==> final(self)@ == (DataStoreView {
                sleds: old(self)@.sleds.push(sled),
                ..old(self)@
            }),
            sled_known(old(self)@.sleds, sled.id) ==> exists|at: int|
                first_sled(old(self)@.sleds, sled.id, at) && final(self)@ == (DataStoreView {
                    sleds: old(self)@.sleds.update(at, sled),
                    ..old(self)@
                }),
    {
        proof {
            self.lemma_view();
        }
        let ghost pre = self@;
        let mut i: usize = 0;
        while i < self.sleds.len()
            invariant
                i <= self.sleds.len(),
                self@ == pre,
                forall|j: int| 0 <= j < i ==> (#[trigger] self.sleds@[j]).id != sled.id,
            decreases self.sleds.len() - i,
        {
            if self.sleds[i].id == sled.id {
                proof {
                    let after = pre.sleds.update(i as int, sled);
                    assert forall|a: int, b: int| 0 <= a < b < after.len() implies (
                    #[trigger] after[a]).id != (#[trigger] after[b]).id by {
                        assert(pre.sleds[a].id != pre.sleds[b].id);
                    }
                    assert(first_sled(pre.sleds, sled.id, i as int));
                }
                self.sleds[i] = sled;
                proof {
                    self.lemma_view();
                    assert(self@.sleds =~= pre.sleds.update(i as int, sled));
                }
                return ;
            }
            i += 1;
        }
        proof {
            let after = pre.sleds.push(sled);
            assert forall|a: int, b: int| 0 <= a < b < after.len() implies (#[trigger] after[a]).id
                != (#[trigger] after[b]).id by {
                if b < pre.sleds.len() {
                    assert(pre.sleds[a].id != pre.sleds[b].id);
                }
            }
        }
        self.sleds.push(sled);
        proof {
            self.lemma_view();
        }
    }

    /// Records an instance.
    pub fn instance_create(&mut self, instance: Instance)
        requires
            old(self)@.wf(),
        ensures
            final(self)@.wf(),
            final(self)@ == (DataStoreView {
                instances: old(self)@.instances.push(instance),
                ..old(self)@
            }),
    {
        proof {
            self.lemma_view();
        }
        self.instances.push(instance);
        proof {
            self.lemma_view();
        }
    }

    /// Records a VMM.
    pub fn vmm_create(&mut self, vmm: Vmm)
        requires
            old(self)@.wf(),
        ensures
            final(self)@.wf(),
            final(self)@ == (DataStoreView { vmms: old(self)@.vmms.push(vmm), ..old(self)@ }),
    {
        proof {
            self.lemma_view();
        }
        self.vmms.push(vmm);
        proof {
            self.lemma_view();
        }
    }

    /// Records a blueprint with its zones. A blueprint is recorded once.
    #[verifier::loop_isolation(false)]
    pub fn blueprint_insert(&mut self, blueprint_id: Uuid, zones: &Vec<BlueprintZoneConfig>) -> (res:
        Result<(), Error>)
        requires
            old(self)@.wf(),
        ensures
            final(self)@.wf(),
            res is Ok <==> !blueprint_known(old(self)@.blueprints, blueprint_id),
            res is Ok ==> final(self)@ == (DataStoreView {
                blueprints: old(self)@.blueprints.push(blueprint_id),
                bp_omicron_zones: old(self)@.bp_omicron_zones + zone_rows(blueprint_id, zones@),
                ..old(self)@
            }),
            res matches Err(e) ==> final(self)@ == old(self)@ && e@ == (ErrorView::Conflict {
                resource_type: ResourceType::Blueprint,
                object_name: "blueprint"@,
            }),
    {
        proof {
            self.lemma_view();
        }
        let ghost pre = self@;
        let mut i: usize = 0;
        while i < self.blueprints.len()
            invariant
                i <= self.blueprints.len(),
                forall|j: int| 0 <= j < i ==> self.blueprints@[j] != blueprint_id,
            decreases self.blueprints.len() - i,
        {
            if self.blueprints[i] == blueprint_id {
                return Err(Error::conflict(ResourceType::Blueprint, "blueprint"));
            }
            i += 1;
        }
        self.blueprints.push(blueprint_id);
        let mut k: usize = 0;
        while k < zones.len()
            invariant
                k <= zones.len(),
                self.blueprints@ == pre.blueprints.push(blueprint_id),
                self.bp_omicron_zones@ == pre.bp_omicron_zones + zone_rows(
                    blueprint_id,
                    zones@,
                ).take(k as int),
                self@ == (DataStoreView {
                    blueprints: self.blueprints@,
                    bp_omicron_zones: self.bp_omicron_zones@,
                    ..pre
                }),
            decreases zones.len() - k,
        {
            let zone = zones[k];
            self.bp_omicron_zones.push(
                BpOmicronZone {
                    blueprint_id,
                    sled_id: zone.sled_id,
                    id: zone.id,
                    disposition: zone.disposition,
                },
            );
            proof {
                self.lemma_view();
                let rows = zone_rows(blueprint_id, zones@);
                assert(rows.take(k + 1) =~= rows.take(k as int).push(rows[k as int]));
                assert(self.bp_omicron_zones@ =~= pre.bp_omicron_zones + rows.take(k + 1));
            }
            k += 1;
        }
        proof {
            self.lemma_view();
            let rows = zone_rows(blueprint_id, zones@);
            assert(rows.take(zones@.len() as int) =~= rows);
        }
        Ok(())
    }

    /// Makes a recorded blueprint the current target: its entry gets a
    /// version one greater than every version before.
    #[verifier::loop_isolation(false)]
    pub fn blueprint_target_set_current(&mut self, target: BlueprintTarget) -> (res: Result<
        (),
        Error,
    >)
        requires
            old(self)@.wf(),
        ensures
            final(self)@.wf(),
            !blueprint_known(old(self)@.blueprints, target.target_id) ==> res is Err && res->Err_0@
                == (ErrorView::ObjectNotFound {
                resource_type: ResourceType::Blueprint,
                lookup_type: LookupTypeView::ById(target.target_id),
            }) && final(self)@ == old(self)@,
            blueprint_known(old(self)@.blueprints, target.target_id) && old(self)@.bp_targets.len()
                > 0 && old(self)@.bp_targets.last().version == u64::MAX ==> res is Err
                && res->Err_0@ == generation_exhausted() && final(self)@ == old(self)@,
            blueprint_known(old(self)@.blueprints, target.target_id) && !(old(
                self,
            )@.bp_targets.len() > 0 && old(self)@.bp_targets.last().version == u64::MAX) ==> res
                is Ok && final(self)@ == (DataStoreView {
                bp_targets: old(self)@.bp_targets.push(
                    BpTarget {
                        version: if old(self)@.bp_targets.len() == 0 {
                            1u64
                        } else {
                            (old(self)@.bp_targets.last().version + 1) as u64
                        },
                        blueprint_id: target.target_id,
                        enabled: target.enabled,
                        time_made_target: target.time_made_target,
                    },
                ),
                ..old(self)@
            }),
    {
        proof {
            self.lemma_view();
        }
        let ghost pre = self@;
        let mut known = false;
        let mut i: usize = 0;
        while i < self.blueprints.len()
            invariant
                i <= self.blueprints.len(),
                known == exists|j: int| 0 <= j < i && self.blueprints@[j] == target.target_id,
            decreases self.blueprints.len() - i,
        {
            if self.blueprints[i] == target.target_id {
                known = true;
            }
            i += 1;
        }
        if !known {
            return Err(Error::not_found_by_id(ResourceType::Blueprint, target.target_id));
        }
        let count = self.bp_targets.len();
        let version: u64 = if count == 0 {
            1
        } else {
            let last = self.bp_targets[count - 1].version;
            if last == u64::MAX {
                return Err(Error::internal_error("child generation exhausted"));
            }
            last + 1
        };
        let row = BpTarget {
            version,
            blueprint_id: target.target_id,
            enabled: target.enabled,
            time_made_target: target.time_made_target,
        };
        proof {
            let after = pre.bp_targets.push(row);
            assert forall|a: int, b: int| 0 <= a < b < after.len() implies (
            #[trigger] after[a]).version < (#[trigger] after[b]).version by {
                if b < pre.bp_targets.len() {
                    assert(pre.bp_targets[a].version < pre.bp_targets[b].version);
                } else if a < pre.bp_targets.len() - 1 {
                    assert(pre.bp_targets[a].version < pre.bp_targets[count - 1].version);
                }
            }
        }
        self.bp_targets.push(row);
        proof {
            self.lemma_view();
        }
        Ok(())
    }

    /// The blueprint that is the current target, if there is one.
    fn current_target(&self) -> (res: Option<Uuid>)
        requires
            self@.wf(),
        ensures
            forall|blueprint_id: Uuid|
                is_current_target(self@.bp_targets, blueprint_id) <==> res == Some(blueprint_id),
    {
        proof {
            self.lemma_view();
            assert forall|blueprint_id: Uuid|
                is_current_target(self@.bp_targets, blueprint_id) <==> self@.bp_targets.len() > 0
                    && self@.bp_targets.last().blueprint_id == blueprint_id by {
                lemma_current_target_is_last(self@.bp_targets, blueprint_id);
            }
        }
        let count = self.bp_targets.len();
        if count == 0 {
            None
        } else {
            Some(self.bp_targets[count - 1].blueprint_id)
        }
    }

    #[verifier::loop_isolation(false)]
    fn is_vmm_on_sled(&self, vmm_id: Uuid, sled_id: Uuid) -> (res: bool)
        ensures
            res == vmm_on_sled(self@.vmms, vmm_id, sled_id),
    {
        proof {
            self.lemma_view();
        }
        let mut v: usize = 0;
        while v < self.vmms.len()
            invariant
                v <= self.vmms.len(),
                forall|j: int|
                    0 <= j < v ==> !((#[trigger] self.vmms@[j]).id == vmm_id
                        && self.vmms@[j].time_deleted is None && self.vmms@[j].sled_id == sled_id),
            decreases self.vmms.len() - v,
        {
            let vmm = self.vmms[v];
            if vmm.id == vmm_id && vmm.time_deleted.is_none() && vmm.sled_id == sled_id {
                return true;
            }
            v += 1;
        }
        false
    }

    #[verifier::loop_isolation(false)]
    fn is_instance_on_sled(&self, instance_id: Uuid, sled_id: Uuid) -> (res: bool)
        ensures
            res == instance_on_sled(self@.instances, self@.vmms, instance_id, sled_id),
    {
        proof {
            self.lemma_view();
        }
        let mut i: usize = 0;
        while i < self.instances.len()
            invariant
                i <= self.instances.len(),
                forall|j: int|
                    0 <= j < i ==> !((#[trigger] self.instances@[j]).id == instance_id
                        && self.instances@[j].time_deleted is None
                        && self.instances@[j].active_propolis_id is Some && vmm_on_sled(
                        self@.vmms,
                        self.instances@[j].active_propolis_id->0,
                        sled_id,
                    )),
            decreases self.instances.len() - i,
        {
            let instance = self.instances[i];
            if instance.id == instance_id && instance.time_deleted.is_none() {
                if let Some(vmm_id) = instance.active_propolis_id {
                    if self.is_vmm_on_sled(vmm_id, sled_id) {
                        return true;
                    }
                }
            }
            i += 1;
        }
        false
    }

    #[verifier::loop_isolation(false)]
    fn is_zone_on_sled(&self, target: Option<Uuid>, zone_id: Uuid, sled_id: Uuid) -> (res: bool)
        requires
            forall|blueprint_id: Uuid|
                is_current_target(self@.bp_targets, blueprint_id) <==> target == Some(blueprint_id),
        ensures
            res == zone_on_sled(self@.bp_omicron_zones, self@.bp_targets, zone_id, sled_id),
    {
        proof {
            self.lemma_view();
        }
        let mut z: usize = 0;
        while z < self.bp_omicron_zones.len()
            invariant
                z <= self.bp_omicron_zones.len(),
                forall|j: int|
                    0 <= j < z ==> !((#[trigger] self.bp_omicron_zones@[j]).id == zone_id
                        && self.bp_omicron_zones@[j].sled_id == sled_id
                        && self.bp_omicron_zones@[j].disposition.spec_matches(
                        BlueprintZoneFilter::ShouldDeployVpcFirewallRules,
                    ) && is_current_target(
                        self@.bp_targets,
                        self.bp_omicron_zones@[j].blueprint_id,
                    )),
            decreases self.bp_omicron_zones.len() - z,
        {
            let zone = self.bp_omicron_zones[z];
            if zone.id == zone_id && zone.sled_id == sled_id && zone.disposition.matches(
                BlueprintZoneFilter::ShouldDeployVpcFirewallRules,
            ) {
                let current = match target {
                    Some(blueprint_id) => blueprint_id == zone.blueprint_id,
                    None => false,
                };
                if current {
                    return true;
                }
            }
            z += 1;
        }
        false
    }

    #[verifier::loop_isolation(false)]
    fn is_guest_host(&self, vpc_id: Uuid, sled_id: Uuid) -> (res: bool)
        ensures
            res == self@.hosts_guest(vpc_id, sled_id),
    {
        proof {
            self.lemma_view();
        }
        let mut n: usize = 0;
        while n < self.instance_network_interfaces.len()
            invariant
                n <= self.instance_network_interfaces.len(),
                forall|j: int|
                    0 <= j < n ==> !((#[trigger] self.instance_network_interfaces@[j]).identity.live()
                        && self.instance_network_interfaces@[j].vpc_id == vpc_id
                        && instance_on_sled(
                        self@.instances,
                        self@.vmms,
                        self.instance_network_interfaces@[j].instance_id,
                        sled_id,
                    )),
            decreases self.instance_network_interfaces.len() - n,
        {
            let nic = &self.instance_network_interfaces[n];
            if nic.identity.time_deleted.is_none() && nic.vpc_id == vpc_id
                && self.is_instance_on_sled(nic.instance_id, sled_id) {
                return true;
            }
            n += 1;
        }
        false
    }

    #[verifier::loop_isolation(false)]
    fn is_service_host(&self, target: Option<Uuid>, vpc_id: Uuid, sled_id: Uuid) -> (res: bool)
        requires
            forall|blueprint_id: Uuid|
                is_current_target(self@.bp_targets, blueprint_id) <==> target == Some(blueprint_id),
        ensures
            res == self@.hosts_service(vpc_id, sled_id),
    {
        proof {
            self.lemma_view();
        }
        let mut n: usize = 0;
        while n < self.service_network_interfaces.len()
            invariant
                n <= self.service_network_interfaces.len(),
                forall|j: int|
                    0 <= j < n ==> !((#[trigger] self.service_network_interfaces@[j]).identity.live()
                        && self.service_network_interfaces@[j].vpc_id == vpc_id && zone_on_sled(
                        self@.bp_omicron_zones,
                        self@.bp_targets,
                        self.service_network_interfaces@[j].service_id,
                        sled_id,
                    )),
            decreases self.service_network_interfaces.len() - n,
        {
            let nic = &self.service_network_interfaces[n];
            if nic.identity.time_deleted.is_none() && nic.vpc_id == vpc_id && self.is_zone_on_sled(
                target,
                nic.service_id,
                sled_id,
            ) {
                return true;
            }
            n += 1;
        }
        false
    }

    /// The sleds that host instances or control-plane zones with network
    /// interfaces on the VPC: the sleds that have to be told when the
    /// firewall rules of the VPC change. With a non-empty `sleds_filter`,
    /// only sleds whose id it holds are returned. No sled is returned
    /// twice.
    #[verifier::loop_isolation(false)]
    pub fn vpc_resolve_to_sleds(&self, vpc_id: Uuid, sleds_filter: &Vec<Uuid>) -> (res: Result<
        Vec<Sled>,
        Error,
    >)
        requires
            self@.wf(),
        ensures
            res is Ok,
            res->Ok_0@ == self@.resolved_sleds(vpc_id, sleds_filter@),
            forall|a: int, b: int|
                0 <= a < b < res->Ok_0@.len() ==> (#[trigger] res->Ok_0@[a]).id != (
                #[trigger] res->Ok_0@[b]).id,
    {
        proof {
            self.lemma_view();
        }
        let target = self.current_target();
        let ghost pred = |sled: Sled| self@.resolves(vpc_id, sleds_filter@, sled);
        let mut out: Vec<Sled> = Vec::new();
        let ghost mut src: Seq<int> = Seq::empty();
        let mut i: usize = 0;
        assert(self.sleds@.take(0).filter(pred) =~= Seq::empty()) by {
            reveal(Seq::filter);
        }
        while i < self.sleds.len()
            invariant
                i <= self.sleds.len(),
                out@ == self.sleds@.take(i as int).filter(pred),
                src.len() == out@.len(),
                forall|a: int|
                    0 <= a < src.len() ==> 0 <= #[trigger] src[a] < i && out@[a]
                        == self.sleds@[src[a]],
                forall|a: int, b: int| 0 <= a < b < src.len() ==> #[trigger] src[a] < #[trigger] src[b],
            decreases self.sleds.len() - i,
        {
            let sled = self.sleds[i];
            proof {
                lemma_filter_take_step(self.sleds@, pred, i as int);
            }
            let mut wanted = sled.time_deleted.is_none()
                && SledFilter::VpcFirewall.matches_policy_and_state(sled.policy, sled.state);
            if wanted && sleds_filter.len() > 0 {
                wanted = holds_id(sleds_filter, sled.id);
            }
            if wanted {
                wanted = self.is_guest_host(vpc_id, sled.id) || self.is_service_host(
                    target,
                    vpc_id,
                    sled.id,
                );
            }
            if wanted {
                out.push(sled);
                proof {
                    src = src.push(i as int);
                }
            }
            i += 1;
        }
        assert(self.sleds@.take(self.sleds@.len() as int) == self.sleds@);
        proof {
            assert forall|a: int, b: int| 0 <= a < b < out@.len() implies (#[trigger] out@[a]).id != (
            #[trigger] out@[b]).id by {
                assert(src[a] < src[b]);
                assert(self.sleds@[src[a]].id != self.sleds@[src[b]].id);
            }
        }
        Ok(out)
    }
}

/// Whether the list holds the id.
#[verifier::loop_isolation(false)]
fn holds_id(ids: &Vec<Uuid>, id: Uuid) -> (res: bool)
    ensures
        res == ids@.contains(id),
{
    let mut i: usize = 0;
    while i < ids.len()
        invariant
            i <= ids.len(),
            forall|j: int| 0 <= j < i ==> ids@[j] != id,
        decreases ids.len() - i,
    {
        if ids[i] == id {
            return true;
        }
        i += 1;
    }
    false
}

/// Some live interface of the owner sits in the slot.
pub open spec fn instance_slot_in_use(nics: Seq<InstanceNetworkInterface>, owner: Uuid, slot: u8) -> bool {
    exists|j: int|
        0 <= j < nics.len() && (#[trigger] nics[j]).identity.live() && nics[j].instance_id == owner
            && nics[j].slot == slot
}

/// The row after a soft delete at `now`.
pub open spec fn instance_interface_deleted_at(row: InstanceNetworkInterface, now: Timestamp) -> InstanceNetworkInterface {
    InstanceNetworkInterface { identity: row.identity.deleted_at(now), ..row }
}

impl DataStoreView {
    /// What stands against the insert of an interface of an instance, the first
    /// of: a subnet that is not live, a row with its id, a slot that is
    /// taken, a subnet whose generation is exhausted.
    pub open spec fn instance_interface_blocker(self, nic: InstanceNetworkInterface) -> Option<ErrorView> {
        if !has_live(self.vpc_subnets, nic.subnet_id) {
            Some(
                ErrorView::ObjectNotFound {
                    resource_type: ResourceType::VpcSubnet,
                    lookup_type: LookupTypeView::ById(nic.subnet_id),
                },
            )
        } else if id_in_use(self.instance_network_interfaces, nic.identity.id) {
            Some(
                ErrorView::ObjectAlreadyExists {
                    resource_type: ResourceType::NetworkInterface,
                    object_name: nic.identity.name@,
                },
            )
        } else if nic.identity.live() && instance_slot_in_use(
            self.instance_network_interfaces,
            nic.instance_id,
            nic.slot,
        ) {
            Some(ErrorView::InvalidRequest { message: slot_in_use_message() })
        } else if self.vpc_subnets[live_index(self.vpc_subnets, nic.subnet_id)].rcgen.0
            == u64::MAX {
            Some(generation_exhausted())
        } else {
            None
        }
    }

    /// The store after the insert of an interface of an instance: the row is
    /// the last of its table, and the generation of its subnet is one more.
    pub open spec fn instance_interface_inserted(self, nic: InstanceNetworkInterface) -> DataStoreView {
        let at = live_index(self.vpc_subnets, nic.subnet_id);
        DataStoreView {
            instance_network_interfaces: self.instance_network_interfaces.push(nic),
            vpc_subnets: self.vpc_subnets.update(
                at,
                VpcSubnet {
                    rcgen: Generation((self.vpc_subnets[at].rcgen.0 + 1) as u64),
                    ..self.vpc_subnets[at]
                },
            ),
            ..self
        }
    }
}

impl DataStore {
    #[verifier::loop_isolation(false)]
    fn is_instance_slot_in_use(&self, owner: Uuid, slot: u8) -> (res: bool)
        ensures
            res == instance_slot_in_use(self@.instance_network_interfaces, owner, slot),
    {
        proof {
            self.lemma_view();
        }
        let mut i: usize = 0;
        while i < self.instance_network_interfaces.len()
            invariant
                i <= self.instance_network_interfaces.len(),
                forall|j: int|
                    0 <= j < i ==> !((#[trigger] self.instance_network_interfaces@[j]).identity.live()
                        && self.instance_network_interfaces@[j].instance_id == owner
                        && self.instance_network_interfaces@[j].slot == slot),
            decreases self.instance_network_interfaces.len() - i,
        {
            let nic = &self.instance_network_interfaces[i];
            if nic.identity.time_deleted.is_none() && nic.instance_id == owner && nic.slot == slot {
                return true;
            }
            i += 1;
        }
        false
    }

    /// Inserts a network interface of an instance into a live subnet, and bumps
    /// the generation of the subnet.
    pub fn instance_create_network_interface_raw(&mut self, nic: InstanceNetworkInterface) -> (res: Result<(), Error>)
        requires
            old(self)@.wf(),
        ensures
            final(self)@.wf(),
            match old(self)@.instance_interface_blocker(nic) {
                Some(e) => res is Err && res->Err_0@ == e && final(self)@ == old(self)@,
                None => res is Ok && final(self)@ == old(self)@.instance_interface_inserted(nic),
            },
    {
        proof {
            self.lemma_view();
        }
        let ghost pre = self@;
        let at = match find_live(&self.vpc_subnets, nic.subnet_id) {
            None => {
                return Err(Error::not_found_by_id(ResourceType::VpcSubnet, nic.subnet_id));
            },
            Some(at) => at,
        };
        if is_id_in_use(&self.instance_network_interfaces, nic.identity.id) {
            return Err(
                Error::already_exists(ResourceType::NetworkInterface, nic.identity.name.as_str()),
            );
        }
        if nic.identity.time_deleted.is_none() && self.is_instance_slot_in_use(nic.instance_id, nic.slot) {
            return Err(Error::invalid_request("network interface slot is in use"));
        }
        let rcgen = match self.vpc_subnets[at].rcgen.next() {
            None => {
                return Err(Error::internal_error("child generation exhausted"));
            },
            Some(next) => next,
        };
        proof {
            let after = pre.instance_network_interfaces.push(nic);
            assert forall|i: int, j: int| 0 <= i < j < after.len() implies (
            #[trigger] after[i]).identity_of().id != (#[trigger] after[j]).identity_of().id by {
                if j == pre.instance_network_interfaces.len() {
                    assert(pre.instance_network_interfaces[i].identity_of().id != nic.identity.id);
                } else {
                    assert(pre.instance_network_interfaces[i].identity_of().id
                        != pre.instance_network_interfaces[j].identity_of().id);
                }
            }
            assert forall|i: int, j: int|
                0 <= i < j < after.len() && (#[trigger] after[i]).identity.live() && (
                #[trigger] after[j]).identity.live() && after[i].instance_id
                    == after[j].instance_id implies after[i].slot != after[j].slot by {
                if j == pre.instance_network_interfaces.len() {
                    assert(pre.instance_network_interfaces[i].identity.live());
                } else {
                    assert(pre.instance_network_interfaces[i].slot != pre.instance_network_interfaces[j].slot);
                }
            }
            let bumped = VpcSubnet { rcgen, ..pre.vpc_subnets[at as int] };
            lemma_update_keeps_unique(pre.vpc_subnets, at as int, bumped);
            lemma_update_subnet_keeps_rest(pre, at as int, bumped);
        }
        self.instance_network_interfaces.push(nic);
        self.vpc_subnets[at].rcgen = rcgen;
        proof {
            self.lemma_view();
            assert(self@.vpc_subnets =~= pre.vpc_subnets.update(
                at as int,
                VpcSubnet { rcgen, ..pre.vpc_subnets[at as int] },
            ));
        }
        Ok(())
    }

    /// Deletes the live network interface with the id, of the given
    /// instance, at the time `now`.
    pub fn instance_delete_network_interface(&mut self, instance_id: Uuid, nic_id: Uuid, now: Timestamp) -> (res:
        Result<(), Error>)
        requires
            old(self)@.wf(),
        ensures
            final(self)@.wf(),
            res is Ok <==> has_live(old(self)@.instance_network_interfaces, nic_id) && old(
                self,
            )@.instance_network_interfaces[live_index(old(self)@.instance_network_interfaces, nic_id)].instance_id
                == instance_id,
            res is Ok ==> final(self)@ == (DataStoreView {
                instance_network_interfaces: old(self)@.instance_network_interfaces.update(
                    live_index(old(self)@.instance_network_interfaces, nic_id),
                    instance_interface_deleted_at(
                        old(self)@.instance_network_interfaces[live_index(
                            old(self)@.instance_network_interfaces,
                            nic_id,
                        )],
                        now,
                    ),
                ),
                ..old(self)@
            }),
            res matches Err(e) ==> final(self)@ == old(self)@ && e@ == (ErrorView::ObjectNotFound {
                resource_type: ResourceType::NetworkInterface,
                lookup_type: LookupTypeView::ById(nic_id),
            }),
    {
        proof {
            self.lemma_view();
        }
        let ghost pre = self@;
        let at = match find_live(&self.instance_network_interfaces, nic_id) {
            None => {
                return Err(Error::not_found_by_id(ResourceType::NetworkInterface, nic_id));
            },
            Some(at) => at,
        };
        if self.instance_network_interfaces[at].instance_id != instance_id {
            return Err(Error::not_found_by_id(ResourceType::NetworkInterface, nic_id));
        }
        proof {
            let deleted = instance_interface_deleted_at(pre.instance_network_interfaces[at as int], now);
            let after = pre.instance_network_interfaces.update(at as int, deleted);
            assert forall|i: int, j: int| 0 <= i < j < after.len() implies (
            #[trigger] after[i]).identity_of().id != (#[trigger] after[j]).identity_of().id by {
                assert(pre.instance_network_interfaces[i].identity_of().id
                    != pre.instance_network_interfaces[j].identity_of().id);
            }
            assert forall|i: int, j: int|
                0 <= i < j < after.len() && (#[trigger] after[i]).identity.live() && (
                #[trigger] after[j]).identity.live() && after[i].instance_id
                    == after[j].instance_id implies after[i].slot != after[j].slot by {
                assert(pre.instance_network_interfaces[i].slot != pre.instance_network_interfaces[j].slot);
            }
        }
        self.instance_network_interfaces[at].identity.time_deleted = Some(now);
        proof {
            self.lemma_view();
            assert(self@.instance_network_interfaces =~= pre.instance_network_interfaces.update(
                at as int,
                instance_interface_deleted_at(pre.instance_network_interfaces[at as int], now),
            ));
        }
        Ok(())
    }
}

/// Some live interface of the owner sits in the slot.
pub open spec fn service_slot_in_use(nics: Seq<ServiceNetworkInterface>, owner: Uuid, slot: u8) -> bool {
    exists|j: int|
        0 <= j < nics.len() && (#[trigger] nics[j]).identity.live() && nics[j].service_id == owner
            && nics[j].slot == slot
}

/// The row after a soft delete at `now`.
pub open spec fn service_interface_deleted_at(row: ServiceNetworkInterface, now: Timestamp) -> ServiceNetworkInterface {
    ServiceNetworkInterface { identity: row.identity.deleted_at(now), ..row }
}

impl DataStoreView {
    /// What stands against the insert of an interface of a zone, the first
    /// of: a subnet that is not live, a row with its id, a slot that is
    /// taken, a subnet whose generation is exhausted.
    pub open spec fn service_interface_blocker(self, nic: ServiceNetworkInterface) -> Option<ErrorView> {
        if !has_live(self.vpc_subnets, nic.subnet_id) {
            Some(
                ErrorView::ObjectNotFound {
                    resource_type: ResourceType::VpcSubnet,
                    lookup_type: LookupTypeView::ById(nic.subnet_id),
                },
            )
        } else if id_in_use(self.service_network_interfaces, nic.identity.id) {
            Some(
                ErrorView::ObjectAlreadyExists {
                    resource_type: ResourceType::NetworkInterface,
                    object_name: nic.identity.name@,
                },
            )
        } else if nic.identity.live() && service_slot_in_use(
            self.service_network_interfaces,
            nic.service_id,
            nic.slot,
        ) {
            Some(ErrorView::InvalidRequest { message: slot_in_use_message() })
        } else if self.vpc_subnets[live_index(self.vpc_subnets, nic.subnet_id)].rcgen.0
            == u64::MAX {
            Some(generation_exhausted())
        } else {
            None
        }
    }

    /// The store after the insert of an interface of a zone: the row is
    /// the last of its table, and the generation of its subnet is one more.
    pub open spec fn service_interface_inserted(self, nic: ServiceNetworkInterface) -> DataStoreView {
        let at = live_index(self.vpc_subnets, nic.subnet_id);
        DataStoreView {
            service_network_interfaces: self.service_network_interfaces.push(nic),
            vpc_subnets: self.vpc_subnets.update(
                at,
                VpcSubnet {
                    rcgen: Generation((self.vpc_subnets[at].rcgen.0 + 1) as u64),
                    ..self.vpc_subnets[at]
                },
            ),
            ..self
        }
    }
}

impl DataStore {
    #[verifier::loop_isolation(false)]
    fn is_service_slot_in_use(&self, owner: Uuid, slot: u8) -> (res: bool)
        ensures
            res == service_slot_in_use(self@.service_network_interfaces, owner, slot),
    {
        proof {
            self.lemma_view();
        }
        let mut i: usize = 0;
        while i < self.service_network_interfaces.len()
            invariant
                i <= self.service_network_interfaces.len(),
                forall|j: int|
                    0 <= j < i ==> !((#[trigger] self.service_network_interfaces@[j]).identity.live()
                        && self.service_network_interfaces@[j].service_id == owner
                        && self.service_network_interfaces@[j].slot == slot),
            decreases self.service_network_interfaces.len() - i,
        {
            let nic = &self.service_network_interfaces[i];
            if nic.identity.time_deleted.is_none() && nic.service_id == owner && nic.slot == slot {
                return true;
            }
            i += 1;
        }
        false
    }

    /// Inserts a network interface of a zone into a live subnet, and bumps
    /// the generation of the subnet.
    pub fn service_create_network_interface_raw(&mut self, nic: ServiceNetworkInterface) -> (res: Result<(), Error>)
        requires
            old(self)@.wf(),
        ensures
            final(self)@.wf(),
            match old(self)@.service_interface_blocker(nic) {
                Some(e) => res is Err && res->Err_0@ == e && final(self)@ == old(self)@,
                None => res is Ok && final(self)@ == old(self)@.service_interface_inserted(nic),
            },
    {
        proof {
            self.lemma_view();
        }
        let ghost pre = self@;
        let at = match find_live(&self.vpc_subnets, nic.subnet_id) {
            None => {
                return Err(Error::not_found_by_id(ResourceType::VpcSubnet, nic.subnet_id));
            },
            Some(at) => at,
        };
        if is_id_in_use(&self.service_network_interfaces, nic.identity.id) {
            return Err(
                Error::already_exists(ResourceType::NetworkInterface, nic.identity.name.as_str()),
            );
        }
        if nic.identity.time_deleted.is_none() && self.is_service_slot_in_use(nic.service_id, nic.slot) {
            return Err(Error::invalid_request("network interface slot is in use"));
        }
        let rcgen = match self.vpc_subnets[at].rcgen.next() {
            None => {
                return Err(Error::internal_error("child generation exhausted"));
            },
            Some(next) => next,
        };
        proof {
            let after = pre.service_network_interfaces.push(nic);
            assert forall|i: int, j: int| 0 <= i < j < after.len() implies (
            #[trigger] after[i]).identity_of().id != (#[trigger] after[j]).identity_of().id by {
                if j == pre.service_network_interfaces.len() {
                    assert(pre.service_network_interfaces[i].identity_of().id != nic.identity.id);
                } else {
                    assert(pre.service_network_interfaces[i].identity_of().id
                        != pre.service_network_interfaces[j].identity_of().id);
                }
            }
            assert forall|i: int, j: int|
                0 <= i < j < after.len() && (#[trigger] after[i]).identity.live() && (
                #[trigger] after[j]).identity.live() && after[i].service_id
                    == after[j].service_id implies after[i].slot != after[j].slot by {
                if j == pre.service_network_interfaces.len() {
                    assert(pre.service_network_interfaces[i].identity.live());
                } else {
                    assert(pre.service_network_interfaces[i].slot != pre.service_network_interfaces[j].slot);
                }
            }
            let bumped = VpcSubnet { rcgen, ..pre.vpc_subnets[at as int] };
            lemma_update_keeps_unique(pre.vpc_subnets, at as int, bumped);
            lemma_update_subnet_keeps_rest(pre, at as int, bumped);
        }
        self.service_network_interfaces.push(nic);
        self.vpc_subnets[at].rcgen = rcgen;
        proof {
            self.lemma_view();
            assert(self@.vpc_subnets =~= pre.vpc_subnets.update(
                at as int,
                VpcSubnet { rcgen, ..pre.vpc_subnets[at as int] },
            ));
        }
        Ok(())
    }

    /// Deletes the live network interface with the id, of the given
    /// zone, at the time `now`.
    pub fn service_delete_network_interface(&mut self, service_id: Uuid, nic_id: Uuid, now: Timestamp) -> (res:
        Result<(), Error>)
        requires
            old(self)@.wf(),
        ensures
            final(self)@.wf(),
            res is Ok <==> has_live(old(self)@.service_network_interfaces, nic_id) && old(
                self,
            )@.service_network_interfaces[live_index(old(self)@.service_network_interfaces, nic_id)].service_id
                == service_id,
            res is Ok ==> final(self)@ == (DataStoreView {
                service_network_interfaces: old(self)@.service_network_interfaces.update(
                    live_index(old(self)@.service_network_interfaces, nic_id),
                    service_interface_deleted_at(
                        old(self)@.service_network_interfaces[live_index(
                            old(self)@.service_network_interfaces,
                            nic_id,
                        )],
                        now,
                    ),
                ),
                ..old(self)@
            }),
            res matches Err(e) ==> final(self)@ == old(self)@ && e@ == (ErrorView::ObjectNotFound {
                resource_type: ResourceType::NetworkInterface,
                lookup_type: LookupTypeView::ById(nic_id),
            }),
    {
        proof {
            self.lemma_view();
        }
        let ghost pre = self@;
        let at = match find_live(&self.service_network_interfaces, nic_id) {
            None => {
                return Err(Error::not_found_by_id(ResourceType::NetworkInterface, nic_id));
            },
            Some(at) => at,
        };
        if self.service_network_interfaces[at].service_id != service_id {
            return Err(Error::not_found_by_id(ResourceType::NetworkInterface, nic_id));
        }
        proof {
            let deleted = service_interface_deleted_at(pre.service_network_interfaces[at as int], now);
            let after = pre.service_network_interfaces.update(at as int, deleted);
            assert forall|i: int, j: int| 0 <= i < j < after.len() implies (
            #[trigger] after[i]).identity_of().id != (#[trigger] after[j]).identity_of().id by {
                assert(pre.service_network_interfaces[i].identity_of().id
                    != pre.service_network_interfaces[j].identity_of().id);
            }
            assert forall|i: int, j: int|
                0 <= i < j < after.len() && (#[trigger] after[i]).identity.live() && (
                #[trigger] after[j]).identity.live() && after[i].service_id
                    == after[j].service_id implies after[i].slot != after[j].slot by {
                assert(pre.service_network_interfaces[i].slot != pre.service_network_interfaces[j].slot);
            }
        }
        self.service_network_interfaces[at].identity.time_deleted = Some(now);
        proof {
            self.lemma_view();
            assert(self@.service_network_interfaces =~= pre.service_network_interfaces.update(
                at as int,
                service_interface_deleted_at(pre.service_network_interfaces[at as int], now),
            ));
        }
        Ok(())
    }
}

} // verus!
