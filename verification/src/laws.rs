//! What holds of every store that the operations can reach, and of the
//! operations taken together.
//!
//! An empty store is well formed, and every operation keeps a well-formed
//! store well formed. So what follows from well-formedness holds after any
//! sequence of operations.

use crate::datastore::firewall::{first_clash, lemma_no_clash, rule_clash, rules_deleted, same_rows};
use crate::datastore::resolve::{is_current_target, is_latest, zone_on_sled};
use crate::datastore::subnet::by_name;
use crate::datastore::{live_siblings, DataStoreView};
use crate::error::{Error, Uuid};
use crate::ip_net::{lemma_v4_overlap_is_intersection, lemma_v6_overlap_is_intersection};
use crate::model::{
    BlueprintZoneFilter, BpTarget, Identity, Resource, Timestamp, Vpc, VpcFirewallRule, VpcRouter,
    VpcSubnet,
};
use crate::names::lemma_name_lt_total;
use crate::table::{
    has_live, has_live_child, is_listing, lemma_sorted_by_name, live_child, on_listing,
    ordered_by_name, page_holds, sorted_by_name, PaginatedBy,
};
use vstd::prelude::*;

verus! {

/// No two live VPCs have the same VNI.
pub proof fn lemma_vni_uniqueness(store: DataStoreView, a: int, b: int)
    requires
        store.wf(),
        0 <= a < store.vpcs.len(),
        0 <= b < store.vpcs.len(),
        a != b,
        store.vpcs[a].identity.live(),
        store.vpcs[b].identity.live(),
    ensures
        store.vpcs[a].vni != store.vpcs[b].vni,
{
    if a < b {
        assert(store.vpcs[a].vni.as_u32() != store.vpcs[b].vni.as_u32());
    } else {
        assert(store.vpcs[b].vni.as_u32() != store.vpcs[a].vni.as_u32());
    }
}

/// No two live subnets of one VPC share an address: their IPv4 blocks are
/// disjoint, and so are their IPv6 blocks.
pub proof fn lemma_subnets_do_not_overlap(store: DataStoreView, a: int, b: int)
    requires
        store.wf(),
        0 <= a < store.vpc_subnets.len(),
        0 <= b < store.vpc_subnets.len(),
        a != b,
        live_siblings(store.vpc_subnets[a], store.vpc_subnets[b]),
    ensures
        store.vpc_subnets[a].ipv4_block.addresses().disjoint(
            store.vpc_subnets[b].ipv4_block.addresses(),
        ),
        store.vpc_subnets[a].ipv6_block.addresses().disjoint(
            store.vpc_subnets[b].ipv6_block.addresses(),
        ),
{
    let x = store.vpc_subnets[a];
    let y = store.vpc_subnets[b];
    lemma_v4_overlap_is_intersection(x.ipv4_block, y.ipv4_block);
    lemma_v6_overlap_is_intersection(x.ipv6_block, y.ipv6_block);
    if a < b {
        assert(live_siblings(store.vpc_subnets[a], store.vpc_subnets[b]));
    } else {
        assert(live_siblings(store.vpc_subnets[b], store.vpc_subnets[a]));
        lemma_v4_overlap_is_intersection(y.ipv4_block, x.ipv4_block);
        lemma_v6_overlap_is_intersection(y.ipv6_block, x.ipv6_block);
    }
}

/// Every live subnet belongs to a live VPC.
pub proof fn lemma_no_orphan_subnets(store: DataStoreView, a: int)
    requires
        store.wf(),
        0 <= a < store.vpc_subnets.len(),
        store.vpc_subnets[a].identity.live(),
    ensures
        has_live(store.vpcs, store.vpc_subnets[a].vpc_id),
{
}

/// A VPC whose deletion succeeded has no live subnet.
pub proof fn lemma_deleted_vpc_has_no_subnets(
    pre: DataStoreView,
    post: DataStoreView,
    opctx: crate::authz::OpContext,
    db_vpc: Vpc,
    authz_vpc: crate::authz::Vpc,
    now: Timestamp,
    res: Result<(), Error>,
)
    requires
        pre.wf(),
        pre.delete_vpc_post(post, opctx, db_vpc, authz_vpc, now, res),
        res is Ok,
    ensures
        !has_live_child(post.vpc_subnets, authz_vpc.spec_id()),
        !has_live(post.vpcs, authz_vpc.spec_id()),
{
    let id = authz_vpc.spec_id();
    crate::table::lemma_first_live_exists(pre.vpcs, id);
    let at = crate::table::live_index(pre.vpcs, id);
    if has_live(post.vpcs, id) {
        let j = choose|j: int|
            0 <= j < post.vpcs.len() && crate::table::live_with_id(#[trigger] post.vpcs[j], id);
        if j < at {
            assert(pre.vpcs[j].identity_of().id != pre.vpcs[at].identity_of().id);
        } else if at < j {
            assert(pre.vpcs[at].identity_of().id != pre.vpcs[j].identity_of().id);
        }
    }
}

/// A VPC has at most one system router, live or deleted, and its id is the
/// one that the VPC names.
pub proof fn lemma_system_router_singleton(store: DataStoreView, vpc: int, a: int, b: int)
    requires
        store.wf(),
        0 <= vpc < store.vpcs.len(),
        0 <= a < store.vpc_routers.len(),
        0 <= b < store.vpc_routers.len(),
        store.vpc_routers[a].kind is System,
        store.vpc_routers[b].kind is System,
        store.vpc_routers[a].vpc_id == store.vpcs[vpc].identity.id,
        store.vpc_routers[b].vpc_id == store.vpcs[vpc].identity.id,
    ensures
        a == b,
        store.vpc_routers[a].identity.id == store.vpcs[vpc].system_router_id,
{
    let ra = store.vpc_routers[a];
    let rb = store.vpc_routers[b];
    let va = choose|i: int|
        0 <= i < store.vpcs.len() && (#[trigger] store.vpcs[i]).identity.id == ra.vpc_id
            && store.vpcs[i].system_router_id == ra.identity.id;
    let vb = choose|i: int|
        0 <= i < store.vpcs.len() && (#[trigger] store.vpcs[i]).identity.id == rb.vpc_id
            && store.vpcs[i].system_router_id == rb.identity.id;
    assert(va == vpc) by {
        if va < vpc {
            assert(store.vpcs[va].identity_of().id != store.vpcs[vpc].identity_of().id);
        } else if vpc < va {
            assert(store.vpcs[vpc].identity_of().id != store.vpcs[va].identity_of().id);
        }
    }
    assert(vb == vpc) by {
        if vb < vpc {
            assert(store.vpcs[vb].identity_of().id != store.vpcs[vpc].identity_of().id);
        } else if vpc < vb {
            assert(store.vpcs[vpc].identity_of().id != store.vpcs[vb].identity_of().id);
        }
    }
    if a < b {
        assert(store.vpc_routers[a].identity_of().id != store.vpc_routers[b].identity_of().id);
    } else if b < a {
        assert(store.vpc_routers[b].identity_of().id != store.vpc_routers[a].identity_of().id);
    }
}

/// Two sequences in the same strict order, each holding every element of
/// the other, are one sequence.
pub proof fn lemma_same_order_same_seq(by: PaginatedBy, a: Seq<Identity>, b: Seq<Identity>)
    requires
        forall|i: int, k: int| 0 <= i < k < a.len() ==> by.precedes(#[trigger] a[i], #[trigger] a[k]),
        forall|i: int, k: int| 0 <= i < k < b.len() ==> by.precedes(#[trigger] b[i], #[trigger] b[k]),
        forall|i: int| 0 <= i < a.len() ==> b.contains(#[trigger] a[i]),
        forall|k: int| 0 <= k < b.len() ==> a.contains(#[trigger] b[k]),
    ensures
        a == b,
    decreases a.len(),
{
    if a.len() == 0 {
        if b.len() > 0 {
            assert(a.contains(b[0]));
        }
        assert(a =~= b);
    } else {
        assert(b.contains(a[0]));
        let k = choose|k: int| 0 <= k < b.len() && b[k] == a[0];
        assert(a.contains(b[0]));
        let m = choose|m: int| 0 <= m < a.len() && a[m] == b[0];
        by.lemma_precedes_irreflexive(a[0]);
        if k > 0 {
            assert(by.precedes(b[0], b[k]));
            if m > 0 {
                assert(by.precedes(a[0], a[m]));
                by.lemma_precedes_asymmetric(a[0], a[m]);
            }
            assert(false);
        }
        let ra = a.drop_first();
        let rb = b.drop_first();
        assert forall|i: int| 0 <= i < ra.len() implies rb.contains(#[trigger] ra[i]) by {
            assert(b.contains(a[i + 1]));
            let w = choose|w: int| 0 <= w < b.len() && b[w] == a[i + 1];
            assert(by.precedes(a[0], a[i + 1]));
            assert(w != 0);
            assert(rb[w - 1] == ra[i]);
        }
        assert forall|i: int| 0 <= i < rb.len() implies ra.contains(#[trigger] rb[i]) by {
            assert(a.contains(b[i + 1]));
            let w = choose|w: int| 0 <= w < a.len() && a[w] == b[i + 1];
            assert(by.precedes(b[0], b[i + 1]));
            assert(w != 0);
            assert(ra[w - 1] == rb[i]);
        }
        assert forall|i: int, j: int| 0 <= i < j < ra.len() implies by.precedes(
            #[trigger] ra[i],
            #[trigger] ra[j],
        ) by {
            assert(by.precedes(a[i + 1], a[j + 1]));
        }
        assert forall|i: int, j: int| 0 <= i < j < rb.len() implies by.precedes(
            #[trigger] rb[i],
            #[trigger] rb[j],
        ) by {
            assert(by.precedes(b[i + 1], b[j + 1]));
        }
        lemma_same_order_same_seq(by, ra, rb);
        assert(a =~= seq![a[0]] + ra);
        assert(b =~= seq![b[0]] + rb);
    }
}

/// A row of the listing of a VPC whose rules were replaced is one of the
/// new rules.
proof fn lemma_listed_row_is_new(
    old_rules: Seq<VpcFirewallRule>,
    vpc_id: Uuid,
    now: Timestamp,
    sorted: Seq<VpcFirewallRule>,
    page: Seq<VpcFirewallRule>,
    i: int,
) -> (k: int)
    requires
        is_listing(rules_deleted(old_rules, vpc_id, now) + sorted, vpc_id, by_name(), page),
        0 <= i < page.len(),
    ensures
        0 <= k < sorted.len(),
        page[i]@ == sorted[k]@,
{
    let cleared = rules_deleted(old_rules, vpc_id, now);
    let table = cleared + sorted;
    let j = choose|j: int|
        0 <= j < table.len() && (#[trigger] page[i])@ == (#[trigger] table[j])@ && on_listing(
            table[j],
            vpc_id,
            by_name(),
        );
    if j < cleared.len() {
        assert(!live_child(cleared[j], vpc_id));
    }
    j - cleared.len()
}

/// Each of the new rules of a VPC whose rules were replaced by live rules
/// is a row of the listing.
proof fn lemma_new_row_is_listed(
    old_rules: Seq<VpcFirewallRule>,
    vpc_id: Uuid,
    now: Timestamp,
    sorted: Seq<VpcFirewallRule>,
    page: Seq<VpcFirewallRule>,
    k: int,
) -> (i: int)
    requires
        is_listing(rules_deleted(old_rules, vpc_id, now) + sorted, vpc_id, by_name(), page),
        0 <= k < sorted.len(),
        sorted[k].vpc_id == vpc_id,
        sorted[k].identity.live(),
    ensures
        0 <= i < page.len(),
        page[i]@ == sorted[k]@,
{
    let cleared = rules_deleted(old_rules, vpc_id, now);
    let table = cleared + sorted;
    let n = cleared.len() as int;
    assert(table[n + k] == sorted[k]);
    assert(on_listing(table[n + k], vpc_id, by_name()));
    assert(page_holds(page, table[n + k]));
    choose|i: int| 0 <= i < page.len() && (#[trigger] page[i])@ == table[n + k]@
}

/// New rules that nothing stands against, all live, come in the strict
/// order of the listing once they are sorted by name.
proof fn lemma_sorted_rules_in_page_order(
    old_rules: Seq<VpcFirewallRule>,
    sorted: Seq<VpcFirewallRule>,
    i: int,
    k: int,
)
    requires
        ordered_by_name(sorted),
        first_clash(old_rules, sorted, 0) is None,
        0 <= i < k < sorted.len(),
        sorted[i].identity.live(),
        sorted[k].identity.live(),
    ensures
        by_name().precedes(sorted[i].identity, sorted[k].identity),
        sorted[i].identity.id != sorted[k].identity.id,
{
    lemma_no_clash(old_rules, sorted, 0);
    assert(rule_clash(old_rules, sorted, k) is None);
    assert(!crate::names::name_lt(sorted[k].identity_of().name@, sorted[i].identity_of().name@));
    lemma_name_lt_total(sorted[i].identity.name@, sorted[k].identity.name@);
}

/// The listing of a VPC whose rules were replaced by live rules that
/// nothing stood against is the new rules, sorted by name.
pub proof fn lemma_listing_of_replaced_rules(
    old_rules: Seq<VpcFirewallRule>,
    vpc_id: Uuid,
    now: Timestamp,
    sorted: Seq<VpcFirewallRule>,
    page: Seq<VpcFirewallRule>,
)
    requires
        ordered_by_name(sorted),
        first_clash(old_rules, sorted, 0) is None,
        forall|k: int|
            0 <= k < sorted.len() ==> (#[trigger] sorted[k]).vpc_id == vpc_id
                && sorted[k].identity.live(),
        is_listing(rules_deleted(old_rules, vpc_id, now) + sorted, vpc_id, by_name(), page),
    ensures
        same_rows(page, sorted),
{
    let by = by_name();
    let a = Seq::new(page.len(), |i: int| page[i].identity);
    let b = Seq::new(sorted.len(), |k: int| sorted[k].identity);
    assert forall|i: int, k: int| 0 <= i < k < b.len() implies by.precedes(
        #[trigger] b[i],
        #[trigger] b[k],
    ) by {
        lemma_sorted_rules_in_page_order(old_rules, sorted, i, k);
    }
    assert forall|i: int, k: int| 0 <= i < k < a.len() implies by.precedes(
        #[trigger] a[i],
        #[trigger] a[k],
    ) by {
        assert(by.precedes(page[i].identity_of(), page[k].identity_of()));
    }
    assert forall|i: int| 0 <= i < a.len() implies b.contains(#[trigger] a[i]) by {
        let k = lemma_listed_row_is_new(old_rules, vpc_id, now, sorted, page, i);
        assert(b[k] == a[i]);
    }
    assert forall|k: int| 0 <= k < b.len() implies a.contains(#[trigger] b[k]) by {
        let i = lemma_new_row_is_listed(old_rules, vpc_id, now, sorted, page, k);
        assert(a[i] == b[k]);
    }
    lemma_same_order_same_seq(by, a, b);
    assert(page.len() == sorted.len());
    assert forall|i: int| 0 <= i < page.len() implies (#[trigger] page[i])@ == sorted[i]@ by {
        let k = lemma_listed_row_is_new(old_rules, vpc_id, now, sorted, page, i);
        assert(a[i] == b[i]);
        assert(sorted[k].identity == sorted[i].identity);
        if k < i {
            lemma_sorted_rules_in_page_order(old_rules, sorted, k, i);
        } else if i < k {
            lemma_sorted_rules_in_page_order(old_rules, sorted, i, k);
        }
    }
}

/// After the firewall rules of a VPC have been replaced by live rules, the
/// listing of its rules is the new rules sorted by name.
pub proof fn lemma_replaced_rules_are_listed(
    pre: DataStoreView,
    post: DataStoreView,
    opctx: crate::authz::OpContext,
    authz_vpc: crate::authz::Vpc,
    rules: Seq<VpcFirewallRule>,
    now: Timestamp,
    updated: Result<Vec<VpcFirewallRule>, Error>,
    reader: crate::authz::OpContext,
    listed: Result<Vec<VpcFirewallRule>, Error>,
)
    requires
        forall|i: int|
            0 <= i < rules.len() ==> (#[trigger] rules[i]).vpc_id == authz_vpc.spec_id()
                && rules[i].identity.live(),
        pre.update_firewall_rules_post(post, opctx, authz_vpc, rules, now, updated),
        updated is Ok,
        post.list_firewall_rules_post(reader, authz_vpc, listed),
        listed is Ok,
    ensures
        same_rows(listed->Ok_0@, sorted_by_name(rules)),
        same_rows(listed->Ok_0@, updated->Ok_0@),
{
    let vpc_id = authz_vpc.spec_id();
    let sorted = sorted_by_name(rules);
    let cleared = rules_deleted(pre.vpc_firewall_rules, vpc_id, now);
    let page = listed->Ok_0@;
    lemma_sorted_by_name(rules);
    assert(is_listing(post.vpc_firewall_rules, vpc_id, by_name(), page));
    if rules.len() == 0 {
        assert(post.vpc_firewall_rules == cleared);
        assert(cleared + sorted =~= cleared);
        if page.len() > 0 {
            let k = lemma_listed_row_is_new(
                pre.vpc_firewall_rules,
                vpc_id,
                now,
                sorted,
                page,
                0,
            );
        }
    } else {
        assert(post.vpc_firewall_rules == cleared + sorted);
        assert(first_clash(pre.vpc_firewall_rules, sorted, 0) is None);
        assert forall|k: int| 0 <= k < sorted.len() implies (#[trigger] sorted[k]).vpc_id == vpc_id
            && sorted[k].identity.live() by {
            assert(rules.contains(sorted[k]));
        }
        lemma_listing_of_replaced_rules(pre.vpc_firewall_rules, vpc_id, now, sorted, page);
    }
}

/// Deleting all the firewall rules of a VPC a second time changes nothing.
pub proof fn lemma_delete_all_rules_is_idempotent(
    store: DataStoreView,
    vpc_id: Uuid,
    first: Timestamp,
    second: Timestamp,
)
    ensures
        store.rules_cleared(vpc_id, first).rules_cleared(vpc_id, second) == store.rules_cleared(
            vpc_id,
            first,
        ),
        !has_live_child(store.rules_cleared(vpc_id, first).vpc_firewall_rules, vpc_id),
{
    let once = rules_deleted(store.vpc_firewall_rules, vpc_id, first);
    let twice = rules_deleted(once, vpc_id, second);
    assert(twice =~= once);
}

/// After a blueprint has been made the target, it is the current target
/// and no other blueprint is: the zones that count for a VPC are its zones.
pub proof fn lemma_new_target_is_current(
    targets: Seq<BpTarget>,
    entry: BpTarget,
    blueprint_id: Uuid,
)
    requires
        crate::datastore::targets_increasing(targets),
        targets.len() > 0 ==> targets.last().version < entry.version,
    ensures
        is_current_target(targets.push(entry), blueprint_id) <==> blueprint_id
            == entry.blueprint_id,
{
    let after = targets.push(entry);
    assert forall|a: int, b: int| 0 <= a < b < after.len() implies (#[trigger] after[a]).version < (
    #[trigger] after[b]).version by {
        if b < targets.len() {
            assert(targets[a].version < targets[b].version);
        } else if a < targets.len() - 1 {
            assert(targets[a].version < targets[targets.len() - 1].version);
        }
    }
    crate::datastore::resolve::lemma_current_target_is_last(after, blueprint_id);
}

/// With a new target, a zone counts for a sled exactly when the new
/// target places it there and does not expunge it.
pub proof fn lemma_resolver_follows_target(
    store: DataStoreView,
    entry: BpTarget,
    zone_id: Uuid,
    sled_id: Uuid,
)
    requires
        store.wf(),
        store.bp_targets.len() > 0 ==> store.bp_targets.last().version < entry.version,
    ensures
        zone_on_sled(store.bp_omicron_zones, store.bp_targets.push(entry), zone_id, sled_id)
            <==> exists|z: int|
            0 <= z < store.bp_omicron_zones.len() && (#[trigger] store.bp_omicron_zones[z]).id
                == zone_id && store.bp_omicron_zones[z].sled_id == sled_id
                && store.bp_omicron_zones[z].disposition.spec_matches(
                BlueprintZoneFilter::ShouldDeployVpcFirewallRules,
            ) && store.bp_omicron_zones[z].blueprint_id == entry.blueprint_id,
{
    let zones = store.bp_omicron_zones;
    let after = store.bp_targets.push(entry);
    assert forall|z: int| 0 <= z < zones.len() implies (is_current_target(
        after,
        (#[trigger] zones[z]).blueprint_id,
    ) <==> zones[z].blueprint_id == entry.blueprint_id) by {
        lemma_new_target_is_current(store.bp_targets, entry, zones[z].blueprint_id);
    }
}

} // verus!
