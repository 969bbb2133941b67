//! Operations on the firewall rules of a VPC. The rules of a VPC are read
//! and replaced as a whole.

use crate::authz;
use crate::authz::{Action, OpContext};
use crate::datastore::subnet::by_name;
use crate::datastore::vpc::{generation_exhausted, lemma_update_vpc_keeps_rest};
use crate::datastore::{DataStore, DataStoreView};
use crate::error::{Error, ErrorView, LookupType, LookupTypeView, ResourceType, Uuid};
use crate::model::{Generation, Resource, Timestamp, Vpc, VpcFirewallRule};
use crate::names::str_eq;
use crate::table::{
    find_live, has_live, id_in_use, ids_unique, is_id_in_use, is_listing, lemma_sorted_by_name,
    lemma_update_keeps_unique, list_all_children, live_child, live_index, names_unique,
    sort_by_name, sorted_by_name, DataPageParams, PaginatedBy, PaginationOrder,
};
use vstd::prelude::*;
use vstd::string::*;

verus! {

/// The row after a soft delete at `now`.
pub open spec fn rule_deleted_at(row: VpcFirewallRule, now: Timestamp) -> VpcFirewallRule {
    VpcFirewallRule { identity: row.identity.deleted_at(now), ..row }
}

/// The table after the soft delete, at `now`, of every live rule of a VPC.
pub open spec fn rules_deleted(table: Seq<VpcFirewallRule>, vpc_id: Uuid, now: Timestamp) -> Seq<
    VpcFirewallRule,
> {
    Seq::new(
        table.len(),
        |i: int|
            if live_child(table[i], vpc_id) {
                rule_deleted_at(table[i], now)
            } else {
                table[i]
            },
    )
}

/// The two sequences hold the same values, row by row.
pub open spec fn same_rows(a: Seq<VpcFirewallRule>, b: Seq<VpcFirewallRule>) -> bool {
    a.len() == b.len() && forall|i: int| 0 <= i < a.len() ==> (#[trigger] a[i])@ == b[i]@
}

/// A rule before the one at `k` has its id.
pub open spec fn earlier_id(rules: Seq<VpcFirewallRule>, k: int) -> bool {
    exists|i: int| 0 <= i < k && (#[trigger] rules[i]).identity.id == rules[k].identity.id
}

/// A live rule before the one at `k` has its name.
pub open spec fn earlier_name(rules: Seq<VpcFirewallRule>, k: int) -> bool {
    exists|i: int|
        0 <= i < k && (#[trigger] rules[i]).identity.live() && rules[i].identity.name@
            == rules[k].identity.name@
}

/// What stands against the insert of the rule at `k`, after the rules
/// before it: a row of the table or a rule before it with its id; or, for a
/// live rule, a live rule before it with its name.
pub open spec fn rule_clash(table: Seq<VpcFirewallRule>, rules: Seq<VpcFirewallRule>, k: int)
    -> Option<ErrorView> {
    if id_in_use(table, rules[k].identity.id) || earlier_id(rules, k) || (rules[k].identity.live()
        && earlier_name(rules, k)) {
        Some(
            ErrorView::ObjectAlreadyExists {
                resource_type: ResourceType::VpcFirewallRule,
                object_name: rules[k].identity.name@,
            },
        )
    } else {
        None
    }
}

/// What stands against the insert of the first rule, from `from` on, that
/// something stands against.
pub open spec fn first_clash(table: Seq<VpcFirewallRule>, rules: Seq<VpcFirewallRule>, from: int)
    -> Option<ErrorView>
    decreases rules.len() - from,
{
    if from >= rules.len() {
        None
    } else if rule_clash(table, rules, from) is Some {
        rule_clash(table, rules, from)
    } else {
        first_clash(table, rules, from + 1)
    }
}

/// Nothing stands against any rule, if nothing stands against the first
/// that something could stand against.
pub proof fn lemma_no_clash(table: Seq<VpcFirewallRule>, rules: Seq<VpcFirewallRule>, from: int)
    requires
        0 <= from,
        first_clash(table, rules, from) is None,
    ensures
        forall|k: int| from <= k < rules.len() ==> rule_clash(table, rules, k) is None,
    decreases rules.len() - from,
{
    if from < rules.len() {
        lemma_no_clash(table, rules, from + 1);
    }
}

impl DataStoreView {
    /// What the listing of the firewall rules of a VPC returns: all its
    /// live rules, in the order of their names.
    pub open spec fn list_firewall_rules_post(
        self,
        opctx: OpContext,
        authz_vpc: authz::Vpc,
        res: Result<Vec<VpcFirewallRule>, Error>,
    ) -> bool {
        match opctx.check(
            Action::Read,
            ResourceType::Vpc,
            authz_vpc.spec_id(),
            authz_vpc.spec_lookup_type(),
        ) {
            Err(e) => res is Err && res->Err_0@ == e,
            Ok(_) => res is Ok && is_listing(
                self.vpc_firewall_rules,
                authz_vpc.spec_id(),
                by_name(),
                res->Ok_0@,
            ),
        }
    }

    /// The store after the soft delete, at `now`, of every live rule of a
    /// VPC.
    pub open spec fn rules_cleared(self, vpc_id: Uuid, now: Timestamp) -> DataStoreView {
        DataStoreView {
            vpc_firewall_rules: rules_deleted(self.vpc_firewall_rules, vpc_id, now),
            ..self
        }
    }

    /// What the deletion of all the firewall rules of a VPC at the time
    /// `now` returns, and the store after it.
    pub open spec fn delete_all_firewall_rules_post(
        self,
        post: DataStoreView,
        opctx: OpContext,
        authz_vpc: authz::Vpc,
        now: Timestamp,
        res: Result<(), Error>,
    ) -> bool {
        match opctx.check(
            Action::Modify,
            ResourceType::Vpc,
            authz_vpc.spec_id(),
            authz_vpc.spec_lookup_type(),
        ) {
            Err(e) => res is Err && res->Err_0@ == e && post == self,
            Ok(_) => res is Ok && post == self.rules_cleared(authz_vpc.spec_id(), now),
        }
    }

    /// What stands against the insert of the rules, sorted, into a VPC, the
    /// first of: a VPC that is not live, a clash of ids or names, a VPC
    /// whose generation is exhausted.
    pub open spec fn rules_insert_blocker(self, vpc_id: Uuid, sorted: Seq<VpcFirewallRule>)
        -> Option<ErrorView> {
        if !has_live(self.vpcs, vpc_id) {
            Some(
                ErrorView::ObjectNotFound {
                    resource_type: ResourceType::Vpc,
                    lookup_type: LookupTypeView::ById(vpc_id),
                },
            )
        } else if first_clash(self.vpc_firewall_rules, sorted, 0) is Some {
            first_clash(self.vpc_firewall_rules, sorted, 0)
        } else if self.vpcs[live_index(self.vpcs, vpc_id)].firewall_gen.0 == u64::MAX {
            Some(generation_exhausted())
        } else {
            None
        }
    }

    /// The store after the rules of a VPC have been replaced, at `now`, by
    /// the given ones: the old rules are deleted, the new ones follow them
    /// in the table, and the firewall generation of the VPC is one more.
    pub open spec fn rules_replaced(
        self,
        vpc_id: Uuid,
        sorted: Seq<VpcFirewallRule>,
        now: Timestamp,
    ) -> DataStoreView {
        let at = live_index(self.vpcs, vpc_id);
        DataStoreView {
            vpc_firewall_rules: rules_deleted(self.vpc_firewall_rules, vpc_id, now) + sorted,
            vpcs: self.vpcs.update(
                at,
                Vpc {
                    firewall_gen: Generation((self.vpcs[at].firewall_gen.0 + 1) as u64),
                    ..self.vpcs[at]
                },
            ),
            ..self
        }
    }

    /// What the replacement of the firewall rules of a VPC at the time
    /// `now` returns, and the store after it. With no new rules the old
    /// ones are deleted, whatever has become of the VPC.
    pub open spec fn update_firewall_rules_post(
        self,
        post: DataStoreView,
        opctx: OpContext,
        authz_vpc: authz::Vpc,
        rules: Seq<VpcFirewallRule>,
        now: Timestamp,
        res: Result<Vec<VpcFirewallRule>, Error>,
    ) -> bool {
        let vpc_id = authz_vpc.spec_id();
        let allowed = opctx.check(
            Action::Modify,
            ResourceType::Vpc,
            vpc_id,
            authz_vpc.spec_lookup_type(),
        );
        let sorted = sorted_by_name(rules);
        if allowed is Err {
            res is Err && res->Err_0@ == allowed->Err_0 && post == self
        } else if rules.len() == 0 {
            res is Ok && res->Ok_0@.len() == 0 && post == self.rules_cleared(vpc_id, now)
        } else if self.rules_insert_blocker(vpc_id, sorted) is Some {
            res is Err && res->Err_0@ == self.rules_insert_blocker(vpc_id, sorted)->0 && post
                == self
        } else {
            res is Ok && same_rows(res->Ok_0@, sorted) && post == self.rules_replaced(
                vpc_id,
                sorted,
                now,
            )
        }
    }
}

/// Deleting rules keeps ids and names unique.
pub proof fn lemma_rules_deleted_keeps_unique(
    table: Seq<VpcFirewallRule>,
    vpc_id: Uuid,
    now: Timestamp,
)
    requires
        ids_unique(table),
        names_unique(table),
    ensures
        ids_unique(rules_deleted(table, vpc_id, now)),
        names_unique(rules_deleted(table, vpc_id, now)),
{
    let after = rules_deleted(table, vpc_id, now);
    assert forall|i: int, j: int| 0 <= i < j < after.len() implies (
    #[trigger] after[i]).identity_of().id != (#[trigger] after[j]).identity_of().id by {
        assert(table[i].identity_of().id != table[j].identity_of().id);
    }
    assert forall|i: int, j: int|
        0 <= i < j < after.len() && live_child(#[trigger] after[i], after[j].parent_of()) && (
        #[trigger] after[j]).identity_of().live() implies after[i].identity_of().name@
        != after[j].identity_of().name@ by {
        assert(live_child(table[i], table[j].parent_of()));
        assert(table[j].identity_of().live());
    }
}

/// Replacing the rules of a VPC by rules of that VPC that nothing stands
/// against keeps ids and names unique.
pub proof fn lemma_rules_replaced_keeps_unique(
    table: Seq<VpcFirewallRule>,
    vpc_id: Uuid,
    now: Timestamp,
    sorted: Seq<VpcFirewallRule>,
)
    requires
        ids_unique(table),
        names_unique(table),
        forall|k: int| 0 <= k < sorted.len() ==> (#[trigger] sorted[k]).vpc_id == vpc_id,
        first_clash(table, sorted, 0) is None,
    ensures
        ids_unique(rules_deleted(table, vpc_id, now) + sorted),
        names_unique(rules_deleted(table, vpc_id, now) + sorted),
{
    let cleared = rules_deleted(table, vpc_id, now);
    let after = cleared + sorted;
    let n = cleared.len() as int;
    lemma_rules_deleted_keeps_unique(table, vpc_id, now);
    lemma_no_clash(table, sorted, 0);
    assert forall|i: int, j: int| 0 <= i < j < after.len() implies (
    #[trigger] after[i]).identity_of().id != (#[trigger] after[j]).identity_of().id by {
        if j < n {
            assert(cleared[i].identity_of().id != cleared[j].identity_of().id);
        } else {
            assert(rule_clash(table, sorted, j - n) is None);
            if i < n {
                assert(table[i].identity_of().id == cleared[i].identity_of().id);
                assert(table[i].identity_of().id != sorted[j - n].identity.id);
            } else {
                assert(sorted[i - n].identity.id != sorted[j - n].identity.id);
            }
        }
    }
    assert forall|i: int, j: int|
        0 <= i < j < after.len() && live_child(#[trigger] after[i], after[j].parent_of()) && (
        #[trigger] after[j]).identity_of().live() implies after[i].identity_of().name@
        != after[j].identity_of().name@ by {
        if j < n {
            assert(live_child(cleared[i], cleared[j].parent_of()));
            assert(cleared[j].identity_of().live());
        } else {
            assert(rule_clash(table, sorted, j - n) is None);
            assert(sorted[j - n].vpc_id == vpc_id);
            if i < n {
                assert(!live_child(cleared[i], vpc_id));
            } else {
                assert(sorted[i - n].identity.live());
            }
        }
    }
}

impl DataStore {
    /// Lists all the live firewall rules of a VPC, in the order of their
    /// names.
    pub fn vpc_list_firewall_rules(&self, opctx: &OpContext, authz_vpc: &authz::Vpc) -> (res: Result<
        Vec<VpcFirewallRule>,
        Error,
    >)
        requires
            self@.wf(),
        ensures
            self@.list_firewall_rules_post(*opctx, *authz_vpc, res),
    {
        proof {
            self.lemma_view();
        }
        match opctx.authorize(
            Action::Read,
            ResourceType::Vpc,
            authz_vpc.id(),
            authz_vpc.lookup_type(),
        ) {
            Err(e) => Err(e),
            Ok(()) => {
                let by = PaginatedBy::Name(
                    DataPageParams {
                        marker: None,
                        direction: PaginationOrder::Ascending,
                        limit: 0,
                    },
                );
                Ok(list_all_children(&self.vpc_firewall_rules, authz_vpc.id(), &by))
            },
        }
    }

    /// Soft-deletes every live rule of the VPC.
    #[verifier::loop_isolation(false)]
    fn clear_rules(&mut self, vpc_id: Uuid, now: Timestamp)
        ensures
            final(self)@ == old(self)@.rules_cleared(vpc_id, now),
    {
        proof {
            self.lemma_view();
        }
        let ghost pre = self@;
        let ghost table = self.vpc_firewall_rules@;
        let mut i: usize = 0;
        while i < self.vpc_firewall_rules.len()
            invariant
                i <= self.vpc_firewall_rules.len(),
                self.vpc_firewall_rules@.len() == table.len(),
                self@ == (DataStoreView { vpc_firewall_rules: self.vpc_firewall_rules@, ..pre }),
                forall|j: int|
                    0 <= j < table.len() ==> #[trigger] self.vpc_firewall_rules@[j] == if j < i
                        && live_child(table[j], vpc_id) {
                        rule_deleted_at(table[j], now)
                    } else {
                        table[j]
                    },
            decreases self.vpc_firewall_rules.len() - i,
        {
            if self.vpc_firewall_rules[i].identity.time_deleted.is_none()
                && self.vpc_firewall_rules[i].vpc_id == vpc_id {
                self.vpc_firewall_rules[i].identity.time_deleted = Some(now);
            }
            proof {
                self.lemma_view();
            }
            i += 1;
        }
        proof {
            self.lemma_view();
            assert(self.vpc_firewall_rules@ =~= rules_deleted(table, vpc_id, now));
        }
    }

    /// Deletes all the live firewall rules of a VPC, at the time `now`.
    pub fn vpc_delete_all_firewall_rules_at(
        &mut self,
        opctx: &OpContext,
        authz_vpc: &authz::Vpc,
        now: Timestamp,
    ) -> (res: Result<(), Error>)
        requires
            old(self)@.wf(),
        ensures
            final(self)@.wf(),
            old(self)@.delete_all_firewall_rules_post(final(self)@, *opctx, *authz_vpc, now, res),
    {
        match opctx.authorize(
            Action::Modify,
            ResourceType::Vpc,
            authz_vpc.id(),
            authz_vpc.lookup_type(),
        ) {
            Err(e) => {
                return Err(e);
            },
            Ok(()) => {},
        }
        proof {
            lemma_rules_deleted_keeps_unique(old(self)@.vpc_firewall_rules, authz_vpc.spec_id(), now);
        }
        self.clear_rules(authz_vpc.id(), now);
        Ok(())
    }

    /// Deletes all the live firewall rules of a VPC, at the time that the
    /// clock gives.
    pub fn vpc_delete_all_firewall_rules(&mut self, opctx: &OpContext, authz_vpc: &authz::Vpc) -> (res:
        Result<(), Error>)
        requires
            old(self)@.wf(),
        ensures
            final(self)@.wf(),
            exists|now: Timestamp|
                old(self)@.delete_all_firewall_rules_post(
                    final(self)@,
                    *opctx,
                    *authz_vpc,
                    now,
                    res,
                ),
    {
        let now = crate::datastore::utc_now();
        self.vpc_delete_all_firewall_rules_at(opctx, authz_vpc, now)
    }

    /// What stands against the insert of the first of the rules that
    /// something stands against.
    #[verifier::loop_isolation(false)]
    fn find_clash(&self, rules: &Vec<VpcFirewallRule>) -> (res: Option<Error>)
        ensures
            res is Some == first_clash(self@.vpc_firewall_rules, rules@, 0) is Some,
            res matches Some(e) ==> e@ == first_clash(self@.vpc_firewall_rules, rules@, 0)->0,
    {
        proof {
            self.lemma_view();
        }
        let ghost table = self@.vpc_firewall_rules;
        let mut k: usize = 0;
        while k < rules.len()
            invariant
                k <= rules.len(),
                first_clash(table, rules@, 0) == first_clash(table, rules@, k as int),
            decreases rules.len() - k,
        {
            let rule = &rules[k];
            let mut same_id = is_id_in_use(&self.vpc_firewall_rules, rule.identity.id);
            let mut same_name = false;
            let mut i: usize = 0;
            while i < k
                invariant
                    i <= k,
                    k < rules.len(),
                    same_id == (id_in_use(table, rule.identity.id) || exists|a: int|
                        0 <= a < i && (#[trigger] rules@[a]).identity.id == rule.identity.id),
                    same_name == exists|a: int|
                        0 <= a < i && (#[trigger] rules@[a]).identity.live()
                            && rules@[a].identity.name@ == rule.identity.name@,
                decreases k - i,
            {
                if rules[i].identity.id == rule.identity.id {
                    same_id = true;
                }
                if rules[i].identity.time_deleted.is_none() && str_eq(
                    rules[i].identity.name.as_str(),
                    rule.identity.name.as_str(),
                ) {
                    same_name = true;
                }
                i += 1;
            }
            assert(same_id == (id_in_use(table, rule.identity.id) || earlier_id(rules@, k as int)));
            assert(same_name == earlier_name(rules@, k as int));
            if same_id || (rule.identity.time_deleted.is_none() && same_name) {
                return Some(
                    Error::already_exists(
                        ResourceType::VpcFirewallRule,
                        rule.identity.name.as_str(),
                    ),
                );
            }
            k += 1;
        }
        None
    }

    /// Replaces all the firewall rules of a VPC with the given rules, at
    /// the time `now`, and returns the new rules in the order of their
    /// names. Either the whole replacement takes effect, or nothing changes.
    #[verifier::loop_isolation(false)]
    pub fn vpc_update_firewall_rules_at(
        &mut self,
        opctx: &OpContext,
        authz_vpc: &authz::Vpc,
        rules: Vec<VpcFirewallRule>,
        now: Timestamp,
    ) -> (res: Result<Vec<VpcFirewallRule>, Error>)
        requires
            old(self)@.wf(),
            forall|i: int| 0 <= i < rules@.len() ==> (#[trigger] rules@[i]).vpc_id == authz_vpc.spec_id(),
        ensures
            final(self)@.wf(),
            old(self)@.update_firewall_rules_post(
                final(self)@,
                *opctx,
                *authz_vpc,
                rules@,
                now,
                res,
            ),
    {
        proof {
            self.lemma_view();
        }
        let ghost pre = self@;
        let vpc_id = authz_vpc.id();
        match opctx.authorize(Action::Modify, ResourceType::Vpc, vpc_id, authz_vpc.lookup_type()) {
            Err(e) => {
                return Err(e);
            },
            Ok(()) => {},
        }
        let ghost given = rules@;
        let mut sorted = sort_by_name(rules);
        proof {
            lemma_sorted_by_name(given);
            lemma_rules_deleted_keeps_unique(pre.vpc_firewall_rules, vpc_id, now);
        }
        if sorted.len() == 0 {
            self.clear_rules(vpc_id, now);
            return Ok(Vec::new());
        }
        let at = match find_live(&self.vpcs, vpc_id) {
            None => {
                return Err(Error::not_found_by_id(ResourceType::Vpc, vpc_id));
            },
            Some(at) => at,
        };
        match self.find_clash(&sorted) {
            Some(e) => {
                return Err(e);
            },
            None => {},
        }
        let firewall_gen = match self.vpcs[at].firewall_gen.next() {
            None => {
                return Err(Error::internal_error("child generation exhausted"));
            },
            Some(next) => next,
        };
        let mut copies: Vec<VpcFirewallRule> = Vec::new();
        let mut i: usize = 0;
        while i < sorted.len()
            invariant
                i <= sorted.len(),
                copies@.len() == i,
                forall|k: int| 0 <= k < i ==> (#[trigger] copies@[k])@ == sorted@[k]@,
            decreases sorted.len() - i,
        {
            copies.push(sorted[i].duplicate());
            i += 1;
        }
        let ghost new_rules = sorted@;
        proof {
            assert forall|k: int| 0 <= k < new_rules.len() implies (#[trigger] new_rules[k]).vpc_id
                == vpc_id by {
                assert(given.contains(new_rules[k]));
            }
            lemma_rules_replaced_keeps_unique(pre.vpc_firewall_rules, vpc_id, now, new_rules);
            let bumped = Vpc { firewall_gen, ..pre.vpcs[at as int] };
            lemma_update_keeps_unique(pre.vpcs, at as int, bumped);
            lemma_update_vpc_keeps_rest(pre, at as int, bumped);
        }
        self.clear_rules(vpc_id, now);
        self.vpc_firewall_rules.append(&mut sorted);
        self.vpcs[at].firewall_gen = firewall_gen;
        proof {
            self.lemma_view();
            assert(self@.vpcs =~= pre.vpcs.update(
                at as int,
                Vpc { firewall_gen, ..pre.vpcs[at as int] },
            ));
            assert(self@ == pre.rules_replaced(vpc_id, new_rules, now));
        }
        Ok(copies)
    }

    /// Replaces all the firewall rules of a VPC with the given rules, at
    /// the time that the clock gives. See
    /// [`DataStore::vpc_update_firewall_rules_at`].
    pub fn vpc_update_firewall_rules(
        &mut self,
        opctx: &OpContext,
        authz_vpc: &authz::Vpc,
        rules: Vec<VpcFirewallRule>,
    ) -> (res: Result<Vec<VpcFirewallRule>, Error>)
        requires
            old(self)@.wf(),
            forall|i: int| 0 <= i < rules@.len() ==> (#[trigger] rules@[i]).vpc_id == authz_vpc.spec_id(),
        ensures
            final(self)@.wf(),
            exists|now: Timestamp|
                old(self)@.update_firewall_rules_post(
                    final(self)@,
                    *opctx,
                    *authz_vpc,
                    rules@,
                    now,
                    res,
                ),
    {
        let now = crate::datastore::utc_now();
        self.vpc_update_firewall_rules_at(opctx, authz_vpc, rules, now)
    }
}

} // verus!
