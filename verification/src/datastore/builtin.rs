//! Loading the built-in resources into the store: the VPC of the
//! control-plane services with its system router and default route, its
//! firewall rules and its subnets.
//!
//! Loading is meant to be repeated: what is there already is left as it is.
//! It is not one transaction: when it fails, what was loaded before the
//! failure stays.

use crate::authz;
use crate::authz::{Action, OpContext, DATABASE_ID};
use crate::datastore::subnet::{by_name, external_view, SubnetErrorView};
use crate::datastore::vpc::InsertVpcQuery;
use crate::datastore::{new_uuid_v4, utc_now, DataStore, DataStoreView};
use crate::error::{Error, ErrorView, LookupType, LookupTypeView, ResourceType, Uuid};
use crate::fixed_data::{
    are_services_subnets, dns_rule_name, dns_vpc_fw_rule, is_dns_vpc_fw_rule,
    is_nexus_vpc_fw_rule, is_services_vpc, is_services_vpc_default_route,
    is_services_vpc_router, nexus_rule_name, nexus_vpc_fw_rule, services_vpc,
    services_vpc_default_route, services_vpc_name, services_vpc_router, services_vpc_subnets,
    SERVICES_PROJECT_ID, SERVICES_VPC_ID, SERVICES_VPC_ROUTER_ID,
};
use crate::model::{
    Identity, IncompleteVpc, Resource, RouterRoute, Timestamp, Vpc, VpcFirewallRule, VpcRouter,
    VpcSubnet,
};
use crate::names::str_eq;
use crate::table::{find_live, has_live, is_listing};
use crate::vni::Vni;
use vstd::prelude::*;
use vstd::string::*;

verus! {

/// Some rule of the list has the name.
pub open spec fn rule_named(rules: Seq<VpcFirewallRule>, name: Seq<char>) -> bool {
    exists|i: int| 0 <= i < rules.len() && (#[trigger] rules[i]).identity.name@ == name
}

/// The rules, and after them the two built-in rules whose names no rule
/// before them has.
pub open spec fn rules_with_builtins(
    existing: Seq<VpcFirewallRule>,
    dns: VpcFirewallRule,
    nexus: VpcFirewallRule,
) -> Seq<VpcFirewallRule> {
    let first = if rule_named(existing, dns.identity.name@) {
        existing
    } else {
        existing.push(dns)
    };
    if rule_named(first, nexus.identity.name@) {
        first
    } else {
        first.push(nexus)
    }
}

/// The rules, each with the id at its place in the list of ids.
pub open spec fn rules_with_ids(rules: Seq<VpcFirewallRule>, ids: Seq<Uuid>) -> Seq<
    VpcFirewallRule,
> {
    Seq::new(
        rules.len(),
        |k: int| VpcFirewallRule { identity: Identity { id: ids[k], ..rules[k].identity }, ..rules[k] },
    )
}

/// The lookup by id that the loading uses.
pub open spec fn by_id(id: Uuid) -> LookupType {
    LookupType::ById(id)
}

/// The resource is the one with the id, looked up by id.
pub open spec fn is_authz_vpc(authz_vpc: authz::Vpc, id: Uuid) -> bool {
    authz_vpc.spec_id() == id && authz_vpc.spec_lookup_type()@ == LookupTypeView::ById(id)
}

impl DataStoreView {
    /// What a lookup of a live row by id for an action fails with, if it
    /// fails: the row is not there, or the action is not permitted.
    pub open spec fn lookup_error(
        self,
        found: bool,
        opctx: OpContext,
        action: Action,
        resource_type: ResourceType,
        id: Uuid,
    ) -> Option<ErrorView> {
        if !found {
            Some(ErrorView::ObjectNotFound { resource_type, lookup_type: LookupTypeView::ById(id) })
        } else {
            match opctx.check(action, resource_type, id, by_id(id)) {
                Err(e) => Some(e),
                Ok(_) => None,
            }
        }
    }

    /// The live subnet with the id is there for the caller to read.
    pub open spec fn subnet_fetchable(self, opctx: OpContext, id: Uuid) -> bool {
        self.lookup_error(
            has_live(self.vpc_subnets, id),
            opctx,
            Action::Read,
            ResourceType::VpcSubnet,
            id,
        ) is None
    }

    /// The subnet is neither there for the caller to read nor anything
    /// stands against its creation.
    pub open spec fn subnet_to_create(self, opctx: OpContext, subnet: VpcSubnet) -> bool {
        &&& !self.subnet_fetchable(opctx, subnet.identity.id)
        &&& opctx.check(
            Action::CreateChild,
            ResourceType::Vpc,
            subnet.vpc_id,
            by_id(subnet.vpc_id),
        ) is Ok
        &&& self.subnet_insert_blocker(subnet) is None
    }

    /// What the loading of one subnet fails with, if it fails. That the
    /// subnet exists already is no failure.
    pub open spec fn subnet_load_error(self, opctx: OpContext, subnet: VpcSubnet) -> Option<
        ErrorView,
    > {
        let allowed = opctx.check(
            Action::CreateChild,
            ResourceType::Vpc,
            subnet.vpc_id,
            by_id(subnet.vpc_id),
        );
        if self.subnet_fetchable(opctx, subnet.identity.id) {
            None
        } else if allowed is Err {
            Some(allowed->Err_0)
        } else {
            match self.subnet_insert_blocker(subnet) {
                None => None,
                Some(e) => if external_view(e) is ObjectAlreadyExists {
                    None
                } else {
                    Some(external_view(e))
                },
            }
        }
    }

    /// The store after the loading of one subnet.
    pub open spec fn subnet_loaded(self, opctx: OpContext, subnet: VpcSubnet) -> DataStoreView {
        if self.subnet_to_create(opctx, subnet) {
            DataStoreView { vpc_subnets: self.vpc_subnets.push(subnet), ..self }
        } else {
            self
        }
    }

    /// What the loading of the subnets from the one at `from` on fails
    /// with, if it fails.
    pub open spec fn subnets_load_error(
        self,
        opctx: OpContext,
        subnets: Seq<VpcSubnet>,
        from: int,
    ) -> Option<ErrorView>
        decreases subnets.len() - from,
    {
        if from < 0 || from >= subnets.len() {
            None
        } else if self.subnet_load_error(opctx, subnets[from]) is Some {
            self.subnet_load_error(opctx, subnets[from])
        } else {
            self.subnet_loaded(opctx, subnets[from]).subnets_load_error(opctx, subnets, from + 1)
        }
    }

    /// The store after the loading of the subnets from the one at `from`
    /// on, up to the first that fails.
    pub open spec fn subnets_loaded(self, opctx: OpContext, subnets: Seq<VpcSubnet>, from: int)
        -> DataStoreView
        decreases subnets.len() - from,
    {
        if from < 0 || from >= subnets.len() {
            self
        } else if self.subnet_load_error(opctx, subnets[from]) is Some {
            self
        } else {
            self.subnet_loaded(opctx, subnets[from]).subnets_loaded(opctx, subnets, from + 1)
        }
    }

    /// What the loading of subnets returns, and the store after it.
    pub open spec fn load_subnets_post(
        self,
        post: DataStoreView,
        opctx: OpContext,
        subnets: Seq<VpcSubnet>,
        res: Result<(), Error>,
    ) -> bool {
        &&& post == self.subnets_loaded(opctx, subnets, 0)
        &&& match self.subnets_load_error(opctx, subnets, 0) {
            Some(e) => res is Err && res->Err_0@ == e,
            None => res is Ok,
        }
    }

    /// What the loading of the built-in subnets, made at `now`, returns,
    /// and the store after it, once the VPC has been found.
    pub open spec fn builtin_subnets_post(
        self,
        post: DataStoreView,
        opctx: OpContext,
        res: Result<(), Error>,
        now: Timestamp,
        subnets: Seq<VpcSubnet>,
    ) -> bool {
        are_services_subnets(subnets, now) && self.load_subnets_post(post, opctx, subnets, res)
    }

    /// What the loading of the built-in subnets returns, and the store
    /// after it, whenever it is done.
    pub open spec fn builtin_subnets_loaded(
        self,
        post: DataStoreView,
        opctx: OpContext,
        res: Result<(), Error>,
    ) -> bool {
        match self.lookup_error(
            has_live(self.vpcs, SERVICES_VPC_ID),
            opctx,
            Action::CreateChild,
            ResourceType::Vpc,
            SERVICES_VPC_ID,
        ) {
            Some(e) => res is Err && res->Err_0@ == e && post == self,
            None => exists|now: Timestamp, subnets: Seq<VpcSubnet>|
                self.builtin_subnets_post(post, opctx, res, now, subnets),
        }
    }

    /// What the loading of the built-in firewall rules returns, and the
    /// store after it, once the VPC has been found and its rules have been
    /// listed: the rules that the VPC has, and the built-in rules made at
    /// `now` that it lacks, replace its rules, each under the id at its
    /// place in `ids`.
    pub open spec fn builtin_rules_post(
        self,
        post: DataStoreView,
        opctx: OpContext,
        res: Result<(), Error>,
        authz_vpc: authz::Vpc,
        listed: Seq<VpcFirewallRule>,
        dns: VpcFirewallRule,
        nexus: VpcFirewallRule,
        now: Timestamp,
        ids: Seq<Uuid>,
        replaced_at: Timestamp,
        replaced: Result<Vec<VpcFirewallRule>, Error>,
    ) -> bool {
        &&& is_authz_vpc(authz_vpc, SERVICES_VPC_ID)
        &&& is_listing(self.vpc_firewall_rules, SERVICES_VPC_ID, by_name(), listed)
        &&& exists|dns_id: Uuid| is_dns_vpc_fw_rule(dns, dns_id, now)
        &&& exists|nexus_id: Uuid| is_nexus_vpc_fw_rule(nexus, nexus_id, now)
        &&& ids.len() == rules_with_builtins(listed, dns, nexus).len()
        &&& self.update_firewall_rules_post(
            post,
            opctx,
            authz_vpc,
            rules_with_ids(rules_with_builtins(listed, dns, nexus), ids),
            replaced_at,
            replaced,
        )
        &&& res is Ok == replaced is Ok
        &&& res is Err ==> res->Err_0 == replaced->Err_0
    }

    /// What the loading of the built-in firewall rules returns, and the
    /// store after it, whatever ids and times it comes by.
    pub open spec fn builtin_rules_loaded(
        self,
        post: DataStoreView,
        opctx: OpContext,
        res: Result<(), Error>,
    ) -> bool {
        let lookup = self.lookup_error(
            has_live(self.vpcs, SERVICES_VPC_ID),
            opctx,
            Action::CreateChild,
            ResourceType::Vpc,
            SERVICES_VPC_ID,
        );
        let readable = opctx.check(
            Action::Read,
            ResourceType::Vpc,
            SERVICES_VPC_ID,
            by_id(SERVICES_VPC_ID),
        );
        if lookup is Some {
            res is Err && res->Err_0@ == lookup->0 && post == self
        } else if readable is Err {
            res is Err && res->Err_0@ == readable->Err_0 && post == self
        } else {
            exists|
                authz_vpc: authz::Vpc,
                listed: Seq<VpcFirewallRule>,
                dns: VpcFirewallRule,
                nexus: VpcFirewallRule,
                now: Timestamp,
                ids: Seq<Uuid>,
                replaced_at: Timestamp,
                replaced: Result<Vec<VpcFirewallRule>, Error>,
            |
                self.builtin_rules_post(
                    post,
                    opctx,
                    res,
                    authz_vpc,
                    listed,
                    dns,
                    nexus,
                    now,
                    ids,
                    replaced_at,
                    replaced,
                )
        }
    }

    /// What the loading of firewall rules and subnets returns, and the
    /// store after it: the subnets are loaded if the loading of the rules
    /// does not fail.
    pub open spec fn builtin_rules_and_subnets_loaded(
        self,
        post: DataStoreView,
        opctx: OpContext,
        res: Result<(), Error>,
    ) -> bool {
        exists|with_rules: DataStoreView, rules: Result<(), Error>|
            #![trigger self.builtin_rules_loaded(with_rules, opctx, rules)]
            self.builtin_rules_loaded(with_rules, opctx, rules) && if rules is Err {
                res == rules && post == with_rules
            } else {
                with_rules.builtin_subnets_loaded(post, opctx, res)
            }
    }

    /// What the loading from the default route on returns, and the store
    /// after it: that the route exists already is no failure.
    pub open spec fn builtin_route_loaded(
        self,
        post: DataStoreView,
        opctx: OpContext,
        res: Result<(), Error>,
        now: Timestamp,
    ) -> bool {
        exists|
            authz_router: authz::VpcRouter,
            route: RouterRoute,
            with_route: DataStoreView,
            created: Result<RouterRoute, Error>,
        |
            #![trigger self.create_route_post(with_route, opctx, authz_router, route, created)]
            {
                &&& authz_router.spec_id() == SERVICES_VPC_ROUTER_ID
                &&& authz_router.spec_lookup_type()@ == LookupTypeView::ById(SERVICES_VPC_ROUTER_ID)
                &&& is_services_vpc_default_route(route, now)
                &&& self.create_route_post(with_route, opctx, authz_router, route, created)
                &&& if created is Err && !(created->Err_0 is ObjectAlreadyExists) {
                    res is Err && res->Err_0 == created->Err_0 && post == with_route
                } else {
                    with_route.builtin_rules_and_subnets_loaded(post, opctx, res)
                }
            }
    }

    /// The live system router of the built-in VPC is there for the caller
    /// to create children of.
    pub open spec fn services_router_found(self, opctx: OpContext) -> bool {
        self.lookup_error(
            has_live(self.vpc_routers, SERVICES_VPC_ROUTER_ID),
            opctx,
            Action::CreateChild,
            ResourceType::VpcRouter,
            SERVICES_VPC_ROUTER_ID,
        ) is None
    }

    /// What the loading from the system router on returns, and the store
    /// after it: the router is created unless it is found.
    pub open spec fn builtin_router_loaded(
        self,
        post: DataStoreView,
        opctx: OpContext,
        res: Result<(), Error>,
        authz_vpc: authz::Vpc,
        now: Timestamp,
    ) -> bool {
        if self.services_router_found(opctx) {
            self.builtin_route_loaded(post, opctx, res, now)
        } else {
            exists|
                router: VpcRouter,
                with_router: DataStoreView,
                created: Result<(authz::VpcRouter, VpcRouter), Error>,
            |
                #![trigger self.create_router_post(with_router, opctx, authz_vpc, router, created)]
                {
                    &&& is_services_vpc_router(router, now)
                    &&& self.create_router_post(with_router, opctx, authz_vpc, router, created)
                    &&& if created is Err {
                        res is Err && res->Err_0 == created->Err_0 && post == with_router
                    } else {
                        with_router.builtin_route_loaded(post, opctx, res, now)
                    }
                }
        }
    }

    /// The message of the error for a built-in VPC whose VNI is taken.
    pub open spec fn vni_exhaustion_message() -> Seq<char> {
        "VNI exhaustion detected when creating built-in VPCs"@
    }

    /// What the loading of the built-in VPC and all that belongs to it,
    /// made at `now`, returns, and the store after it, once the project
    /// has been found.
    pub open spec fn builtin_vpcs_post(
        self,
        post: DataStoreView,
        opctx: OpContext,
        res: Result<(), Error>,
        now: Timestamp,
        authz_project: authz::Project,
        query: InsertVpcQuery,
        with_vpc: DataStoreView,
        created: Result<Option<(authz::Vpc, Vpc)>, Error>,
        authz_vpc: authz::Vpc,
    ) -> bool {
        &&& authz_project.spec_id() == SERVICES_PROJECT_ID
        &&& authz_project.spec_lookup_type()@ == LookupTypeView::ById(SERVICES_PROJECT_ID)
        &&& is_services_vpc(query.vpc, now)
        &&& query.exact_vni
        &&& self.create_vpc_raw_post(with_vpc, opctx, authz_project, query, created)
        &&& match created {
            Ok(None) => res is Err && res->Err_0@ == (ErrorView::InternalError {
                internal_message: Self::vni_exhaustion_message(),
            }) && post == with_vpc,
            Err(e) => if e is ObjectAlreadyExists {
                &&& authz_vpc.spec_id() == SERVICES_VPC_ID
                &&& authz_vpc.spec_parent() == authz_project
                &&& authz_vpc.spec_lookup_type()@ == LookupTypeView::ByName(services_vpc_name())
                &&& with_vpc.builtin_router_loaded(post, opctx, res, authz_vpc, now)
            } else {
                res is Err && res->Err_0 == e && post == with_vpc
            },
            Ok(Some(pair)) => authz_vpc == pair.0 && with_vpc.builtin_router_loaded(
                post,
                opctx,
                res,
                authz_vpc,
                now,
            ),
        }
    }

    /// What the loading of the built-in VPC and all that belongs to it
    /// returns, and the store after it, whenever it is done.
    pub open spec fn builtin_vpcs_loaded(
        self,
        post: DataStoreView,
        opctx: OpContext,
        res: Result<(), Error>,
    ) -> bool {
        let database = opctx.check(
            Action::Modify,
            ResourceType::Database,
            DATABASE_ID,
            by_id(DATABASE_ID),
        );
        let project = self.lookup_error(
            has_live(self.projects, SERVICES_PROJECT_ID),
            opctx,
            Action::CreateChild,
            ResourceType::Project,
            SERVICES_PROJECT_ID,
        );
        if database is Err {
            res is Err && res->Err_0@ == database->Err_0 && post == self
        } else if project is Some {
            res is Err && res->Err_0@ == project->0 && post == self
        } else {
            exists|
                now: Timestamp,
                authz_project: authz::Project,
                query: InsertVpcQuery,
                with_vpc: DataStoreView,
                created: Result<Option<(authz::Vpc, Vpc)>, Error>,
                authz_vpc: authz::Vpc,
            |
                self.builtin_vpcs_post(
                    post,
                    opctx,
                    res,
                    now,
                    authz_project,
                    query,
                    with_vpc,
                    created,
                    authz_vpc,
                )
        }
    }
}

/// Whether some rule of the list has the name.
#[verifier::loop_isolation(false)]
fn has_rule_named(rules: &Vec<VpcFirewallRule>, name: &str) -> (res: bool)
    ensures
        res == rule_named(rules@, name@),
{
    let mut i: usize = 0;
    while i < rules.len()
        invariant
            i <= rules.len(),
            forall|j: int| 0 <= j < i ==> (#[trigger] rules@[j]).identity.name@ != name@,
        decreases rules.len() - i,
    {
        if str_eq(rules[i].identity.name.as_str(), name) {
            return true;
        }
        i += 1;
    }
    false
}

/// The rules, and after them the two built-in rules whose names no rule
/// before them has.
pub fn add_builtin_rules(existing: Vec<VpcFirewallRule>, dns: VpcFirewallRule, nexus: VpcFirewallRule)
    -> (res: Vec<VpcFirewallRule>)
    ensures
        res@ == rules_with_builtins(existing@, dns, nexus),
{
    let mut rules = existing;
    if !has_rule_named(&rules, dns.identity.name.as_str()) {
        rules.push(dns);
    }
    if !has_rule_named(&rules, nexus.identity.name.as_str()) {
        rules.push(nexus);
    }
    rules
}

/// The rules, each with the id at its place in the list of ids.
#[verifier::loop_isolation(false)]
pub fn set_rule_ids(rules: Vec<VpcFirewallRule>, ids: &Vec<Uuid>) -> (res: Vec<VpcFirewallRule>)
    requires
        ids@.len() == rules@.len(),
    ensures
        res@ == rules_with_ids(rules@, ids@),
{
    let ghost given = rules@;
    let mut rules = rules;
    let mut i: usize = 0;
    while i < rules.len()
        invariant
            i <= rules.len(),
            rules@.len() == given.len(),
            forall|k: int|
                0 <= k < rules@.len() ==> #[trigger] rules@[k] == if k < i {
                    rules_with_ids(given, ids@)[k]
                } else {
                    given[k]
                },
        decreases rules.len() - i,
    {
        rules[i].identity.id = ids[i];
        i += 1;
    }
    assert(rules@ =~= rules_with_ids(given, ids@));
    rules
}

/// As many fresh ids as asked for.
fn fresh_ids(count: usize) -> (res: Vec<Uuid>)
    ensures
        res@.len() == count,
{
    let mut ids: Vec<Uuid> = Vec::new();
    while ids.len() < count
        invariant
            ids@.len() <= count,
        decreases count - ids.len(),
    {
        ids.push(new_uuid_v4());
    }
    ids
}

impl DataStore {
    /// Looks the live project with the id up, for a caller who wants to take
    /// the action on it.
    fn lookup_project_for(&self, opctx: &OpContext, id: Uuid, action: Action) -> (res: Result<
        authz::Project,
        Error,
    >)
        ensures
            match self@.lookup_error(
                has_live(self@.projects, id),
                *opctx,
                action,
                ResourceType::Project,
                id,
            ) {
                Some(e) => res is Err && res->Err_0@ == e,
                None => res is Ok && res->Ok_0.spec_id() == id && res->Ok_0.spec_lookup_type()
                    == by_id(id),
            },
    {
        proof {
            self.lemma_view();
        }
        let at = match find_live(&self.projects, id) {
            None => {
                return Err(Error::not_found_by_id(ResourceType::Project, id));
            },
            Some(at) => at,
        };
        let lookup = LookupType::ById(id);
        match opctx.authorize(action, ResourceType::Project, id, &lookup) {
            Err(e) => Err(e),
            Ok(()) => Ok(authz::Project::new(id, lookup)),
        }
    }

    /// Looks the live VPC with the id up, for a caller who wants to take
    /// the action on it.
    fn lookup_vpc_for(&self, opctx: &OpContext, id: Uuid, action: Action) -> (res: Result<
        authz::Vpc,
        Error,
    >)
        ensures
            match self@.lookup_error(
                has_live(self@.vpcs, id),
                *opctx,
                action,
                ResourceType::Vpc,
                id,
            ) {
                Some(e) => res is Err && res->Err_0@ == e,
                None => res is Ok && res->Ok_0.spec_id() == id && res->Ok_0.spec_lookup_type()
                    == by_id(id),
            },
    {
        proof {
            self.lemma_view();
        }
        let at = match find_live(&self.vpcs, id) {
            None => {
                return Err(Error::not_found_by_id(ResourceType::Vpc, id));
            },
            Some(at) => at,
        };
        let lookup = LookupType::ById(id);
        match opctx.authorize(action, ResourceType::Vpc, id, &lookup) {
            Err(e) => Err(e),
            Ok(()) => Ok(authz::Vpc::new(
                    authz::Project::new(
                        self.vpcs[at].project_id,
                        LookupType::ById(self.vpcs[at].project_id),
                    ),
                    id,
                    lookup,
                )),
        }
    }

    /// Looks the live router with the id up, for a caller who wants to take
    /// the action on it.
    fn lookup_router_for(&self, opctx: &OpContext, id: Uuid, action: Action) -> (res: Result<
        authz::VpcRouter,
        Error,
    >)
        ensures
            match self@.lookup_error(
                has_live(self@.vpc_routers, id),
                *opctx,
                action,
                ResourceType::VpcRouter,
                id,
            ) {
                Some(e) => res is Err && res->Err_0@ == e,
                None => res is Ok && res->Ok_0.spec_id() == id && res->Ok_0.spec_lookup_type()
                    == by_id(id),
            },
    {
        proof {
            self.lemma_view();
        }
        let at = match find_live(&self.vpc_routers, id) {
            None => {
                return Err(Error::not_found_by_id(ResourceType::VpcRouter, id));
            },
            Some(at) => at,
        };
        let lookup = LookupType::ById(id);
        match opctx.authorize(action, ResourceType::VpcRouter, id, &lookup) {
            Err(e) => Err(e),
            Ok(()) => Ok(authz::VpcRouter::new(
                    authz::Vpc::new(
                        authz::Project::new(0, LookupType::ById(0)),
                        self.vpc_routers[at].vpc_id,
                        LookupType::ById(self.vpc_routers[at].vpc_id),
                    ),
                    id,
                    lookup,
                )),
        }
    }

    /// Whether the live subnet with the id is there for the caller to read.
    fn can_fetch_subnet(&self, opctx: &OpContext, id: Uuid) -> (res: bool)
        ensures
            res == self@.subnet_fetchable(*opctx, id),
    {
        proof {
            self.lemma_view();
        }
        match find_live(&self.vpc_subnets, id) {
            None => false,
            Some(_) => {
                let lookup = LookupType::ById(id);
                opctx.authorize(Action::Read, ResourceType::VpcSubnet, id, &lookup).is_ok()
            },
        }
    }

    /// Creates a subnet unless it is there already.
    fn load_vpc_subnet(&mut self, opctx: &OpContext, authz_vpc: &authz::Vpc, subnet: VpcSubnet) -> (res:
        Result<(), Error>)
        requires
            old(self)@.wf(),
            authz_vpc.spec_id() == subnet.vpc_id,
            authz_vpc.spec_lookup_type()@ == LookupTypeView::ById(subnet.vpc_id),
        ensures
            final(self)@.wf(),
            final(self)@ == old(self)@.subnet_loaded(*opctx, subnet),
            match old(self)@.subnet_load_error(*opctx, subnet) {
                Some(e) => res is Err && res->Err_0@ == e,
                None => res is Ok,
            },
    {
        if self.can_fetch_subnet(opctx, subnet.identity.id) {
            return Ok(());
        }
        match self.vpc_create_subnet(opctx, authz_vpc, subnet) {
            Ok(_) => Ok(()),
            Err(e) => match e.into_external() {
                Error::ObjectAlreadyExists { .. } => Ok(()),
                other => Err(other),
            },
        }
    }

    /// Creates the subnets of a VPC that are not there already, one after
    /// the other, up to the first that fails.
    #[verifier::loop_isolation(false)]
    pub fn load_vpc_subnets(
        &mut self,
        opctx: &OpContext,
        authz_vpc: &authz::Vpc,
        subnets: &Vec<VpcSubnet>,
    ) -> (res: Result<(), Error>)
        requires
            old(self)@.wf(),
            authz_vpc.spec_lookup_type()@ == LookupTypeView::ById(authz_vpc.spec_id()),
            forall|k: int|
                0 <= k < subnets@.len() ==> (#[trigger] subnets@[k]).vpc_id == authz_vpc.spec_id(),
        ensures
            final(self)@.wf(),
            old(self)@.load_subnets_post(final(self)@, *opctx, subnets@, res),
    {
        let ghost pre = self@;
        let mut i: usize = 0;
        while i < subnets.len()
            invariant
                i <= subnets.len(),
                self@.wf(),
                pre.subnets_loaded(*opctx, subnets@, 0) == self@.subnets_loaded(
                    *opctx,
                    subnets@,
                    i as int,
                ),
                pre.subnets_load_error(*opctx, subnets@, 0) == self@.subnets_load_error(
                    *opctx,
                    subnets@,
                    i as int,
                ),
            decreases subnets.len() - i,
        {
            match self.load_vpc_subnet(opctx, authz_vpc, subnets[i].duplicate()) {
                Err(e) => {
                    return Err(e);
                },
                Ok(()) => {},
            }
            i += 1;
        }
        Ok(())
    }

    /// Loads the built-in subnets of the services VPC into the store.
    pub fn load_builtin_vpc_subnets(&mut self, opctx: &OpContext) -> (res: Result<(), Error>)
        requires
            old(self)@.wf(),
        ensures
            final(self)@.wf(),
            old(self)@.builtin_subnets_loaded(final(self)@, *opctx, res),
    {
        let ghost pre = self@;
        let authz_vpc = match self.lookup_vpc_for(opctx, SERVICES_VPC_ID, Action::CreateChild) {
            Err(e) => {
                return Err(e);
            },
            Ok(authz_vpc) => authz_vpc,
        };
        let now = utc_now();
        let subnets = services_vpc_subnets(now);
        let res = self.load_vpc_subnets(opctx, &authz_vpc, &subnets);
        proof {
            assert(pre.builtin_subnets_post(self@, *opctx, res, now, subnets@));
        }
        res
    }

    /// Loads the built-in firewall rules of the services VPC into the
    /// store: the rules that the VPC has are kept, the built-in rules that it
    /// lacks are added, and all of them get new ids.
    pub fn load_builtin_vpc_fw_rules(&mut self, opctx: &OpContext) -> (res: Result<(), Error>)
        requires
            old(self)@.wf(),
        ensures
            final(self)@.wf(),
            old(self)@.builtin_rules_loaded(final(self)@, *opctx, res),
    {
        let ghost pre = self@;
        let authz_vpc = match self.lookup_vpc_for(opctx, SERVICES_VPC_ID, Action::CreateChild) {
            Err(e) => {
                return Err(e);
            },
            Ok(authz_vpc) => authz_vpc,
        };
        let listed = match self.vpc_list_firewall_rules(opctx, &authz_vpc) {
            Err(e) => {
                return Err(e);
            },
            Ok(rules) => rules,
        };
        let ghost listing = listed@;
        let now = utc_now();
        let dns = dns_vpc_fw_rule(new_uuid_v4(), now);
        let nexus = nexus_vpc_fw_rule(new_uuid_v4(), now);
        let ghost dns_rule = dns;
        let ghost nexus_rule = nexus;
        let rules = add_builtin_rules(listed, dns, nexus);
        let ids = fresh_ids(rules.len());
        let rules = set_rule_ids(rules, &ids);
        let ghost given = rules@;
        proof {
            assert forall|k: int| 0 <= k < given.len() implies (#[trigger] given[k]).vpc_id
                == authz_vpc.spec_id() by {
                let all = rules_with_builtins(listing, dns_rule, nexus_rule);
                assert(given[k].vpc_id == all[k].vpc_id);
                if k < listing.len() {
                    assert(all[k] == listing[k]);
                    let j = choose|j: int|
                        0 <= j < pre.vpc_firewall_rules.len() && (#[trigger] listing[k])@ == (
                        #[trigger] pre.vpc_firewall_rules[j])@ && crate::table::on_listing(
                            pre.vpc_firewall_rules[j],
                            SERVICES_VPC_ID,
                            by_name(),
                        );
                }
            }
        }
        let replaced = self.vpc_update_firewall_rules(opctx, &authz_vpc, rules);
        let ghost replaced_rules = replaced;
        let res = match replaced {
            Err(e) => Err(e),
            Ok(_) => Ok(()),
        };
        proof {
            let replaced_at = choose|at: Timestamp|
                pre.update_firewall_rules_post(
                    self@,
                    *opctx,
                    authz_vpc,
                    given,
                    at,
                    replaced_rules,
                );
            assert(pre.builtin_rules_post(
                self@,
                *opctx,
                res,
                authz_vpc,
                listing,
                dns_rule,
                nexus_rule,
                now,
                ids@,
                replaced_at,
                replaced_rules,
            ));
        }
        res
    }

    /// Loads the default route of the built-in VPC, made at `now`, then
    /// its firewall rules and its subnets.
    fn load_builtin_route(&mut self, opctx: &OpContext, authz_router: &authz::VpcRouter, now: Timestamp)
        -> (res: Result<(), Error>)
        requires
            old(self)@.wf(),
            authz_router.spec_id() == SERVICES_VPC_ROUTER_ID,
            authz_router.spec_lookup_type()@ == LookupTypeView::ById(SERVICES_VPC_ROUTER_ID),
        ensures
            final(self)@.wf(),
            old(self)@.builtin_route_loaded(final(self)@, *opctx, res, now),
    {
        let ghost pre = self@;
        let route = services_vpc_default_route(now);
        let ghost route_row = route;
        let created = self.router_create_route(opctx, authz_router, route);
        let ghost with_route = self@;
        let ghost created_route = created;
        match created {
            Ok(_) => {},
            Err(Error::ObjectAlreadyExists { .. }) => {},
            Err(e) => {
                return Err(e);
            },
        }
        let rules = self.load_builtin_vpc_fw_rules(opctx);
        let ghost with_rules = self@;
        let res = match rules {
            Err(e) => Err(e),
            Ok(()) => self.load_builtin_vpc_subnets(opctx),
        };
        proof {
            assert(with_route.builtin_rules_loaded(with_rules, *opctx, rules));
            assert(with_route.builtin_rules_and_subnets_loaded(self@, *opctx, res));
            assert(pre.create_route_post(with_route, *opctx, *authz_router, route_row, created_route));
        }
        res
    }

    /// Loads the system router of the built-in VPC, made at `now`, unless
    /// it is there, then its default route, its firewall rules and its
    /// subnets.
    fn load_builtin_router(&mut self, opctx: &OpContext, authz_vpc: &authz::Vpc, now: Timestamp) -> (res:
        Result<(), Error>)
        requires
            old(self)@.wf(),
        ensures
            final(self)@.wf(),
            old(self)@.builtin_router_loaded(final(self)@, *opctx, res, *authz_vpc, now),
    {
        let ghost pre = self@;
        match self.lookup_router_for(opctx, SERVICES_VPC_ROUTER_ID, Action::CreateChild) {
            Ok(authz_router) => self.load_builtin_route(opctx, &authz_router, now),
            Err(_) => {
                let router = services_vpc_router(now);
                let ghost router_row = router;
                let created = self.vpc_create_router(opctx, authz_vpc, router);
                let ghost with_router = self@;
                let ghost created_router = created;
                let res = match created {
                    Err(e) => Err(e),
                    Ok((authz_router, _)) => self.load_builtin_route(opctx, &authz_router, now),
                };
                proof {
                    assert(pre.create_router_post(
                        with_router,
                        *opctx,
                        *authz_vpc,
                        router_row,
                        created_router,
                    ));
                }
                res
            },
        }
    }

    /// Loads the built-in VPC of the control-plane services into the store,
    /// with its system router, its default route, its firewall rules and
    /// its subnets.
    pub fn load_builtin_vpcs(&mut self, opctx: &OpContext) -> (res: Result<(), Error>)
        requires
            old(self)@.wf(),
        ensures
            final(self)@.wf(),
            old(self)@.builtin_vpcs_loaded(final(self)@, *opctx, res),
    {
        let ghost pre = self@;
        let ghost no_vpc = authz_placeholder();
        let database = LookupType::ById(DATABASE_ID);
        match opctx.authorize(Action::Modify, ResourceType::Database, DATABASE_ID, &database) {
            Err(e) => {
                return Err(e);
            },
            Ok(()) => {},
        }
        let authz_project = match self.lookup_project_for(
            opctx,
            SERVICES_PROJECT_ID,
            Action::CreateChild,
        ) {
            Err(e) => {
                return Err(e);
            },
            Ok(authz_project) => authz_project,
        };
        let now = utc_now();
        let vpc_query = InsertVpcQuery::new_system(services_vpc(now), Some(Vni::services()));
        let ghost query = vpc_query;
        let created = self.project_create_vpc_raw(opctx, &authz_project, vpc_query);
        let ghost with_vpc = self@;
        let ghost created_vpc = created;
        let authz_vpc = match created {
            Ok(None) => {
                let res = Err(
                    Error::internal_error("VNI exhaustion detected when creating built-in VPCs"),
                );
                proof {
                    assert(pre.builtin_vpcs_post(
                        self@,
                        *opctx,
                        res,
                        now,
                        authz_project,
                        query,
                        with_vpc,
                        created_vpc,
                        no_vpc,
                    ));
                }
                return res;
            },
            Ok(Some((authz_vpc, _))) => authz_vpc,
            Err(Error::ObjectAlreadyExists { .. }) => authz::Vpc::new(
                authz_project.duplicate(),
                SERVICES_VPC_ID,
                LookupType::ByName(String::from_str("oxide-services")),
            ),
            Err(e) => {
                proof {
                    let res = Err::<(), Error>(e);
                    assert(pre.builtin_vpcs_post(
                        self@,
                        *opctx,
                        res,
                        now,
                        authz_project,
                        query,
                        with_vpc,
                        created_vpc,
                        no_vpc,
                    ));
                }
                return Err(e);
            },
        };
        let res = self.load_builtin_router(opctx, &authz_vpc, now);
        proof {
            assert(pre.builtin_vpcs_post(
                self@,
                *opctx,
                res,
                now,
                authz_project,
                query,
                with_vpc,
                created_vpc,
                authz_vpc,
            ));
        }
        res
    }
}

/// Some VPC, where it does not matter which.
spec fn authz_placeholder() -> authz::Vpc {
    vstd::pervasive::arbitrary()
}

} // verus!
