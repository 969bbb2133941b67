//! Operations on VPC routers and their routes.

use crate::authz;
use crate::authz::{Action, OpContext};
use crate::datastore::vpc::generation_exhausted;
use crate::datastore::{
    default_routes_unique, live_default_route, system_routers_anchored, DataStore, DataStoreView,
};
use crate::error::{Error, ErrorView, LookupType, LookupTypeView, ResourceType, Uuid};
use crate::model::{
    Generation, Identity, Resource, RouterRoute, RouterRouteUpdate, Timestamp, Vpc, VpcRouter,
    VpcRouterKind, VpcRouterUpdate,
};
use crate::table::{
    find_live, has_live, id_in_use, is_id_in_use, is_name_in_use, is_page,
    lemma_push_keeps_unique, lemma_update_keeps_unique, list_children, live_index, name_in_use,
    name_in_use_by_other, PaginatedBy,
};
use vstd::prelude::*;
use vstd::string::*;

verus! {

/// The message of the error for deleting a system router.
pub open spec fn system_router_message() -> Seq<char> {
    "system router cannot be deleted"@
}

/// The message of the error for a system router that its VPC does not name.
pub open spec fn unanchored_router_message() -> Seq<char> {
    "system router is not the one that its VPC names"@
}

/// Some VPC, live or deleted, names the router as its system router.
pub open spec fn names_system_router(vpcs: Seq<Vpc>, router: VpcRouter) -> bool {
    exists|i: int|
        0 <= i < vpcs.len() && (#[trigger] vpcs[i]).identity.id == router.vpc_id
            && vpcs[i].system_router_id == router.identity.id
}

/// The router has a live default route.
pub open spec fn has_default_route(routes: Seq<RouterRoute>, router_id: Uuid) -> bool {
    exists|j: int| 0 <= j < routes.len() && live_default_route(#[trigger] routes[j], router_id)
}

/// The row after a soft delete at `now`.
pub open spec fn router_deleted_at(row: VpcRouter, now: Timestamp) -> VpcRouter {
    VpcRouter { identity: row.identity.deleted_at(now), ..row }
}

/// The row after a soft delete at `now`.
pub open spec fn route_deleted_at(row: RouterRoute, now: Timestamp) -> RouterRoute {
    RouterRoute { identity: row.identity.deleted_at(now), ..row }
}

/// The row after an update.
pub open spec fn router_updated(row: VpcRouter, updates: VpcRouterUpdate) -> VpcRouter {
    VpcRouter {
        identity: Identity {
            name: match updates.name {
                Some(name) => name,
                None => row.identity.name,
            },
            description: match updates.description {
                Some(description) => description,
                None => row.identity.description,
            },
            time_modified: updates.time_modified,
            ..row.identity
        },
        ..row
    }
}

/// The row after an update.
pub open spec fn route_updated(row: RouterRoute, updates: RouterRouteUpdate) -> RouterRoute {
    RouterRoute {
        identity: Identity {
            name: match updates.name {
                Some(name) => name,
                None => row.identity.name,
            },
            description: match updates.description {
                Some(description) => description,
                None => row.identity.description,
            },
            time_modified: updates.time_modified,
            ..row.identity
        },
        target: updates.target,
        destination: updates.destination,
        ..row
    }
}

impl DataStoreView {
    /// What stands against the insert of a router, the first of: a system
    /// router that its VPC does not name, a row with its id or a live
    /// sibling with its name.
    pub open spec fn router_insert_blocker(self, router: VpcRouter) -> Option<ErrorView> {
        if router.kind is System && !names_system_router(self.vpcs, router) {
            Some(ErrorView::InvalidRequest { message: unanchored_router_message() })
        } else if id_in_use(self.vpc_routers, router.identity.id) || (router.identity.live()
            && name_in_use(self.vpc_routers, router.vpc_id, router.identity.name@)) {
            Some(
                ErrorView::ObjectAlreadyExists {
                    resource_type: ResourceType::VpcRouter,
                    object_name: router.identity.name@,
                },
            )
        } else {
            None
        }
    }

    /// What the creation of a router returns, and the store after it.
    pub open spec fn create_router_post(
        self,
        post: DataStoreView,
        opctx: OpContext,
        authz_vpc: authz::Vpc,
        router: VpcRouter,
        res: Result<(authz::VpcRouter, VpcRouter), Error>,
    ) -> bool {
        let allowed = opctx.check(
            Action::CreateChild,
            ResourceType::Vpc,
            authz_vpc.spec_id(),
            authz_vpc.spec_lookup_type(),
        );
        if allowed is Err {
            res is Err && res->Err_0@ == allowed->Err_0 && post == self
        } else {
            match self.router_insert_blocker(router) {
                Some(e) => res is Err && res->Err_0@ == e && post == self,
                None => res matches Ok((authz_router, row)) && {
                    &&& row == router
                    &&& authz_router.spec_id() == router.identity.id
                    &&& authz_router.spec_parent() == authz_vpc
                    &&& authz_router.spec_lookup_type()@ == LookupTypeView::ById(
                        router.identity.id,
                    )
                    &&& post == (DataStoreView {
                        vpc_routers: self.vpc_routers.push(router),
                        ..self
                    })
                },
            }
        }
    }

    /// What the deletion of a router at the time `now` returns, and the
    /// store after it.
    pub open spec fn delete_router_post(
        self,
        post: DataStoreView,
        opctx: OpContext,
        authz_router: authz::VpcRouter,
        now: Timestamp,
        res: Result<(), Error>,
    ) -> bool {
        let id = authz_router.spec_id();
        let allowed = opctx.check(
            Action::Delete,
            ResourceType::VpcRouter,
            id,
            authz_router.spec_lookup_type(),
        );
        let at = live_index(self.vpc_routers, id);
        if allowed is Err {
            res is Err && res->Err_0@ == allowed->Err_0 && post == self
        } else if !has_live(self.vpc_routers, id) {
            res is Ok && post == self
        } else if self.vpc_routers[at].kind is System {
            res is Err && res->Err_0@ == (ErrorView::InvalidRequest {
                message: system_router_message(),
            }) && post == self
        } else {
            res is Ok && post == (DataStoreView {
                vpc_routers: self.vpc_routers.update(
                    at,
                    router_deleted_at(self.vpc_routers[at], now),
                ),
                ..self
            })
        }
    }

    /// What an update of a router returns, and the store after it.
    pub open spec fn update_router_post(
        self,
        post: DataStoreView,
        opctx: OpContext,
        authz_router: authz::VpcRouter,
        updates: VpcRouterUpdate,
        res: Result<VpcRouter, Error>,
    ) -> bool {
        let id = authz_router.spec_id();
        let allowed = opctx.check(
            Action::Modify,
            ResourceType::VpcRouter,
            id,
            authz_router.spec_lookup_type(),
        );
        let at = live_index(self.vpc_routers, id);
        if allowed is Err {
            res is Err && res->Err_0@ == allowed->Err_0 && post == self
        } else if !has_live(self.vpc_routers, id) {
            res is Err && res->Err_0@ == (ErrorView::ObjectNotFound {
                resource_type: ResourceType::VpcRouter,
                lookup_type: authz_router.spec_lookup_type()@,
            }) && post == self
        } else if updates.name is Some && name_in_use_by_other(
            self.vpc_routers,
            self.vpc_routers[at].vpc_id,
            updates.name->0@,
            id,
        ) {
            res is Err && res->Err_0@ == (ErrorView::ObjectAlreadyExists {
                resource_type: ResourceType::VpcRouter,
                object_name: updates.name->0@,
            }) && post == self
        } else {
            &&& res is Ok
            &&& res->Ok_0 == router_updated(self.vpc_routers[at], updates)
            &&& post == (DataStoreView {
                vpc_routers: self.vpc_routers.update(at, res->Ok_0),
                ..self
            })
        }
    }

    /// What stands against the insert of a route into a live router, the
    /// first of: a row with its id or a live sibling with its name, a
    /// second live default route, a router whose generation is exhausted.
    pub open spec fn route_insert_blocker(self, route: RouterRoute) -> Option<ErrorView> {
        if id_in_use(self.router_routes, route.identity.id) || (route.identity.live()
            && name_in_use(self.router_routes, route.vpc_router_id, route.identity.name@)) {
            Some(
                ErrorView::ObjectAlreadyExists {
                    resource_type: ResourceType::RouterRoute,
                    object_name: route.identity.name@,
                },
            )
        } else if live_default_route(route, route.vpc_router_id) && has_default_route(
            self.router_routes,
            route.vpc_router_id,
        ) {
            Some(
                ErrorView::Conflict {
                    resource_type: ResourceType::RouterRoute,
                    object_name: route.identity.name@,
                },
            )
        } else if self.vpc_routers[live_index(self.vpc_routers, route.vpc_router_id)].rcgen.0
            == u64::MAX {
            Some(generation_exhausted())
        } else {
            None
        }
    }

    /// What the creation of a route returns, and the store after it.
    pub open spec fn create_route_post(
        self,
        post: DataStoreView,
        opctx: OpContext,
        authz_router: authz::VpcRouter,
        route: RouterRoute,
        res: Result<RouterRoute, Error>,
    ) -> bool {
        let allowed = opctx.check(
            Action::CreateChild,
            ResourceType::VpcRouter,
            authz_router.spec_id(),
            authz_router.spec_lookup_type(),
        );
        let at = live_index(self.vpc_routers, route.vpc_router_id);
        if allowed is Err {
            res is Err && res->Err_0@ == allowed->Err_0 && post == self
        } else if !has_live(self.vpc_routers, route.vpc_router_id) {
            res is Err && res->Err_0@ == (ErrorView::ObjectNotFound {
                resource_type: ResourceType::VpcRouter,
                lookup_type: LookupTypeView::ById(route.vpc_router_id),
            }) && post == self
        } else {
            match self.route_insert_blocker(route) {
                Some(e) => res is Err && res->Err_0@ == e && post == self,
                None => res == Ok::<RouterRoute, Error>(route) && post == (DataStoreView {
                    router_routes: self.router_routes.push(route),
                    vpc_routers: self.vpc_routers.update(
                        at,
                        VpcRouter {
                            rcgen: Generation((self.vpc_routers[at].rcgen.0 + 1) as u64),
                            ..self.vpc_routers[at]
                        },
                    ),
                    ..self
                }),
            }
        }
    }

    /// What the deletion of a route at the time `now` returns, and the
    /// store after it.
    pub open spec fn delete_route_post(
        self,
        post: DataStoreView,
        opctx: OpContext,
        authz_route: authz::RouterRoute,
        now: Timestamp,
        res: Result<(), Error>,
    ) -> bool {
        let id = authz_route.spec_id();
        let allowed = opctx.check(
            Action::Delete,
            ResourceType::RouterRoute,
            id,
            authz_route.spec_lookup_type(),
        );
        let at = live_index(self.router_routes, id);
        if allowed is Err {
            res is Err && res->Err_0@ == allowed->Err_0 && post == self
        } else if !has_live(self.router_routes, id) {
            res is Ok && post == self
        } else {
            res is Ok && post == (DataStoreView {
                router_routes: self.router_routes.update(
                    at,
                    route_deleted_at(self.router_routes[at], now),
                ),
                ..self
            })
        }
    }

    /// What an update of a route returns, and the store after it.
    pub open spec fn update_route_post(
        self,
        post: DataStoreView,
        opctx: OpContext,
        authz_route: authz::RouterRoute,
        updates: RouterRouteUpdate,
        res: Result<RouterRoute, Error>,
    ) -> bool {
        let id = authz_route.spec_id();
        let allowed = opctx.check(
            Action::Modify,
            ResourceType::RouterRoute,
            id,
            authz_route.spec_lookup_type(),
        );
        let at = live_index(self.router_routes, id);
        if allowed is Err {
            res is Err && res->Err_0@ == allowed->Err_0 && post == self
        } else if !has_live(self.router_routes, id) {
            res is Err && res->Err_0@ == (ErrorView::ObjectNotFound {
                resource_type: ResourceType::RouterRoute,
                lookup_type: authz_route.spec_lookup_type()@,
            }) && post == self
        } else if updates.name is Some && name_in_use_by_other(
            self.router_routes,
            self.router_routes[at].vpc_router_id,
            updates.name->0@,
            id,
        ) {
            res is Err && res->Err_0@ == (ErrorView::ObjectAlreadyExists {
                resource_type: ResourceType::RouterRoute,
                object_name: updates.name->0@,
            }) && post == self
        } else {
            &&& res is Ok
            &&& res->Ok_0 == route_updated(self.router_routes[at], updates)
            &&& post == (DataStoreView {
                router_routes: self.router_routes.update(at, res->Ok_0),
                ..self
            })
        }
    }
}

/// Replacing a router by one of the same kind, id and VPC keeps every
/// system router anchored.
pub proof fn lemma_update_router_keeps_anchored(pre: DataStoreView, at: int, row: VpcRouter)
    requires
        pre.wf(),
        0 <= at < pre.vpc_routers.len(),
        row.kind == pre.vpc_routers[at].kind,
        row.vpc_id == pre.vpc_routers[at].vpc_id,
        row.identity.id == pre.vpc_routers[at].identity.id,
    ensures
        system_routers_anchored(pre.vpcs, pre.vpc_routers.update(at, row)),
{
    let after = pre.vpc_routers.update(at, row);
    assert forall|j: int| 0 <= j < after.len() && (#[trigger] after[j]).kind is System implies exists|
        i: int,
    |
        0 <= i < pre.vpcs.len() && (#[trigger] pre.vpcs[i]).identity.id == after[j].vpc_id
            && pre.vpcs[i].system_router_id == after[j].identity.id by {
        assert(pre.vpc_routers[j].kind is System);
    }
}

/// Replacing a route by one of the same kind and router, which is live
/// only if the route was, keeps default routes unique.
pub proof fn lemma_update_route_keeps_default(routes: Seq<RouterRoute>, at: int, row: RouterRoute)
    requires
        default_routes_unique(routes),
        0 <= at < routes.len(),
        row.kind == routes[at].kind,
        row.vpc_router_id == routes[at].vpc_router_id,
        row.identity.live() ==> routes[at].identity.live(),
    ensures
        default_routes_unique(routes.update(at, row)),
{
    let after = routes.update(at, row);
    assert forall|i: int, j: int|
        0 <= i < j < after.len() && live_default_route(
            #[trigger] after[i],
            after[j].vpc_router_id,
        ) implies !live_default_route(#[trigger] after[j], after[j].vpc_router_id) by {
        assert(live_default_route(routes[i], routes[j].vpc_router_id));
    }
}

impl DataStore {
    /// Whether some VPC, live or deleted, names the router as its system
    /// router.
    #[verifier::loop_isolation(false)]
    fn is_system_router_named(&self, router: &VpcRouter) -> (res: bool)
        ensures
            res == names_system_router(self@.vpcs, *router),
    {
        proof {
            self.lemma_view();
        }
        let mut i: usize = 0;
        while i < self.vpcs.len()
            invariant
                i <= self.vpcs.len(),
                forall|j: int|
                    0 <= j < i ==> !((#[trigger] self.vpcs@[j]).identity.id == router.vpc_id
                        && self.vpcs@[j].system_router_id == router.identity.id),
            decreases self.vpcs.len() - i,
        {
            if self.vpcs[i].identity.id == router.vpc_id && self.vpcs[i].system_router_id
                == router.identity.id {
                return true;
            }
            i += 1;
        }
        false
    }

    /// Whether the router has a live default route.
    #[verifier::loop_isolation(false)]
    fn is_default_route_present(&self, router_id: Uuid) -> (res: bool)
        ensures
            res == has_default_route(self@.router_routes, router_id),
    {
        proof {
            self.lemma_view();
        }
        let mut i: usize = 0;
        while i < self.router_routes.len()
            invariant
                i <= self.router_routes.len(),
                forall|j: int|
                    0 <= j < i ==> !live_default_route(#[trigger] self.router_routes@[j], router_id),
            decreases self.router_routes.len() - i,
        {
            let row = &self.router_routes[i];
            if row.identity.time_deleted.is_none() && row.vpc_router_id == router_id && matches!(
                row.kind,
                crate::model::RouterRouteKind::Default
            ) {
                return true;
            }
            i += 1;
        }
        false
    }

    /// Lists the live routers of a VPC, one page at a time.
    pub fn vpc_router_list(
        &self,
        opctx: &OpContext,
        authz_vpc: &authz::Vpc,
        pagparams: &PaginatedBy,
    ) -> (res: Result<Vec<VpcRouter>, Error>)
        requires
            self@.wf(),
        ensures
            match opctx.check(
                Action::ListChildren,
                ResourceType::Vpc,
                authz_vpc.spec_id(),
                authz_vpc.spec_lookup_type(),
            ) {
                Err(e) => res is Err && res->Err_0@ == e,
                Ok(_) => res is Ok && is_page(
                    self@.vpc_routers,
                    authz_vpc.spec_id(),
                    *pagparams,
                    res->Ok_0@,
                ),
            },
    {
        proof {
            self.lemma_view();
        }
        match opctx.authorize(
            Action::ListChildren,
            ResourceType::Vpc,
            authz_vpc.id(),
            authz_vpc.lookup_type(),
        ) {
            Err(e) => Err(e),
            Ok(()) => Ok(list_children(&self.vpc_routers, authz_vpc.id(), pagparams)),
        }
    }

    /// Creates a router of a VPC. A system router is accepted only as the
    /// one that its VPC names.
    pub fn vpc_create_router(
        &mut self,
        opctx: &OpContext,
        authz_vpc: &authz::Vpc,
        router: VpcRouter,
    ) -> (res: Result<(authz::VpcRouter, VpcRouter), Error>)
        requires
            old(self)@.wf(),
        ensures
            final(self)@.wf(),
            old(self)@.create_router_post(final(self)@, *opctx, *authz_vpc, router, res),
    {
        proof {
            self.lemma_view();
        }
        let ghost pre = self@;
        match opctx.authorize(
            Action::CreateChild,
            ResourceType::Vpc,
            authz_vpc.id(),
            authz_vpc.lookup_type(),
        ) {
            Err(e) => {
                return Err(e);
            },
            Ok(()) => {},
        }
        if matches!(router.kind, VpcRouterKind::System) && !self.is_system_router_named(&router) {
            return Err(Error::invalid_request("system router is not the one that its VPC names"));
        }
        if is_id_in_use(&self.vpc_routers, router.identity.id) || (
        router.identity.time_deleted.is_none() && is_name_in_use(
            &self.vpc_routers,
            router.vpc_id,
            router.identity.name.as_str(),
            None,
        )) {
            return Err(
                Error::already_exists(ResourceType::VpcRouter, router.identity.name.as_str()),
            );
        }
        let copy = router.duplicate();
        let id = router.identity.id;
        proof {
            lemma_push_keeps_unique(pre.vpc_routers, router);
            let after = pre.vpc_routers.push(router);
            assert forall|j: int|
                0 <= j < after.len() && (#[trigger] after[j]).kind is System implies exists|i: int|
                0 <= i < pre.vpcs.len() && (#[trigger] pre.vpcs[i]).identity.id == after[j].vpc_id
                    && pre.vpcs[i].system_router_id == after[j].identity.id by {
                if j < pre.vpc_routers.len() {
                    assert(pre.vpc_routers[j].kind is System);
                }
            }
        }
        self.vpc_routers.push(router);
        proof {
            self.lemma_view();
        }
        Ok((authz::VpcRouter::new(authz_vpc.duplicate(), id, LookupType::ById(id)), copy))
    }

    /// Deletes a router, at the time `now`. A system router is not deleted.
    /// A router that is not there, or not live, is left alone.
    pub fn vpc_delete_router_at(
        &mut self,
        opctx: &OpContext,
        authz_router: &authz::VpcRouter,
        now: Timestamp,
    ) -> (res: Result<(), Error>)
        requires
            old(self)@.wf(),
        ensures
            final(self)@.wf(),
            old(self)@.delete_router_post(final(self)@, *opctx, *authz_router, now, res),
    {
        proof {
            self.lemma_view();
        }
        let ghost pre = self@;
        match opctx.authorize(
            Action::Delete,
            ResourceType::VpcRouter,
            authz_router.id(),
            authz_router.lookup_type(),
        ) {
            Err(e) => {
                return Err(e);
            },
            Ok(()) => {},
        }
        let at = match find_live(&self.vpc_routers, authz_router.id()) {
            Some(at) => at,
            None => {
                return Ok(());
            },
        };
        if matches!(self.vpc_routers[at].kind, VpcRouterKind::System) {
            return Err(Error::invalid_request("system router cannot be deleted"));
        }
        let ghost deleted = router_deleted_at(pre.vpc_routers[at as int], now);
        proof {
            lemma_update_keeps_unique(pre.vpc_routers, at as int, deleted);
            lemma_update_router_keeps_anchored(pre, at as int, deleted);
        }
        self.vpc_routers[at].identity.time_deleted = Some(now);
        proof {
            self.lemma_view();
            assert(self@.vpc_routers =~= pre.vpc_routers.update(at as int, deleted));
        }
        Ok(())
    }

    /// Deletes a router, at the time that the clock gives. See
    /// [`DataStore::vpc_delete_router_at`].
    pub fn vpc_delete_router(&mut self, opctx: &OpContext, authz_router: &authz::VpcRouter) -> (res:
        Result<(), Error>)
        requires
            old(self)@.wf(),
        ensures
            final(self)@.wf(),
            exists|now: Timestamp|
                old(self)@.delete_router_post(final(self)@, *opctx, *authz_router, now, res),
    {
        let now = crate::datastore::utc_now();
        self.vpc_delete_router_at(opctx, authz_router, now)
    }

    /// Changes name or description of a live router.
    pub fn vpc_update_router(
        &mut self,
        opctx: &OpContext,
        authz_router: &authz::VpcRouter,
        updates: VpcRouterUpdate,
    ) -> (res: Result<VpcRouter, Error>)
        requires
            old(self)@.wf(),
        ensures
            final(self)@.wf(),
            old(self)@.update_router_post(final(self)@, *opctx, *authz_router, updates, res),
    {
        proof {
            self.lemma_view();
        }
        let ghost pre = self@;
        match opctx.authorize(
            Action::Modify,
            ResourceType::VpcRouter,
            authz_router.id(),
            authz_router.lookup_type(),
        ) {
            Err(e) => {
                return Err(e);
            },
            Ok(()) => {},
        }
        let at = match find_live(&self.vpc_routers, authz_router.id()) {
            None => {
                return Err(
                    Error::ObjectNotFound {
                        resource_type: ResourceType::VpcRouter,
                        lookup_type: authz_router.lookup_type().duplicate(),
                    },
                );
            },
            Some(at) => at,
        };
        if let Some(name) = &updates.name {
            if is_name_in_use(
                &self.vpc_routers,
                self.vpc_routers[at].vpc_id,
                name.as_str(),
                Some(authz_router.id()),
            ) {
                return Err(Error::already_exists(ResourceType::VpcRouter, name.as_str()));
            }
        }
        let ghost updated = router_updated(pre.vpc_routers[at as int], updates);
        proof {
            lemma_update_keeps_unique(pre.vpc_routers, at as int, updated);
            lemma_update_router_keeps_anchored(pre, at as int, updated);
        }
        let VpcRouterUpdate { name, description, time_modified } = updates;
        if let Some(name) = name {
            self.vpc_routers[at].identity.name = name;
        }
        if let Some(description) = description {
            self.vpc_routers[at].identity.description = description;
        }
        self.vpc_routers[at].identity.time_modified = time_modified;
        proof {
            self.lemma_view();
            assert(self@.vpc_routers =~= pre.vpc_routers.update(at as int, updated));
        }
        Ok(self.vpc_routers[at].duplicate())
    }

    /// Lists the live routes of a router, one page at a time.
    pub fn vpc_router_route_list(
        &self,
        opctx: &OpContext,
        authz_router: &authz::VpcRouter,
        pagparams: &PaginatedBy,
    ) -> (res: Result<Vec<RouterRoute>, Error>)
        requires
            self@.wf(),
        ensures
            match opctx.check(
                Action::ListChildren,
                ResourceType::VpcRouter,
                authz_router.spec_id(),
                authz_router.spec_lookup_type(),
            ) {
                Err(e) => res is Err && res->Err_0@ == e,
                Ok(_) => res is Ok && is_page(
                    self@.router_routes,
                    authz_router.spec_id(),
                    *pagparams,
                    res->Ok_0@,
                ),
            },
    {
        proof {
            self.lemma_view();
        }
        match opctx.authorize(
            Action::ListChildren,
            ResourceType::VpcRouter,
            authz_router.id(),
            authz_router.lookup_type(),
        ) {
            Err(e) => Err(e),
            Ok(()) => Ok(list_children(&self.router_routes, authz_router.id(), pagparams)),
        }
    }

    /// Creates a route of a live router, and bumps the generation of the
    /// router.
    pub fn router_create_route(
        &mut self,
        opctx: &OpContext,
        authz_router: &authz::VpcRouter,
        route: RouterRoute,
    ) -> (res: Result<RouterRoute, Error>)
        requires
            old(self)@.wf(),
            authz_router.spec_id() == route.vpc_router_id,
        ensures
            final(self)@.wf(),
            old(self)@.create_route_post(final(self)@, *opctx, *authz_router, route, res),
    {
        proof {
            self.lemma_view();
        }
        let ghost pre = self@;
        match opctx.authorize(
            Action::CreateChild,
            ResourceType::VpcRouter,
            authz_router.id(),
            authz_router.lookup_type(),
        ) {
            Err(e) => {
                return Err(e);
            },
            Ok(()) => {},
        }
        let router_id = route.vpc_router_id;
        let at = match find_live(&self.vpc_routers, router_id) {
            None => {
                return Err(
                    Error::ObjectNotFound {
                        resource_type: ResourceType::VpcRouter,
                        lookup_type: LookupType::ById(router_id),
                    },
                );
            },
            Some(at) => at,
        };
        let live = route.identity.time_deleted.is_none();
        if is_id_in_use(&self.router_routes, route.identity.id) || (live && is_name_in_use(
            &self.router_routes,
            router_id,
            route.identity.name.as_str(),
            None,
        )) {
            return Err(
                Error::already_exists(ResourceType::RouterRoute, route.identity.name.as_str()),
            );
        }
        if live && matches!(route.kind, crate::model::RouterRouteKind::Default)
            && self.is_default_route_present(router_id) {
            return Err(Error::conflict(ResourceType::RouterRoute, route.identity.name.as_str()));
        }
        let rcgen = match self.vpc_routers[at].rcgen.next() {
            None => {
                return Err(Error::internal_error("child generation exhausted"));
            },
            Some(next) => next,
        };
        let copy = route.duplicate();
        proof {
            lemma_push_keeps_unique(pre.router_routes, route);
            let after = pre.router_routes.push(route);
            assert forall|i: int, j: int|
                0 <= i < j < after.len() && live_default_route(
                    #[trigger] after[i],
                    after[j].vpc_router_id,
                ) implies !live_default_route(#[trigger] after[j], after[j].vpc_router_id) by {
                if j == pre.router_routes.len() {
                    assert(live_default_route(pre.router_routes[i], router_id));
                } else {
                    assert(live_default_route(
                        pre.router_routes[i],
                        pre.router_routes[j].vpc_router_id,
                    ));
                }
            }
            let bumped = VpcRouter { rcgen, ..pre.vpc_routers[at as int] };
            lemma_update_keeps_unique(pre.vpc_routers, at as int, bumped);
            lemma_update_router_keeps_anchored(pre, at as int, bumped);
        }
        self.router_routes.push(route);
        self.vpc_routers[at].rcgen = rcgen;
        proof {
            self.lemma_view();
            assert(self@.vpc_routers =~= pre.vpc_routers.update(
                at as int,
                VpcRouter { rcgen, ..pre.vpc_routers[at as int] },
            ));
        }
        Ok(copy)
    }

    /// Deletes a route, at the time `now`. A route that is not there, or
    /// not live, is left alone.
    pub fn router_delete_route_at(
        &mut self,
        opctx: &OpContext,
        authz_route: &authz::RouterRoute,
        now: Timestamp,
    ) -> (res: Result<(), Error>)
        requires
            old(self)@.wf(),
        ensures
            final(self)@.wf(),
            old(self)@.delete_route_post(final(self)@, *opctx, *authz_route, now, res),
    {
        proof {
            self.lemma_view();
        }
        let ghost pre = self@;
        match opctx.authorize(
            Action::Delete,
            ResourceType::RouterRoute,
            authz_route.id(),
            authz_route.lookup_type(),
        ) {
            Err(e) => {
                return Err(e);
            },
            Ok(()) => {},
        }
        let at = match find_live(&self.router_routes, authz_route.id()) {
            Some(at) => at,
            None => {
                return Ok(());
            },
        };
        let ghost deleted = route_deleted_at(pre.router_routes[at as int], now);
        proof {
            lemma_update_keeps_unique(pre.router_routes, at as int, deleted);
            lemma_update_route_keeps_default(pre.router_routes, at as int, deleted);
        }
        self.router_routes[at].identity.time_deleted = Some(now);
        proof {
            self.lemma_view();
            assert(self@.router_routes =~= pre.router_routes.update(at as int, deleted));
        }
        Ok(())
    }

    /// Deletes a route, at the time that the clock gives. See
    /// [`DataStore::router_delete_route_at`].
    pub fn router_delete_route(&mut self, opctx: &OpContext, authz_route: &authz::RouterRoute) -> (res:
        Result<(), Error>)
        requires
            old(self)@.wf(),
        ensures
            final(self)@.wf(),
            exists|now: Timestamp|
                old(self)@.delete_route_post(final(self)@, *opctx, *authz_route, now, res),
    {
        let now = crate::datastore::utc_now();
        self.router_delete_route_at(opctx, authz_route, now)
    }

    /// Changes a live route: name and description where given, target and
    /// destination always.
    pub fn router_update_route(
        &mut self,
        opctx: &OpContext,
        authz_route: &authz::RouterRoute,
        route_update: RouterRouteUpdate,
    ) -> (res: Result<RouterRoute, Error>)
        requires
            old(self)@.wf(),
        ensures
            final(self)@.wf(),
            old(self)@.update_route_post(final(self)@, *opctx, *authz_route, route_update, res),
    {
        proof {
            self.lemma_view();
        }
        let ghost pre = self@;
        match opctx.authorize(
            Action::Modify,
            ResourceType::RouterRoute,
            authz_route.id(),
            authz_route.lookup_type(),
        ) {
            Err(e) => {
                return Err(e);
            },
            Ok(()) => {},
        }
        let at = match find_live(&self.router_routes, authz_route.id()) {
            None => {
                return Err(
                    Error::ObjectNotFound {
                        resource_type: ResourceType::RouterRoute,
                        lookup_type: authz_route.lookup_type().duplicate(),
                    },
                );
            },
            Some(at) => at,
        };
        if let Some(name) = &route_update.name {
            if is_name_in_use(
                &self.router_routes,
                self.router_routes[at].vpc_router_id,
                name.as_str(),
                Some(authz_route.id()),
            ) {
                return Err(Error::already_exists(ResourceType::RouterRoute, name.as_str()));
            }
        }
        let ghost updated = route_updated(pre.router_routes[at as int], route_update);
        proof {
            lemma_update_keeps_unique(pre.router_routes, at as int, updated);
            lemma_update_route_keeps_default(pre.router_routes, at as int, updated);
        }
        let RouterRouteUpdate { name, description, time_modified, target, destination } =
            route_update;
        if let Some(name) = name {
            self.router_routes[at].identity.name = name;
        }
        if let Some(description) = description {
            self.router_routes[at].identity.description = description;
        }
        self.router_routes[at].identity.time_modified = time_modified;
        self.router_routes[at].target = target;
        self.router_routes[at].destination = destination;
        proof {
            self.lemma_view();
            assert(self@.router_routes =~= pre.router_routes.update(at as int, updated));
        }
        Ok(self.router_routes[at].duplicate())
    }
}

} // verus!
