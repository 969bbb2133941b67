//! The authorization gate: which action a caller may take on which resource.
//!
//! The decisions themselves are made elsewhere. An [`OpContext`] carries the
//! decisions that hold for one caller, and the store consults it before each
//! operation.

use crate::error::{Error, ErrorView, LookupType, ResourceType, Uuid};
use vstd::prelude::*;
use vstd::string::*;

verus! {

/// What a caller asks to do to a resource.
#[derive(Clone, Copy, Debug, PartialEq, Eq, Hash, Structural)]
pub enum Action {
    Read,
    ListChildren,
    CreateChild,
    Modify,
    Delete,
}

/// One granted permission: the action on the resource of that type and id.
#[derive(Clone, Copy, Debug, PartialEq, Eq, Hash, Structural)]
pub struct Grant {
    pub action: Action,
    pub resource_type: ResourceType,
    pub resource_id: Uuid,
}

/// The id under which the database as a whole is authorized.
pub const DATABASE_ID: Uuid = 0;

/// A project, as authorization sees it.
#[derive(Clone, Debug, PartialEq, Eq)]
pub struct Project {
    key: Uuid,
    lookup_type: LookupType,
}

/// A VPC, as authorization sees it.
#[derive(Clone, Debug, PartialEq, Eq)]
pub struct Vpc {
    parent: Project,
    key: Uuid,
    lookup_type: LookupType,
}

/// A VPC subnet, as authorization sees it.
#[derive(Clone, Debug, PartialEq, Eq)]
pub struct VpcSubnet {
    parent: Vpc,
    key: Uuid,
    lookup_type: LookupType,
}

/// A VPC router, as authorization sees it.
#[derive(Clone, Debug, PartialEq, Eq)]
pub struct VpcRouter {
    parent: Vpc,
    key: Uuid,
    lookup_type: LookupType,
}

/// A router route, as authorization sees it.
#[derive(Clone, Debug, PartialEq, Eq)]
pub struct RouterRoute {
    parent: VpcRouter,
    key: Uuid,
    lookup_type: LookupType,
}

impl Project {
    pub closed spec fn spec_id(&self) -> Uuid {
        self.key
    }

    pub closed spec fn spec_lookup_type(&self) -> LookupType {
        self.lookup_type
    }

    pub fn new(key: Uuid, lookup_type: LookupType) -> (res: Project)
        ensures
            res.spec_id() == key,
            res.spec_lookup_type() == lookup_type,
    {
        Project { key, lookup_type }
    }

    pub fn id(&self) -> (res: Uuid)
        ensures
            res == self.spec_id(),
    {
        self.key
    }

    pub fn lookup_type(&self) -> (res: &LookupType)
        ensures
            *res == self.spec_lookup_type(),
    {
        &self.lookup_type
    }

    pub fn duplicate(&self) -> (res: Project)
        ensures
            res == *self,
    {
        Project { key: self.key, lookup_type: self.lookup_type.duplicate() }
    }
}

impl Vpc {
    pub closed spec fn spec_id(&self) -> Uuid {
        self.key
    }

    pub closed spec fn spec_lookup_type(&self) -> LookupType {
        self.lookup_type
    }

    pub closed spec fn spec_parent(&self) -> Project {
        self.parent
    }

    pub fn new(parent: Project, key: Uuid, lookup_type: LookupType) -> (res: Vpc)
        ensures
            res.spec_id() == key,
            res.spec_lookup_type() == lookup_type,
            res.spec_parent() == parent,
    {
        Vpc { parent, key, lookup_type }
    }

    pub fn id(&self) -> (res: Uuid)
        ensures
            res == self.spec_id(),
    {
        self.key
    }

    pub fn lookup_type(&self) -> (res: &LookupType)
        ensures
            *res == self.spec_lookup_type(),
    {
        &self.lookup_type
    }

    pub fn parent(&self) -> (res: &Project)
        ensures
            *res == self.spec_parent(),
    {
        &self.parent
    }

    pub fn duplicate(&self) -> (res: Vpc)
        ensures
            res == *self,
    {
        Vpc {
            parent: self.parent.duplicate(),
            key: self.key,
            lookup_type: self.lookup_type.duplicate(),
        }
    }
}

impl VpcSubnet {
    pub closed spec fn spec_id(&self) -> Uuid {
        self.key
    }

    pub closed spec fn spec_lookup_type(&self) -> LookupType {
        self.lookup_type
    }

    pub closed spec fn spec_parent(&self) -> Vpc {
        self.parent
    }

    pub fn new(parent: Vpc, key: Uuid, lookup_type: LookupType) -> (res: VpcSubnet)
        ensures
            res.spec_id() == key,
            res.spec_lookup_type() == lookup_type,
            res.spec_parent() == parent,
    {
        VpcSubnet { parent, key, lookup_type }
    }

    pub fn id(&self) -> (res: Uuid)
        ensures
            res == self.spec_id(),
    {
        self.key
    }

    pub fn lookup_type(&self) -> (res: &LookupType)
        ensures
            *res == self.spec_lookup_type(),
    {
        &self.lookup_type
    }

    pub fn parent(&self) -> (res: &Vpc)
        ensures
            *res == self.spec_parent(),
    {
        &self.parent
    }
}

impl VpcRouter {
    pub closed spec fn spec_id(&self) -> Uuid {
        self.key
    }

    pub closed spec fn spec_lookup_type(&self) -> LookupType {
        self.lookup_type
    }

    pub closed spec fn spec_parent(&self) -> Vpc {
        self.parent
    }

    pub fn new(parent: Vpc, key: Uuid, lookup_type: LookupType) -> (res: VpcRouter)
        ensures
            res.spec_id() == key,
            res.spec_lookup_type() == lookup_type,
            res.spec_parent() == parent,
    {
        VpcRouter { parent, key, lookup_type }
    }

    pub fn id(&self) -> (res: Uuid)
        ensures
            res == self.spec_id(),
    {
        self.key
    }

    pub fn lookup_type(&self) -> (res: &LookupType)
        ensures
            *res == self.spec_lookup_type(),
    {
        &self.lookup_type
    }

    pub fn parent(&self) -> (res: &Vpc)
        ensures
            *res == self.spec_parent(),
    {
        &self.parent
    }
}

impl RouterRoute {
    pub closed spec fn spec_id(&self) -> Uuid {
        self.key
    }

    pub closed spec fn spec_lookup_type(&self) -> LookupType {
        self.lookup_type
    }

    pub closed spec fn spec_parent(&self) -> VpcRouter {
        self.parent
    }

    pub fn new(parent: VpcRouter, key: Uuid, lookup_type: LookupType) -> (res: RouterRoute)
        ensures
            res.spec_id() == key,
            res.spec_lookup_type() == lookup_type,
            res.spec_parent() == parent,
    {
        RouterRoute { parent, key, lookup_type }
    }

    pub fn id(&self) -> (res: Uuid)
        ensures
            res == self.spec_id(),
    {
        self.key
    }

    pub fn lookup_type(&self) -> (res: &LookupType)
        ensures
            *res == self.spec_lookup_type(),
    {
        &self.lookup_type
    }

    pub fn parent(&self) -> (res: &VpcRouter)
        ensures
            *res == self.spec_parent(),
    {
        &self.parent
    }
}

/// The caller of an operation, with the permissions that hold for it.
#[derive(Clone, Debug, PartialEq, Eq)]
pub struct OpContext {
    authenticated: bool,
    grants: Vec<Grant>,
}

/// What an authorization check decides.
#[derive(Clone, Copy, Debug, PartialEq, Eq, Structural)]
pub enum Decision {
    /// The action may proceed.
    Allowed,
    /// The caller may not even read the resource: it is reported as absent,
    /// so that its existence does not leak.
    NotFound,
    /// The caller is not known, but may read the resource.
    Unauthenticated,
    /// The caller may read the resource but not take the action.
    Forbidden,
}

impl OpContext {
    /// Whether the caller has been authenticated.
    pub closed spec fn authenticated(&self) -> bool {
        self.authenticated
    }

    /// The permissions granted to the caller.
    pub closed spec fn grants(&self) -> Seq<Grant> {
        self.grants@
    }

    /// Whether the caller holds the permission.
    pub open spec fn has(&self, action: Action, resource_type: ResourceType, id: Uuid) -> bool {
        self.grants().contains(Grant { action, resource_type, resource_id: id })
    }

    /// The decision on one action on one resource.
    pub open spec fn decide(&self, action: Action, resource_type: ResourceType, id: Uuid)
        -> Decision {
        if self.has(action, resource_type, id) {
            Decision::Allowed
        } else if action == Action::Read || !self.has(Action::Read, resource_type, id) {
            Decision::NotFound
        } else if !self.authenticated() {
            Decision::Unauthenticated
        } else {
            Decision::Forbidden
        }
    }

    /// The error that a decision other than `Allowed` is reported as.
    pub open spec fn denial(
        decision: Decision,
        resource_type: ResourceType,
        lookup_type: LookupType,
    ) -> ErrorView {
        match decision {
            Decision::Unauthenticated => ErrorView::Unauthenticated {
                internal_message: "authentication required"@,
            },
            Decision::Forbidden => ErrorView::Forbidden,
            _ => ErrorView::ObjectNotFound { resource_type, lookup_type: lookup_type@ },
        }
    }

    /// What `authorize` returns for the action on the resource.
    pub open spec fn check(
        &self,
        action: Action,
        resource_type: ResourceType,
        id: Uuid,
        lookup_type: LookupType,
    ) -> Result<(), ErrorView> {
        let decision = self.decide(action, resource_type, id);
        if decision is Allowed {
            Ok(())
        } else {
            Err(Self::denial(decision, resource_type, lookup_type))
        }
    }

    /// A context for a caller with the given permissions.
    pub fn new(authenticated: bool, grants: Vec<Grant>) -> (res: OpContext)
        ensures
            res.authenticated() == authenticated,
            res.grants() == grants@,
    {
        OpContext { authenticated, grants }
    }

    /// Adds a permission.
    pub fn grant(&mut self, action: Action, resource_type: ResourceType, resource_id: Uuid)
        ensures
            final(self).authenticated() == old(self).authenticated(),
            final(self).grants() == old(self).grants().push(
                Grant { action, resource_type, resource_id },
            ),
    {
        self.grants.push(Grant { action, resource_type, resource_id });
    }

    fn holds(&self, action: Action, resource_type: ResourceType, id: Uuid) -> (res: bool)
        ensures
            res == self.has(action, resource_type, id),
    {
        let wanted = Grant { action, resource_type, resource_id: id };
        let mut i: usize = 0;
        while i < self.grants.len()
            invariant
                i <= self.grants.len(),
                wanted == (Grant { action, resource_type, resource_id: id }),
                forall|j: int| 0 <= j < i ==> self.grants@[j] != wanted,
            decreases self.grants.len() - i,
        {
            if self.grants[i] == wanted {
                assert(self.grants@[i as int] == wanted);
                return true;
            }
            i += 1;
        }
        false
    }

    /// Checks that the caller may take `action` on the resource of the given
    /// type and id. A denial is reported as not-found when the caller may
    /// not read the resource either.
    pub fn authorize(
        &self,
        action: Action,
        resource_type: ResourceType,
        id: Uuid,
        lookup_type: &LookupType,
    ) -> (res: Result<(), Error>)
        ensures
            res is Ok <==> self.decide(action, resource_type, id) is Allowed,
            match res {
                Ok(()) => self.check(action, resource_type, id, *lookup_type) is Ok,
                Err(e) => self.check(action, resource_type, id, *lookup_type) == Err::<
                    (),
                    ErrorView,
                >(e@),
            },
    {
        if self.holds(action, resource_type, id) {
            Ok(())
        } else if action == Action::Read || !self.holds(Action::Read, resource_type, id) {
            Err(Error::ObjectNotFound { resource_type, lookup_type: lookup_type.duplicate() })
        } else if !self.authenticated {
            Err(Error::Unauthenticated { internal_message: String::from_str("authentication required") })
        } else {
            Err(Error::Forbidden)
        }
    }
}

} // verus!
