//! IP pools and the address ranges in them.

use crate::datastore::{new_uuid_v4, utc_now};
use crate::error::Uuid;
use crate::ip_net::{IpAddr, IpRange, Ipv4Range, Ipv6Range};
use crate::model::{Identity, Timestamp};
use vstd::prelude::*;
use vstd::string::*;

verus! {

/// Name and description of a resource that is to be created.
#[derive(Clone, Debug, PartialEq, Eq)]
pub struct IdentityMetadataCreateParams {
    pub name: String,
    pub description: String,
}

/// Changes to name and description; an unset field is left as it is.
#[derive(Clone, Debug, PartialEq, Eq)]
pub struct IdentityMetadataUpdateParams {
    pub name: Option<String>,
    pub description: Option<String>,
}

/// A collection of IP addresses external to the rack.
#[derive(Clone, Debug, PartialEq, Eq)]
pub struct IpPool {
    pub identity: Identity,
    /// The project that the pool is reserved for, if it is reserved.
    pub project_id: Option<Uuid>,
    /// Bumped by every range inserted into the pool.
    pub rcgen: i64,
}

/// Changes to an IP pool.
#[derive(Clone, Debug, PartialEq, Eq)]
pub struct IpPoolUpdate {
    pub name: Option<String>,
    pub description: Option<String>,
    pub time_modified: Timestamp,
}

/// A range of the addresses of an IP pool.
#[derive(Clone, Copy, Debug, PartialEq, Eq, Structural)]
pub struct IpPoolRange {
    pub id: Uuid,
    pub time_created: Timestamp,
    pub time_modified: Timestamp,
    pub time_deleted: Option<Timestamp>,
    /// The first address of the range.
    pub first_address: IpAddr,
    /// The last address of the range.
    pub last_address: IpAddr,
    pub ip_pool_id: Uuid,
    /// The project that the range is restricted to, if it is restricted.
    pub project_id: Option<Uuid>,
    /// Bumped by every address allocated from the range.
    pub rcgen: i64,
}

impl IpPool {
    /// The pool with the given id, made at `now`.
    pub fn new_at(
        id: Uuid,
        pool_identity: &IdentityMetadataCreateParams,
        project_id: Option<Uuid>,
        now: Timestamp,
    ) -> (res: IpPool)
        ensures
            res.identity.id == id,
            res.identity.name@ == pool_identity.name@,
            res.identity.description@ == pool_identity.description@,
            res.identity.time_created == now,
            res.identity.time_modified == now,
            res.identity.time_deleted is None,
            res.project_id == project_id,
            res.rcgen == 0,
    {
        IpPool {
            identity: Identity::new(
                id,
                pool_identity.name.as_str(),
                pool_identity.description.as_str(),
                now,
            ),
            project_id,
            rcgen: 0,
        }
    }

    /// A pool with a fresh id, made now.
    pub fn new(pool_identity: &IdentityMetadataCreateParams, project_id: Option<Uuid>) -> (res:
        IpPool)
        ensures
            res.identity.name@ == pool_identity.name@,
            res.identity.description@ == pool_identity.description@,
            res.identity.time_created == res.identity.time_modified,
            res.identity.time_deleted is None,
            res.project_id == project_id,
            res.rcgen == 0,
    {
        IpPool::new_at(new_uuid_v4(), pool_identity, project_id, utc_now())
    }
}

impl IpPoolUpdate {
    /// The changes asked for, made at `now`.
    pub fn from_at(params: IdentityMetadataUpdateParams, now: Timestamp) -> (res: IpPoolUpdate)
        ensures
            res.name == params.name,
            res.description == params.description,
            res.time_modified == now,
    {
        IpPoolUpdate { name: params.name, description: params.description, time_modified: now }
    }

    /// The changes asked for, made now.
    pub fn from(params: IdentityMetadataUpdateParams) -> (res: IpPoolUpdate)
        ensures
            res.name == params.name,
            res.description == params.description,
    {
        IpPoolUpdate::from_at(params, utc_now())
    }
}

impl IpPoolRange {
    /// The range with the given id, made at `now`, in the pool.
    pub fn new_at(
        id: Uuid,
        range: &IpRange,
        ip_pool_id: Uuid,
        project_id: Option<Uuid>,
        now: Timestamp,
    ) -> (res: IpPoolRange)
        ensures
            res == (IpPoolRange {
                id,
                time_created: now,
                time_modified: now,
                time_deleted: None,
                first_address: range.spec_first(),
                last_address: range.spec_last(),
                ip_pool_id,
                project_id,
                rcgen: 0,
            }),
            res.spec_is_range(),
    {
        let first_address = range.first_address();
        let last_address = range.last_address();
        IpPoolRange {
            id,
            time_created: now,
            time_modified: now,
            time_deleted: None,
            first_address,
            last_address,
            ip_pool_id,
            project_id,
            rcgen: 0,
        }
    }

    /// A range with a fresh id, made now, in the pool.
    pub fn new(range: &IpRange, ip_pool_id: Uuid, project_id: Option<Uuid>) -> (res: IpPoolRange)
        ensures
            res.first_address == range.spec_first(),
            res.last_address == range.spec_last(),
            res.time_created == res.time_modified,
            res.time_deleted is None,
            res.ip_pool_id == ip_pool_id,
            res.project_id == project_id,
            res.rcgen == 0,
            res.spec_is_range(),
    {
        IpPoolRange::new_at(new_uuid_v4(), range, ip_pool_id, project_id, utc_now())
    }

    /// First and last address are of one family, the first at most the
    /// last.
    pub open spec fn spec_is_range(self) -> bool {
        match (self.first_address, self.last_address) {
            (IpAddr::V4(first), IpAddr::V4(last)) => first <= last,
            (IpAddr::V6(first), IpAddr::V6(last)) => first <= last,
            _ => false,
        }
    }

    /// Whether first and last address are of one family, the first at most
    /// the last.
    pub fn is_range(&self) -> (res: bool)
        ensures
            res == self.spec_is_range(),
    {
        match (self.first_address, self.last_address) {
            (IpAddr::V4(first), IpAddr::V4(last)) => first <= last,
            (IpAddr::V6(first), IpAddr::V6(last)) => first <= last,
            _ => false,
        }
    }

    /// The addresses from the first to the last.
    pub fn to_range(&self) -> (res: IpRange)
        requires
            self.spec_is_range(),
        ensures
            res.spec_first() == self.first_address,
            res.spec_last() == self.last_address,
    {
        match (self.first_address, self.last_address) {
            (IpAddr::V4(first), IpAddr::V4(last)) => IpRange::V4(
                Ipv4Range::new(first, last).unwrap(),
            ),
            (IpAddr::V6(first), IpAddr::V6(last)) => IpRange::V6(
                Ipv6Range::new(first, last).unwrap(),
            ),
            _ => IpRange::V4(Ipv4Range::new(0, 0).unwrap()),
        }
    }
}

} // verus!
