//! Operations on VPC subnets: the insert that admits no overlap, update,
//! deletion, listing, and the lookup of address blocks by name.

use crate::authz;
use crate::authz::{Action, OpContext};
use crate::datastore::{
    live_siblings, subnets_disjoint, subnets_have_parents, DataStore, DataStoreView,
};
use crate::datastore::vpc::concurrent_modification_message;
use crate::error::{Error, ErrorView, LookupType, LookupTypeView, ResourceType, Uuid};
use crate::ip_net::{IpNetwork, Ipv4Net, Ipv6Net};
use crate::model::{
    Generation, Identity, InstanceNetworkInterface, Resource, Timestamp, Vpc, VpcSubnet,
    VpcSubnetUpdate,
};
use crate::names::{lemma_name_lt_total, name_lt, str_eq};
use crate::table::{
    any_live_child, find_live, has_live, has_live_child, id_in_use, is_id_in_use, is_listing,
    is_name_in_use, is_page, lemma_push_keeps_unique, lemma_update_keeps_unique,
    list_all_children, list_children, live_child, live_index, live_with_id, name_in_use,
    name_in_use_by_other, names_unique, on_listing, page_holds, DataPageParams, PaginatedBy,
    PaginationOrder,
};
use vstd::prelude::*;
use vstd::string::*;

verus! {

/// Why a subnet was not inserted.
#[derive(Clone, Debug, PartialEq, Eq)]
pub enum SubnetError {
    /// The block overlaps the block of a live subnet of the same VPC.
    OverlappingIpRange(IpNetwork),
    /// A block of the subnet has no address beyond the reserved ones.
    ExhaustedFreeIps,
    /// Any other error.
    External(Error),
}

/// Mathematical value of a [`SubnetError`].
pub enum SubnetErrorView {
    OverlappingIpRange(IpNetwork),
    ExhaustedFreeIps,
    External(ErrorView),
}

impl View for SubnetError {
    type V = SubnetErrorView;

    open spec fn view(&self) -> SubnetErrorView {
        match self {
            SubnetError::OverlappingIpRange(net) => SubnetErrorView::OverlappingIpRange(*net),
            SubnetError::ExhaustedFreeIps => SubnetErrorView::ExhaustedFreeIps,
            SubnetError::External(e) => SubnetErrorView::External(e@),
        }
    }
}

/// The message of the error that an overlap is reported as to the outside.
pub open spec fn overlap_message() -> Seq<char> {
    "IP address range conflicts with an existing subnet"@
}

/// The message of the error that a block without free addresses is
/// reported as to the outside.
pub open spec fn exhausted_message() -> Seq<char> {
    "IP address range has no addresses beyond the reserved ones"@
}

/// The message of the error for an IPv4 block with too long a prefix.
pub open spec fn prefix_too_long_message() -> Seq<char> {
    "IPv4 address range has a longer prefix than the maximum allowed"@
}

/// The message of the error for an IPv6 block outside the prefix of the
/// VPC.
pub open spec fn outside_vpc_prefix_message() -> Seq<char> {
    "IPv6 address range is not within the IPv6 prefix of the VPC"@
}

/// The message of the error for deleting a subnet that has interfaces.
pub open spec fn subnet_has_interfaces_message() -> Seq<char> {
    "VPC Subnet cannot be deleted while network interfaces in the subnet exist"@
}

/// The error as it is reported to the outside.
pub open spec fn external_view(error: SubnetErrorView) -> ErrorView {
    match error {
        SubnetErrorView::OverlappingIpRange(_) => ErrorView::InvalidRequest {
            message: overlap_message(),
        },
        SubnetErrorView::ExhaustedFreeIps => ErrorView::InvalidRequest {
            message: exhausted_message(),
        },
        SubnetErrorView::External(e) => e,
    }
}

impl SubnetError {
    /// The error as it is reported to the outside.
    pub fn into_external(self) -> (res: Error)
        ensures
            res@ == external_view(self@),
    {
        match self {
            SubnetError::OverlappingIpRange(_) => Error::invalid_request(
                "IP address range conflicts with an existing subnet",
            ),
            SubnetError::ExhaustedFreeIps => Error::invalid_request(
                "IP address range has no addresses beyond the reserved ones",
            ),
            SubnetError::External(e) => e,
        }
    }
}

/// Some live subnet of the VPC of `candidate` shares an IPv4 address with
/// it.
pub open spec fn overlaps_v4(subnets: Seq<VpcSubnet>, candidate: VpcSubnet) -> bool {
    exists|j: int|
        0 <= j < subnets.len() && live_child(#[trigger] subnets[j], candidate.vpc_id)
            && subnets[j].ipv4_block.spec_overlaps(candidate.ipv4_block)
}

/// Some live subnet of the VPC of `candidate` shares an IPv6 address with
/// it.
pub open spec fn overlaps_v6(subnets: Seq<VpcSubnet>, candidate: VpcSubnet) -> bool {
    exists|j: int|
        0 <= j < subnets.len() && live_child(#[trigger] subnets[j], candidate.vpc_id)
            && subnets[j].ipv6_block.spec_overlaps(candidate.ipv6_block)
}

/// The row after a soft delete at `now`.
pub open spec fn subnet_deleted_at(row: VpcSubnet, now: Timestamp) -> VpcSubnet {
    VpcSubnet { identity: row.identity.deleted_at(now), ..row }
}

/// The row after an update.
pub open spec fn subnet_updated(row: VpcSubnet, updates: VpcSubnetUpdate) -> VpcSubnet {
    VpcSubnet {
        identity: Identity {
            name: match updates.name {
                Some(name) => name,
                None => row.identity.name,
            },
            description: match updates.description {
                Some(description) => description,
                None => row.identity.description,
            },
            time_modified: updates.time_modified,
            ..row.identity
        },
        ..row
    }
}

/// Some name of the list is the given name.
pub open spec fn names_hold(names: Seq<String>, name: Seq<char>) -> bool {
    exists|n: int| 0 <= n < names.len() && (#[trigger] names[n])@ == name
}

/// The entry is made of the row: its name, then its IPv4 and its IPv6
/// block.
pub open spec fn is_entry_of(entry: (String, Vec<IpNetwork>), row: VpcSubnet) -> bool {
    &&& entry.0@ == row.identity.name@
    &&& entry.1@ == seq![IpNetwork::V4(row.ipv4_block), IpNetwork::V6(row.ipv6_block)]
}

/// The entry is made of a live subnet of the VPC with one of the names.
pub open spec fn entry_has_subnet(
    subnets: Seq<VpcSubnet>,
    vpc_id: Uuid,
    names: Seq<String>,
    entry: (String, Vec<IpNetwork>),
) -> bool {
    exists|j: int|
        0 <= j < subnets.len() && live_child(#[trigger] subnets[j], vpc_id) && names_hold(
            names,
            subnets[j].identity.name@,
        ) && is_entry_of(entry, subnets[j])
}

/// Some entry is made of the subnet.
pub open spec fn subnet_has_entry(entries: Seq<(String, Vec<IpNetwork>)>, row: VpcSubnet) -> bool {
    exists|i: int| 0 <= i < entries.len() && is_entry_of(#[trigger] entries[i], row)
}

/// A listing by name, upwards from the start, without limit.
pub open spec fn by_name() -> PaginatedBy {
    PaginatedBy::Name(
        DataPageParams { marker: None, direction: PaginationOrder::Ascending, limit: 0 },
    )
}

impl DataStoreView {
    /// What stands against the insert of a subnet, the first of: a VPC that
    /// is not live, an IPv4 prefix beyond the maximum, an IPv6 block outside
    /// the prefix of the VPC, a block without free addresses, an overlap in
    /// IPv4, an overlap in IPv6, a row with its id or a live sibling with
    /// its name.
    pub open spec fn subnet_insert_blocker(self, subnet: VpcSubnet) -> Option<SubnetErrorView> {
        let vpc = self.vpcs[live_index(self.vpcs, subnet.vpc_id)];
        if !has_live(self.vpcs, subnet.vpc_id) {
            Some(
                SubnetErrorView::External(
                    ErrorView::ObjectNotFound {
                        resource_type: ResourceType::Vpc,
                        lookup_type: LookupTypeView::ById(subnet.vpc_id),
                    },
                ),
            )
        } else if subnet.ipv4_block.spec_prefix() > self.max_vpc_ipv4_subnet_prefix {
            Some(
                SubnetErrorView::External(
                    ErrorView::InvalidRequest { message: prefix_too_long_message() },
                ),
            )
        } else if !subnet.ipv6_block.spec_is_subnet_of(vpc.ipv6_prefix) {
            Some(
                SubnetErrorView::External(
                    ErrorView::InvalidRequest { message: outside_vpc_prefix_message() },
                ),
            )
        } else if subnet.ipv4_block.spec_free_addresses() <= 0
            || subnet.ipv6_block.spec_free_addresses() <= 0 {
            Some(SubnetErrorView::ExhaustedFreeIps)
        } else if overlaps_v4(self.vpc_subnets, subnet) {
            Some(SubnetErrorView::OverlappingIpRange(IpNetwork::V4(subnet.ipv4_block)))
        } else if overlaps_v6(self.vpc_subnets, subnet) {
            Some(SubnetErrorView::OverlappingIpRange(IpNetwork::V6(subnet.ipv6_block)))
        } else if id_in_use(self.vpc_subnets, subnet.identity.id) || (subnet.identity.live()
            && name_in_use(self.vpc_subnets, subnet.vpc_id, subnet.identity.name@)) {
            Some(
                SubnetErrorView::External(
                    ErrorView::ObjectAlreadyExists {
                        resource_type: ResourceType::VpcSubnet,
                        object_name: subnet.identity.name@,
                    },
                ),
            )
        } else {
            None
        }
    }

    /// What the insert of a subnet returns, and the store after it.
    pub open spec fn create_subnet_raw_post(
        self,
        post: DataStoreView,
        subnet: VpcSubnet,
        res: Result<VpcSubnet, SubnetError>,
    ) -> bool {
        match self.subnet_insert_blocker(subnet) {
            Some(e) => res is Err && res->Err_0@ == e && post == self,
            None => res == Ok::<VpcSubnet, SubnetError>(subnet) && post == (DataStoreView {
                vpc_subnets: self.vpc_subnets.push(subnet),
                ..self
            }),
        }
    }

    /// What the creation of a subnet returns, and the store after it.
    pub open spec fn create_subnet_post(
        self,
        post: DataStoreView,
        opctx: OpContext,
        authz_vpc: authz::Vpc,
        subnet: VpcSubnet,
        res: Result<(authz::VpcSubnet, VpcSubnet), SubnetError>,
    ) -> bool {
        let allowed = opctx.check(
            Action::CreateChild,
            ResourceType::Vpc,
            authz_vpc.spec_id(),
            authz_vpc.spec_lookup_type(),
        );
        if allowed is Err {
            res is Err && res->Err_0@ == SubnetErrorView::External(allowed->Err_0) && post == self
        } else {
            match self.subnet_insert_blocker(subnet) {
                Some(e) => res is Err && res->Err_0@ == e && post == self,
                None => res matches Ok((authz_subnet, row)) && {
                    &&& row == subnet
                    &&& authz_subnet.spec_id() == subnet.identity.id
                    &&& authz_subnet.spec_parent() == authz_vpc
                    &&& authz_subnet.spec_lookup_type()@ == LookupTypeView::ById(
                        subnet.identity.id,
                    )
                    &&& post == (DataStoreView {
                        vpc_subnets: self.vpc_subnets.push(subnet),
                        ..self
                    })
                },
            }
        }
    }

    /// What an update of a subnet returns, and the store after it.
    pub open spec fn update_subnet_post(
        self,
        post: DataStoreView,
        opctx: OpContext,
        authz_subnet: authz::VpcSubnet,
        updates: VpcSubnetUpdate,
        res: Result<VpcSubnet, Error>,
    ) -> bool {
        let id = authz_subnet.spec_id();
        let allowed = opctx.check(
            Action::Modify,
            ResourceType::VpcSubnet,
            id,
            authz_subnet.spec_lookup_type(),
        );
        let at = live_index(self.vpc_subnets, id);
        if allowed is Err {
            res is Err && res->Err_0@ == allowed->Err_0 && post == self
        } else if !has_live(self.vpc_subnets, id) {
            res is Err && res->Err_0@ == (ErrorView::ObjectNotFound {
                resource_type: ResourceType::VpcSubnet,
                lookup_type: authz_subnet.spec_lookup_type()@,
            }) && post == self
        } else if updates.name is Some && name_in_use_by_other(
            self.vpc_subnets,
            self.vpc_subnets[at].vpc_id,
            updates.name->0@,
            id,
        ) {
            res is Err && res->Err_0@ == (ErrorView::ObjectAlreadyExists {
                resource_type: ResourceType::VpcSubnet,
                object_name: updates.name->0@,
            }) && post == self
        } else {
            &&& res is Ok
            &&& res->Ok_0 == subnet_updated(self.vpc_subnets[at], updates)
            &&& post == (DataStoreView {
                vpc_subnets: self.vpc_subnets.update(at, res->Ok_0),
                ..self
            })
        }
    }

    /// The subnet has a live network interface, of an instance or of a
    /// zone.
    pub open spec fn subnet_has_interfaces(self, id: Uuid) -> bool {
        has_live_child(self.instance_network_interfaces, id) || has_live_child(
            self.service_network_interfaces,
            id,
        )
    }

    /// What the deletion of a subnet at the time `now` returns, and the
    /// store after it.
    pub open spec fn delete_subnet_post(
        self,
        post: DataStoreView,
        opctx: OpContext,
        db_subnet: VpcSubnet,
        authz_subnet: authz::VpcSubnet,
        now: Timestamp,
        res: Result<(), Error>,
    ) -> bool {
        let id = authz_subnet.spec_id();
        let allowed = opctx.check(
            Action::Delete,
            ResourceType::VpcSubnet,
            id,
            authz_subnet.spec_lookup_type(),
        );
        let at = live_index(self.vpc_subnets, id);
        if allowed is Err {
            res is Err && res->Err_0@ == allowed->Err_0 && post == self
        } else if self.subnet_has_interfaces(id) {
            res is Err && res->Err_0@ == (ErrorView::InvalidRequest {
                message: subnet_has_interfaces_message(),
            }) && post == self
        } else if !(has_live(self.vpc_subnets, id) && self.vpc_subnets[at].rcgen
            == db_subnet.rcgen) {
            res is Err && res->Err_0@ == (ErrorView::InvalidRequest {
                message: concurrent_modification_message(),
            }) && post == self
        } else {
            res is Ok && post == (DataStoreView {
                vpc_subnets: self.vpc_subnets.update(
                    at,
                    subnet_deleted_at(self.vpc_subnets[at], now),
                ),
                ..self
            })
        }
    }

    /// What the lookup of the address blocks of the named subnets of a VPC
    /// returns: one entry for each live subnet of the VPC with one of the
    /// names, in the order of the names of the subnets.
    pub open spec fn subnet_networks(
        self,
        vpc_id: Uuid,
        names: Seq<String>,
        entries: Seq<(String, Vec<IpNetwork>)>,
    ) -> bool {
        &&& forall|i: int|
            0 <= i < entries.len() ==> entry_has_subnet(
                self.vpc_subnets,
                vpc_id,
                names,
                #[trigger] entries[i],
            )
        &&& forall|i: int, k: int|
            0 <= i < k < entries.len() ==> name_lt(
                (#[trigger] entries[i]).0@,
                (#[trigger] entries[k]).0@,
            )
        &&& forall|j: int|
            0 <= j < self.vpc_subnets.len() && live_child(#[trigger] self.vpc_subnets[j], vpc_id)
                && names_hold(names, self.vpc_subnets[j].identity.name@) ==> subnet_has_entry(
                entries,
                self.vpc_subnets[j],
            )
    }
}

/// Adding a subnet that overlaps no live sibling, to a live VPC, keeps the
/// invariants that speak of subnets.
pub proof fn lemma_push_subnet_keeps_rest(pre: DataStoreView, row: VpcSubnet)
    requires
        pre.wf(),
        has_live(pre.vpcs, row.vpc_id),
        !overlaps_v4(pre.vpc_subnets, row),
        !overlaps_v6(pre.vpc_subnets, row),
    ensures
        subnets_disjoint(pre.vpc_subnets.push(row)),
        subnets_have_parents(pre.vpcs, pre.vpc_subnets.push(row)),
{
    let after = pre.vpc_subnets.push(row);
    assert forall|i: int, j: int|
        0 <= i < j < after.len() && live_siblings(
            #[trigger] after[i],
            #[trigger] after[j],
        ) implies !after[i].ipv4_block.spec_overlaps(after[j].ipv4_block)
        && !after[i].ipv6_block.spec_overlaps(after[j].ipv6_block) by {
        if j == pre.vpc_subnets.len() {
            assert(live_child(pre.vpc_subnets[i], row.vpc_id));
        } else {
            assert(live_siblings(pre.vpc_subnets[i], pre.vpc_subnets[j]));
        }
    }
    assert forall|j: int| 0 <= j < after.len() && (#[trigger] after[j]).identity.live() implies has_live(
        pre.vpcs,
        after[j].vpc_id,
    ) by {
        if j < pre.vpc_subnets.len() {
            assert(pre.vpc_subnets[j].identity.live());
        }
    }
}

/// Replacing a subnet by one of the same VPC with the same blocks, which is
/// live only if the subnet was, keeps the invariants that speak of subnets.
pub proof fn lemma_update_subnet_keeps_rest(pre: DataStoreView, at: int, row: VpcSubnet)
    requires
        pre.wf(),
        0 <= at < pre.vpc_subnets.len(),
        row.vpc_id == pre.vpc_subnets[at].vpc_id,
        row.ipv4_block == pre.vpc_subnets[at].ipv4_block,
        row.ipv6_block == pre.vpc_subnets[at].ipv6_block,
        row.identity.live() ==> pre.vpc_subnets[at].identity.live(),
    ensures
        subnets_disjoint(pre.vpc_subnets.update(at, row)),
        subnets_have_parents(pre.vpcs, pre.vpc_subnets.update(at, row)),
{
    let after = pre.vpc_subnets.update(at, row);
    assert forall|i: int, j: int|
        0 <= i < j < after.len() && live_siblings(
            #[trigger] after[i],
            #[trigger] after[j],
        ) implies !after[i].ipv4_block.spec_overlaps(after[j].ipv4_block)
        && !after[i].ipv6_block.spec_overlaps(after[j].ipv6_block) by {
        assert(live_siblings(pre.vpc_subnets[i], pre.vpc_subnets[j]));
    }
    assert forall|j: int| 0 <= j < after.len() && (#[trigger] after[j]).identity.live() implies has_live(
        pre.vpcs,
        after[j].vpc_id,
    ) by {
        assert(pre.vpc_subnets[j].identity.live());
    }
}

impl DataStore {
    /// Whether some live subnet of the VPC of `candidate` shares an address
    /// with it: the first component for IPv4, the second for IPv6.
    #[verifier::loop_isolation(false)]
    fn find_overlaps(&self, candidate: &VpcSubnet) -> (res: (bool, bool))
        ensures
            res.0 == overlaps_v4(self@.vpc_subnets, *candidate),
            res.1 == overlaps_v6(self@.vpc_subnets, *candidate),
    {
        proof {
            self.lemma_view();
        }
        let mut v4 = false;
        let mut v6 = false;
        let mut i: usize = 0;
        while i < self.vpc_subnets.len()
            invariant
                i <= self.vpc_subnets.len(),
                v4 == exists|j: int|
                    0 <= j < i && live_child(#[trigger] self.vpc_subnets@[j], candidate.vpc_id)
                        && self.vpc_subnets@[j].ipv4_block.spec_overlaps(candidate.ipv4_block),
                v6 == exists|j: int|
                    0 <= j < i && live_child(#[trigger] self.vpc_subnets@[j], candidate.vpc_id)
                        && self.vpc_subnets@[j].ipv6_block.spec_overlaps(candidate.ipv6_block),
            decreases self.vpc_subnets.len() - i,
        {
            let row = &self.vpc_subnets[i];
            if row.identity.time_deleted.is_none() && row.vpc_id == candidate.vpc_id {
                if row.ipv4_block.overlaps(candidate.ipv4_block) {
                    v4 = true;
                }
                if row.ipv6_block.overlaps(candidate.ipv6_block) {
                    v6 = true;
                }
            }
            i += 1;
        }
        (v4, v6)
    }

    /// Inserts a subnet, if neither of its blocks shares an address with a
    /// block of a live subnet of the same VPC.
    pub fn vpc_create_subnet_raw(&mut self, subnet: VpcSubnet) -> (res: Result<
        VpcSubnet,
        SubnetError,
    >)
        requires
            old(self)@.wf(),
        ensures
            final(self)@.wf(),
            old(self)@.create_subnet_raw_post(final(self)@, subnet, res),
    {
        proof {
            self.lemma_view();
        }
        let ghost pre = self@;
        let vpc_at = match find_live(&self.vpcs, subnet.vpc_id) {
            None => {
                return Err(
                    SubnetError::External(
                        Error::ObjectNotFound {
                            resource_type: ResourceType::Vpc,
                            lookup_type: LookupType::ById(subnet.vpc_id),
                        },
                    ),
                );
            },
            Some(at) => at,
        };
        if subnet.ipv4_block.prefix() > self.max_vpc_ipv4_subnet_prefix {
            return Err(
                SubnetError::External(
                    Error::invalid_request(
                        "IPv4 address range has a longer prefix than the maximum allowed",
                    ),
                ),
            );
        }
        if !subnet.ipv6_block.is_subnet_of(self.vpcs[vpc_at].ipv6_prefix) {
            return Err(
                SubnetError::External(
                    Error::invalid_request(
                        "IPv6 address range is not within the IPv6 prefix of the VPC",
                    ),
                ),
            );
        }
        if !subnet.ipv4_block.has_free_addresses() || !subnet.ipv6_block.has_free_addresses() {
            return Err(SubnetError::ExhaustedFreeIps);
        }
        let (v4, v6) = self.find_overlaps(&subnet);
        if v4 {
            return Err(SubnetError::OverlappingIpRange(IpNetwork::V4(subnet.ipv4_block)));
        }
        if v6 {
            return Err(SubnetError::OverlappingIpRange(IpNetwork::V6(subnet.ipv6_block)));
        }
        if is_id_in_use(&self.vpc_subnets, subnet.identity.id) || (
        subnet.identity.time_deleted.is_none() && is_name_in_use(
            &self.vpc_subnets,
            subnet.vpc_id,
            subnet.identity.name.as_str(),
            None,
        )) {
            return Err(
                SubnetError::External(
                    Error::already_exists(ResourceType::VpcSubnet, subnet.identity.name.as_str()),
                ),
            );
        }
        let copy = subnet.duplicate();
        proof {
            lemma_push_keeps_unique(pre.vpc_subnets, subnet);
            lemma_push_subnet_keeps_rest(pre, subnet);
        }
        self.vpc_subnets.push(subnet);
        proof {
            self.lemma_view();
        }
        Ok(copy)
    }

    /// Creates a subnet of a VPC.
    pub fn vpc_create_subnet(
        &mut self,
        opctx: &OpContext,
        authz_vpc: &authz::Vpc,
        subnet: VpcSubnet,
    ) -> (res: Result<(authz::VpcSubnet, VpcSubnet), SubnetError>)
        requires
            old(self)@.wf(),
            authz_vpc.spec_id() == subnet.vpc_id,
        ensures
            final(self)@.wf(),
            old(self)@.create_subnet_post(final(self)@, *opctx, *authz_vpc, subnet, res),
    {
        match opctx.authorize(
            Action::CreateChild,
            ResourceType::Vpc,
            authz_vpc.id(),
            authz_vpc.lookup_type(),
        ) {
            Err(e) => {
                return Err(SubnetError::External(e));
            },
            Ok(()) => {},
        }
        match self.vpc_create_subnet_raw(subnet) {
            Err(e) => Err(e),
            Ok(db_subnet) => {
                let id = db_subnet.identity.id;
                Ok((authz::VpcSubnet::new(authz_vpc.duplicate(), id, LookupType::ById(id)), db_subnet))
            },
        }
    }

    /// Lists the live subnets of a VPC, one page at a time.
    pub fn vpc_subnet_list(
        &self,
        opctx: &OpContext,
        authz_vpc: &authz::Vpc,
        pagparams: &PaginatedBy,
    ) -> (res: Result<Vec<VpcSubnet>, Error>)
        requires
            self@.wf(),
        ensures
            match opctx.check(
                Action::ListChildren,
                ResourceType::Vpc,
                authz_vpc.spec_id(),
                authz_vpc.spec_lookup_type(),
            ) {
                Err(e) => res is Err && res->Err_0@ == e,
                Ok(_) => res is Ok && is_page(
                    self@.vpc_subnets,
                    authz_vpc.spec_id(),
                    *pagparams,
                    res->Ok_0@,
                ),
            },
    {
        proof {
            self.lemma_view();
        }
        match opctx.authorize(
            Action::ListChildren,
            ResourceType::Vpc,
            authz_vpc.id(),
            authz_vpc.lookup_type(),
        ) {
            Err(e) => Err(e),
            Ok(()) => Ok(list_children(&self.vpc_subnets, authz_vpc.id(), pagparams)),
        }
    }

    /// Lists the live network interfaces of instances in a subnet, one page
    /// at a time.
    pub fn subnet_list_instance_network_interfaces(
        &self,
        opctx: &OpContext,
        authz_subnet: &authz::VpcSubnet,
        pagparams: &PaginatedBy,
    ) -> (res: Result<Vec<InstanceNetworkInterface>, Error>)
        requires
            self@.wf(),
        ensures
            match opctx.check(
                Action::ListChildren,
                ResourceType::VpcSubnet,
                authz_subnet.spec_id(),
                authz_subnet.spec_lookup_type(),
            ) {
                Err(e) => res is Err && res->Err_0@ == e,
                Ok(_) => res is Ok && is_page(
                    self@.instance_network_interfaces,
                    authz_subnet.spec_id(),
                    *pagparams,
                    res->Ok_0@,
                ),
            },
    {
        proof {
            self.lemma_view();
        }
        match opctx.authorize(
            Action::ListChildren,
            ResourceType::VpcSubnet,
            authz_subnet.id(),
            authz_subnet.lookup_type(),
        ) {
            Err(e) => Err(e),
            Ok(()) => Ok(
                list_children(&self.instance_network_interfaces, authz_subnet.id(), pagparams),
            ),
        }
    }

    /// Changes name or description of a live subnet.
    pub fn vpc_update_subnet(
        &mut self,
        opctx: &OpContext,
        authz_subnet: &authz::VpcSubnet,
        updates: VpcSubnetUpdate,
    ) -> (res: Result<VpcSubnet, Error>)
        requires
            old(self)@.wf(),
        ensures
            final(self)@.wf(),
            old(self)@.update_subnet_post(final(self)@, *opctx, *authz_subnet, updates, res),
    {
        proof {
            self.lemma_view();
        }
        let ghost pre = self@;
        match opctx.authorize(
            Action::Modify,
            ResourceType::VpcSubnet,
            authz_subnet.id(),
            authz_subnet.lookup_type(),
        ) {
            Err(e) => {
                return Err(e);
            },
            Ok(()) => {},
        }
        let at = match find_live(&self.vpc_subnets, authz_subnet.id()) {
            None => {
                return Err(
                    Error::ObjectNotFound {
                        resource_type: ResourceType::VpcSubnet,
                        lookup_type: authz_subnet.lookup_type().duplicate(),
                    },
                );
            },
            Some(at) => at,
        };
        if let Some(name) = &updates.name {
            if is_name_in_use(
                &self.vpc_subnets,
                self.vpc_subnets[at].vpc_id,
                name.as_str(),
                Some(authz_subnet.id()),
            ) {
                return Err(Error::already_exists(ResourceType::VpcSubnet, name.as_str()));
            }
        }
        let ghost updated = subnet_updated(pre.vpc_subnets[at as int], updates);
        proof {
            lemma_update_keeps_unique(pre.vpc_subnets, at as int, updated);
            lemma_update_subnet_keeps_rest(pre, at as int, updated);
        }
        let VpcSubnetUpdate { name, description, time_modified } = updates;
        if let Some(name) = name {
            self.vpc_subnets[at].identity.name = name;
        }
        if let Some(description) = description {
            self.vpc_subnets[at].identity.description = description;
        }
        self.vpc_subnets[at].identity.time_modified = time_modified;
        proof {
            self.lemma_view();
            assert(self@.vpc_subnets =~= pre.vpc_subnets.update(at as int, updated));
        }
        Ok(self.vpc_subnets[at].duplicate())
    }

    /// Deletes a subnet, at the time `now`. A subnet with a live network
    /// interface is not deleted; nor one whose generation is no longer the
    /// one of `db_subnet`, which the caller read before.
    pub fn vpc_delete_subnet_at(
        &mut self,
        opctx: &OpContext,
        db_subnet: &VpcSubnet,
        authz_subnet: &authz::VpcSubnet,
        now: Timestamp,
    ) -> (res: Result<(), Error>)
        requires
            old(self)@.wf(),
        ensures
            final(self)@.wf(),
            old(self)@.delete_subnet_post(
                final(self)@,
                *opctx,
                *db_subnet,
                *authz_subnet,
                now,
                res,
            ),
    {
        proof {
            self.lemma_view();
        }
        let ghost pre = self@;
        match opctx.authorize(
            Action::Delete,
            ResourceType::VpcSubnet,
            authz_subnet.id(),
            authz_subnet.lookup_type(),
        ) {
            Err(e) => {
                return Err(e);
            },
            Ok(()) => {},
        }
        if any_live_child(&self.instance_network_interfaces, authz_subnet.id()) || any_live_child(
            &self.service_network_interfaces,
            authz_subnet.id(),
        ) {
            return Err(
                Error::invalid_request(
                    "VPC Subnet cannot be deleted while network interfaces in the subnet exist",
                ),
            );
        }
        let at = match find_live(&self.vpc_subnets, authz_subnet.id()) {
            Some(at) => at,
            None => {
                return Err(
                    Error::invalid_request("deletion failed due to concurrent modification"),
                );
            },
        };
        if self.vpc_subnets[at].rcgen != db_subnet.rcgen {
            return Err(Error::invalid_request("deletion failed due to concurrent modification"));
        }
        let ghost deleted = subnet_deleted_at(pre.vpc_subnets[at as int], now);
        proof {
            lemma_update_keeps_unique(pre.vpc_subnets, at as int, deleted);
            lemma_update_subnet_keeps_rest(pre, at as int, deleted);
        }
        self.vpc_subnets[at].identity.time_deleted = Some(now);
        proof {
            self.lemma_view();
            assert(self@.vpc_subnets =~= pre.vpc_subnets.update(at as int, deleted));
        }
        Ok(())
    }

    /// Deletes a subnet, at the time that the clock gives. See
    /// [`DataStore::vpc_delete_subnet_at`].
    pub fn vpc_delete_subnet(
        &mut self,
        opctx: &OpContext,
        db_subnet: &VpcSubnet,
        authz_subnet: &authz::VpcSubnet,
    ) -> (res: Result<(), Error>)
        requires
            old(self)@.wf(),
        ensures
            final(self)@.wf(),
            exists|now: Timestamp|
                old(self)@.delete_subnet_post(
                    final(self)@,
                    *opctx,
                    *db_subnet,
                    *authz_subnet,
                    now,
                    res,
                ),
    {
        let now = crate::datastore::utc_now();
        self.vpc_delete_subnet_at(opctx, db_subnet, authz_subnet, now)
    }

    /// The address blocks of the live subnets of a VPC that have one of the
    /// given names: for each such subnet its name, then its IPv4 and its
    /// IPv6 block; the subnets in the order of their names.
    #[verifier::loop_isolation(false)]
    pub fn resolve_vpc_subnets_to_ip_networks(&self, vpc: &Vpc, subnet_names: Vec<String>) -> (res:
        Result<Vec<(String, Vec<IpNetwork>)>, Error>)
        requires
            self@.wf(),
        ensures
            res is Ok,
            self@.subnet_networks(vpc.identity.id, subnet_names@, res->Ok_0@),
    {
        proof {
            self.lemma_view();
        }
        let vpc_id = vpc.identity.id;
        let by = PaginatedBy::Name(
            DataPageParams { marker: None, direction: PaginationOrder::Ascending, limit: 0 },
        );
        let rows = list_all_children(&self.vpc_subnets, vpc_id, &by);
        let ghost table = self@.vpc_subnets;
        let mut out: Vec<(String, Vec<IpNetwork>)> = Vec::new();
        let ghost mut src: Seq<int> = Seq::empty();
        let mut i: usize = 0;
        while i < rows.len()
            invariant
                i <= rows.len(),
                src.len() == out.len(),
                forall|a: int|
                    0 <= a < src.len() ==> 0 <= #[trigger] src[a] < i && is_entry_of(
                        out@[a],
                        rows@[src[a]],
                    ) && names_hold(subnet_names@, rows@[src[a]].identity.name@),
                forall|a: int, b: int| 0 <= a < b < src.len() ==> #[trigger] src[a] < #[trigger] src[b],
                forall|r: int|
                    0 <= r < i && names_hold(subnet_names@, (#[trigger] rows@[r]).identity.name@)
                        ==> src.contains(r),
            decreases rows.len() - i,
        {
            let row = &rows[i];
            if holds_name(&subnet_names, row.identity.name.as_str()) {
                let mut networks: Vec<IpNetwork> = Vec::new();
                networks.push(IpNetwork::V4(row.ipv4_block));
                networks.push(IpNetwork::V6(row.ipv6_block));
                assert(networks@ =~= seq![
                    IpNetwork::V4(row.ipv4_block),
                    IpNetwork::V6(row.ipv6_block),
                ]);
                out.push((row.identity.name.clone(), networks));
                proof {
                    let ghost before = src;
                    src = src.push(i as int);
                    assert forall|r: int|
                        0 <= r < i + 1 && names_hold(
                            subnet_names@,
                            (#[trigger] rows@[r]).identity.name@,
                        ) implies src.contains(r) by {
                        if r == i {
                            assert(src[before.len() as int] == r);
                        } else {
                            assert(before.contains(r));
                            let w = choose|w: int| 0 <= w < before.len() && before[w] == r;
                            assert(src[w] == r);
                        }
                    }
                }
            }
            i += 1;
        }
        proof {
            assert forall|a: int| 0 <= a < out@.len() implies entry_has_subnet(
                table,
                vpc_id,
                subnet_names@,
                #[trigger] out@[a],
            ) by {
                let r = src[a];
                let j = choose|j: int|
                    0 <= j < table.len() && (#[trigger] rows@[r])@ == (#[trigger] table[j])@
                        && on_listing(table[j], vpc_id, by);
                assert(is_entry_of(out@[a], table[j]));
            }
            assert forall|a: int, b: int| 0 <= a < b < out@.len() implies name_lt(
                (#[trigger] out@[a]).0@,
                (#[trigger] out@[b]).0@,
            ) by {
                let ra = src[a];
                let rb = src[b];
                assert(by.precedes(rows@[ra].identity_of(), rows@[rb].identity_of()));
                let ja = choose|j: int|
                    0 <= j < table.len() && (#[trigger] rows@[ra])@ == (#[trigger] table[j])@
                        && on_listing(table[j], vpc_id, by);
                let jb = choose|j: int|
                    0 <= j < table.len() && (#[trigger] rows@[rb])@ == (#[trigger] table[j])@
                        && on_listing(table[j], vpc_id, by);
                by.lemma_precedes_irreflexive(table[ja].identity_of());
                assert(ja != jb);
                if ja < jb {
                    assert(live_child(table[ja], table[jb].parent_of()));
                } else {
                    assert(live_child(table[jb], table[ja].parent_of()));
                }
            }
            assert forall|j: int|
                0 <= j < table.len() && live_child(#[trigger] table[j], vpc_id) && names_hold(
                    subnet_names@,
                    table[j].identity.name@,
                ) implies subnet_has_entry(out@, table[j]) by {
                assert(on_listing(table[j], vpc_id, by));
                assert(page_holds(rows@, table[j]));
                let r = choose|r: int| 0 <= r < rows@.len() && (#[trigger] rows@[r])@ == table[j]@;
                assert(src.contains(r));
                let a = choose|a: int| 0 <= a < src.len() && src[a] == r;
                assert(is_entry_of(out@[a], table[j]));
            }
        }
        Ok(out)
    }
}

/// Whether some name of the list is the given name.
#[verifier::loop_isolation(false)]
fn holds_name(names: &Vec<String>, name: &str) -> (res: bool)
    ensures
        res == names_hold(names@, name@),
{
    let mut n: usize = 0;
    while n < names.len()
        invariant
            n <= names.len(),
            forall|m: int| 0 <= m < n ==> (#[trigger] names@[m])@ != name@,
        decreases names.len() - n,
    {
        if str_eq(names[n].as_str(), name) {
            return true;
        }
        n += 1;
    }
    false
}

} // verus!
