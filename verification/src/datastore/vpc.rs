//! Operations on VPCs: the search for a free VNI, creation, update,
//! deletion, listing and lookup.

use crate::authz;
use crate::authz::{Action, OpContext};
use crate::datastore::{vni_in_use, vnis_unique, DataStore, DataStoreView};
use crate::error::{Error, ErrorView, LookupType, LookupTypeView, ResourceType, Uuid};
use crate::model::{Generation, Identity, IncompleteVpc, Project, Resource, Timestamp, Vpc, VpcUpdate};
use crate::table::{
    any_live_child, find_live, first_live, has_live, has_live_child, live_index, id_in_use, ids_unique, is_id_in_use,
    is_name_in_use, is_page, lemma_push_keeps_unique, lemma_update_keeps_unique, list_children,
    live_with_id, name_in_use, name_in_use_by_other, names_unique, PaginatedBy,
};
use crate::vni::{
    search_candidate, Vni, VniSearchIter, MAX_VNI, MAX_VNI_SEARCH_RANGE_SIZE, VNI_SEARCH_WINDOWS,
};
use vstd::prelude::*;
use vstd::string::*;

verus! {

/// The insert of a VPC: the row to be, and how its VNI is chosen.
#[derive(Clone, Debug, PartialEq, Eq)]
pub struct InsertVpcQuery {
    pub vpc: IncompleteVpc,
    /// Whether the VNI of the row is taken as it is. Otherwise it seeds a
    /// search for a free guest VNI.
    pub exact_vni: bool,
}

impl InsertVpcQuery {
    /// The insert of a guest VPC: the first free VNI of the window that
    /// starts at the VNI of `vpc` is taken.
    pub fn new(vpc: IncompleteVpc) -> (res: InsertVpcQuery)
        ensures
            res.vpc == vpc,
            !res.exact_vni,
    {
        InsertVpcQuery { vpc, exact_vni: false }
    }

    /// The insert of a system VPC. With a VNI given, that VNI and no other
    /// is taken; with none, the VNI is searched as for a guest VPC.
    pub fn new_system(vpc: IncompleteVpc, vni: Option<Vni>) -> (res: InsertVpcQuery)
        ensures
            res.exact_vni == vni is Some,
            res.vpc == (IncompleteVpc {
                vni: match vni {
                    Some(v) => v,
                    None => vpc.vni,
                },
                ..vpc
            }),
    {
        match vni {
            Some(v) => InsertVpcQuery { vpc: IncompleteVpc { vni: v, ..vpc }, exact_vni: true },
            None => InsertVpcQuery { vpc, exact_vni: false },
        }
    }

    /// The number of candidates that the insert examines.
    pub open spec fn window(self) -> int {
        if self.exact_vni {
            1
        } else {
            MAX_VNI_SEARCH_RANGE_SIZE as int
        }
    }

    /// The `k`-th candidate that the insert examines.
    pub open spec fn candidate(self, k: int) -> int {
        if self.exact_vni {
            self.vpc.vni.as_u32() as int
        } else {
            search_candidate(self.vpc.vni.as_u32(), k)
        }
    }
}

/// The first candidate among those at positions `from` to `to` that no live
/// VPC has, if there is one.
pub open spec fn first_free_vni(vpcs: Seq<Vpc>, query: InsertVpcQuery, from: int, to: int)
    -> Option<int>
    decreases to - from,
{
    if from >= to {
        None
    } else if !vni_in_use(vpcs, query.candidate(from)) {
        Some(query.candidate(from))
    } else {
        first_free_vni(vpcs, query, from + 1, to)
    }
}

/// The candidate at position `k` is the first free one from `from` on.
pub open spec fn is_first_free(vpcs: Seq<Vpc>, query: InsertVpcQuery, from: int, k: int) -> bool {
    &&& from <= k
    &&& !vni_in_use(vpcs, query.candidate(k))
    &&& forall|earlier: int| from <= earlier < k ==> vni_in_use(vpcs, #[trigger] query.candidate(earlier))
}

/// What the search finds is free, and the candidates before it are not;
/// what it passes over without finding is all in use.
pub proof fn lemma_first_free_vni(vpcs: Seq<Vpc>, query: InsertVpcQuery, from: int, to: int)
    ensures
        first_free_vni(vpcs, query, from, to) is Some ==> exists|k: int|
            k < to && #[trigger] is_first_free(vpcs, query, from, k) && first_free_vni(
                vpcs,
                query,
                from,
                to,
            ) == Some(query.candidate(k)),
        first_free_vni(vpcs, query, from, to) is None ==> forall|k: int|
            from <= k < to ==> vni_in_use(vpcs, #[trigger] query.candidate(k)),
    decreases to - from,
{
    if from < to {
        if !vni_in_use(vpcs, query.candidate(from)) {
            assert(is_first_free(vpcs, query, from, from));
        } else {
            lemma_first_free_vni(vpcs, query, from + 1, to);
            if first_free_vni(vpcs, query, from, to) is Some {
                let k = choose|k: int|
                    k < to && #[trigger] is_first_free(vpcs, query, from + 1, k) && first_free_vni(
                        vpcs,
                        query,
                        from + 1,
                        to,
                    ) == Some(query.candidate(k));
                assert(is_first_free(vpcs, query, from, k));
            }
        }
    }
}

/// The message of the error for deleting a VPC that has subnets.
pub open spec fn vpc_has_subnets_message() -> Seq<char> {
    "VPC cannot be deleted while VPC Subnets exist"@
}

/// The message of the error for a conditional delete that matched no row.
pub open spec fn concurrent_modification_message() -> Seq<char> {
    "deletion failed due to concurrent modification"@
}

/// The error for a child generation that cannot be bumped any further.
pub open spec fn generation_exhausted() -> ErrorView {
    ErrorView::InternalError { internal_message: "child generation exhausted"@ }
}

/// The error for a search that found every guest VNI in use.
pub open spec fn no_free_vni() -> ErrorView {
    ErrorView::InsufficientCapacity {
        message: "No free virtual network was found"@,
        internal_message: "Failed to find a free VNI for this VPC"@,
    }
}

/// The VPC row made of an incomplete VPC and the VNI found for it.
pub open spec fn is_new_vpc(row: Vpc, vpc: IncompleteVpc, vni: int) -> bool {
    &&& row.identity == vpc.identity
    &&& row.project_id == vpc.project_id
    &&& row.system_router_id == vpc.system_router_id
    &&& row.vni.as_u32() == vni
    &&& row.ipv6_prefix == vpc.ipv6_prefix
    &&& row.dns_name == vpc.dns_name
    &&& row.firewall_gen == Generation(1)
    &&& row.subnet_gen == Generation(1)
}

impl DataStoreView {
    /// What stands against the insert of a VPC before a VNI is looked for:
    /// a row with its id, or a live VPC of its project with its name.
    pub open spec fn vpc_insert_conflict(self, vpc: IncompleteVpc) -> Option<ErrorView> {
        if id_in_use(self.vpcs, vpc.identity.id) || (vpc.identity.live() && name_in_use(
            self.vpcs,
            vpc.project_id,
            vpc.identity.name@,
        )) {
            Some(
                ErrorView::ObjectAlreadyExists {
                    resource_type: ResourceType::Vpc,
                    object_name: vpc.identity.name@,
                },
            )
        } else {
            None
        }
    }

    /// The generation of the live project with the id cannot be bumped.
    pub open spec fn project_exhausted(self, project_id: Uuid) -> bool {
        self.projects[live_index(self.projects, project_id)].rcgen.0 == u64::MAX
    }

    /// The store after the insert of a VPC row: the row is the last row of
    /// its table, and the generation of its project is one more.
    pub open spec fn vpc_inserted(self, post: DataStoreView, row: Vpc) -> bool {
        &&& post.vpcs == self.vpcs.push(row)
        &&& has_live(self.projects, row.project_id)
        &&& post.projects == self.projects.update(
            live_index(self.projects, row.project_id),
            Project {
                rcgen: Generation(
                    (self.projects[live_index(self.projects, row.project_id)].rcgen.0 + 1) as u64,
                ),
                ..self.projects[live_index(self.projects, row.project_id)]
            },
        )
        &&& post == (DataStoreView { vpcs: post.vpcs, projects: post.projects, ..self })
    }

    /// What one insert of a VPC returns, and the store after it.
    pub open spec fn create_vpc_raw_post(
        self,
        post: DataStoreView,
        opctx: OpContext,
        authz_project: authz::Project,
        query: InsertVpcQuery,
        res: Result<Option<(authz::Vpc, Vpc)>, Error>,
    ) -> bool {
        let allowed = opctx.check(
            Action::CreateChild,
            ResourceType::Project,
            authz_project.spec_id(),
            authz_project.spec_lookup_type(),
        );
        let free = first_free_vni(self.vpcs, query, 0, query.window());
        if allowed is Err {
            res is Err && res->Err_0@ == allowed->Err_0 && post == self
        } else if !has_live(self.projects, query.vpc.project_id) {
            res is Err && res->Err_0@ == (ErrorView::ObjectNotFound {
                resource_type: ResourceType::Project,
                lookup_type: LookupTypeView::ById(query.vpc.project_id),
            }) && post == self
        } else if self.vpc_insert_conflict(query.vpc) is Some {
            res is Err && res->Err_0@ == self.vpc_insert_conflict(query.vpc)->0 && post == self
        } else if free is None {
            res is Ok && res->Ok_0 is None && post == self
        } else if self.project_exhausted(query.vpc.project_id) {
            res is Err && res->Err_0@ == generation_exhausted() && post == self
        } else {
            res matches Ok(Some((authz_vpc, row))) && {
                &&& is_new_vpc(row, query.vpc, free->0)
                &&& authz_vpc.spec_id() == query.vpc.identity.id
                &&& authz_vpc.spec_parent() == authz_project
                &&& authz_vpc.spec_lookup_type()@ == LookupTypeView::ByName(
                    query.vpc.identity.name@,
                )
                &&& self.vpc_inserted(post, row)
            }
        }
    }
}

/// The number of candidates of a whole search.
pub open spec fn search_length() -> int {
    VNI_SEARCH_WINDOWS * MAX_VNI_SEARCH_RANGE_SIZE
}

/// The row after a soft delete at `now`.
pub open spec fn vpc_deleted_at(row: Vpc, now: Timestamp) -> Vpc {
    Vpc { identity: row.identity.deleted_at(now), ..row }
}

/// The row after an update.
pub open spec fn vpc_updated(row: Vpc, updates: VpcUpdate) -> Vpc {
    Vpc {
        identity: Identity {
            name: match updates.name {
                Some(name) => name,
                None => row.identity.name,
            },
            description: match updates.description {
                Some(description) => description,
                None => row.identity.description,
            },
            time_modified: updates.time_modified,
            ..row.identity
        },
        dns_name: match updates.dns_name {
            Some(dns_name) => dns_name,
            None => row.dns_name,
        },
        ..row
    }
}

/// The error for a VPC that a lookup by VNI, or for a VNI, did not find.
pub open spec fn vni_lookup_failed() -> ErrorView {
    ErrorView::ObjectNotFound {
        resource_type: ResourceType::Vpc,
        lookup_type: LookupTypeView::ByCompositeId("VNI"@),
    }
}

impl DataStoreView {
    /// What the creation of a VPC returns, and the store after it.
    pub open spec fn create_vpc_post(
        self,
        post: DataStoreView,
        opctx: OpContext,
        authz_project: authz::Project,
        vpc: IncompleteVpc,
        res: Result<(authz::Vpc, Vpc), Error>,
    ) -> bool {
        let allowed = opctx.check(
            Action::CreateChild,
            ResourceType::Project,
            authz_project.spec_id(),
            authz_project.spec_lookup_type(),
        );
        let search = InsertVpcQuery { vpc, exact_vni: false };
        let free = first_free_vni(self.vpcs, search, 0, search_length());
        if allowed is Err {
            res is Err && res->Err_0@ == allowed->Err_0 && post == self
        } else if !has_live(self.projects, vpc.project_id) {
            res is Err && res->Err_0@ == (ErrorView::ObjectNotFound {
                resource_type: ResourceType::Project,
                lookup_type: LookupTypeView::ById(vpc.project_id),
            }) && post == self
        } else if self.vpc_insert_conflict(vpc) is Some {
            res is Err && res->Err_0@ == self.vpc_insert_conflict(vpc)->0 && post == self
        } else if free is None {
            res is Err && res->Err_0@ == no_free_vni() && post == self
        } else if self.project_exhausted(vpc.project_id) {
            res is Err && res->Err_0@ == generation_exhausted() && post == self
        } else {
            res matches Ok((authz_vpc, row)) && {
                &&& is_new_vpc(row, vpc, free->0)
                &&& authz_vpc.spec_id() == vpc.identity.id
                &&& authz_vpc.spec_parent() == authz_project
                &&& authz_vpc.spec_lookup_type()@ == LookupTypeView::ByName(vpc.identity.name@)
                &&& self.vpc_inserted(post, row)
            }
        }
    }

    /// What an update of a VPC returns, and the store after it.
    pub open spec fn update_vpc_post(
        self,
        post: DataStoreView,
        opctx: OpContext,
        authz_vpc: authz::Vpc,
        updates: VpcUpdate,
        res: Result<Vpc, Error>,
    ) -> bool {
        let id = authz_vpc.spec_id();
        let allowed = opctx.check(
            Action::Modify,
            ResourceType::Vpc,
            id,
            authz_vpc.spec_lookup_type(),
        );
        let at = live_index(self.vpcs, id);
        if allowed is Err {
            res is Err && res->Err_0@ == allowed->Err_0 && post == self
        } else if !has_live(self.vpcs, id) {
            res is Err && res->Err_0@ == (ErrorView::ObjectNotFound {
                resource_type: ResourceType::Vpc,
                lookup_type: authz_vpc.spec_lookup_type()@,
            }) && post == self
        } else if updates.name is Some && name_in_use_by_other(
            self.vpcs,
            self.vpcs[at].project_id,
            updates.name->0@,
            id,
        ) {
            res is Err && res->Err_0@ == (ErrorView::ObjectAlreadyExists {
                resource_type: ResourceType::Vpc,
                object_name: updates.name->0@,
            }) && post == self
        } else {
            &&& res is Ok
            &&& res->Ok_0 == vpc_updated(self.vpcs[at], updates)
            &&& post == (DataStoreView { vpcs: self.vpcs.update(at, res->Ok_0), ..self })
        }
    }

    /// The live VPC with the id has the subnet generation.
    pub open spec fn vpc_at_generation(self, id: Uuid, subnet_gen: Generation) -> bool {
        has_live(self.vpcs, id) && self.vpcs[live_index(self.vpcs, id)].subnet_gen == subnet_gen
    }

    /// What the deletion of a VPC at the time `now` returns, and the store
    /// after it.
    pub open spec fn delete_vpc_post(
        self,
        post: DataStoreView,
        opctx: OpContext,
        db_vpc: Vpc,
        authz_vpc: authz::Vpc,
        now: Timestamp,
        res: Result<(), Error>,
    ) -> bool {
        let id = authz_vpc.spec_id();
        let allowed = opctx.check(
            Action::Delete,
            ResourceType::Vpc,
            id,
            authz_vpc.spec_lookup_type(),
        );
        let at = live_index(self.vpcs, id);
        if allowed is Err {
            res is Err && res->Err_0@ == allowed->Err_0 && post == self
        } else if has_live_child(self.vpc_subnets, id) {
            res is Err && res->Err_0@ == (ErrorView::InvalidRequest {
                message: vpc_has_subnets_message(),
            }) && post == self
        } else if !self.vpc_at_generation(id, db_vpc.subnet_gen) {
            res is Err && res->Err_0@ == (ErrorView::InvalidRequest {
                message: concurrent_modification_message(),
            }) && post == self
        } else {
            res is Ok && post == (DataStoreView {
                vpcs: self.vpcs.update(at, vpc_deleted_at(self.vpcs[at], now)),
                ..self
            })
        }
    }

    /// What the listing of the VPCs of a project returns.
    pub open spec fn vpc_list_post(
        self,
        opctx: OpContext,
        authz_project: authz::Project,
        pagparams: PaginatedBy,
        res: Result<Vec<Vpc>, Error>,
    ) -> bool {
        let allowed = opctx.check(
            Action::ListChildren,
            ResourceType::Project,
            authz_project.spec_id(),
            authz_project.spec_lookup_type(),
        );
        if allowed is Err {
            res is Err && res->Err_0@ == allowed->Err_0
        } else {
            res is Ok && is_page(self.vpcs, authz_project.spec_id(), pagparams, res->Ok_0@)
        }
    }
}

/// The candidates of two searches agree over a stretch: they find the
/// same.
pub proof fn lemma_first_free_same_candidates(
    vpcs: Seq<Vpc>,
    a: InsertVpcQuery,
    from_a: int,
    b: InsertVpcQuery,
    from_b: int,
    n: int,
)
    requires
        forall|j: int| 0 <= j < n ==> a.candidate(from_a + j) == #[trigger] b.candidate(from_b + j),
    ensures
        first_free_vni(vpcs, a, from_a, from_a + n) == first_free_vni(vpcs, b, from_b, from_b + n),
    decreases n,
{
    if n > 0 {
        assert(a.candidate(from_a + 0) == b.candidate(from_b + 0));
        assert forall|j: int| 0 <= j < n - 1 implies a.candidate(from_a + 1 + j)
            == #[trigger] b.candidate(from_b + 1 + j) by {
            assert(a.candidate(from_a + (j + 1)) == b.candidate(from_b + (j + 1)));
        }
        lemma_first_free_same_candidates(vpcs, a, from_a + 1, b, from_b + 1, n - 1);
    }
}

/// A search over a stretch is the search over its first part, and over the
/// rest if the first part has nothing free.
pub proof fn lemma_first_free_split(
    vpcs: Seq<Vpc>,
    query: InsertVpcQuery,
    from: int,
    mid: int,
    to: int,
)
    requires
        from <= mid <= to,
    ensures
        first_free_vni(vpcs, query, from, to) == if first_free_vni(vpcs, query, from, mid)
            is Some {
            first_free_vni(vpcs, query, from, mid)
        } else {
            first_free_vni(vpcs, query, mid, to)
        },
    decreases mid - from,
{
    if from < mid {
        lemma_first_free_split(vpcs, query, from + 1, mid, to);
    }
}

/// A search finds nothing free exactly when every guest VNI is in use.
pub proof fn lemma_search_fails_when_full(vpcs: Seq<Vpc>, vpc: IncompleteVpc)
    requires
        vpc.vni.valid(),
    ensures
        first_free_vni(vpcs, InsertVpcQuery { vpc, exact_vni: false }, 0, search_length())
            is None <==> forall|vni: int|
            crate::vni::MIN_GUEST_VNI <= vni <= MAX_VNI ==> vni_in_use(vpcs, vni),
{
    let query = InsertVpcQuery { vpc, exact_vni: false };
    let seed = vpc.vni.as_u32();
    lemma_first_free_vni(vpcs, query, 0, search_length());
    if first_free_vni(vpcs, query, 0, search_length()) is None {
        assert forall|vni: int| crate::vni::MIN_GUEST_VNI <= vni <= MAX_VNI implies vni_in_use(
            vpcs,
            vni,
        ) by {
            let at = crate::vni::lemma_search_covers_guest_domain(seed, vni as u32);
            assert(vni_in_use(vpcs, query.candidate(at.0 * 2048 + at.1)));
        }
    } else {
        let k = choose|k: int|
            k < search_length() && #[trigger] is_first_free(vpcs, query, 0, k) && first_free_vni(
                vpcs,
                query,
                0,
                search_length(),
            ) == Some(query.candidate(k));
        crate::vni::lemma_candidate_is_guest(seed, k);
    }
}

impl IncompleteVpc {
    pub fn duplicate(&self) -> (res: IncompleteVpc)
        ensures
            res == *self,
    {
        IncompleteVpc {
            identity: self.identity.duplicate(),
            project_id: self.project_id,
            system_router_id: self.system_router_id,
            vni: self.vni,
            ipv6_prefix: self.ipv6_prefix,
            dns_name: self.dns_name.clone(),
        }
    }
}

impl DataStore {
    /// Whether some live VPC has the VNI.
    #[verifier::loop_isolation(false)]
    fn is_vni_in_use(&self, vni: u32) -> (res: bool)
        ensures
            res == vni_in_use(self@.vpcs, vni as int),
    {
        proof {
            self.lemma_view();
        }
        let mut i: usize = 0;
        while i < self.vpcs.len()
            invariant
                i <= self.vpcs.len(),
                forall|j: int|
                    0 <= j < i ==> !((#[trigger] self.vpcs@[j]).identity.live()
                        && self.vpcs@[j].vni.as_u32() == vni),
            decreases self.vpcs.len() - i,
        {
            let row = &self.vpcs[i];
            if row.identity.time_deleted.is_none() && row.vni.to_u32() == vni {
                return true;
            }
            i += 1;
        }
        false
    }

    /// The first candidate of the insert that no live VPC has.
    #[verifier::loop_isolation(false)]
    fn next_free_vni(&self, query: &InsertVpcQuery) -> (res: Option<Vni>)
        ensures
            res is Some == first_free_vni(self@.vpcs, *query, 0, query.window()) is Some,
            res matches Some(vni) ==> vni.valid(),
            res matches Some(vni) ==> vni.as_u32() == first_free_vni(
                self@.vpcs,
                *query,
                0,
                query.window(),
            )->0,
    {
        if query.exact_vni {
            if self.is_vni_in_use(query.vpc.vni.to_u32()) {
                assert(first_free_vni(self@.vpcs, *query, 1, 1) is None);
                None
            } else {
                Some(query.vpc.vni)
            }
        } else {
            let mut k: u32 = 0;
            while k < MAX_VNI_SEARCH_RANGE_SIZE
                invariant
                    k <= MAX_VNI_SEARCH_RANGE_SIZE,
                    !query.exact_vni,
                    first_free_vni(self@.vpcs, *query, 0, query.window()) == first_free_vni(
                        self@.vpcs,
                        *query,
                        k as int,
                        query.window(),
                    ),
                decreases MAX_VNI_SEARCH_RANGE_SIZE - k,
            {
                let candidate = Vni::search_candidate(query.vpc.vni, k);
                if !self.is_vni_in_use(candidate.to_u32()) {
                    return Some(candidate);
                }
                k += 1;
            }
            None
        }
    }

    /// Inserts a project. A set-up operation: it checks no permission.
    pub fn project_create(&mut self, project: Project) -> (res: Result<(), Error>)
        requires
            old(self)@.wf(),
        ensures
            final(self)@.wf(),
            res is Ok <==> !id_in_use(old(self)@.projects, project.identity.id),
            res is Ok ==> final(self)@ == (DataStoreView {
                projects: old(self)@.projects.push(project),
                ..old(self)@
            }),
            res is Err ==> final(self)@ == old(self)@ && res->Err_0@ == (
            ErrorView::ObjectAlreadyExists {
                resource_type: ResourceType::Project,
                object_name: project.identity.name@,
            }),
    {
        proof {
            self.lemma_view();
        }
        if is_id_in_use(&self.projects, project.identity.id) {
            return Err(Error::already_exists(ResourceType::Project, project.identity.name.as_str()));
        }
        proof {
            let before = self.projects@;
            assert forall|i: int, j: int| 0 <= i < j < before.push(project).len() implies (
            #[trigger] before.push(project)[i]).identity_of().id != (#[trigger] before.push(
                project,
            )[j]).identity_of().id by {
                if j == before.len() {
                    assert(before[i].identity_of().id != project.identity.id);
                } else {
                    assert(before[i].identity_of().id != before[j].identity_of().id);
                }
            }
        }
        self.projects.push(project);
        proof {
            self.lemma_view();
        }
        Ok(())
    }

    /// Inserts a VPC, taking the first VNI that is free among the
    /// candidates of the query. Returns `Ok(None)`, and changes nothing,
    /// when none of them is free.
    pub fn project_create_vpc_raw(
        &mut self,
        opctx: &OpContext,
        authz_project: &authz::Project,
        vpc_query: InsertVpcQuery,
    ) -> (res: Result<Option<(authz::Vpc, Vpc)>, Error>)
        requires
            old(self)@.wf(),
            authz_project.spec_id() == vpc_query.vpc.project_id,
        ensures
            final(self)@.wf(),
            old(self)@.create_vpc_raw_post(final(self)@, *opctx, *authz_project, vpc_query, res),
    {
        proof {
            self.lemma_view();
        }
        let ghost pre = self@;
        match opctx.authorize(
            Action::CreateChild,
            ResourceType::Project,
            authz_project.id(),
            authz_project.lookup_type(),
        ) {
            Err(e) => {
                return Err(e);
            },
            Ok(()) => {},
        }
        let project_id = vpc_query.vpc.project_id;
        let at = match find_live(&self.projects, project_id) {
            None => {
                return Err(
                    Error::ObjectNotFound {
                        resource_type: ResourceType::Project,
                        lookup_type: LookupType::ById(project_id),
                    },
                );
            },
            Some(at) => at,
        };
        if is_id_in_use(&self.vpcs, vpc_query.vpc.identity.id) || (
        vpc_query.vpc.identity.time_deleted.is_none() && is_name_in_use(
            &self.vpcs,
            project_id,
            vpc_query.vpc.identity.name.as_str(),
            None,
        )) {
            return Err(
                Error::already_exists(ResourceType::Vpc, vpc_query.vpc.identity.name.as_str()),
            );
        }
        let vni = match self.next_free_vni(&vpc_query) {
            None => {
                return Ok(None);
            },
            Some(vni) => vni,
        };
        let ghost free = first_free_vni(pre.vpcs, vpc_query, 0, vpc_query.window());
        let rcgen = match self.projects[at].rcgen.next() {
            None => {
                return Err(Error::internal_error("child generation exhausted"));
            },
            Some(next) => next,
        };
        let incomplete = vpc_query.vpc;
        let authz_vpc = authz::Vpc::new(
            authz_project.duplicate(),
            incomplete.identity.id,
            LookupType::ByName(incomplete.identity.name.clone()),
        );
        let row = Vpc {
            identity: incomplete.identity,
            project_id: incomplete.project_id,
            system_router_id: incomplete.system_router_id,
            vni,
            ipv6_prefix: incomplete.ipv6_prefix,
            dns_name: incomplete.dns_name,
            firewall_gen: Generation::new(),
            subnet_gen: Generation::new(),
        };
        let copy = row.duplicate();
        proof {
            lemma_first_free_vni(pre.vpcs, vpc_query, 0, vpc_query.window());
            lemma_push_keeps_unique(pre.vpcs, row);
            lemma_push_keeps_vnis_unique(pre.vpcs, row);
            lemma_push_vpc_keeps_rest(pre, row);
        }
        self.vpcs.push(row);
        self.projects[at].rcgen = rcgen;
        proof {
            self.lemma_view();
            let bumped = Project { rcgen, ..pre.projects[at as int] };
            assert(self@.projects =~= pre.projects.update(at as int, bumped));
            lemma_update_keeps_ids_unique(pre.projects, at as int, bumped);
            assert(pre.vpc_inserted(self@, copy));
        }
        Ok(Some((authz_vpc, copy)))
    }

    /// Creates a VPC, with the first free guest VNI that a search from the
    /// VNI of `vpc` comes across. The search goes window by window, each
    /// window one insert, until an insert succeeds or fails for another
    /// reason than a window without a free VNI.
    #[verifier::loop_isolation(false)]
    pub fn project_create_vpc(
        &mut self,
        opctx: &OpContext,
        authz_project: &authz::Project,
        vpc: IncompleteVpc,
    ) -> (res: Result<(authz::Vpc, Vpc), Error>)
        requires
            old(self)@.wf(),
            authz_project.spec_id() == vpc.project_id,
        ensures
            final(self)@.wf(),
            old(self)@.create_vpc_post(final(self)@, *opctx, *authz_project, vpc, res),
    {
        let ghost pre = self@;
        let ghost search = InsertVpcQuery { vpc, exact_vni: false };
        let ghost seed = vpc.vni.as_u32();
        let ghost allowed = opctx.check(
            Action::CreateChild,
            ResourceType::Project,
            authz_project.spec_id(),
            authz_project.spec_lookup_type(),
        );
        let mut vnis = VniSearchIter::new(vpc.vni);
        let mut exhausted = vpc.vni.to_u32() > MAX_VNI;
        while !exhausted
            invariant
                self@ == pre,
                seed <= MAX_VNI,
                pre.wf(),
                authz_project.spec_id() == vpc.project_id,
                search == (InsertVpcQuery { vpc, exact_vni: false }),
                seed == vpc.vni.as_u32(),
                allowed == opctx.check(
                    Action::CreateChild,
                    ResourceType::Project,
                    authz_project.spec_id(),
                    authz_project.spec_lookup_type(),
                ),
                vnis.seed() == seed,
                vnis.position() <= VNI_SEARCH_WINDOWS,
                exhausted ==> vnis.position() == VNI_SEARCH_WINDOWS,
                vnis.position() > 0 ==> allowed is Ok && has_live(pre.projects, vpc.project_id)
                    && pre.vpc_insert_conflict(vpc) is None,
                first_free_vni(pre.vpcs, search, 0, search_length()) == first_free_vni(
                    pre.vpcs,
                    search,
                    (vnis.position() * 2048) as int,
                    search_length(),
                ),
            decreases
                    (if exhausted {
                        0int
                    } else {
                        1int
                    }),
                    VNI_SEARCH_WINDOWS - vnis.position(),
        {
            let ghost i = vnis.position() as int;
            match vnis.next() {
                None => {
                    exhausted = true;
                },
                Some(vni) => {
                    let attempt = IncompleteVpc { vni, ..vpc.duplicate() };
                    let query = InsertVpcQuery::new(attempt);
                    proof {
                        assert forall|j: int| 0 <= j < 2048 implies search.candidate(i * 2048 + j)
                            == #[trigger] query.candidate(0 + j) by {
                            crate::vni::lemma_window_candidate(seed, i, j);
                        }
                        lemma_first_free_same_candidates(pre.vpcs, search, i * 2048, query, 0, 2048);
                        lemma_first_free_split(
                            pre.vpcs,
                            search,
                            i * 2048,
                            (i + 1) * 2048,
                            search_length(),
                        );
                        assert(pre.vpc_insert_conflict(query.vpc) == pre.vpc_insert_conflict(vpc));
                    }
                    match self.project_create_vpc_raw(opctx, authz_project, query) {
                        Ok(Some(pair)) => {
                            return Ok(pair);
                        },
                        Err(e) => {
                            return Err(e);
                        },
                        Ok(None) => {},
                    }
                },
            }
        }
        Err(
            Error::insufficient_capacity(
                "No free virtual network was found",
                "Failed to find a free VNI for this VPC",
            ),
        )
    }

    /// Lists the live VPCs of a project, one page at a time.
    pub fn vpc_list(
        &self,
        opctx: &OpContext,
        authz_project: &authz::Project,
        pagparams: &PaginatedBy,
    ) -> (res: Result<Vec<Vpc>, Error>)
        requires
            self@.wf(),
        ensures
            self@.vpc_list_post(*opctx, *authz_project, *pagparams, res),
    {
        proof {
            self.lemma_view();
        }
        match opctx.authorize(
            Action::ListChildren,
            ResourceType::Project,
            authz_project.id(),
            authz_project.lookup_type(),
        ) {
            Err(e) => Err(e),
            Ok(()) => Ok(list_children(&self.vpcs, authz_project.id(), pagparams)),
        }
    }

    /// Changes name, description or DNS name of a live VPC.
    pub fn project_update_vpc(
        &mut self,
        opctx: &OpContext,
        authz_vpc: &authz::Vpc,
        updates: VpcUpdate,
    ) -> (res: Result<Vpc, Error>)
        requires
            old(self)@.wf(),
        ensures
            final(self)@.wf(),
            old(self)@.update_vpc_post(final(self)@, *opctx, *authz_vpc, updates, res),
    {
        proof {
            self.lemma_view();
        }
        let ghost pre = self@;
        match opctx.authorize(
            Action::Modify,
            ResourceType::Vpc,
            authz_vpc.id(),
            authz_vpc.lookup_type(),
        ) {
            Err(e) => {
                return Err(e);
            },
            Ok(()) => {},
        }
        let at = match find_live(&self.vpcs, authz_vpc.id()) {
            None => {
                return Err(
                    Error::ObjectNotFound {
                        resource_type: ResourceType::Vpc,
                        lookup_type: authz_vpc.lookup_type().duplicate(),
                    },
                );
            },
            Some(at) => at,
        };
        if let Some(name) = &updates.name {
            if is_name_in_use(
                &self.vpcs,
                self.vpcs[at].project_id,
                name.as_str(),
                Some(authz_vpc.id()),
            ) {
                return Err(Error::already_exists(ResourceType::Vpc, name.as_str()));
            }
        }
        let ghost updated = vpc_updated(pre.vpcs[at as int], updates);
        proof {
            lemma_update_keeps_unique(pre.vpcs, at as int, updated);
            lemma_update_vpc_keeps_rest(pre, at as int, updated);
        }
        let VpcUpdate { name, description, time_modified, dns_name } = updates;
        if let Some(name) = name {
            self.vpcs[at].identity.name = name;
        }
        if let Some(description) = description {
            self.vpcs[at].identity.description = description;
        }
        if let Some(dns_name) = dns_name {
            self.vpcs[at].dns_name = dns_name;
        }
        self.vpcs[at].identity.time_modified = time_modified;
        proof {
            self.lemma_view();
            assert(self@.vpcs =~= pre.vpcs.update(at as int, updated));
        }
        Ok(self.vpcs[at].duplicate())
    }

    /// Deletes a VPC, at the time `now`. A VPC with a live subnet is not
    /// deleted; nor one whose subnet generation is no longer the one of
    /// `db_vpc`, which the caller read before.
    pub fn project_delete_vpc_at(
        &mut self,
        opctx: &OpContext,
        db_vpc: &Vpc,
        authz_vpc: &authz::Vpc,
        now: Timestamp,
    ) -> (res: Result<(), Error>)
        requires
            old(self)@.wf(),
        ensures
            final(self)@.wf(),
            old(self)@.delete_vpc_post(final(self)@, *opctx, *db_vpc, *authz_vpc, now, res),
    {
        proof {
            self.lemma_view();
        }
        let ghost pre = self@;
        match opctx.authorize(
            Action::Delete,
            ResourceType::Vpc,
            authz_vpc.id(),
            authz_vpc.lookup_type(),
        ) {
            Err(e) => {
                return Err(e);
            },
            Ok(()) => {},
        }
        if any_live_child(&self.vpc_subnets, authz_vpc.id()) {
            return Err(Error::invalid_request("VPC cannot be deleted while VPC Subnets exist"));
        }
        let at = match find_live(&self.vpcs, authz_vpc.id()) {
            Some(at) => at,
            None => {
                return Err(
                    Error::invalid_request("deletion failed due to concurrent modification"),
                );
            },
        };
        if self.vpcs[at].subnet_gen != db_vpc.subnet_gen {
            return Err(Error::invalid_request("deletion failed due to concurrent modification"));
        }
        let ghost deleted = vpc_deleted_at(pre.vpcs[at as int], now);
        proof {
            lemma_update_keeps_unique(pre.vpcs, at as int, deleted);
            lemma_update_vpc_keeps_rest(pre, at as int, deleted);
        }
        self.vpcs[at].identity.time_deleted = Some(now);
        proof {
            self.lemma_view();
            assert(self@.vpcs =~= pre.vpcs.update(at as int, deleted));
        }
        Ok(())
    }

    /// Deletes a VPC, at the time that the clock gives. See
    /// [`DataStore::project_delete_vpc_at`].
    pub fn project_delete_vpc(
        &mut self,
        opctx: &OpContext,
        db_vpc: &Vpc,
        authz_vpc: &authz::Vpc,
    ) -> (res: Result<(), Error>)
        requires
            old(self)@.wf(),
        ensures
            final(self)@.wf(),
            exists|now: Timestamp|
                old(self)@.delete_vpc_post(final(self)@, *opctx, *db_vpc, *authz_vpc, now, res),
    {
        let now = crate::datastore::utc_now();
        self.project_delete_vpc_at(opctx, db_vpc, authz_vpc, now)
    }

    /// Looks the live VPC with a VNI up.
    #[verifier::loop_isolation(false)]
    pub fn resolve_vni_to_vpc(&self, opctx: &OpContext, vni: Vni) -> (res: Result<Vpc, Error>)
        requires
            self@.wf(),
        ensures
            res is Ok <==> vni_in_use(self@.vpcs, vni.as_u32() as int),
            res matches Ok(row) ==> exists|j: int|
                0 <= j < self@.vpcs.len() && row == #[trigger] self@.vpcs[j]
                    && row.identity.live() && row.vni == vni,
            res matches Err(e) ==> e@ == vni_lookup_failed(),
    {
        proof {
            self.lemma_view();
        }
        let mut i: usize = 0;
        while i < self.vpcs.len()
            invariant
                i <= self.vpcs.len(),
                forall|j: int|
                    0 <= j < i ==> !((#[trigger] self.vpcs@[j]).identity.live()
                        && self.vpcs@[j].vni.as_u32() == vni.as_u32()),
            decreases self.vpcs.len() - i,
        {
            let row = &self.vpcs[i];
            if row.identity.time_deleted.is_none() && row.vni == vni {
                return Ok(row.duplicate());
            }
            proof {
                vni.lemma_same_number(row.vni);
            }
            i += 1;
        }
        Err(
            Error::ObjectNotFound {
                resource_type: ResourceType::Vpc,
                lookup_type: LookupType::ByCompositeId(String::from_str("VNI")),
            },
        )
    }

    /// Looks the VNI of the live VPC with an id up.
    pub fn resolve_vpc_to_vni(&self, opctx: &OpContext, vpc_id: Uuid) -> (res: Result<Vni, Error>)
        requires
            self@.wf(),
        ensures
            res is Ok <==> has_live(self@.vpcs, vpc_id),
            res matches Ok(vni) ==> vni == self@.vpcs[live_index(self@.vpcs, vpc_id)].vni,
            res matches Err(e) ==> e@ == vni_lookup_failed(),
    {
        proof {
            self.lemma_view();
        }
        match find_live(&self.vpcs, vpc_id) {
            Some(at) => Ok(self.vpcs[at].vni),
            None => Err(
                Error::ObjectNotFound {
                    resource_type: ResourceType::Vpc,
                    lookup_type: LookupType::ByCompositeId(String::from_str("VNI")),
                },
            ),
        }
    }
}

/// Replacing a VPC by one with the same id, VNI and system router, which is
/// live unless the VPC has no live subnet, keeps the invariants that speak
/// of VPCs.
pub proof fn lemma_update_vpc_keeps_rest(pre: DataStoreView, at: int, row: Vpc)
    requires
        pre.wf(),
        0 <= at < pre.vpcs.len(),
        row.identity.id == pre.vpcs[at].identity.id,
        row.vni == pre.vpcs[at].vni,
        row.system_router_id == pre.vpcs[at].system_router_id,
        row.identity.live() ==> pre.vpcs[at].identity.live(),
        pre.vpcs[at].identity.live() && !row.identity.live() ==> !has_live_child(
            pre.vpc_subnets,
            row.identity.id,
        ),
    ensures
        vnis_unique(pre.vpcs.update(at, row)),
        crate::datastore::subnets_have_parents(pre.vpcs.update(at, row), pre.vpc_subnets),
        crate::datastore::system_routers_anchored(pre.vpcs.update(at, row), pre.vpc_routers),
{
    let after = pre.vpcs.update(at, row);
    assert forall|i: int| 0 <= i < after.len() implies (#[trigger] after[i]).vni.valid() by {
        assert(pre.vpcs[i].vni.valid());
    }
    assert forall|i: int, j: int|
        0 <= i < j < after.len() && (#[trigger] after[i]).identity.live() && (
        #[trigger] after[j]).identity.live() implies after[i].vni.as_u32()
        != after[j].vni.as_u32() by {
        assert(pre.vpcs[i].identity.live() && pre.vpcs[j].identity.live());
    }
    assert forall|j: int|
        0 <= j < pre.vpc_subnets.len() && (#[trigger] pre.vpc_subnets[j]).identity.live() implies has_live(
        after,
        pre.vpc_subnets[j].vpc_id,
    ) by {
        let parent = pre.vpc_subnets[j].vpc_id;
        let w = choose|w: int| 0 <= w < pre.vpcs.len() && live_with_id(#[trigger] pre.vpcs[w], parent);
        if w == at {
            assert(crate::table::live_child(pre.vpc_subnets[j], row.identity.id));
            assert(row.identity.live());
        }
        assert(live_with_id(after[w], parent));
    }
    assert forall|j: int|
        0 <= j < pre.vpc_routers.len() && (#[trigger] pre.vpc_routers[j]).kind is System implies exists|
        i: int,
    |
        0 <= i < after.len() && (#[trigger] after[i]).identity.id == pre.vpc_routers[j].vpc_id
            && after[i].system_router_id == pre.vpc_routers[j].identity.id by {
        let w = choose|i: int|
            0 <= i < pre.vpcs.len() && (#[trigger] pre.vpcs[i]).identity.id
                == pre.vpc_routers[j].vpc_id && pre.vpcs[i].system_router_id
                == pre.vpc_routers[j].identity.id;
        assert(after[w].identity.id == pre.vpc_routers[j].vpc_id);
    }
}

/// Adding a VPC with a VNI that no live VPC has keeps VNIs unique.
pub proof fn lemma_push_keeps_vnis_unique(vpcs: Seq<Vpc>, row: Vpc)
    requires
        vnis_unique(vpcs),
        row.vni.valid(),
        row.identity.live() ==> !vni_in_use(vpcs, row.vni.as_u32() as int),
    ensures
        vnis_unique(vpcs.push(row)),
{
    let after = vpcs.push(row);
    assert forall|i: int| 0 <= i < after.len() implies (#[trigger] after[i]).vni.valid() by {
        if i < vpcs.len() {
            assert(vpcs[i].vni.valid());
        }
    }
    assert forall|i: int, j: int|
        0 <= i < j < after.len() && (#[trigger] after[i]).identity.live() && (
        #[trigger] after[j]).identity.live() implies after[i].vni.as_u32()
        != after[j].vni.as_u32() by {
        if j == vpcs.len() {
            assert(vpcs[i].identity.live());
        } else {
            assert(vpcs[i].vni.as_u32() != vpcs[j].vni.as_u32());
        }
    }
}

/// Adding a VPC keeps what the invariants say of subnets and routers.
pub proof fn lemma_push_vpc_keeps_rest(pre: DataStoreView, row: Vpc)
    requires
        pre.wf(),
    ensures
        crate::datastore::subnets_have_parents(pre.vpcs.push(row), pre.vpc_subnets),
        crate::datastore::system_routers_anchored(pre.vpcs.push(row), pre.vpc_routers),
{
    let after = pre.vpcs.push(row);
    assert forall|j: int|
        0 <= j < pre.vpc_subnets.len() && (#[trigger] pre.vpc_subnets[j]).identity.live() implies has_live(
        after,
        pre.vpc_subnets[j].vpc_id,
    ) by {
        let at = choose|at: int|
            0 <= at < pre.vpcs.len() && live_with_id(
                #[trigger] pre.vpcs[at],
                pre.vpc_subnets[j].vpc_id,
            );
        assert(live_with_id(after[at], pre.vpc_subnets[j].vpc_id));
    }
    assert forall|j: int|
        0 <= j < pre.vpc_routers.len() && (#[trigger] pre.vpc_routers[j]).kind is System implies exists|
        i: int,
    |
        0 <= i < after.len() && (#[trigger] after[i]).identity.id == pre.vpc_routers[j].vpc_id
            && after[i].system_router_id == pre.vpc_routers[j].identity.id by {
        let at = choose|i: int|
            0 <= i < pre.vpcs.len() && (#[trigger] pre.vpcs[i]).identity.id
                == pre.vpc_routers[j].vpc_id && pre.vpcs[i].system_router_id
                == pre.vpc_routers[j].identity.id;
        assert(after[at] == pre.vpcs[at]);
    }
}

/// Replacing a row by one with the same id keeps ids unique.
pub proof fn lemma_update_keeps_ids_unique<T: Resource>(table: Seq<T>, at: int, row: T)
    requires
        ids_unique(table),
        0 <= at < table.len(),
        row.identity_of().id == table[at].identity_of().id,
    ensures
        ids_unique(table.update(at, row)),
{
    let after = table.update(at, row);
    assert forall|i: int, j: int| 0 <= i < j < after.len() implies (
    #[trigger] after[i]).identity_of().id != (#[trigger] after[j]).identity_of().id by {
        assert(table[i].identity_of().id != table[j].identity_of().id);
    }
}

} // verus!
