use nexus_vpc::authz;
use nexus_vpc::authz::{Action, Grant, OpContext};
use nexus_vpc::datastore::DataStore;
use nexus_vpc::error::{Error, LookupType, ResourceType};
use nexus_vpc::ip_net::{IpAddr, Ipv6Net};
use nexus_vpc::model::{
    Generation, Identity, IncompleteVpc, Project, RouteDestination, RouteTarget, RouterRoute,
    RouterRouteKind, RouterRouteUpdate, VpcRouter, VpcRouterKind, VpcRouterUpdate,
};
use nexus_vpc::table::{DataPageParams, PaginatedBy, PaginationOrder};
use nexus_vpc::vni::Vni;

const PROJECT: u128 = 0x1000;
const VPC: u128 = 1;
const SYSTEM_ROUTER: u128 = 50;

fn opctx() -> OpContext {
    let mut grants = Vec::new();
    let resources = [
        (ResourceType::Project, PROJECT),
        (ResourceType::Vpc, VPC),
        (ResourceType::VpcRouter, SYSTEM_ROUTER),
        (ResourceType::VpcRouter, 51),
        (ResourceType::RouterRoute, 70),
        (ResourceType::RouterRoute, 71),
    ];
    for (resource_type, resource_id) in resources {
        for action in
            [Action::Read, Action::ListChildren, Action::CreateChild, Action::Modify, Action::Delete]
        {
            grants.push(Grant { action, resource_type, resource_id });
        }
    }
    OpContext::new(true, grants)
}

fn setup() -> (DataStore, authz::Vpc) {
    let mut datastore = DataStore::new();
    datastore
        .project_create(Project {
            identity: Identity::new(PROJECT, "project", "test project", 1),
            silo_id: 1,
            rcgen: Generation::new(),
        })
        .unwrap();
    let (authz_vpc, _) = datastore
        .project_create_vpc(
            &opctx(),
            &authz::Project::new(PROJECT, LookupType::ById(PROJECT)),
            IncompleteVpc {
                identity: Identity::new(VPC, "vpc", "test vpc", 2),
                project_id: PROJECT,
                system_router_id: SYSTEM_ROUTER,
                vni: Vni::try_from(4000).unwrap(),
                ipv6_prefix: Ipv6Net::new(0xfd00 << 112, 48).unwrap(),
                dns_name: "vpc".to_string(),
            },
        )
        .unwrap();
    (datastore, authz_vpc)
}

fn router(id: u128, name: &str, kind: VpcRouterKind) -> VpcRouter {
    VpcRouter { identity: Identity::new(id, name, "a router", 3), kind, vpc_id: VPC, rcgen: Generation::new() }
}

fn route(id: u128, router_id: u128, name: &str, kind: RouterRouteKind) -> RouterRoute {
    RouterRoute {
        identity: Identity::new(id, name, "a route", 4),
        vpc_router_id: router_id,
        kind,
        target: RouteTarget::InternetGateway("outbound".to_string()),
        destination: RouteDestination::Vpc("vpc".to_string()),
    }
}

fn by_name() -> PaginatedBy {
    PaginatedBy::Name(DataPageParams { marker: None, direction: PaginationOrder::Ascending, limit: 100 })
}

// A VPC has one system router, the one that it names, and it stays.
#[test]
fn test_system_router_is_the_one_the_vpc_names() {
    let (mut datastore, authz_vpc) = setup();
    let opctx = opctx();
    // A system router with another id than the VPC names.
    match datastore.vpc_create_router(&opctx, &authz_vpc, router(51, "system", VpcRouterKind::System)) {
        Err(Error::InvalidRequest { message }) => {
            assert_eq!(message, "system router is not the one that its VPC names")
        }
        other => panic!("unexpected: {:?}", other.map(|_| ())),
    }
    let (authz_router, created) = datastore
        .vpc_create_router(&opctx, &authz_vpc, router(SYSTEM_ROUTER, "system", VpcRouterKind::System))
        .unwrap();
    assert_eq!(authz_router.id(), SYSTEM_ROUTER);
    assert_eq!(created.kind, VpcRouterKind::System);
    // Once more: the id is in use.
    assert!(matches!(
        datastore.vpc_create_router(&opctx, &authz_vpc, router(SYSTEM_ROUTER, "again", VpcRouterKind::System)),
        Err(Error::ObjectAlreadyExists { resource_type: ResourceType::VpcRouter, .. })
    ));
    // The system router is not deleted.
    match datastore.vpc_delete_router(&opctx, &authz_router) {
        Err(Error::InvalidRequest { message }) => assert_eq!(message, "system router cannot be deleted"),
        other => panic!("unexpected: {:?}", other),
    }
    let listed = datastore.vpc_router_list(&opctx, &authz_vpc, &by_name()).unwrap();
    assert_eq!(listed.len(), 1);
    assert_eq!(listed[0].identity.id, SYSTEM_ROUTER);
}

#[test]
fn test_custom_routers() {
    let (mut datastore, authz_vpc) = setup();
    let opctx = opctx();
    datastore
        .vpc_create_router(&opctx, &authz_vpc, router(SYSTEM_ROUTER, "system", VpcRouterKind::System))
        .unwrap();
    let (authz_custom, _) = datastore
        .vpc_create_router(&opctx, &authz_vpc, router(51, "custom", VpcRouterKind::Custom))
        .unwrap();
    // The name of a live sibling.
    assert!(matches!(
        datastore.vpc_create_router(&opctx, &authz_vpc, router(52, "custom", VpcRouterKind::Custom)),
        Err(Error::ObjectAlreadyExists { ref object_name, .. }) if object_name == "custom"
    ));
    let names = |datastore: &DataStore| {
        datastore
            .vpc_router_list(&opctx, &authz_vpc, &by_name())
            .unwrap()
            .iter()
            .map(|row| row.identity.name.clone())
            .collect::<Vec<_>>()
    };
    assert_eq!(names(&datastore), vec!["custom", "system"]);
    let updated = datastore
        .vpc_update_router(
            &opctx,
            &authz_custom,
            VpcRouterUpdate { name: Some("edge".to_string()), description: None, time_modified: 9 },
        )
        .unwrap();
    assert_eq!(updated.identity.name, "edge");
    assert_eq!(updated.identity.time_modified, 9);
    assert!(matches!(
        datastore.vpc_update_router(
            &opctx,
            &authz_custom,
            VpcRouterUpdate { name: Some("system".to_string()), description: None, time_modified: 9 },
        ),
        Err(Error::ObjectAlreadyExists { .. })
    ));
    datastore.vpc_delete_router_at(&opctx, &authz_custom, 10).unwrap();
    assert_eq!(names(&datastore), vec!["system"]);
    // Deleting what is not there is no error; updating it is.
    datastore.vpc_delete_router_at(&opctx, &authz_custom, 11).unwrap();
    assert!(matches!(
        datastore.vpc_update_router(
            &opctx,
            &authz_custom,
            VpcRouterUpdate { name: None, description: None, time_modified: 12 },
        ),
        Err(Error::ObjectNotFound { resource_type: ResourceType::VpcRouter, lookup_type: LookupType::ById(51) })
    ));
    // The name is free again.
    datastore.vpc_create_router(&opctx, &authz_vpc, router(53, "edge", VpcRouterKind::Custom)).unwrap();
}

#[test]
fn test_routes() {
    let (mut datastore, authz_vpc) = setup();
    let opctx = opctx();
    let (authz_router, _) = datastore
        .vpc_create_router(&opctx, &authz_vpc, router(SYSTEM_ROUTER, "system", VpcRouterKind::System))
        .unwrap();
    let created = datastore
        .router_create_route(&opctx, &authz_router, route(70, SYSTEM_ROUTER, "default", RouterRouteKind::Default))
        .unwrap();
    assert_eq!(created.identity.id, 70);
    // A router has one default route.
    assert!(matches!(
        datastore.router_create_route(&opctx, &authz_router, route(71, SYSTEM_ROUTER, "second", RouterRouteKind::Default)),
        Err(Error::Conflict { resource_type: ResourceType::RouterRoute, ref object_name }) if object_name == "second"
    ));
    assert!(matches!(
        datastore.router_create_route(&opctx, &authz_router, route(71, SYSTEM_ROUTER, "default", RouterRouteKind::Custom)),
        Err(Error::ObjectAlreadyExists { .. })
    ));
    datastore
        .router_create_route(&opctx, &authz_router, route(71, SYSTEM_ROUTER, "custom", RouterRouteKind::Custom))
        .unwrap();
    // Two routes have bumped the generation of the router twice.
    assert_eq!(datastore.vpc_router_list(&opctx, &authz_vpc, &by_name()).unwrap()[0].rcgen, Generation(3));
    let listed = datastore.vpc_router_route_list(&opctx, &authz_router, &by_name()).unwrap();
    assert_eq!(listed.iter().map(|r| r.identity.id).collect::<Vec<_>>(), vec![71, 70]);

    let authz_route = authz::RouterRoute::new(
        authz::VpcRouter::new(authz_vpc.duplicate(), SYSTEM_ROUTER, LookupType::ById(SYSTEM_ROUTER)),
        71,
        LookupType::ById(71),
    );
    let updated = datastore
        .router_update_route(
            &opctx,
            &authz_route,
            RouterRouteUpdate {
                name: None,
                description: Some("to nowhere".to_string()),
                time_modified: 20,
                target: RouteTarget::Drop,
                destination: RouteDestination::Ip(IpAddr::V4(7)),
            },
        )
        .unwrap();
    assert_eq!(updated.identity.name, "custom");
    assert_eq!(updated.identity.description, "to nowhere");
    assert_eq!(updated.target, RouteTarget::Drop);
    assert_eq!(updated.destination, RouteDestination::Ip(IpAddr::V4(7)));
    assert_eq!(updated.kind, RouterRouteKind::Custom);

    datastore.router_delete_route_at(&opctx, &authz_route, 21).unwrap();
    datastore.router_delete_route(&opctx, &authz_route).unwrap();
    let listed = datastore.vpc_router_route_list(&opctx, &authz_router, &by_name()).unwrap();
    assert_eq!(listed.iter().map(|r| r.identity.id).collect::<Vec<_>>(), vec![70]);
    assert!(datastore
        .router_update_route(
            &opctx,
            &authz_route,
            RouterRouteUpdate {
                name: None,
                description: None,
                time_modified: 22,
                target: RouteTarget::Drop,
                destination: RouteDestination::Ip(IpAddr::V4(7)),
            },
        )
        .is_err());
    // A route into a router that is not there.
    let ghost = authz::VpcRouter::new(authz_vpc.duplicate(), 51, LookupType::ById(51));
    assert!(matches!(
        datastore.router_create_route(&opctx, &ghost, route(72, 51, "lost", RouterRouteKind::Custom)),
        Err(Error::ObjectNotFound { resource_type: ResourceType::VpcRouter, lookup_type: LookupType::ById(51) })
    ));
}
