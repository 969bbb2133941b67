use nexus_vpc::authz;
use nexus_vpc::authz::{Action, Grant, OpContext};
use nexus_vpc::datastore::subnet::SubnetError;
use nexus_vpc::datastore::vpc::InsertVpcQuery;
use nexus_vpc::datastore::DataStore;
use nexus_vpc::error::{Error, LookupType, ResourceType};
use nexus_vpc::ip_net::{IpAddr, IpNetwork, Ipv4Net, Ipv6Net};
use nexus_vpc::model::{
    Generation, Identity, IncompleteVpc, InstanceNetworkInterface, Project, Resource, Vpc, VpcFirewallRule, VpcFirewallRuleAction,
    VpcFirewallRuleDirection, VpcFirewallRuleStatus, VpcFirewallRuleTarget, VpcSubnet,
    VpcSubnetUpdate, VpcUpdate,
};
use nexus_vpc::table::{DataPageParams, PaginatedBy, PaginationOrder};
use nexus_vpc::vni::{Vni, MAX_VNI_SEARCH_RANGE_SIZE};

const PROJECT: u128 = 0x1000;
const ALL_ACTIONS: [Action; 5] =
    [Action::Read, Action::ListChildren, Action::CreateChild, Action::Modify, Action::Delete];

/// A caller who may do everything to the resources with the given ids.
fn opctx_for(resources: &[(ResourceType, u128)]) -> OpContext {
    let mut grants = Vec::new();
    for (resource_type, resource_id) in resources {
        for action in ALL_ACTIONS {
            grants.push(Grant { action, resource_type: *resource_type, resource_id: *resource_id });
        }
    }
    OpContext::new(true, grants)
}

fn authz_project() -> authz::Project {
    authz::Project::new(PROJECT, LookupType::ById(PROJECT))
}

fn store_with_project() -> DataStore {
    let mut datastore = DataStore::new();
    datastore
        .project_create(Project {
            identity: Identity::new(PROJECT, "project", "test project", 1),
            silo_id: 1,
            rcgen: Generation::new(),
        })
        .expect("failed to create project");
    datastore
}

fn incomplete_vpc(id: u128, name: &str, vni: u32) -> IncompleteVpc {
    IncompleteVpc {
        identity: Identity::new(id, name, "test vpc", 10),
        project_id: PROJECT,
        system_router_id: id + 0x1_0000_0000,
        vni: Vni::try_from(vni).unwrap(),
        ipv6_prefix: Ipv6Net::new(0xfd00_0000_0000_0000_0000_0000_0000_0000 + (id << 80), 48)
            .unwrap(),
        dns_name: name.to_string(),
    }
}

fn subnet(id: u128, vpc: &Vpc, name: &str, v4: (u32, u8), v6_index: u128) -> VpcSubnet {
    VpcSubnet {
        identity: Identity::new(id, name, "test subnet", 20),
        vpc_id: vpc.identity.id,
        rcgen: Generation::new(),
        ipv4_block: Ipv4Net::new(v4.0, v4.1).unwrap(),
        ipv6_block: Ipv6Net::new(vpc.ipv6_prefix.addr() + (v6_index << 64), 64).unwrap(),
        custom_router_id: None,
    }
}

fn rule(id: u128, vpc_id: u128, name: &str) -> VpcFirewallRule {
    VpcFirewallRule {
        identity: Identity::new(id, name, "test rule", 30),
        vpc_id,
        status: VpcFirewallRuleStatus::Enabled,
        direction: VpcFirewallRuleDirection::Inbound,
        targets: vec![VpcFirewallRuleTarget::Vpc("default".to_string())],
        filter_hosts: None,
        filter_ports: None,
        filter_protocols: None,
        action: VpcFirewallRuleAction::Allow,
        priority: 100,
    }
}

fn by_id(limit: u32) -> PaginatedBy {
    PaginatedBy::Id(DataPageParams { marker: None, direction: PaginationOrder::Ascending, limit })
}

/// Fills the VNIs from `starting_vni` to `starting_vni + MAX_VNI_SEARCH_RANGE_SIZE`.
fn fill_search_range(datastore: &mut DataStore, opctx: &OpContext, starting_vni: u32) {
    for vni in 0..=MAX_VNI_SEARCH_RANGE_SIZE {
        let name = format!("vpc{vni}");
        let vpc = incomplete_vpc(0x10_0000 + vni as u128, &name, starting_vni + vni);
        let query = InsertVpcQuery::new(vpc);
        let (_, db_vpc) = datastore
            .project_create_vpc_raw(opctx, &authz_project(), query)
            .expect("failed to create initial set of VPCs")
            .expect("expected an actual VPC");
        assert_eq!(db_vpc.vni.to_u32(), starting_vni + vni);
    }
}

// An insert returns `Ok(None)` when no VNI of its window is free.
#[test]
fn test_project_create_vpc_raw_returns_none_on_vni_exhaustion() {
    let mut datastore = store_with_project();
    let opctx = opctx_for(&[(ResourceType::Project, PROJECT)]);
    let starting_vni = 2048;
    fill_search_range(&mut datastore, &opctx, starting_vni);

    let vpc = incomplete_vpc(0x20_0000, "dead-vpc", starting_vni);
    let query = InsertVpcQuery::new(vpc);
    let Ok(None) = datastore.project_create_vpc_raw(&opctx, &authz_project(), query) else {
        panic!("Expected Ok(None) when creating a VPC without any available VNIs");
    };
}

// The search goes on to the next window when a window has no free VNI.
#[test]
fn test_project_create_vpc_retries() {
    let mut datastore = store_with_project();
    let opctx = opctx_for(&[(ResourceType::Project, PROJECT)]);
    let starting_vni = 2048;
    fill_search_range(&mut datastore, &opctx, starting_vni);

    let incomplete = incomplete_vpc(0x20_0000, "dead-at-first-vpc", starting_vni);
    let id = incomplete.identity.id;
    match datastore.project_create_vpc(&opctx, &authz_project(), incomplete) {
        Ok((_, vpc)) => {
            assert_eq!(vpc.identity.id, id);
            let expected_vni = starting_vni + MAX_VNI_SEARCH_RANGE_SIZE + 1;
            assert_eq!(vpc.vni.to_u32(), expected_vni);
        }
        Err(e) => panic!("Unexpected error when inserting VPC: {}", e.message()),
    };
}

#[test]
fn test_create_vpc_takes_seed_when_free_and_bumps_project() {
    let mut datastore = store_with_project();
    let opctx = opctx_for(&[(ResourceType::Project, PROJECT)]);
    let (authz_vpc, vpc) = datastore
        .project_create_vpc(&opctx, &authz_project(), incomplete_vpc(1, "one", 5000))
        .unwrap();
    assert_eq!(vpc.vni.to_u32(), 5000);
    assert_eq!(vpc.firewall_gen, Generation(1));
    assert_eq!(vpc.subnet_gen, Generation(1));
    assert_eq!(authz_vpc.id(), 1);
    assert!(matches!(authz_vpc.lookup_type(), LookupType::ByName(name) if name == "one"));
    // The same seed again: the next VNI is taken.
    let (_, second) = datastore
        .project_create_vpc(&opctx, &authz_project(), incomplete_vpc(2, "two", 5000))
        .unwrap();
    assert_eq!(second.vni.to_u32(), 5001);
}

#[test]
fn test_create_vpc_never_proposes_a_reserved_vni() {
    let mut datastore = store_with_project();
    let opctx = opctx_for(&[(ResourceType::Project, PROJECT)]);
    let (_, vpc) = datastore
        .project_create_vpc(&opctx, &authz_project(), incomplete_vpc(1, "one", 7))
        .unwrap();
    assert_eq!(vpc.vni.to_u32(), 1024);
}

#[test]
fn test_create_vpc_errors() {
    let mut datastore = store_with_project();
    let opctx = opctx_for(&[(ResourceType::Project, PROJECT)]);
    datastore.project_create_vpc(&opctx, &authz_project(), incomplete_vpc(1, "one", 5000)).unwrap();

    // A live sibling has the name.
    let err = datastore
        .project_create_vpc(&opctx, &authz_project(), incomplete_vpc(2, "one", 6000))
        .unwrap_err();
    assert!(matches!(
        err,
        Error::ObjectAlreadyExists { resource_type: ResourceType::Vpc, ref object_name }
            if object_name == "one"
    ));

    // A row has the id.
    let err = datastore
        .project_create_vpc(&opctx, &authz_project(), incomplete_vpc(1, "other", 6000))
        .unwrap_err();
    assert!(matches!(err, Error::ObjectAlreadyExists { .. }));

    // The caller may not create children of the project, and may not read it.
    let nobody = OpContext::new(true, Vec::new());
    let err = datastore
        .project_create_vpc(&nobody, &authz_project(), incomplete_vpc(3, "three", 6000))
        .unwrap_err();
    assert!(matches!(
        err,
        Error::ObjectNotFound { resource_type: ResourceType::Project, lookup_type: LookupType::ById(PROJECT) }
    ));

    // The caller may read the project, but not create children.
    let reader = OpContext::new(
        true,
        vec![Grant { action: Action::Read, resource_type: ResourceType::Project, resource_id: PROJECT }],
    );
    let err = datastore
        .project_create_vpc(&reader, &authz_project(), incomplete_vpc(3, "three", 6000))
        .unwrap_err();
    assert!(matches!(err, Error::Forbidden));

    // The same, for a caller who is not known.
    let stranger = OpContext::new(
        false,
        vec![Grant { action: Action::Read, resource_type: ResourceType::Project, resource_id: PROJECT }],
    );
    let err = datastore
        .project_create_vpc(&stranger, &authz_project(), incomplete_vpc(3, "three", 6000))
        .unwrap_err();
    assert!(matches!(err, Error::Unauthenticated { .. }));

    // The project is not there.
    let mut empty = DataStore::new();
    let err = empty
        .project_create_vpc(&opctx, &authz_project(), incomplete_vpc(3, "three", 6000))
        .unwrap_err();
    assert!(matches!(
        err,
        Error::ObjectNotFound { resource_type: ResourceType::Project, lookup_type: LookupType::ById(PROJECT) }
    ));
}

#[test]
fn test_exact_vni_is_taken_or_nothing() {
    let mut datastore = store_with_project();
    let opctx = opctx_for(&[(ResourceType::Project, PROJECT)]);
    let query = InsertVpcQuery::new_system(incomplete_vpc(1, "system", 5000), Some(Vni::services()));
    let (_, vpc) =
        datastore.project_create_vpc_raw(&opctx, &authz_project(), query).unwrap().unwrap();
    assert_eq!(vpc.vni.to_u32(), 100);
    let query = InsertVpcQuery::new_system(incomplete_vpc(2, "again", 5000), Some(Vni::services()));
    assert!(datastore.project_create_vpc_raw(&opctx, &authz_project(), query).unwrap().is_none());
}

#[test]
fn test_vni_uniqueness_among_live_vpcs() {
    let mut datastore = store_with_project();
    let opctx = opctx_for(&[(ResourceType::Project, PROJECT)]);
    let mut seen = Vec::new();
    for n in 0..50u128 {
        let (_, vpc) = datastore
            .project_create_vpc(&opctx, &authz_project(), incomplete_vpc(n + 1, &format!("v{n}"), 3000))
            .unwrap();
        assert!(!seen.contains(&vpc.vni.to_u32()));
        seen.push(vpc.vni.to_u32());
    }
    assert_eq!(seen, (3000..3050).collect::<Vec<u32>>());
}

#[test]
fn test_resolve_vni_and_vpc() {
    let mut datastore = store_with_project();
    let opctx = opctx_for(&[(ResourceType::Project, PROJECT)]);
    let (_, vpc) = datastore
        .project_create_vpc(&opctx, &authz_project(), incomplete_vpc(1, "one", 5000))
        .unwrap();
    let found = datastore.resolve_vni_to_vpc(&opctx, vpc.vni).unwrap();
    assert_eq!(found.identity.id, 1);
    assert_eq!(datastore.resolve_vpc_to_vni(&opctx, 1).unwrap(), vpc.vni);
    let err = datastore.resolve_vni_to_vpc(&opctx, Vni::try_from(9999).unwrap()).unwrap_err();
    assert!(matches!(
        err,
        Error::ObjectNotFound { resource_type: ResourceType::Vpc, lookup_type: LookupType::ByCompositeId(ref label) }
            if label == "VNI"
    ));
    assert!(datastore.resolve_vpc_to_vni(&opctx, 2).is_err());
}

// A subnet that shares an address with a live subnet of its VPC is refused.
#[test]
fn test_subnet_overlap_is_refused() {
    let mut datastore = store_with_project();
    let opctx = opctx_for(&[(ResourceType::Project, PROJECT), (ResourceType::Vpc, 1)]);
    let (authz_vpc, vpc) = datastore
        .project_create_vpc(&opctx, &authz_project(), incomplete_vpc(1, "v", 5000))
        .unwrap();
    // 10.0.0.0/24
    let a = subnet(11, &vpc, "a", (0x0a00_0000, 24), 1);
    datastore.vpc_create_subnet(&opctx, &authz_vpc, a).unwrap();
    // 10.0.0.128/25
    let b = subnet(12, &vpc, "b", (0x0a00_0080, 25), 2);
    let expected = b.ipv4_block;
    match datastore.vpc_create_subnet(&opctx, &authz_vpc, b) {
        Err(SubnetError::OverlappingIpRange(IpNetwork::V4(block))) => assert_eq!(block, expected),
        other => panic!("expected an overlap in IPv4, got {:?}", other.map(|_| ())),
    }
    // The same IPv6 block, another IPv4 block.
    let c = subnet(13, &vpc, "c", (0x0a00_0100, 24), 1);
    let expected = c.ipv6_block;
    match datastore.vpc_create_subnet(&opctx, &authz_vpc, c) {
        Err(SubnetError::OverlappingIpRange(IpNetwork::V6(block))) => assert_eq!(block, expected),
        other => panic!("expected an overlap in IPv6, got {:?}", other.map(|_| ())),
    }
    // Disjoint in both families.
    let d = subnet(14, &vpc, "d", (0x0a00_0100, 24), 2);
    datastore.vpc_create_subnet(&opctx, &authz_vpc, d).unwrap();
    // A deleted subnet stands against nothing.
    let opctx = opctx_for(&[(ResourceType::Vpc, 1), (ResourceType::VpcSubnet, 11)]);
    let rows = datastore.vpc_subnet_list(&opctx, &authz_vpc, &by_id(10)).unwrap();
    let authz_a = authz::VpcSubnet::new(authz_vpc.duplicate(), 11, LookupType::ById(11));
    datastore.vpc_delete_subnet_at(&opctx, &rows[0], &authz_a, 99).unwrap();
    let e = subnet(15, &vpc, "e", (0x0a00_0080, 25), 1);
    datastore.vpc_create_subnet(&opctx, &authz_vpc, e).unwrap();
}

#[test]
fn test_subnet_preconditions() {
    let mut datastore = store_with_project();
    let opctx = opctx_for(&[(ResourceType::Project, PROJECT), (ResourceType::Vpc, 1)]);
    let (authz_vpc, vpc) = datastore
        .project_create_vpc(&opctx, &authz_project(), incomplete_vpc(1, "v", 5000))
        .unwrap();
    // A prefix of 27 is longer than the default maximum, 26.
    let long = subnet(11, &vpc, "long", (0x0a00_0000, 27), 1);
    match datastore.vpc_create_subnet(&opctx, &authz_vpc, long) {
        Err(SubnetError::External(Error::InvalidRequest { message })) => {
            assert_eq!(message, "IPv4 address range has a longer prefix than the maximum allowed")
        }
        other => panic!("unexpected: {:?}", other.map(|_| ())),
    }
    // A prefix of 26 is accepted.
    datastore.vpc_create_subnet(&opctx, &authz_vpc, subnet(12, &vpc, "ok", (0x0a00_0000, 26), 1)).unwrap();
    // An IPv6 block outside the prefix of the VPC.
    let mut outside = subnet(13, &vpc, "outside", (0x0a00_0100, 24), 2);
    outside.ipv6_block = Ipv6Net::new(0xfe80 << 112, 64).unwrap();
    match datastore.vpc_create_subnet(&opctx, &authz_vpc, outside) {
        Err(SubnetError::External(Error::InvalidRequest { message })) => {
            assert_eq!(message, "IPv6 address range is not within the IPv6 prefix of the VPC")
        }
        other => panic!("unexpected: {:?}", other.map(|_| ())),
    }
    // An IPv6 block of four addresses has none beyond the six reserved ones.
    let mut tiny = subnet(14, &vpc, "tiny", (0x0a00_0100, 24), 3);
    tiny.ipv6_block = Ipv6Net::new(vpc.ipv6_prefix.addr() + (3 << 64), 126).unwrap();
    assert!(matches!(
        datastore.vpc_create_subnet(&opctx, &authz_vpc, tiny),
        Err(SubnetError::ExhaustedFreeIps)
    ));
    // The same name as a live sibling.
    let same = subnet(15, &vpc, "ok", (0x0a00_0200, 24), 4);
    match datastore.vpc_create_subnet(&opctx, &authz_vpc, same) {
        Err(SubnetError::External(Error::ObjectAlreadyExists { resource_type, object_name })) => {
            assert_eq!(resource_type, ResourceType::VpcSubnet);
            assert_eq!(object_name, "ok");
        }
        other => panic!("unexpected: {:?}", other.map(|_| ())),
    }
    // A VPC that is not there.
    let mut ghost = subnet(16, &vpc, "ghost", (0x0a00_0300, 24), 5);
    ghost.vpc_id = 77;
    match datastore.vpc_create_subnet_raw(ghost) {
        Err(SubnetError::External(Error::ObjectNotFound { resource_type, lookup_type })) => {
            assert_eq!(resource_type, ResourceType::Vpc);
            assert!(matches!(lookup_type, LookupType::ById(77)));
        }
        other => panic!("unexpected: {:?}", other.map(|_| ())),
    }
    assert_eq!(
        SubnetError::ExhaustedFreeIps.into_external().message(),
        "IP address range has no addresses beyond the reserved ones"
    );
    assert_eq!(
        SubnetError::OverlappingIpRange(IpNetwork::V4(Ipv4Net::new(0, 24).unwrap()))
            .into_external()
            .message(),
        "IP address range conflicts with an existing subnet"
    );
}

// A VPC with a live subnet is not deleted; without, it is.
#[test]
fn test_delete_vpc_with_child() {
    let mut datastore = store_with_project();
    let opctx = opctx_for(&[
        (ResourceType::Project, PROJECT),
        (ResourceType::Vpc, 1),
        (ResourceType::VpcSubnet, 11),
    ]);
    let (authz_vpc, vpc) = datastore
        .project_create_vpc(&opctx, &authz_project(), incomplete_vpc(1, "v", 5000))
        .unwrap();
    let (authz_subnet, db_subnet) = datastore
        .vpc_create_subnet(&opctx, &authz_vpc, subnet(11, &vpc, "s", (0x0a00_0000, 24), 1))
        .unwrap();
    match datastore.project_delete_vpc(&opctx, &vpc, &authz_vpc) {
        Err(Error::InvalidRequest { message }) => {
            assert_eq!(message, "VPC cannot be deleted while VPC Subnets exist")
        }
        other => panic!("unexpected: {:?}", other),
    }
    datastore.vpc_delete_subnet(&opctx, &db_subnet, &authz_subnet).unwrap();
    datastore.project_delete_vpc(&opctx, &vpc, &authz_vpc).unwrap();
    assert!(datastore.vpc_list(&opctx, &authz_project(), &by_id(10)).unwrap().is_empty());
    // A second deletion matches no row.
    match datastore.project_delete_vpc(&opctx, &vpc, &authz_vpc) {
        Err(Error::InvalidRequest { message }) => {
            assert_eq!(message, "deletion failed due to concurrent modification")
        }
        other => panic!("unexpected: {:?}", other),
    }
    // The VNI of the deleted VPC is free again.
    let (_, again) = datastore
        .project_create_vpc(&opctx, &authz_project(), incomplete_vpc(2, "v", 5000))
        .unwrap();
    assert_eq!(again.vni.to_u32(), 5000);
}

#[test]
fn test_delete_vpc_checks_the_generation() {
    let mut datastore = store_with_project();
    let opctx = opctx_for(&[(ResourceType::Project, PROJECT), (ResourceType::Vpc, 1)]);
    let (authz_vpc, vpc) = datastore
        .project_create_vpc(&opctx, &authz_project(), incomplete_vpc(1, "v", 5000))
        .unwrap();
    let mut stale = vpc.duplicate();
    stale.subnet_gen = Generation(7);
    match datastore.project_delete_vpc_at(&opctx, &stale, &authz_vpc, 50) {
        Err(Error::InvalidRequest { message }) => {
            assert_eq!(message, "deletion failed due to concurrent modification")
        }
        other => panic!("unexpected: {:?}", other),
    }
    datastore.project_delete_vpc_at(&opctx, &vpc, &authz_vpc, 50).unwrap();
}

#[test]
fn test_delete_subnet_with_interface() {
    let mut datastore = store_with_project();
    let opctx = opctx_for(&[
        (ResourceType::Project, PROJECT),
        (ResourceType::Vpc, 1),
        (ResourceType::VpcSubnet, 11),
    ]);
    let (authz_vpc, vpc) = datastore
        .project_create_vpc(&opctx, &authz_project(), incomplete_vpc(1, "v", 5000))
        .unwrap();
    let (authz_subnet, db_subnet) = datastore
        .vpc_create_subnet(&opctx, &authz_vpc, subnet(11, &vpc, "s", (0x0a00_0000, 24), 1))
        .unwrap();
    let nic = |id: u128, slot: u8| InstanceNetworkInterface {
        identity: Identity::new(id, "nic", "an interface", 40),
        instance_id: 500,
        vpc_id: 1,
        subnet_id: 11,
        mac: 0xa8_4025_0000_01,
        ip: IpAddr::V4(0x0a00_0006),
        slot,
        primary: slot == 0,
    };
    datastore.instance_create_network_interface_raw(nic(100, 0)).unwrap();
    // The slot is taken.
    match datastore.instance_create_network_interface_raw(nic(101, 0)) {
        Err(Error::InvalidRequest { message }) => assert_eq!(message, "network interface slot is in use"),
        other => panic!("unexpected: {:?}", other),
    }
    datastore.instance_create_network_interface_raw(nic(101, 1)).unwrap();
    let listed = datastore
        .subnet_list_instance_network_interfaces(&opctx, &authz_subnet, &by_id(10))
        .unwrap();
    assert_eq!(listed.iter().map(|nic| nic.identity.id).collect::<Vec<_>>(), vec![100, 101]);

    match datastore.vpc_delete_subnet(&opctx, &db_subnet, &authz_subnet) {
        Err(Error::InvalidRequest { message }) => assert_eq!(
            message,
            "VPC Subnet cannot be deleted while network interfaces in the subnet exist"
        ),
        other => panic!("unexpected: {:?}", other),
    }
    datastore.instance_delete_network_interface(500, 100, 60).unwrap();
    datastore.instance_delete_network_interface(500, 101, 60).unwrap();
    // The interfaces have bumped the generation of the subnet twice.
    match datastore.vpc_delete_subnet(&opctx, &db_subnet, &authz_subnet) {
        Err(Error::InvalidRequest { message }) => {
            assert_eq!(message, "deletion failed due to concurrent modification")
        }
        other => panic!("unexpected: {:?}", other),
    }
    let fresh = datastore.vpc_subnet_list(&opctx, &authz_vpc, &by_id(10)).unwrap();
    assert_eq!(fresh[0].rcgen, Generation(3));
    datastore.vpc_delete_subnet(&opctx, &fresh[0], &authz_subnet).unwrap();
}

#[test]
fn test_update_vpc_and_subnet() {
    let mut datastore = store_with_project();
    let opctx = opctx_for(&[
        (ResourceType::Project, PROJECT),
        (ResourceType::Vpc, 1),
        (ResourceType::Vpc, 2),
        (ResourceType::VpcSubnet, 11),
    ]);
    let (authz_vpc, vpc) = datastore
        .project_create_vpc(&opctx, &authz_project(), incomplete_vpc(1, "one", 5000))
        .unwrap();
    datastore.project_create_vpc(&opctx, &authz_project(), incomplete_vpc(2, "two", 5000)).unwrap();
    let updated = datastore
        .project_update_vpc(
            &opctx,
            &authz_vpc,
            VpcUpdate {
                name: Some("uno".to_string()),
                description: None,
                time_modified: 77,
                dns_name: Some("uno-dns".to_string()),
            },
        )
        .unwrap();
    assert_eq!(updated.identity.name, "uno");
    assert_eq!(updated.identity.description, "test vpc");
    assert_eq!(updated.identity.time_modified, 77);
    assert_eq!(updated.identity.time_created, 10);
    assert_eq!(updated.dns_name, "uno-dns");
    assert_eq!(updated.vni, vpc.vni);
    // The name of a live sibling.
    let err = datastore
        .project_update_vpc(
            &opctx,
            &authz_vpc,
            VpcUpdate { name: Some("two".to_string()), description: None, time_modified: 78, dns_name: None },
        )
        .unwrap_err();
    assert!(matches!(err, Error::ObjectAlreadyExists { ref object_name, .. } if object_name == "two"));
    // Its own name.
    datastore
        .project_update_vpc(
            &opctx,
            &authz_vpc,
            VpcUpdate { name: Some("uno".to_string()), description: None, time_modified: 79, dns_name: None },
        )
        .unwrap();
    // A VPC that is not there.
    let gone = authz::Vpc::new(authz_project(), 3, LookupType::ByName("three".to_string()));
    let opctx3 = opctx_for(&[(ResourceType::Vpc, 3)]);
    let err = datastore
        .project_update_vpc(
            &opctx3,
            &gone,
            VpcUpdate { name: None, description: None, time_modified: 80, dns_name: None },
        )
        .unwrap_err();
    assert!(matches!(
        err,
        Error::ObjectNotFound { resource_type: ResourceType::Vpc, lookup_type: LookupType::ByName(ref name) }
            if name == "three"
    ));

    let (authz_subnet, _) = datastore
        .vpc_create_subnet(&opctx, &authz_vpc, subnet(11, &vpc, "s", (0x0a00_0000, 24), 1))
        .unwrap();
    let updated = datastore
        .vpc_update_subnet(
            &opctx,
            &authz_subnet,
            VpcSubnetUpdate { name: None, description: Some("new".to_string()), time_modified: 81 },
        )
        .unwrap();
    assert_eq!(updated.identity.name, "s");
    assert_eq!(updated.identity.description, "new");
    assert_eq!(updated.identity.time_modified, 81);
}

#[test]
fn test_vpc_list_pages() {
    let mut datastore = store_with_project();
    let opctx = opctx_for(&[(ResourceType::Project, PROJECT)]);
    for (id, name) in [(3u128, "charlie"), (1, "alpha"), (2, "bravo"), (5, "echo"), (4, "delta")] {
        datastore.project_create_vpc(&opctx, &authz_project(), incomplete_vpc(id, name, 5000)).unwrap();
    }
    let ids = |rows: Vec<Vpc>| rows.iter().map(|row| row.identity.id).collect::<Vec<_>>();
    assert_eq!(ids(datastore.vpc_list(&opctx, &authz_project(), &by_id(10)).unwrap()), vec![1, 2, 3, 4, 5]);
    assert_eq!(ids(datastore.vpc_list(&opctx, &authz_project(), &by_id(2)).unwrap()), vec![1, 2]);
    assert_eq!(ids(datastore.vpc_list(&opctx, &authz_project(), &by_id(0)).unwrap()), Vec::<u128>::new());
    let page = PaginatedBy::Id(DataPageParams {
        marker: Some(2),
        direction: PaginationOrder::Ascending,
        limit: 2,
    });
    assert_eq!(ids(datastore.vpc_list(&opctx, &authz_project(), &page).unwrap()), vec![3, 4]);
    let page = PaginatedBy::Id(DataPageParams {
        marker: Some(4),
        direction: PaginationOrder::Descending,
        limit: 10,
    });
    assert_eq!(ids(datastore.vpc_list(&opctx, &authz_project(), &page).unwrap()), vec![3, 2, 1]);
    let page = PaginatedBy::Name(DataPageParams {
        marker: Some("bravo".to_string()),
        direction: PaginationOrder::Ascending,
        limit: 2,
    });
    assert_eq!(ids(datastore.vpc_list(&opctx, &authz_project(), &page).unwrap()), vec![3, 4]);
    let page = PaginatedBy::Name(DataPageParams {
        marker: None,
        direction: PaginationOrder::Descending,
        limit: 3,
    });
    assert_eq!(ids(datastore.vpc_list(&opctx, &authz_project(), &page).unwrap()), vec![5, 4, 3]);
    // The listing of another project is empty; a caller without the
    // permission gets no listing.
    let other = authz::Project::new(9, LookupType::ById(9));
    let opctx9 = opctx_for(&[(ResourceType::Project, 9)]);
    assert!(datastore.vpc_list(&opctx9, &other, &by_id(10)).unwrap().is_empty());
    assert!(datastore.vpc_list(&opctx9, &authz_project(), &by_id(10)).is_err());
}

// After a replacement, the listing is the new rules sorted by name.
#[test]
fn test_firewall_rules_replacement() {
    let mut datastore = store_with_project();
    let opctx = opctx_for(&[(ResourceType::Project, PROJECT), (ResourceType::Vpc, 1)]);
    let (authz_vpc, _) = datastore
        .project_create_vpc(&opctx, &authz_project(), incomplete_vpc(1, "v", 5000))
        .unwrap();
    let names = |rows: &Vec<VpcFirewallRule>| {
        rows.iter().map(|row| row.identity.name.clone()).collect::<Vec<_>>()
    };
    let returned = datastore
        .vpc_update_firewall_rules(
            &opctx,
            &authz_vpc,
            vec![rule(101, 1, "web"), rule(102, 1, "dns"), rule(103, 1, "ssh")],
        )
        .unwrap();
    assert_eq!(names(&returned), vec!["dns", "ssh", "web"]);
    let listed = datastore.vpc_list_firewall_rules(&opctx, &authz_vpc).unwrap();
    assert_eq!(names(&listed), vec!["dns", "ssh", "web"]);
    assert_eq!(listed.iter().map(|r| r.identity.id).collect::<Vec<_>>(), vec![102, 103, 101]);
    assert_eq!(listed[0].targets, returned[0].targets);
    assert_eq!(datastore.vpc_list(&opctx, &authz_project(), &by_id(1)).unwrap()[0].firewall_gen, Generation(2));

    // A second replacement takes the place of the first.
    let returned = datastore
        .vpc_update_firewall_rules(&opctx, &authz_vpc, vec![rule(201, 1, "b"), rule(202, 1, "a")])
        .unwrap();
    assert_eq!(names(&returned), vec!["a", "b"]);
    assert_eq!(names(&datastore.vpc_list_firewall_rules(&opctx, &authz_vpc).unwrap()), vec!["a", "b"]);

    // A failed replacement leaves the rules as they were: two rules of one
    // name, and a rule with the id of a deleted rule.
    let err = datastore
        .vpc_update_firewall_rules(&opctx, &authz_vpc, vec![rule(301, 1, "x"), rule(302, 1, "x")])
        .unwrap_err();
    assert!(matches!(
        err,
        Error::ObjectAlreadyExists { resource_type: ResourceType::VpcFirewallRule, ref object_name }
            if object_name == "x"
    ));
    let err = datastore
        .vpc_update_firewall_rules(&opctx, &authz_vpc, vec![rule(101, 1, "again")])
        .unwrap_err();
    assert!(matches!(err, Error::ObjectAlreadyExists { .. }));
    assert_eq!(names(&datastore.vpc_list_firewall_rules(&opctx, &authz_vpc).unwrap()), vec!["a", "b"]);

    // No rules: the old ones go.
    assert!(datastore.vpc_update_firewall_rules(&opctx, &authz_vpc, Vec::new()).unwrap().is_empty());
    assert!(datastore.vpc_list_firewall_rules(&opctx, &authz_vpc).unwrap().is_empty());
}

// A replacement for a VPC that has been deleted fails and changes nothing.
#[test]
fn test_firewall_rules_replacement_after_vpc_delete() {
    let mut datastore = store_with_project();
    let opctx = opctx_for(&[(ResourceType::Project, PROJECT), (ResourceType::Vpc, 1)]);
    let (authz_vpc, vpc) = datastore
        .project_create_vpc(&opctx, &authz_project(), incomplete_vpc(1, "v", 5000))
        .unwrap();
    datastore.vpc_update_firewall_rules(&opctx, &authz_vpc, vec![rule(101, 1, "old")]).unwrap();
    let fresh = datastore.vpc_list(&opctx, &authz_project(), &by_id(1)).unwrap();
    assert_eq!(fresh[0].subnet_gen, vpc.subnet_gen);
    datastore.project_delete_vpc(&opctx, &fresh[0], &authz_vpc).unwrap();
    let err = datastore
        .vpc_update_firewall_rules(&opctx, &authz_vpc, vec![rule(102, 1, "new")])
        .unwrap_err();
    assert!(matches!(
        err,
        Error::ObjectNotFound { resource_type: ResourceType::Vpc, lookup_type: LookupType::ById(1) }
    ));
    // The rules of the deleted VPC are as they were.
    let listed = datastore.vpc_list_firewall_rules(&opctx, &authz_vpc).unwrap();
    assert_eq!(listed.len(), 1);
    assert_eq!(listed[0].identity.name, "old");
}

// Deleting all rules twice is deleting them once.
#[test]
fn test_delete_all_firewall_rules_twice() {
    let mut datastore = store_with_project();
    let opctx = opctx_for(&[(ResourceType::Project, PROJECT), (ResourceType::Vpc, 1), (ResourceType::Vpc, 2)]);
    let (authz_one, _) = datastore
        .project_create_vpc(&opctx, &authz_project(), incomplete_vpc(1, "one", 5000))
        .unwrap();
    let (authz_two, _) = datastore
        .project_create_vpc(&opctx, &authz_project(), incomplete_vpc(2, "two", 5000))
        .unwrap();
    datastore
        .vpc_update_firewall_rules(&opctx, &authz_one, vec![rule(101, 1, "a"), rule(102, 1, "b")])
        .unwrap();
    datastore.vpc_update_firewall_rules(&opctx, &authz_two, vec![rule(201, 2, "a")]).unwrap();
    datastore.vpc_delete_all_firewall_rules_at(&opctx, &authz_one, 70).unwrap();
    assert!(datastore.vpc_list_firewall_rules(&opctx, &authz_one).unwrap().is_empty());
    assert_eq!(datastore.vpc_list_firewall_rules(&opctx, &authz_two).unwrap().len(), 1);
    datastore.vpc_delete_all_firewall_rules_at(&opctx, &authz_one, 80).unwrap();
    datastore.vpc_delete_all_firewall_rules(&opctx, &authz_one).unwrap();
    assert!(datastore.vpc_list_firewall_rules(&opctx, &authz_one).unwrap().is_empty());
    assert_eq!(datastore.vpc_list_firewall_rules(&opctx, &authz_two).unwrap().len(), 1);
    // The ids of the deleted rules stay in use.
    assert!(datastore.vpc_update_firewall_rules(&opctx, &authz_one, vec![rule(101, 1, "a")]).is_err());
}

#[test]
fn test_resolve_subnets_to_networks() {
    let mut datastore = store_with_project();
    let opctx = opctx_for(&[(ResourceType::Project, PROJECT), (ResourceType::Vpc, 1)]);
    let (authz_vpc, vpc) = datastore
        .project_create_vpc(&opctx, &authz_project(), incomplete_vpc(1, "v", 5000))
        .unwrap();
    for (id, name, third) in [(11u128, "web", 2u32), (12, "app", 1), (13, "db", 3)] {
        datastore
            .vpc_create_subnet(
                &opctx,
                &authz_vpc,
                subnet(id, &vpc, name, (0x0a00_0000 + (third << 8), 24), third as u128),
            )
            .unwrap();
    }
    let networks = datastore
        .resolve_vpc_subnets_to_ip_networks(
            &vpc,
            vec!["web".to_string(), "nothing".to_string(), "app".to_string()],
        )
        .unwrap();
    assert_eq!(networks.len(), 2);
    assert_eq!(networks[0].0, "app");
    assert_eq!(networks[1].0, "web");
    assert_eq!(
        networks[0].1,
        vec![
            IpNetwork::V4(Ipv4Net::new(0x0a00_0100, 24).unwrap()),
            IpNetwork::V6(Ipv6Net::new(vpc.ipv6_prefix.addr() + (1 << 64), 64).unwrap()),
        ]
    );
}

#[test]
fn test_error_kinds() {
    // A number that is no VNI.
    match Vni::try_from(1 << 24) {
        Err(Error::InvalidValue { label, message }) => {
            assert_eq!(label, "VNI");
            assert_eq!(message, "VNI out of range");
        }
        other => panic!("unexpected: {:?}", other),
    }
    // A project whose generation cannot be bumped.
    let mut datastore = DataStore::new();
    datastore
        .project_create(Project {
            identity: Identity::new(PROJECT, "project", "test project", 1),
            silo_id: 1,
            rcgen: Generation(u64::MAX),
        })
        .unwrap();
    let opctx = opctx_for(&[(ResourceType::Project, PROJECT)]);
    match datastore.project_create_vpc(&opctx, &authz_project(), incomplete_vpc(1, "one", 5000)) {
        Err(Error::InternalError { internal_message }) => {
            assert_eq!(internal_message, "child generation exhausted")
        }
        other => panic!("unexpected: {:?}", other.map(|_| ())),
    }
    assert!(datastore.vpc_list(&opctx, &authz_project(), &by_id(10)).unwrap().is_empty());
    // A second project with the id of the first.
    let again = datastore.project_create(Project {
        identity: Identity::new(PROJECT, "other", "test project", 1),
        silo_id: 1,
        rcgen: Generation::new(),
    });
    assert!(matches!(again, Err(Error::ObjectAlreadyExists { resource_type: ResourceType::Project, .. })));
    assert_eq!(Error::Forbidden.message(), "Forbidden");
    assert_eq!(Error::already_exists(ResourceType::Vpc, "v").message(), "already exists: v");
    assert_eq!(Error::conflict(ResourceType::Vpc, "v").message(), "conflict: v");
    assert_eq!(
        Error::insufficient_capacity("No free virtual network was found", "internal").message(),
        "No free virtual network was found"
    );
    assert_eq!(Error::not_found_by_id(ResourceType::Vpc, 1).message(), "object not found");
}
