use nexus_vpc::authz::{Action, Grant, OpContext, DATABASE_ID};
use nexus_vpc::datastore::DataStore;
use nexus_vpc::error::ResourceType;
use nexus_vpc::fixed_data::{
    DNS_VPC_SUBNET_ID, NEXUS_VPC_SUBNET_ID, NTP_VPC_SUBNET_ID, SERVICES_PROJECT_ID,
    SERVICES_VPC_ID, SERVICES_VPC_ROUTER_ID,
};
use nexus_vpc::ip_net::IpAddr;
use nexus_vpc::model::{
    BlueprintTarget, BlueprintZoneConfig, BlueprintZoneDisposition, Generation, Identity, Instance,
    InstanceNetworkInterface, L4PortRange, Project, ServiceNetworkInterface, Sled, Vmm,
    VpcFirewallRuleProtocol, VpcFirewallRuleTarget,
};
use nexus_vpc::table::{DataPageParams, PaginatedBy, PaginationOrder};
use nexus_vpc::planning_input::{SledPolicy, SledProvisionPolicy, SledState};

fn all_powerful() -> OpContext {
    let mut grants = Vec::new();
    let resources = [
        (ResourceType::Database, DATABASE_ID),
        (ResourceType::Project, SERVICES_PROJECT_ID),
        (ResourceType::Vpc, SERVICES_VPC_ID),
        (ResourceType::VpcRouter, SERVICES_VPC_ROUTER_ID),
        (ResourceType::VpcSubnet, DNS_VPC_SUBNET_ID),
        (ResourceType::VpcSubnet, NEXUS_VPC_SUBNET_ID),
        (ResourceType::VpcSubnet, NTP_VPC_SUBNET_ID),
    ];
    for (resource_type, resource_id) in resources {
        for action in
            [Action::Read, Action::ListChildren, Action::CreateChild, Action::Modify, Action::Delete]
        {
            grants.push(Grant { action, resource_type, resource_id });
        }
    }
    OpContext::new(true, grants)
}

fn in_service(id: u128) -> Sled {
    Sled {
        id,
        time_deleted: None,
        policy: SledPolicy::InService { provision_policy: SledProvisionPolicy::Provisionable },
        state: SledState::Active,
    }
}

fn setup() -> (DataStore, Vec<u128>) {
    let mut datastore = DataStore::new();
    datastore
        .project_create(Project {
            identity: Identity::new(SERVICES_PROJECT_ID, "oxide-services", "services", 1),
            silo_id: 1,
            rcgen: Generation::new(),
        })
        .unwrap();
    datastore.load_builtin_vpcs(&all_powerful()).expect("loading built-in VPCs");
    let sled_ids: Vec<u128> = (1..=5).map(|n| 0x5_1ed0 + n).collect();
    for &sled_id in &sled_ids {
        datastore.sled_upsert(in_service(sled_id));
    }
    (datastore, sled_ids)
}

fn nexus_zone(sled_id: u128) -> BlueprintZoneConfig {
    BlueprintZoneConfig {
        id: 0x20_0000 + sled_id,
        sled_id,
        disposition: BlueprintZoneDisposition::InService,
    }
}

fn nic_of_zone(zone: &BlueprintZoneConfig, generation: u128) -> ServiceNetworkInterface {
    ServiceNetworkInterface {
        identity: Identity::new(0x30_0000 + (generation << 32) + zone.sled_id, "nexus", "nexus", 5),
        service_id: zone.id,
        vpc_id: SERVICES_VPC_ID,
        subnet_id: NEXUS_VPC_SUBNET_ID,
        mac: 0xa8_4025_ff00_00 + zone.sled_id as u64,
        ip: IpAddr::V4(0xac1e_0200 + 5 + zone.sled_id as u32),
        slot: 0,
        primary: true,
    }
}

fn make_target(datastore: &mut DataStore, blueprint_id: u128, zones: &Vec<BlueprintZoneConfig>) {
    datastore.blueprint_insert(blueprint_id, zones).expect("inserted blueprint");
    datastore
        .blueprint_target_set_current(BlueprintTarget {
            target_id: blueprint_id,
            enabled: true,
            time_made_target: 9,
        })
        .expect("made blueprint the target");
}

fn assert_service_sled_ids(datastore: &DataStore, expected_sled_ids: &[u128]) {
    let mut service_sled_ids = datastore
        .vpc_resolve_to_sleds(SERVICES_VPC_ID, &Vec::new())
        .expect("failed to resolve to sleds")
        .into_iter()
        .map(|sled| sled.id)
        .collect::<Vec<_>>();
    service_sled_ids.sort();
    assert_eq!(expected_sled_ids, service_sled_ids);
}

#[test]
fn test_vpc_resolve_to_sleds_uses_current_target_blueprint() {
    let (mut datastore, sled_ids) = setup();

    // No target at all, then an empty blueprint as the target: no sled
    // runs a service.
    assert_service_sled_ids(&datastore, &[]);
    make_target(&mut datastore, 0xb0, &Vec::new());
    assert_service_sled_ids(&datastore, &[]);

    // A blueprint with a Nexus on the third sled.
    let bp1_zones = vec![nexus_zone(sled_ids[2])];
    make_target(&mut datastore, 0xb1, &bp1_zones);
    // The target has the zone, but the interface is not recorded yet.
    assert_service_sled_ids(&datastore, &[]);
    let bp1_nic = nic_of_zone(&bp1_zones[0], 1);
    let bp1_nic_id = bp1_nic.identity.id;
    datastore.service_create_network_interface_raw(bp1_nic).expect("failed to insert service VNIC");
    assert_service_sled_ids(&datastore, &[sled_ids[2]]);

    // Another blueprint, without the Nexus. The interface is still there,
    // and the third sled is gone from the answer.
    make_target(&mut datastore, 0xb2, &Vec::new());
    assert_service_sled_ids(&datastore, &[]);

    datastore
        .service_delete_network_interface(bp1_zones[0].id, bp1_nic_id, 10)
        .expect("deleted bp1 nic");

    // A blueprint with a Nexus on every sled, and their interfaces.
    let bp3_zones: Vec<_> = sled_ids.iter().map(|&sled_id| nexus_zone(sled_id)).collect();
    datastore.blueprint_insert(0xb3, &bp3_zones).unwrap();
    for zone in &bp3_zones {
        datastore
            .service_create_network_interface_raw(nic_of_zone(zone, 3))
            .expect("failed to insert service VNIC");
    }
    // The blueprint is not the target yet: more interfaces do not matter.
    assert_service_sled_ids(&datastore, &[]);
    datastore
        .blueprint_target_set_current(BlueprintTarget {
            target_id: 0xb3,
            enabled: true,
            time_made_target: 11,
        })
        .unwrap();
    assert_service_sled_ids(&datastore, &sled_ids);

    // Some sleds become ineligible. A sled that does not take new
    // resources still gets firewall rules.
    let expunged = Sled { policy: SledPolicy::Expunged, ..in_service(sled_ids[0]) };
    let decommissioned = Sled {
        policy: SledPolicy::Expunged,
        state: SledState::Decommissioned,
        ..in_service(sled_ids[1])
    };
    let illegal_decommissioned = Sled { state: SledState::Decommissioned, ..in_service(sled_ids[2]) };
    let non_provisionable = Sled {
        policy: SledPolicy::InService { provision_policy: SledProvisionPolicy::NonProvisionable },
        ..in_service(sled_ids[3])
    };
    for sled in [expunged, decommissioned, illegal_decommissioned, non_provisionable] {
        datastore.sled_upsert(sled);
    }
    assert_service_sled_ids(&datastore, &sled_ids[3..=4]);

    // Bring the sleds back.
    for &sled_id in &sled_ids {
        datastore.sled_upsert(in_service(sled_id));
    }
    assert_service_sled_ids(&datastore, &sled_ids);

    // A blueprint in which the zone of the third sled is quiesced and the
    // zone of the fourth is expunged: the third sled stays, the fourth goes.
    let mut bp4_zones = bp3_zones.clone();
    bp4_zones[2].disposition = BlueprintZoneDisposition::Quiesced;
    bp4_zones[3].disposition = BlueprintZoneDisposition::Expunged;
    make_target(&mut datastore, 0xb4, &bp4_zones);
    assert_service_sled_ids(&datastore, &[sled_ids[0], sled_ids[1], sled_ids[2], sled_ids[4]]);
}

// With an empty blueprint as the target, an interface of a zone changes
// nothing: no sled runs a service.
#[test]
fn test_resolver_empty_target_with_interface() {
    let (mut datastore, sled_ids) = setup();
    make_target(&mut datastore, 0xb0, &Vec::new());
    assert_service_sled_ids(&datastore, &[]);
    let zone = nexus_zone(sled_ids[2]);
    datastore.service_create_network_interface_raw(nic_of_zone(&zone, 1)).unwrap();
    assert_service_sled_ids(&datastore, &[]);
    // A blueprint with the zone that is recorded but is not the target
    // changes nothing either.
    datastore.blueprint_insert(0xb1, &vec![zone]).unwrap();
    assert_service_sled_ids(&datastore, &[]);
    datastore
        .blueprint_target_set_current(BlueprintTarget {
            target_id: 0xb1,
            enabled: true,
            time_made_target: 9,
        })
        .unwrap();
    assert_service_sled_ids(&datastore, &[sled_ids[2]]);
    // An empty blueprint as the target again, the interface still there.
    make_target(&mut datastore, 0xb2, &Vec::new());
    assert_service_sled_ids(&datastore, &[]);
}

#[test]
fn test_resolver_ignores_whether_the_target_is_enabled() {
    let (mut datastore, sled_ids) = setup();
    let zones = vec![nexus_zone(sled_ids[0])];
    datastore.blueprint_insert(0xb1, &zones).unwrap();
    datastore
        .blueprint_target_set_current(BlueprintTarget {
            target_id: 0xb1,
            enabled: false,
            time_made_target: 9,
        })
        .unwrap();
    datastore.service_create_network_interface_raw(nic_of_zone(&zones[0], 1)).unwrap();
    assert_service_sled_ids(&datastore, &[sled_ids[0]]);
}

#[test]
fn test_resolver_allow_list_and_guest_path() {
    let (mut datastore, sled_ids) = setup();
    // An instance on the second sled, with an interface on the VPC.
    datastore.vmm_create(Vmm { id: 0x77, time_deleted: None, sled_id: sled_ids[1] });
    datastore.instance_create(Instance { id: 0x88, time_deleted: None, active_propolis_id: Some(0x77) });
    // An instance that does not run.
    datastore.instance_create(Instance { id: 0x89, time_deleted: None, active_propolis_id: None });
    for (id, instance_id, slot) in [(0x99u128, 0x88u128, 0u8), (0x9a, 0x89, 0)] {
        datastore
            .instance_create_network_interface_raw(InstanceNetworkInterface {
                identity: Identity::new(id, "net0", "net0", 5),
                instance_id,
                vpc_id: SERVICES_VPC_ID,
                subnet_id: NEXUS_VPC_SUBNET_ID,
                mac: 1,
                ip: IpAddr::V4(0xac1e_0250),
                slot,
                primary: true,
            })
            .unwrap();
    }
    // A zone on the fourth sled.
    let zones = vec![nexus_zone(sled_ids[3])];
    make_target(&mut datastore, 0xb1, &zones);
    datastore.service_create_network_interface_raw(nic_of_zone(&zones[0], 1)).unwrap();

    assert_service_sled_ids(&datastore, &[sled_ids[1], sled_ids[3]]);
    let only = |datastore: &DataStore, filter: Vec<u128>| {
        datastore
            .vpc_resolve_to_sleds(SERVICES_VPC_ID, &filter)
            .unwrap()
            .iter()
            .map(|sled| sled.id)
            .collect::<Vec<_>>()
    };
    assert_eq!(only(&datastore, vec![sled_ids[3], sled_ids[0]]), vec![sled_ids[3]]);
    assert_eq!(only(&datastore, vec![sled_ids[0]]), Vec::<u128>::new());
    // Another VPC has no sleds.
    assert!(datastore.vpc_resolve_to_sleds(0x1234, &Vec::new()).unwrap().is_empty());
    // A blueprint that is not recorded cannot be the target.
    assert!(datastore
        .blueprint_target_set_current(BlueprintTarget { target_id: 0xdead, enabled: true, time_made_target: 1 })
        .is_err());
    assert!(datastore.blueprint_insert(0xb1, &Vec::new()).is_err());
}

#[test]
fn test_load_builtin_vpcs_twice() {
    let (mut datastore, _) = setup();
    let opctx = all_powerful();
    let authz_vpc = nexus_vpc::authz::Vpc::new(
        nexus_vpc::authz::Project::new(SERVICES_PROJECT_ID, nexus_vpc::error::LookupType::ById(SERVICES_PROJECT_ID)),
        SERVICES_VPC_ID,
        nexus_vpc::error::LookupType::ById(SERVICES_VPC_ID),
    );
    let names = |datastore: &DataStore| {
        datastore
            .vpc_list_firewall_rules(&opctx, &authz_vpc)
            .unwrap()
            .iter()
            .map(|rule| rule.identity.name.clone())
            .collect::<Vec<_>>()
    };
    assert_eq!(names(&datastore), vec!["external-dns-inbound", "nexus-inbound"]);
    let rules = datastore.vpc_list_firewall_rules(&opctx, &authz_vpc).unwrap();
    assert_eq!(rules[0].filter_ports, Some(vec![L4PortRange { first: 53, last: 53 }]));
    assert_eq!(rules[0].filter_protocols, Some(vec![VpcFirewallRuleProtocol::Udp]));
    assert_eq!(rules[0].targets, vec![VpcFirewallRuleTarget::Subnet("external-dns".to_string())]);
    assert_eq!(
        rules[1].filter_ports,
        Some(vec![L4PortRange { first: 80, last: 80 }, L4PortRange { first: 443, last: 443 }])
    );
    assert_eq!(rules[1].filter_protocols, Some(vec![VpcFirewallRuleProtocol::Tcp]));
    assert_eq!(rules[1].priority, 65534);
    let first_ids: Vec<u128> = rules.iter().map(|rule| rule.identity.id).collect();
    let page = PaginatedBy::Id(DataPageParams {
        marker: None,
        direction: PaginationOrder::Ascending,
        limit: 10,
    });
    let subnets = datastore.vpc_subnet_list(&opctx, &authz_vpc, &page).unwrap();
    assert_eq!(
        subnets.iter().map(|subnet| subnet.identity.name.clone()).collect::<Vec<_>>(),
        vec!["external-dns", "nexus", "boundary-ntp"]
    );
    assert_eq!(
        subnets.iter().map(|subnet| (subnet.ipv4_block.addr(), subnet.ipv4_block.prefix())).collect::<Vec<_>>(),
        vec![(0xac1e_0100, 24), (0xac1e_0200, 24), (0xac1e_0300, 24)]
    );
    assert_eq!(subnets[1].ipv6_block.addr(), 0xfd77_e9d2_9cd9_0002 << 64);
    assert_eq!(subnets[1].ipv6_block.prefix(), 64);
    let routers = datastore.vpc_router_list(&opctx, &authz_vpc, &page).unwrap();
    assert_eq!(routers.len(), 1);
    assert_eq!(routers[0].identity.id, SERVICES_VPC_ROUTER_ID);
    assert_eq!(routers[0].identity.name, "system");
    datastore.load_builtin_vpcs(&opctx).expect("loading built-in VPCs again");
    // The rules are the same under new ids; nothing else has been added.
    let rules = datastore.vpc_list_firewall_rules(&opctx, &authz_vpc).unwrap();
    assert!(rules.iter().all(|rule| !first_ids.contains(&rule.identity.id)));
    assert_eq!(datastore.vpc_subnet_list(&opctx, &authz_vpc, &page).unwrap().len(), 3);
    assert_eq!(datastore.vpc_router_list(&opctx, &authz_vpc, &page).unwrap().len(), 1);
    assert_eq!(names(&datastore), vec!["external-dns-inbound", "nexus-inbound"]);
    assert_eq!(datastore.resolve_vpc_to_vni(&opctx, SERVICES_VPC_ID).unwrap().to_u32(), 100);
    // Without the permission on the database nothing is loaded.
    let mut empty = DataStore::new();
    assert!(empty.load_builtin_vpcs(&OpContext::new(true, Vec::new())).is_err());
}
