use nexus_vpc::client::types;
use nexus_vpc::dev_db::{check_listen_url, CockroachStarterBuilder, ListenUrlCheck};
use nexus_vpc::external;
use nexus_vpc::ip_net::{IpAddr, IpNetwork, IpRange, Ipv4Net, Ipv4Range, Ipv6Net, Ipv6Range};
use nexus_vpc::ip_pool::{IdentityMetadataCreateParams, IdentityMetadataUpdateParams, IpPool, IpPoolRange, IpPoolUpdate};
use nexus_vpc::model::{BlueprintZoneDisposition, BlueprintZoneFilter, Generation};
use nexus_vpc::names::{str_eq, str_lt};
use nexus_vpc::network_resources::{
    AddNetworkResourceError, OmicronZoneExternalIp, OmicronZoneNetworkResources, OmicronZoneNic,
};
use nexus_vpc::planning_input::{
    DiskFilter, DiskIdentity, PhysicalDiskPolicy, PhysicalDiskState, PlanningInputBuildError,
    PlanningInputBuilder, Policy, SledDetails, SledDisk, SledFilter, SledPolicy,
    SledProvisionPolicy, SledResources, SledState, ZpoolFilter,
};
use nexus_vpc::transaction_retry::{
    OptionalError, RetryAction, RetryHelper, RetryPolicy, TransactionOutcome,
};
use nexus_vpc::vni::{Vni, VniSearchIter, MAX_VNI, MIN_GUEST_VNI, VNI_SEARCH_WINDOWS};
use std::collections::BTreeMap;

#[test]
fn test_vni_bounds() {
    assert!(Vni::try_from(MAX_VNI).is_ok());
    assert!(Vni::try_from(MAX_VNI + 1).is_err());
    assert_eq!(Vni::try_from(0).unwrap().to_u32(), 0);
    assert!(!Vni::try_from(1023).unwrap().is_guest());
    assert!(Vni::try_from(1024).unwrap().is_guest());
    assert_eq!(Vni::services().to_u32(), 100);
    assert_eq!(Vni::search_candidate(Vni::try_from(2048).unwrap(), 5).to_u32(), 2053);
    assert_eq!(Vni::search_candidate(Vni::try_from(MAX_VNI).unwrap(), 1).to_u32(), 1024);
    assert_eq!(Vni::search_candidate(Vni::try_from(3).unwrap(), 0).to_u32(), 1024);
}

#[test]
fn test_vni_search_iter_steps() {
    let start = Vni::try_from(2048).unwrap();
    let mut it = VniSearchIter::new(start);
    assert_eq!(it.next().unwrap(), start);
    assert_eq!(it.next().unwrap().to_u32(), 2048 + 2048);
}

#[test]
fn test_vni_search_iter_full_count() {
    let mut it = VniSearchIter::new(Vni::try_from(MIN_GUEST_VNI).unwrap());
    let mut count = 0;
    let mut last = None;
    while let Some(vni) = it.next() {
        assert!(vni.is_guest());
        count += 1;
        last = Some(vni);
    }
    assert_eq!(count, VNI_SEARCH_WINDOWS);
    assert_eq!(count, 8192);
    assert_eq!(last.unwrap().to_u32(), 1024 + 8191 * 2048);
    assert!(it.next().is_none());
}

#[test]
fn test_vni_search_iter_wraps() {
    let start = Vni::try_from(MAX_VNI - 1024).unwrap();
    let mut it = VniSearchIter::new(start);
    assert_eq!(it.next().unwrap(), start);
    // 1024 candidates are left before the end; the window goes on at the
    // start of the guest domain.
    assert_eq!(it.next().unwrap().to_u32(), MIN_GUEST_VNI + 1023);
}

#[test]
fn test_ip_blocks() {
    let net = Ipv4Net::new(0x0a00_0085, 25).unwrap();
    assert_eq!(net.first_address(), 0x0a00_0080);
    assert_eq!(net.last_address(), 0x0a00_00ff);
    assert_eq!(Ipv4Net::new(0x0a00_0085, 0).unwrap().first_address(), 0);
    assert_eq!(Ipv4Net::new(0x0a00_0085, 0).unwrap().last_address(), u32::MAX);
    assert_eq!(Ipv4Net::new(0x0a00_0085, 32).unwrap().last_address(), 0x0a00_0085);
    assert!(Ipv4Net::new(0, 33).is_none());
    assert!(Ipv6Net::new(0, 129).is_none());
    let a = Ipv4Net::new(0x0a00_0000, 24).unwrap();
    assert!(a.overlaps(net) && net.overlaps(a));
    assert!(!a.overlaps(Ipv4Net::new(0x0a00_0100, 24).unwrap()));
    assert!(a.has_free_addresses());
    assert!(Ipv4Net::new(0, 29).unwrap().has_free_addresses());
    assert!(!Ipv4Net::new(0, 30).unwrap().has_free_addresses());
    let vpc = Ipv6Net::new(0xfd00_1122_3344 << 80, 48).unwrap();
    let inside = Ipv6Net::new((0xfd00_1122_3344 << 80) + (7 << 64), 64).unwrap();
    assert_eq!(inside.last_address(), (0xfd00_1122_3344 << 80) + (7 << 64) + u64::MAX as u128);
    assert!(inside.is_subnet_of(vpc));
    assert!(!vpc.is_subnet_of(inside));
    assert!(!Ipv6Net::new(0xfd00_1122_3345 << 80, 64).unwrap().is_subnet_of(vpc));
    assert!(Ipv6Net::new(0, 125).unwrap().has_free_addresses());
    assert!(!Ipv6Net::new(0, 126).unwrap().has_free_addresses());
}

#[test]
fn test_ip_ranges_and_pools() {
    assert!(Ipv4Range::new(5, 4).is_err());
    assert_eq!(Ipv6Range::new(5, 4).unwrap_err(), "IP address ranges must be non-decreasing");
    let range = IpRange::V4(Ipv4Range::new(4, 9).unwrap());
    assert_eq!(range.first_address(), IpAddr::V4(4));
    assert_eq!(range.last_address(), IpAddr::V4(9));
    let row = IpPoolRange::new_at(1, &range, 2, Some(3), 44);
    assert_eq!(row.first_address, IpAddr::V4(4));
    assert_eq!(row.last_address, IpAddr::V4(9));
    assert_eq!((row.time_created, row.time_modified, row.time_deleted), (44, 44, None));
    assert_eq!((row.ip_pool_id, row.project_id, row.rcgen), (2, Some(3), 0));
    assert!(row.is_range());
    assert_eq!(row.to_range(), range);
    let mixed = IpPoolRange { last_address: IpAddr::V6(9), ..row };
    assert!(!mixed.is_range());
    let reversed = IpPoolRange { first_address: IpAddr::V4(10), ..row };
    assert!(!reversed.is_range());
    let fresh = IpPoolRange::new(&IpRange::V6(Ipv6Range::new(1, 1).unwrap()), 2, None);
    assert_eq!(fresh.to_range(), IpRange::V6(Ipv6Range::new(1, 1).unwrap()));
    assert!(IpAddr::V4(9).le(IpAddr::V6(0)) && !IpAddr::V6(0).le(IpAddr::V4(9)));

    let params = IdentityMetadataCreateParams { name: "pool".to_string(), description: "a pool".to_string() };
    let pool = IpPool::new_at(7, &params, None, 12);
    assert_eq!(pool.identity.id, 7);
    assert_eq!(pool.identity.name, "pool");
    assert_eq!(pool.identity.time_created, 12);
    assert_eq!(pool.rcgen, 0);
    let other = IpPool::new(&params, Some(1));
    assert_eq!(other.identity.description, "a pool");
    assert_eq!(other.project_id, Some(1));
    let update = IpPoolUpdate::from_at(
        IdentityMetadataUpdateParams { name: Some("new".to_string()), description: None },
        13,
    );
    assert_eq!(update, IpPoolUpdate { name: Some("new".to_string()), description: None, time_modified: 13 });
    let update = IpPoolUpdate::from(IdentityMetadataUpdateParams { name: None, description: None });
    assert_eq!(update.name, None);
}

#[test]
fn test_name_order() {
    let mut names = vec!["b", "", "a", "ab", "B", "a-", "é", "zz", "a0"];
    let expected = {
        let mut sorted = names.clone();
        sorted.sort();
        sorted
    };
    names.sort_by(|x, y| {
        if str_lt(x, y) {
            std::cmp::Ordering::Less
        } else if str_eq(x, y) {
            std::cmp::Ordering::Equal
        } else {
            std::cmp::Ordering::Greater
        }
    });
    assert_eq!(names, expected);
    assert!(str_lt("", "a") && !str_lt("a", "") && !str_lt("a", "a"));
    assert!(str_eq("é", "é") && !str_eq("e", "é"));
}

#[test]
fn test_zone_disposition_filter() {
    let rules = BlueprintZoneFilter::ShouldDeployVpcFirewallRules;
    assert!(BlueprintZoneDisposition::InService.matches(rules));
    assert!(BlueprintZoneDisposition::Quiesced.matches(rules));
    assert!(!BlueprintZoneDisposition::Expunged.matches(rules));
    assert!(BlueprintZoneDisposition::Expunged.matches(BlueprintZoneFilter::All));
    assert_eq!(Generation::new().next(), Some(Generation(2)));
    assert_eq!(Generation(u64::MAX).next(), None);
}

fn disk(id: u128, policy: PhysicalDiskPolicy, state: PhysicalDiskState) -> SledDisk {
    SledDisk {
        disk_identity: DiskIdentity {
            vendor: "v".to_string(),
            serial: format!("s{id}"),
            model: "m".to_string(),
        },
        disk_id: id,
        policy,
        state,
    }
}

fn details(policy: SledPolicy, state: SledState) -> SledDetails {
    let mut zpools = BTreeMap::new();
    zpools.insert(30, disk(3, PhysicalDiskPolicy::InService, PhysicalDiskState::Active));
    zpools.insert(10, disk(1, PhysicalDiskPolicy::Expunged, PhysicalDiskState::Active));
    zpools.insert(20, disk(2, PhysicalDiskPolicy::InService, PhysicalDiskState::Active));
    zpools.insert(40, disk(4, PhysicalDiskPolicy::InService, PhysicalDiskState::Decommissioned));
    SledDetails {
        policy,
        state,
        resources: SledResources { zpools, subnet: Ipv6Net::new(0xfd00 << 112, 64).unwrap() },
    }
}

#[test]
fn test_planning_input() {
    let empty = PlanningInputBuilder::empty_input();
    assert_eq!(empty.target_nexus_zone_count(), 0);
    assert!(empty.service_ip_pool_ranges().is_empty());
    assert_eq!(empty.internal_dns_version(), Generation(1));
    assert!(empty.all_sled_ids(SledFilter::Commissioned).is_empty());

    let policy = Policy {
        service_ip_pool_ranges: vec![IpRange::V4(Ipv4Range::new(1, 2).unwrap())],
        target_nexus_zone_count: 3,
    };
    let mut builder = PlanningInputBuilder::new(policy, Generation(4), Generation(5));
    let provisionable = SledPolicy::InService { provision_policy: SledProvisionPolicy::Provisionable };
    let non_provisionable =
        SledPolicy::InService { provision_policy: SledProvisionPolicy::NonProvisionable };
    builder.add_sled(3, details(SledPolicy::Expunged, SledState::Decommissioned)).unwrap();
    builder.add_sled(1, details(provisionable, SledState::Active)).unwrap();
    builder.add_sled(2, details(non_provisionable, SledState::Active)).unwrap();
    assert_eq!(
        builder.add_sled(2, details(provisionable, SledState::Active)),
        Err(PlanningInputBuildError::DuplicateSledId(2))
    );
    assert_eq!(builder.sleds().len(), 3);
    builder.set_internal_dns_version(Generation(6));
    builder.set_external_dns_version(Generation(7));
    builder.policy_mut().target_nexus_zone_count = 5;
    builder.sleds_mut().remove(&3);
    builder.add_sled(3, details(SledPolicy::Expunged, SledState::Active)).unwrap();

    let ip = OmicronZoneExternalIp { id: 1, ip: IpAddr::V4(9) };
    builder.add_omicron_zone_external_ip(100, ip).unwrap();
    builder.add_omicron_zone_external_ip(100, ip).unwrap();
    assert_eq!(
        builder.add_omicron_zone_external_ip(101, ip),
        Err(PlanningInputBuildError::AddNetworkResource(
            AddNetworkResourceError::DuplicateOmicronZoneExternalIp { zone_id: 101, ip }
        ))
    );
    let nic = OmicronZoneNic { id: 2, mac: 7, ip: IpAddr::V4(10), slot: 0, primary: true };
    builder.add_omicron_zone_nic(100, nic).unwrap();
    let other = OmicronZoneNic { id: 3, mac: 8, ..nic };
    assert_eq!(
        builder.add_omicron_zone_nic(100, other),
        Err(PlanningInputBuildError::AddNetworkResource(
            AddNetworkResourceError::DuplicateOmicronZoneNic { zone_id: 100, nic: other }
        ))
    );
    builder.network_resources_mut().add_nic(102, other).unwrap();

    let input = builder.build();
    assert_eq!(input.target_nexus_zone_count(), 5);
    assert_eq!(input.internal_dns_version(), Generation(6));
    assert_eq!(input.external_dns_version(), Generation(7));
    assert_eq!(input.all_sled_ids(SledFilter::Commissioned), vec![1, 2, 3]);
    assert_eq!(input.all_sled_ids(SledFilter::InService), vec![1, 2]);
    assert_eq!(input.all_sled_ids(SledFilter::Discretionary), vec![1]);
    assert_eq!(input.all_sled_ids(SledFilter::Decommissioned), Vec::<u128>::new());
    let sleds = input.all_sleds(SledFilter::VpcFirewall);
    assert_eq!(sleds.iter().map(|(id, _)| *id).collect::<Vec<_>>(), vec![1, 2]);
    assert_eq!(sleds[1].1.policy, non_provisionable);
    let resources = input.all_sled_resources(SledFilter::Commissioned);
    assert_eq!(resources.len(), 3);
    assert_eq!(resources[0].0, 1);
    assert_eq!(input.sled_policy(&2), Some(non_provisionable));
    assert_eq!(input.sled_policy(&9), None);
    assert!(input.sled_resources(&9).is_none());
    let resources = input.sled_resources(&1).unwrap();
    assert_eq!(resources.all_zpools(ZpoolFilter::All), vec![10, 20, 30, 40]);
    assert_eq!(resources.all_zpools(ZpoolFilter::InService), vec![20, 30]);
    let disks = resources.all_disks(DiskFilter::InService);
    assert_eq!(disks.iter().map(|(id, disk)| (*id, disk.disk_id)).collect::<Vec<_>>(), vec![(20, 2), (30, 3)]);
    assert!(resources.zpool_is_provisionable(&20));
    assert!(!resources.zpool_is_provisionable(&10));
    assert!(!resources.zpool_is_provisionable(&40));
    assert!(!resources.zpool_is_provisionable(&50));

    let again = input.into_builder().build();
    assert_eq!(again.all_sled_ids(SledFilter::Commissioned), vec![1, 2, 3]);
}

#[test]
fn test_network_resources() {
    let mut resources = OmicronZoneNetworkResources::new();
    let ip = |id: u128, addr: u32| OmicronZoneExternalIp { id, ip: IpAddr::V4(addr) };
    resources.add_external_ip(1, ip(10, 100)).unwrap();
    resources.add_external_ip(2, ip(20, 200)).unwrap();
    // The same zone, the same id, the same address.
    for (zone, entry) in [(1, ip(30, 300)), (3, ip(10, 300)), (3, ip(30, 100))] {
        assert_eq!(
            resources.add_external_ip(zone, entry),
            Err(AddNetworkResourceError::DuplicateOmicronZoneExternalIp { zone_id: zone, ip: entry })
        );
    }
    resources.add_external_ip(2, ip(20, 200)).unwrap();
    resources.add_external_ip(3, ip(30, 300)).unwrap();
    let copy = resources.duplicate();
    assert_eq!(copy, resources);
}

#[test]
fn test_cockroach_command_line() {
    let mut builder = CockroachStarterBuilder::new();
    builder.redirect_stdio_to_files();
    builder.start_timeout(250);
    let starter = builder.build("/tmp/x");
    assert_eq!(
        starter.cmdline(),
        "cockroach start-single-node --insecure --listen-addr=127.0.0.1:0 --http-addr=:0 \
         --store /tmp/x/data --listening-url-file /tmp/x/listen-url"
    );
    assert_eq!(starter.temp_dir(), "/tmp/x");
    assert_eq!(starter.listen_url_file(), "/tmp/x/listen-url");
    assert_eq!(starter.start_timeout(), 250);
    assert!(starter.redirect_stdio());
    assert_eq!(starter.args().len(), 9);

    let starter = CockroachStarterBuilder::new_with_cmd("/nonexistent").store_dir("/data/here").build("/tmp/y/");
    assert_eq!(
        starter.cmdline(),
        "/nonexistent start-single-node --insecure --listen-addr=127.0.0.1:0 --http-addr=:0 \
         --store /data/here --listening-url-file /tmp/y/listen-url"
    );
    assert_eq!(starter.start_timeout(), 30_000);
    assert!(!starter.redirect_stdio());
}

#[test]
fn test_check_listen_url() {
    assert_eq!(check_listen_url(true, Some("postgresql://root@127.0.0.1:1/\n")), ListenUrlCheck::Exited);
    assert_eq!(check_listen_url(true, None), ListenUrlCheck::Exited);
    assert_eq!(check_listen_url(false, None), ListenUrlCheck::NotYet);
    assert_eq!(check_listen_url(false, Some("")), ListenUrlCheck::NotYet);
    assert_eq!(check_listen_url(false, Some("postgresql://root@127")), ListenUrlCheck::NotYet);
    assert_eq!(
        check_listen_url(false, Some("postgresql://root@127.0.0.1:45913/omicron?sslmode=disable \n\n")),
        ListenUrlCheck::Ready("postgresql://root@127.0.0.1:45913/omicron?sslmode=disable".to_string())
    );
}

#[test]
fn test_client_conversions() {
    assert_eq!(types::DiskState::from(external::DiskState::Attached(7)), types::DiskState::Attached(7));
    assert_eq!(external::DiskState::from(types::DiskState::ImportingFromBulkWrites), external::DiskState::ImportingFromBulkWrites);
    assert_eq!(external::DiskState::from(types::DiskState::Detaching(9)), external::DiskState::Detaching(9));
    assert_eq!(types::InstanceState::from(external::InstanceState::Rebooting), types::InstanceState::Rebooting);
    assert_eq!(external::InstanceState::from(&types::InstanceState::Failed), external::InstanceState::Failed);
    assert_eq!(external::InstanceState::from(types::InstanceState::Running), external::InstanceState::Running);
    assert_eq!(types::ProducerKind::from(external::ProducerKind::Service), types::ProducerKind::Service);
    assert_eq!(external::ProducerKind::from(types::ProducerKind::SledAgent), external::ProducerKind::SledAgent);
    assert_eq!(types::PortSpeed::from(external::PortSpeed::Speed400G), types::PortSpeed::Speed400G);
    assert_eq!(types::PortSpeed::from(external::PortSpeed::Speed0G), types::PortSpeed::Speed0G);
    assert_eq!(types::PortFec::from(external::PortFec::Rs), types::PortFec::Rs);
    assert_eq!(types::SwitchLocation::from(external::SwitchLocation::Switch1), types::SwitchLocation::Switch1);
    assert_eq!(types::ByteCount::from(external::ByteCount(1 << 40)), types::ByteCount(1 << 40));
    assert_eq!(
        types::Duration::from(external::Duration { secs: 3, nanos: 5 }),
        types::Duration { secs: 3, nanos: 5 }
    );
    assert_eq!(
        types::Duration { secs: 2, nanos: 1_500_000_000 }.to_external(),
        Some(external::Duration { secs: 3, nanos: 500_000_000 })
    );
    assert_eq!(types::Duration { secs: u64::MAX / 1_000_000_000 + 1, nanos: 0 }.to_external(), None);
    assert_eq!(
        types::Duration { secs: 18_446_744_073, nanos: 709_551_615 }.to_external(),
        Some(external::Duration { secs: 18_446_744_073, nanos: 709_551_615 })
    );
    assert_eq!(types::Duration { secs: 18_446_744_073, nanos: 709_551_616 }.to_external(), None);
    assert_eq!(
        types::IpRange::from(IpRange::V6(Ipv6Range::new(1, 8).unwrap())),
        types::IpRange::V6(types::Ipv6Range { first: 1, last: 8 })
    );
    assert_eq!(types::Ipv4Range::from(Ipv4Range::new(1, 8).unwrap()), types::Ipv4Range { first: 1, last: 8 });
    let nat = external::SourceNatConfig::new(IpAddr::V4(1), 1024, 2047).unwrap();
    assert_eq!(
        types::SourceNatConfig::from(&nat),
        types::SourceNatConfig { ip: IpAddr::V4(1), first_port: 1024, last_port: 2047 }
    );
    assert!(external::SourceNatConfig::new(IpAddr::V4(1), 2, 1).is_none());
}

#[test]
fn test_transaction_retry() {
    let policy = RetryPolicy { max_attempts: 5, base_delay_ms: 10, max_delay_ms: 50, max_elapsed_ms: 1_000 };
    let mut helper = RetryHelper::new(policy);
    assert_eq!(helper.on_outcome(TransactionOutcome::Committed, 0, 7), RetryAction::Done);
    assert_eq!(helper.on_outcome(TransactionOutcome::Failed, 0, 7), RetryAction::GiveUp);
    assert_eq!(helper.attempts(), 0);
    // The bounds of the waits are 10, 20, 40 and 50 milliseconds.
    let failure = TransactionOutcome::SerializationFailure;
    assert_eq!(helper.on_outcome(failure, 1, 10), RetryAction::Retry { delay_ms: 10 });
    assert_eq!(helper.on_outcome(failure, 2, 21), RetryAction::Retry { delay_ms: 0 });
    assert_eq!(helper.on_outcome(failure, 3, 40), RetryAction::Retry { delay_ms: 40 });
    assert_eq!(helper.on_outcome(failure, 4, 101), RetryAction::Retry { delay_ms: 50 });
    assert_eq!(helper.attempts(), 4);
    // The fifth attempt was the last.
    assert_eq!(helper.on_outcome(failure, 5, 1), RetryAction::GiveUp);
    assert_eq!(helper.attempts(), 4);
    // Time is capped on its own.
    let mut helper = RetryHelper::new(policy);
    assert_eq!(helper.on_outcome(failure, 999, 3), RetryAction::Retry { delay_ms: 3 });
    assert_eq!(helper.on_outcome(failure, 1_000, 3), RetryAction::GiveUp);
    // A bound that does not fit in 64 bits is the cap.
    let wide = RetryPolicy { max_attempts: 200, base_delay_ms: 1, max_delay_ms: u64::MAX, max_elapsed_ms: u64::MAX };
    let mut helper = RetryHelper::new(wide);
    for _ in 0..70 {
        assert_eq!(helper.on_outcome(failure, 0, u64::MAX - 1), if helper.attempts() <= 64 {
            RetryAction::Retry { delay_ms: (u64::MAX - 1) % ((1u128 << (helper.attempts() - 1)) as u64).wrapping_add(1).max(1) }
        } else {
            RetryAction::Retry { delay_ms: u64::MAX - 1 }
        });
    }

    let mut slot = OptionalError::new();
    assert_eq!(slot.take(), None::<u8>);
    slot.bail(1);
    slot.bail(2);
    assert_eq!(slot.take(), Some(2));
    assert_eq!(slot.take(), None);
}

#[test]
fn test_runtime_state_conversions() {
    let instance = external::InstanceRuntimeState {
        propolis_id: Some(7),
        dst_propolis_id: None,
        migration_id: Some(9),
        gen: Generation(4),
        time_updated: 1_700_000_000_000_000,
    };
    let vmm = external::VmmRuntimeState {
        state: external::InstanceState::Migrating,
        gen: Generation(2),
        time_updated: 12,
    };
    let report =
        external::SledInstanceState { instance_state: instance, propolis_id: 7, vmm_state: vmm };
    let converted = types::SledInstanceState::from(report);
    assert_eq!(
        converted,
        types::SledInstanceState {
            instance_state: types::InstanceRuntimeState {
                propolis_id: Some(7),
                dst_propolis_id: None,
                migration_id: Some(9),
                gen: Generation(4),
                time_updated: 1_700_000_000_000_000,
            },
            propolis_id: 7,
            vmm_state: types::VmmRuntimeState {
                state: types::InstanceState::Migrating,
                gen: Generation(2),
                time_updated: 12,
            },
        }
    );
    let disk = external::DiskRuntimeState {
        disk_state: external::DiskState::Attached(31),
        gen: Generation(8),
        time_updated: -5,
    };
    assert_eq!(
        types::DiskRuntimeState::from(disk),
        types::DiskRuntimeState {
            disk_state: types::DiskState::Attached(31),
            gen: Generation(8),
            time_updated: -5,
        }
    );
}

#[test]
fn test_external_port_discovery_conversion() {
    let auto = external::ExternalPortDiscovery::Auto(vec![
        (external::SwitchLocation::Switch1, 0xfd00_1122_3344_0101_0000_0000_0000_0002),
        (external::SwitchLocation::Switch0, 0xfd00_1122_3344_0101_0000_0000_0000_0001),
    ]);
    assert_eq!(
        types::ExternalPortDiscovery::from(auto),
        types::ExternalPortDiscovery::Auto(vec![
            ("switch1".to_string(), 0xfd00_1122_3344_0101_0000_0000_0000_0002),
            ("switch0".to_string(), 0xfd00_1122_3344_0101_0000_0000_0000_0001),
        ])
    );
    let fixed = external::ExternalPortDiscovery::Static(vec![
        (external::SwitchLocation::Switch0, vec!["qsfp0".to_string(), "qsfp1".to_string()]),
        (external::SwitchLocation::Switch1, vec![]),
    ]);
    assert_eq!(
        types::ExternalPortDiscovery::from(fixed),
        types::ExternalPortDiscovery::Static(vec![
            ("switch0".to_string(), vec!["qsfp0".to_string(), "qsfp1".to_string()]),
            ("switch1".to_string(), vec![]),
        ])
    );
    assert_eq!(external::SwitchLocation::Switch0.name(), "switch0");
}

#[test]
fn test_producer_endpoint_conversions() {
    let address = external::SocketAddr { ip: IpAddr::V4(0x7f00_0001), port: 4000 };
    let endpoint = external::ProducerEndpoint {
        id: 11,
        kind: external::ProducerKind::Service,
        address,
        interval: external::Duration { secs: 10, nanos: 500 },
    };
    let sent = types::ProducerEndpoint::from_external(&endpoint, "127.0.0.1:4000".to_string());
    assert_eq!(
        sent,
        types::ProducerEndpoint {
            id: 11,
            kind: types::ProducerKind::Service,
            address: "127.0.0.1:4000".to_string(),
            interval: types::Duration { secs: 10, nanos: 500 },
        }
    );
    assert_eq!(sent.clone().into_external(Some(address)), Ok(endpoint));
    assert_eq!(sent.into_external(None), Err("Invalid IP address: 127.0.0.1:4000".to_string()));
    // Nanoseconds beyond a second are carried into the seconds.
    let long = types::ProducerEndpoint {
        id: 1,
        kind: types::ProducerKind::Instance,
        address: "nowhere".to_string(),
        interval: types::Duration { secs: 1, nanos: 2_000_000_001 },
    };
    assert_eq!(
        long.clone().into_external(Some(address)).map(|ep| ep.interval),
        Ok(external::Duration { secs: 3, nanos: 1 })
    );
    assert_eq!(long.into_external(None), Err("Invalid IP address: nowhere".to_string()));
}

#[test]
fn test_blocks_written_for_the_client() {
    let v4 = Ipv4Net::new(0x0a00_0080, 25).unwrap();
    assert_eq!(types::Ipv4Net::try_from(&v4), Ok(types::Ipv4Net("10.0.0.128/25".to_string())));
    let all = Ipv4Net::new(0, 0).unwrap();
    assert_eq!(types::Ipv4Net::try_from(&all), Ok(types::Ipv4Net("0.0.0.0/0".to_string())));
    let host = Ipv4Net::new(0xffff_ff07, 32).unwrap();
    assert_eq!(
        types::Ipv4Net::try_from(&host),
        Ok(types::Ipv4Net("255.255.255.7/32".to_string()))
    );
    let v6 = Ipv6Net::new(0xfd00_1122_3344_0000_0000_0000_0000_0000, 48).unwrap();
    assert_eq!(
        types::Ipv6Net::try_from(&v6),
        Ok(types::Ipv6Net("fd00:1122:3344::/48".to_string()))
    );
    assert_eq!(
        types::IpNet::try_from(&IpNetwork::V6(v6)),
        Ok(types::IpNet::V6(types::Ipv6Net("fd00:1122:3344::/48".to_string())))
    );

    assert_eq!(
        types::AllowedSourceIps::try_from(&external::AllowedSourceIps::Any),
        Ok(types::AllowedSourceIps::Any)
    );
    let list = external::AllowedSourceIps::List(vec![IpNetwork::V6(v6), IpNetwork::V4(v4)]);
    assert_eq!(
        types::AllowedSourceIps::try_from(&list),
        Ok(types::AllowedSourceIps::List(vec![
            types::IpNet::V6(types::Ipv6Net("fd00:1122:3344::/48".to_string())),
            types::IpNet::V4(types::Ipv4Net("10.0.0.128/25".to_string())),
        ]))
    );
    assert_eq!(
        types::AllowedSourceIps::try_from(&external::AllowedSourceIps::List(vec![])),
        Ok(types::AllowedSourceIps::List(vec![]))
    );
}
