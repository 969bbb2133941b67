use nexus_vpc::planning_input::{
    DiskFilter, PhysicalDiskPolicy, PhysicalDiskState, SledFilter, SledPolicy,
    SledProvisionPolicy, SledState, ZpoolFilter,
};

const FILTERS: [SledFilter; 7] = [
    SledFilter::Commissioned,
    SledFilter::Decommissioned,
    SledFilter::Discretionary,
    SledFilter::InService,
    SledFilter::QueryDuringInventory,
    SledFilter::ReservationCreate,
    SledFilter::VpcFirewall,
];

const PROVISIONABLE: SledPolicy =
    SledPolicy::InService { provision_policy: SledProvisionPolicy::Provisionable };
const NON_PROVISIONABLE: SledPolicy =
    SledPolicy::InService { provision_policy: SledProvisionPolicy::NonProvisionable };

#[test]
fn test_sled_policy_truth_table() {
    let table = [
        (PROVISIONABLE, [true, false, true, true, true, true, true]),
        (NON_PROVISIONABLE, [true, false, false, true, true, false, true]),
        (SledPolicy::Expunged, [true, true, false, false, false, false, false]),
    ];
    for (policy, row) in table {
        for (filter, expected) in FILTERS.iter().zip(row) {
            assert_eq!(policy.matches(*filter), expected, "{policy:?} {filter:?}");
        }
    }
}

#[test]
fn test_sled_state_truth_table() {
    let table = [
        (SledState::Active, [true, false, true, true, true, true, true]),
        (SledState::Decommissioned, [false, true, false, false, false, false, false]),
    ];
    for (state, row) in table {
        for (filter, expected) in FILTERS.iter().zip(row) {
            assert_eq!(state.matches(*filter), expected, "{state:?} {filter:?}");
        }
    }
}

#[test]
fn test_sled_filter_is_the_product_of_policy_and_state() {
    for filter in FILTERS {
        for policy in [PROVISIONABLE, NON_PROVISIONABLE, SledPolicy::Expunged] {
            for state in [SledState::Active, SledState::Decommissioned] {
                assert_eq!(
                    filter.matches_policy_and_state(policy, state),
                    policy.matches(filter) && state.matches(filter)
                );
            }
        }
    }
    assert!(SledFilter::VpcFirewall.matches_policy_and_state(NON_PROVISIONABLE, SledState::Active));
    assert!(!SledFilter::VpcFirewall.matches_policy_and_state(PROVISIONABLE, SledState::Decommissioned));
    assert!(SledFilter::Decommissioned.matches_policy_and_state(SledPolicy::Expunged, SledState::Decommissioned));
    assert!(!SledFilter::Decommissioned.matches_policy_and_state(SledPolicy::Expunged, SledState::Active));
}

#[test]
fn test_all_matching() {
    assert_eq!(
        SledPolicy::all_matching(SledFilter::Commissioned),
        vec![PROVISIONABLE, NON_PROVISIONABLE, SledPolicy::Expunged]
    );
    assert_eq!(SledPolicy::all_matching(SledFilter::Discretionary), vec![PROVISIONABLE]);
    assert_eq!(SledPolicy::all_matching(SledFilter::Decommissioned), vec![SledPolicy::Expunged]);
    assert_eq!(
        SledPolicy::all_matching(SledFilter::VpcFirewall),
        vec![PROVISIONABLE, NON_PROVISIONABLE]
    );
    assert_eq!(SledState::all_matching(SledFilter::VpcFirewall), vec![SledState::Active]);
    assert_eq!(SledState::all_matching(SledFilter::Decommissioned), vec![SledState::Decommissioned]);
}

#[test]
fn test_disk_and_zpool_filters() {
    for policy in [PhysicalDiskPolicy::InService, PhysicalDiskPolicy::Expunged] {
        for state in [PhysicalDiskState::Active, PhysicalDiskState::Decommissioned] {
            let in_service =
                policy == PhysicalDiskPolicy::InService && state == PhysicalDiskState::Active;
            assert!(DiskFilter::All.matches_policy_and_state(policy, state));
            assert!(ZpoolFilter::All.matches_policy_and_state(policy, state));
            assert_eq!(DiskFilter::InService.matches_policy_and_state(policy, state), in_service);
            assert_eq!(ZpoolFilter::InService.matches_policy_and_state(policy, state), in_service);
        }
    }
}
