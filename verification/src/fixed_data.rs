//! The built-in resources: the VPC of the control-plane services, its
//! router, its subnets and its firewall rules.

use crate::error::Uuid;
use crate::ip_net::{Ipv4Net, Ipv6Net};
use crate::model::{
    Generation, Identity, IncompleteVpc, L4PortRange, RouteDestination, RouteTarget, RouterRoute,
    RouterRouteKind, Timestamp, VpcFirewallRule, VpcFirewallRuleAction, VpcFirewallRuleDirection,
    VpcFirewallRuleProtocol, VpcFirewallRuleStatus, VpcFirewallRuleTarget, VpcRouter,
    VpcRouterKind, VpcSubnet,
};
use crate::vni::Vni;
use vstd::prelude::*;
use vstd::string::*;

verus! {

/// The id of the built-in project for the control-plane services.
pub const SERVICES_PROJECT_ID: Uuid = 0x001de000_4401_4000_8000_000000000000;

/// The id of the built-in VPC for the control-plane services.
pub const SERVICES_VPC_ID: Uuid = 0x001de000_074c_4000_8000_000000000000;

/// The id of the system router of the built-in VPC.
pub const SERVICES_VPC_ROUTER_ID: Uuid = 0x001de000_074c_4000_8000_000000000001;

/// The id of the default route of the built-in VPC.
pub const SERVICES_VPC_DEFAULT_ROUTE_ID: Uuid = 0x001de000_074c_4000_8000_000000000002;

/// The id of the built-in subnet for external DNS.
pub const DNS_VPC_SUBNET_ID: Uuid = 0x001de000_c470_4000_8000_000000000001;

/// The id of the built-in subnet for Nexus.
pub const NEXUS_VPC_SUBNET_ID: Uuid = 0x001de000_c470_4000_8000_000000000002;

/// The id of the built-in subnet for boundary NTP.
pub const NTP_VPC_SUBNET_ID: Uuid = 0x001de000_c470_4000_8000_000000000003;

/// The IPv6 prefix of the built-in VPC: `fd77:e9d2:9cd9::/48`.
pub const SERVICES_VPC_IPV6_PREFIX: u128 = 0xfd77_e9d2_9cd9_0000_0000_0000_0000_0000;

/// The name of the built-in VPC.
pub open spec fn services_vpc_name() -> Seq<char> {
    "oxide-services"@
}

/// The name of the built-in firewall rule for external DNS.
pub open spec fn dns_rule_name() -> Seq<char> {
    "external-dns-inbound"@
}

/// The name of the built-in firewall rule for Nexus.
pub open spec fn nexus_rule_name() -> Seq<char> {
    "nexus-inbound"@
}

/// The name of the built-in subnet for external DNS.
pub open spec fn dns_subnet_name() -> Seq<char> {
    "external-dns"@
}

/// The name of the built-in subnet for Nexus.
pub open spec fn nexus_subnet_name() -> Seq<char> {
    "nexus"@
}

/// The name of the built-in subnet for boundary NTP.
pub open spec fn ntp_subnet_name() -> Seq<char> {
    "boundary-ntp"@
}

/// The identity is the one of a live row made at `now`.
pub open spec fn is_identity(
    identity: Identity,
    id: Uuid,
    name: Seq<char>,
    description: Seq<char>,
    now: Timestamp,
) -> bool {
    &&& identity.id == id
    &&& identity.name@ == name
    &&& identity.description@ == description
    &&& identity.time_created == now
    &&& identity.time_modified == now
    &&& identity.time_deleted is None
}

/// The row is the built-in VPC, made at `now`, before its insert.
pub open spec fn is_services_vpc(vpc: IncompleteVpc, now: Timestamp) -> bool {
    &&& is_identity(
        vpc.identity,
        SERVICES_VPC_ID,
        services_vpc_name(),
        "Built-in VPC for Oxide Services"@,
        now,
    )
    &&& vpc.project_id == SERVICES_PROJECT_ID
    &&& vpc.system_router_id == SERVICES_VPC_ROUTER_ID
    &&& vpc.vni.as_u32() == crate::vni::SERVICES_VNI
    &&& vpc.ipv6_prefix.spec_addr() == SERVICES_VPC_IPV6_PREFIX
    &&& vpc.ipv6_prefix.spec_prefix() == 48
    &&& vpc.dns_name@ == services_vpc_name()
}

/// The row is the system router of the built-in VPC, made at `now`.
pub open spec fn is_services_vpc_router(row: VpcRouter, now: Timestamp) -> bool {
    &&& is_identity(
        row.identity,
        SERVICES_VPC_ROUTER_ID,
        "system"@,
        "Built-in VPC Router for Oxide Services"@,
        now,
    )
    &&& row.kind is System
    &&& row.vpc_id == SERVICES_VPC_ID
    &&& row.rcgen == Generation(1)
}

/// The row is the default route of the built-in VPC, made at `now`.
pub open spec fn is_services_vpc_default_route(row: RouterRoute, now: Timestamp) -> bool {
    &&& is_identity(
        row.identity,
        SERVICES_VPC_DEFAULT_ROUTE_ID,
        "default"@,
        "Default internet gateway route for Oxide Services"@,
        now,
    )
    &&& row.vpc_router_id == SERVICES_VPC_ROUTER_ID
    &&& row.kind is Default
    &&& row.target matches RouteTarget::InternetGateway(gateway) && gateway@ == "outbound"@
    &&& row.destination matches RouteDestination::Vpc(vpc) && vpc@ == services_vpc_name()
}

/// The row is a subnet of the built-in VPC, made at `now`, with blocks of
/// 256 IPv4 addresses and of 2^64 IPv6 addresses.
pub open spec fn is_services_subnet(
    row: VpcSubnet,
    id: Uuid,
    name: Seq<char>,
    description: Seq<char>,
    ipv4: u32,
    ipv6: u128,
    now: Timestamp,
) -> bool {
    &&& is_identity(row.identity, id, name, description, now)
    &&& row.vpc_id == SERVICES_VPC_ID
    &&& row.rcgen == Generation(1)
    &&& row.ipv4_block.spec_addr() == ipv4
    &&& row.ipv4_block.spec_prefix() == 24
    &&& row.ipv6_block.spec_addr() == ipv6
    &&& row.ipv6_block.spec_prefix() == 64
    &&& row.custom_router_id is None
}

/// The rows are the built-in subnets, made at `now`: for external DNS, for
/// Nexus and for boundary NTP.
pub open spec fn are_services_subnets(rows: Seq<VpcSubnet>, now: Timestamp) -> bool {
    &&& rows.len() == 3
    &&& is_services_subnet(
        rows[0],
        DNS_VPC_SUBNET_ID,
        dns_subnet_name(),
        "Built-in VPC Subnet for Oxide service (external-dns)"@,
        0xac1e_0100,
        0xfd77_e9d2_9cd9_0001_0000_0000_0000_0000,
        now,
    )
    &&& is_services_subnet(
        rows[1],
        NEXUS_VPC_SUBNET_ID,
        nexus_subnet_name(),
        "Built-in VPC Subnet for Oxide service (nexus)"@,
        0xac1e_0200,
        0xfd77_e9d2_9cd9_0002_0000_0000_0000_0000,
        now,
    )
    &&& is_services_subnet(
        rows[2],
        NTP_VPC_SUBNET_ID,
        ntp_subnet_name(),
        "Built-in VPC Subnet for Oxide service (boundary-ntp)"@,
        0xac1e_0300,
        0xfd77_e9d2_9cd9_0003_0000_0000_0000_0000,
        now,
    )
}

/// The row is an enabled rule of the built-in VPC, made at `now`, that
/// allows inbound traffic of one protocol to the given ports of a subnet.
pub open spec fn is_services_rule(
    row: VpcFirewallRule,
    id: Uuid,
    name: Seq<char>,
    description: Seq<char>,
    subnet: Seq<char>,
    protocol: VpcFirewallRuleProtocol,
    ports: Seq<L4PortRange>,
    now: Timestamp,
) -> bool {
    &&& is_identity(row.identity, id, name, description, now)
    &&& row.vpc_id == SERVICES_VPC_ID
    &&& row.status is Enabled
    &&& row.direction is Inbound
    &&& row.targets@.len() == 1
    &&& row.targets@[0] matches VpcFirewallRuleTarget::Subnet(target) && target@ == subnet
    &&& row.filter_hosts is None
    &&& row.filter_ports matches Some(list) && list@ == ports
    &&& row.filter_protocols matches Some(list) && list@ == seq![protocol]
    &&& row.action is Allow
    &&& row.priority == 65534
}

/// The row is the built-in rule for external DNS with the given id, made
/// at `now`.
pub open spec fn is_dns_vpc_fw_rule(row: VpcFirewallRule, id: Uuid, now: Timestamp) -> bool {
    is_services_rule(
        row,
        id,
        dns_rule_name(),
        "allow inbound connections for DNS from anywhere"@,
        dns_subnet_name(),
        VpcFirewallRuleProtocol::Udp,
        seq![L4PortRange { first: 53, last: 53 }],
        now,
    )
}

/// The row is the built-in rule for Nexus with the given id, made at
/// `now`.
pub open spec fn is_nexus_vpc_fw_rule(row: VpcFirewallRule, id: Uuid, now: Timestamp) -> bool {
    is_services_rule(
        row,
        id,
        nexus_rule_name(),
        "allow inbound connections for console & api from anywhere"@,
        nexus_subnet_name(),
        VpcFirewallRuleProtocol::Tcp,
        seq![L4PortRange { first: 80, last: 80 }, L4PortRange { first: 443, last: 443 }],
        now,
    )
}

/// The built-in VPC, made at `now`, before its insert.
pub fn services_vpc(now: Timestamp) -> (res: IncompleteVpc)
    ensures
        is_services_vpc(res, now),
{
    IncompleteVpc {
        identity: Identity::new(
            SERVICES_VPC_ID,
            "oxide-services",
            "Built-in VPC for Oxide Services",
            now,
        ),
        project_id: SERVICES_PROJECT_ID,
        system_router_id: SERVICES_VPC_ROUTER_ID,
        vni: Vni::services(),
        ipv6_prefix: Ipv6Net::new(SERVICES_VPC_IPV6_PREFIX, 48).unwrap(),
        dns_name: String::from_str("oxide-services"),
    }
}

/// The system router of the built-in VPC, made at `now`.
pub fn services_vpc_router(now: Timestamp) -> (res: VpcRouter)
    ensures
        is_services_vpc_router(res, now),
{
    VpcRouter {
        identity: Identity::new(
            SERVICES_VPC_ROUTER_ID,
            "system",
            "Built-in VPC Router for Oxide Services",
            now,
        ),
        kind: VpcRouterKind::System,
        vpc_id: SERVICES_VPC_ID,
        rcgen: Generation::new(),
    }
}

/// The default route of the built-in VPC, made at `now`: everything goes
/// to the internet gateway.
pub fn services_vpc_default_route(now: Timestamp) -> (res: RouterRoute)
    ensures
        is_services_vpc_default_route(res, now),
{
    RouterRoute {
        identity: Identity::new(
            SERVICES_VPC_DEFAULT_ROUTE_ID,
            "default",
            "Default internet gateway route for Oxide Services",
            now,
        ),
        vpc_router_id: SERVICES_VPC_ROUTER_ID,
        kind: RouterRouteKind::Default,
        target: RouteTarget::InternetGateway(String::from_str("outbound")),
        destination: RouteDestination::Vpc(String::from_str("oxide-services")),
    }
}

fn services_subnet(
    id: Uuid,
    name: &str,
    description: &str,
    ipv4: u32,
    ipv6: u128,
    now: Timestamp,
) -> (res: VpcSubnet)
    ensures
        is_services_subnet(res, id, name@, description@, ipv4, ipv6, now),
{
    VpcSubnet {
        identity: Identity::new(id, name, description, now),
        vpc_id: SERVICES_VPC_ID,
        rcgen: Generation::new(),
        ipv4_block: Ipv4Net::new(ipv4, 24).unwrap(),
        ipv6_block: Ipv6Net::new(ipv6, 64).unwrap(),
        custom_router_id: None,
    }
}

/// The built-in subnets, made at `now`: for external DNS `172.30.1.0/24`
/// and `fd77:e9d2:9cd9:1::/64`, for Nexus `172.30.2.0/24` and
/// `fd77:e9d2:9cd9:2::/64`, for boundary NTP `172.30.3.0/24` and
/// `fd77:e9d2:9cd9:3::/64`.
pub fn services_vpc_subnets(now: Timestamp) -> (res: Vec<VpcSubnet>)
    ensures
        are_services_subnets(res@, now),
{
    let mut rows: Vec<VpcSubnet> = Vec::new();
    rows.push(
        services_subnet(
            DNS_VPC_SUBNET_ID,
            "external-dns",
            "Built-in VPC Subnet for Oxide service (external-dns)",
            0xac1e_0100,
            0xfd77_e9d2_9cd9_0001_0000_0000_0000_0000,
            now,
        ),
    );
    rows.push(
        services_subnet(
            NEXUS_VPC_SUBNET_ID,
            "nexus",
            "Built-in VPC Subnet for Oxide service (nexus)",
            0xac1e_0200,
            0xfd77_e9d2_9cd9_0002_0000_0000_0000_0000,
            now,
        ),
    );
    rows.push(
        services_subnet(
            NTP_VPC_SUBNET_ID,
            "boundary-ntp",
            "Built-in VPC Subnet for Oxide service (boundary-ntp)",
            0xac1e_0300,
            0xfd77_e9d2_9cd9_0003_0000_0000_0000_0000,
            now,
        ),
    );
    rows
}

fn services_rule(
    id: Uuid,
    name: &str,
    description: &str,
    subnet: &str,
    protocol: VpcFirewallRuleProtocol,
    ports: Vec<L4PortRange>,
    now: Timestamp,
) -> (res: VpcFirewallRule)
    ensures
        is_services_rule(res, id, name@, description@, subnet@, protocol, ports@, now),
{
    let mut targets: Vec<VpcFirewallRuleTarget> = Vec::new();
    targets.push(VpcFirewallRuleTarget::Subnet(String::from_str(subnet)));
    let mut protocols: Vec<VpcFirewallRuleProtocol> = Vec::new();
    protocols.push(protocol);
    VpcFirewallRule {
        identity: Identity::new(id, name, description, now),
        vpc_id: SERVICES_VPC_ID,
        status: VpcFirewallRuleStatus::Enabled,
        direction: VpcFirewallRuleDirection::Inbound,
        targets,
        filter_hosts: None,
        filter_ports: Some(ports),
        filter_protocols: Some(protocols),
        action: VpcFirewallRuleAction::Allow,
        priority: 65534,
    }
}

/// The built-in firewall rule that lets DNS queries in from anywhere, with
/// the given id, made at `now`.
pub fn dns_vpc_fw_rule(id: Uuid, now: Timestamp) -> (res: VpcFirewallRule)
    ensures
        is_dns_vpc_fw_rule(res, id, now),
{
    let mut ports: Vec<L4PortRange> = Vec::new();
    ports.push(L4PortRange { first: 53, last: 53 });
    assert(ports@ =~= seq![L4PortRange { first: 53, last: 53 }]);
    services_rule(
        id,
        "external-dns-inbound",
        "allow inbound connections for DNS from anywhere",
        "external-dns",
        VpcFirewallRuleProtocol::Udp,
        ports,
        now,
    )
}

/// The built-in firewall rule that lets connections to console and API in
/// from anywhere, with the given id, made at `now`.
pub fn nexus_vpc_fw_rule(id: Uuid, now: Timestamp) -> (res: VpcFirewallRule)
    ensures
        is_nexus_vpc_fw_rule(res, id, now),
{
    let mut ports: Vec<L4PortRange> = Vec::new();
    ports.push(L4PortRange { first: 80, last: 80 });
    ports.push(L4PortRange { first: 443, last: 443 });
    assert(ports@ =~= seq![
        L4PortRange { first: 80, last: 80 },
        L4PortRange { first: 443, last: 443 },
    ]);
    services_rule(
        id,
        "nexus-inbound",
        "allow inbound connections for console & api from anywhere",
        "nexus",
        VpcFirewallRuleProtocol::Tcp,
        ports,
        now,
    )
}

} // verus!
