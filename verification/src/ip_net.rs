//! IP addresses and CIDR blocks, as plain integers.

use vstd::prelude::*;

verus! {

/// The number of addresses at the start of every subnet block that are kept
/// for the control plane.
pub const NUM_INITIAL_RESERVED_IP_ADDRESSES: u8 = 6;

/// The prefix length of the IPv6 prefix of a VPC.
pub const VPC_IPV6_PREFIX_LENGTH: u8 = 48;

/// Address family of a block or an address.
#[derive(Clone, Copy, Debug, PartialEq, Eq, Hash, Structural)]
pub enum IpVersion {
    V4,
    V6,
}

/// An IP address.
#[derive(Clone, Copy, Debug, PartialEq, Eq, Hash, PartialOrd, Ord, Structural)]
pub enum IpAddr {
    V4(u32),
    V6(u128),
}

/// An IPv4 CIDR block: an address and the number of leading bits that name
/// the network.
#[derive(Clone, Copy, Debug, PartialEq, Eq, Hash, Structural)]
pub struct Ipv4Net {
    addr: u32,
    prefix: u8,
}

/// An IPv6 CIDR block.
#[derive(Clone, Copy, Debug, PartialEq, Eq, Hash, Structural)]
pub struct Ipv6Net {
    addr: u128,
    prefix: u8,
}

/// A CIDR block of either family.
#[derive(Clone, Copy, Debug, PartialEq, Eq, Hash, Structural)]
pub enum IpNetwork {
    V4(Ipv4Net),
    V6(Ipv6Net),
}

/// The bits of an IPv4 address that name the network, for a prefix length.
pub open spec fn v4_mask(prefix: u8) -> u32 {
    if prefix == 0 {
        0u32
    } else if prefix >= 32 {
        0xffff_ffffu32
    } else {
        0xffff_ffffu32 << ((32 - prefix) as u32)
    }
}

/// The bits of an IPv6 address that name the network, for a prefix length.
pub open spec fn v6_mask(prefix: u8) -> u128 {
    if prefix == 0 {
        0u128
    } else if prefix >= 128 {
        0xffff_ffff_ffff_ffff_ffff_ffff_ffff_ffffu128
    } else {
        0xffff_ffff_ffff_ffff_ffff_ffff_ffff_ffffu128 << ((128 - prefix) as u128)
    }
}

/// Two inclusive ranges share at least one value.
pub open spec fn ranges_overlap(a_first: int, a_last: int, b_first: int, b_last: int) -> bool {
    !(a_last < b_first || b_last < a_first)
}

fn mask4(prefix: u8) -> (res: u32)
    ensures
        res == v4_mask(prefix),
{
    if prefix == 0 {
        0
    } else if prefix >= 32 {
        0xffff_ffff
    } else {
        0xffff_ffffu32 << ((32 - prefix) as u32)
    }
}

fn mask6(prefix: u8) -> (res: u128)
    ensures
        res == v6_mask(prefix),
{
    if prefix == 0 {
        0
    } else if prefix >= 128 {
        0xffff_ffff_ffff_ffff_ffff_ffff_ffff_ffff
    } else {
        0xffff_ffff_ffff_ffff_ffff_ffff_ffff_ffffu128 << ((128 - prefix) as u128)
    }
}

impl Ipv4Net {
    #[verifier::type_invariant]
    closed spec fn inv(self) -> bool {
        self.prefix <= 32
    }

    pub closed spec fn spec_addr(self) -> u32 {
        self.addr
    }

    pub closed spec fn spec_prefix(self) -> u8 {
        self.prefix
    }

    /// Whether the prefix length is one that an IPv4 block can have.
    pub open spec fn valid(self) -> bool {
        self.spec_prefix() <= 32
    }

    /// The first address of the block.
    pub open spec fn spec_first(self) -> u32 {
        self.spec_addr() & v4_mask(self.spec_prefix())
    }

    /// The last address of the block.
    pub open spec fn spec_last(self) -> u32 {
        self.spec_first() | !v4_mask(self.spec_prefix())
    }

    /// The addresses of the block.
    pub open spec fn addresses(self) -> Set<int> {
        Set::new(|a: int| self.spec_first() <= a <= self.spec_last())
    }

    /// The blocks share at least one address.
    pub open spec fn spec_overlaps(self, other: Ipv4Net) -> bool {
        ranges_overlap(
            self.spec_first() as int,
            self.spec_last() as int,
            other.spec_first() as int,
            other.spec_last() as int,
        )
    }

    /// The number of addresses of the block beyond the reserved ones; not
    /// positive when the block has none left.
    pub open spec fn spec_free_addresses(self) -> int {
        self.spec_last() - self.spec_first() + 1 - NUM_INITIAL_RESERVED_IP_ADDRESSES
    }

    /// The block with this address and prefix length, if the length is at
    /// most 32.
    pub fn new(addr: u32, prefix: u8) -> (res: Option<Ipv4Net>)
        ensures
            res is Some <==> prefix <= 32,
            res matches Some(net) ==> net.spec_addr() == addr && net.spec_prefix() == prefix,
    {
        if prefix <= 32 {
            Some(Ipv4Net { addr, prefix })
        } else {
            None
        }
    }

    pub fn addr(self) -> (res: u32)
        ensures
            res == self.spec_addr(),
    {
        self.addr
    }

    pub fn prefix(self) -> (res: u8)
        ensures
            res == self.spec_prefix(),
            res <= 32,
    {
        proof {
            use_type_invariant(&self);
        }
        self.prefix
    }

    /// The first address of the block.
    pub fn first_address(self) -> (res: u32)
        ensures
            res == self.spec_first(),
    {
        self.addr & mask4(self.prefix)
    }

    /// The last address of the block.
    pub fn last_address(self) -> (res: u32)
        ensures
            res == self.spec_last(),
            self.spec_first() <= res,
    {
        let mask = mask4(self.prefix);
        let first = self.addr & mask;
        assert(first <= (first | !mask)) by (bit_vector);
        first | !mask
    }

    /// Whether the two blocks share at least one address.
    pub fn overlaps(self, other: Ipv4Net) -> (res: bool)
        ensures
            res == self.spec_overlaps(other),
    {
        !(self.last_address() < other.first_address() || other.last_address()
            < self.first_address())
    }

    /// Whether the block has an address left once the first
    /// [`NUM_INITIAL_RESERVED_IP_ADDRESSES`] are set aside.
    pub fn has_free_addresses(self) -> (res: bool)
        ensures
            res == (self.spec_free_addresses() > 0),
    {
        let last = self.last_address();
        let first = self.first_address();
        last - first >= NUM_INITIAL_RESERVED_IP_ADDRESSES as u32
    }
}

impl Ipv6Net {
    #[verifier::type_invariant]
    closed spec fn inv(self) -> bool {
        self.prefix <= 128
    }

    pub closed spec fn spec_addr(self) -> u128 {
        self.addr
    }

    pub closed spec fn spec_prefix(self) -> u8 {
        self.prefix
    }

    /// Whether the prefix length is one that an IPv6 block can have.
    pub open spec fn valid(self) -> bool {
        self.spec_prefix() <= 128
    }

    /// The first address of the block.
    pub open spec fn spec_first(self) -> u128 {
        self.spec_addr() & v6_mask(self.spec_prefix())
    }

    /// The last address of the block.
    pub open spec fn spec_last(self) -> u128 {
        self.spec_first() | !v6_mask(self.spec_prefix())
    }

    /// The addresses of the block.
    pub open spec fn addresses(self) -> Set<int> {
        Set::new(|a: int| self.spec_first() <= a <= self.spec_last())
    }

    /// The blocks share at least one address.
    pub open spec fn spec_overlaps(self, other: Ipv6Net) -> bool {
        ranges_overlap(
            self.spec_first() as int,
            self.spec_last() as int,
            other.spec_first() as int,
            other.spec_last() as int,
        )
    }

    /// Every address of this block is an address of `other`.
    pub open spec fn spec_is_subnet_of(self, other: Ipv6Net) -> bool {
        other.spec_first() <= self.spec_first() && self.spec_last() <= other.spec_last()
    }

    /// The number of addresses of the block beyond the reserved ones; not
    /// positive when the block has none left.
    pub open spec fn spec_free_addresses(self) -> int {
        self.spec_last() - self.spec_first() + 1 - NUM_INITIAL_RESERVED_IP_ADDRESSES
    }

    /// The block with this address and prefix length, if the length is at
    /// most 128.
    pub fn new(addr: u128, prefix: u8) -> (res: Option<Ipv6Net>)
        ensures
            res is Some <==> prefix <= 128,
            res matches Some(net) ==> net.spec_addr() == addr && net.spec_prefix() == prefix,
    {
        if prefix <= 128 {
            Some(Ipv6Net { addr, prefix })
        } else {
            None
        }
    }

    pub fn addr(self) -> (res: u128)
        ensures
            res == self.spec_addr(),
    {
        self.addr
    }

    pub fn prefix(self) -> (res: u8)
        ensures
            res == self.spec_prefix(),
            res <= 128,
    {
        proof {
            use_type_invariant(&self);
        }
        self.prefix
    }

    /// The first address of the block.
    pub fn first_address(self) -> (res: u128)
        ensures
            res == self.spec_first(),
    {
        self.addr & mask6(self.prefix)
    }

    /// The last address of the block.
    pub fn last_address(self) -> (res: u128)
        ensures
            res == self.spec_last(),
            self.spec_first() <= res,
    {
        let mask = mask6(self.prefix);
        let first = self.addr & mask;
        assert(first <= (first | !mask)) by (bit_vector);
        first | !mask
    }

    /// Whether the two blocks share at least one address.
    pub fn overlaps(self, other: Ipv6Net) -> (res: bool)
        ensures
            res == self.spec_overlaps(other),
    {
        !(self.last_address() < other.first_address() || other.last_address()
            < self.first_address())
    }

    /// Whether every address of this block is an address of `other`.
    pub fn is_subnet_of(self, other: Ipv6Net) -> (res: bool)
        ensures
            res == self.spec_is_subnet_of(other),
    {
        other.first_address() <= self.first_address() && self.last_address()
            <= other.last_address()
    }

    /// Whether the block has an address left once the first
    /// [`NUM_INITIAL_RESERVED_IP_ADDRESSES`] are set aside.
    pub fn has_free_addresses(self) -> (res: bool)
        ensures
            res == (self.spec_free_addresses() > 0),
    {
        let last = self.last_address();
        let first = self.first_address();
        last - first >= NUM_INITIAL_RESERVED_IP_ADDRESSES as u128
    }
}

/// A block is never empty: its first address is at most its last.
pub proof fn lemma_v4_block_nonempty(net: Ipv4Net)
    ensures
        net.spec_first() <= net.spec_last(),
        net.addresses().contains(net.spec_first() as int),
{
    let first = net.spec_first();
    let mask = v4_mask(net.spec_prefix());
    assert(first <= (first | !mask)) by (bit_vector);
}

/// A block is never empty: its first address is at most its last.
pub proof fn lemma_v6_block_nonempty(net: Ipv6Net)
    ensures
        net.spec_first() <= net.spec_last(),
        net.addresses().contains(net.spec_first() as int),
{
    let first = net.spec_first();
    let mask = v6_mask(net.spec_prefix());
    assert(first <= (first | !mask)) by (bit_vector);
}

/// Two IPv4 blocks overlap exactly when their address sets meet.
pub proof fn lemma_v4_overlap_is_intersection(a: Ipv4Net, b: Ipv4Net)
    ensures
        a.spec_overlaps(b) <==> !a.addresses().disjoint(b.addresses()),
{
    lemma_v4_block_nonempty(a);
    lemma_v4_block_nonempty(b);
    if a.spec_overlaps(b) {
        let w = if a.spec_first() <= b.spec_first() {
            b.spec_first() as int
        } else {
            a.spec_first() as int
        };
        assert(a.addresses().contains(w) && b.addresses().contains(w));
    }
}

/// Two IPv6 blocks overlap exactly when their address sets meet.
pub proof fn lemma_v6_overlap_is_intersection(a: Ipv6Net, b: Ipv6Net)
    ensures
        a.spec_overlaps(b) <==> !a.addresses().disjoint(b.addresses()),
{
    lemma_v6_block_nonempty(a);
    lemma_v6_block_nonempty(b);
    if a.spec_overlaps(b) {
        let w = if a.spec_first() <= b.spec_first() {
            b.spec_first() as int
        } else {
            a.spec_first() as int
        };
        assert(a.addresses().contains(w) && b.addresses().contains(w));
    }
}

/// An inclusive range of IPv4 addresses, first address at most the last.
#[derive(Clone, Copy, Debug, PartialEq, Eq, Hash, Structural)]
pub struct Ipv4Range {
    first: u32,
    last: u32,
}

/// An inclusive range of IPv6 addresses, first address at most the last.
#[derive(Clone, Copy, Debug, PartialEq, Eq, Hash, Structural)]
pub struct Ipv6Range {
    first: u128,
    last: u128,
}

/// An inclusive range of addresses of one family.
#[derive(Clone, Copy, Debug, PartialEq, Eq, Hash, Structural)]
pub enum IpRange {
    V4(Ipv4Range),
    V6(Ipv6Range),
}

/// The message of the error for a range whose first address comes after its
/// last.
pub open spec fn decreasing_range_message() -> Seq<char> {
    "IP address ranges must be non-decreasing"@
}

impl Ipv4Range {
    #[verifier::type_invariant]
    closed spec fn inv(self) -> bool {
        self.first <= self.last
    }

    pub closed spec fn spec_first(self) -> u32 {
        self.first
    }

    pub closed spec fn spec_last(self) -> u32 {
        self.last
    }

    /// The range from `first` to `last`, if `first` is at most `last`.
    pub fn new(first: u32, last: u32) -> (res: Result<Ipv4Range, String>)
        ensures
            res is Ok <==> first <= last,
            res matches Ok(range) ==> range.spec_first() == first && range.spec_last() == last,
            res matches Err(e) ==> e@ == decreasing_range_message(),
    {
        if first <= last {
            Ok(Ipv4Range { first, last })
        } else {
            Err("IP address ranges must be non-decreasing".to_owned())
        }
    }

    pub fn first_address(self) -> (res: u32)
        ensures
            res == self.spec_first(),
            res <= self.spec_last(),
    {
        proof {
            use_type_invariant(&self);
        }
        self.first
    }

    pub fn last_address(self) -> (res: u32)
        ensures
            res == self.spec_last(),
            self.spec_first() <= res,
    {
        proof {
            use_type_invariant(&self);
        }
        self.last
    }
}

impl Ipv6Range {
    #[verifier::type_invariant]
    closed spec fn inv(self) -> bool {
        self.first <= self.last
    }

    pub closed spec fn spec_first(self) -> u128 {
        self.first
    }

    pub closed spec fn spec_last(self) -> u128 {
        self.last
    }

    /// The range from `first` to `last`, if `first` is at most `last`.
    pub fn new(first: u128, last: u128) -> (res: Result<Ipv6Range, String>)
        ensures
            res is Ok <==> first <= last,
            res matches Ok(range) ==> range.spec_first() == first && range.spec_last() == last,
            res matches Err(e) ==> e@ == decreasing_range_message(),
    {
        if first <= last {
            Ok(Ipv6Range { first, last })
        } else {
            Err("IP address ranges must be non-decreasing".to_owned())
        }
    }

    pub fn first_address(self) -> (res: u128)
        ensures
            res == self.spec_first(),
            res <= self.spec_last(),
    {
        proof {
            use_type_invariant(&self);
        }
        self.first
    }

    pub fn last_address(self) -> (res: u128)
        ensures
            res == self.spec_last(),
            self.spec_first() <= res,
    {
        proof {
            use_type_invariant(&self);
        }
        self.last
    }
}

impl IpRange {
    /// The first address of the range.
    pub open spec fn spec_first(self) -> IpAddr {
        match self {
            IpRange::V4(range) => IpAddr::V4(range.spec_first()),
            IpRange::V6(range) => IpAddr::V6(range.spec_first()),
        }
    }

    /// The last address of the range.
    pub open spec fn spec_last(self) -> IpAddr {
        match self {
            IpRange::V4(range) => IpAddr::V4(range.spec_last()),
            IpRange::V6(range) => IpAddr::V6(range.spec_last()),
        }
    }

    /// The first address of the range.
    pub fn first_address(self) -> (res: IpAddr)
        ensures
            res == self.spec_first(),
            res.spec_le(self.spec_last()),
            res is V4 == self.spec_last() is V4,
    {
        match self {
            IpRange::V4(range) => IpAddr::V4(range.first_address()),
            IpRange::V6(range) => IpAddr::V6(range.first_address()),
        }
    }

    /// The last address of the range.
    pub fn last_address(self) -> (res: IpAddr)
        ensures
            res == self.spec_last(),
    {
        match self {
            IpRange::V4(range) => IpAddr::V4(range.last_address()),
            IpRange::V6(range) => IpAddr::V6(range.last_address()),
        }
    }
}

impl IpAddr {
    /// The order of addresses: IPv4 before IPv6, and by number within a
    /// family.
    pub open spec fn spec_le(self, other: IpAddr) -> bool {
        match (self, other) {
            (IpAddr::V4(a), IpAddr::V4(b)) => a <= b,
            (IpAddr::V6(a), IpAddr::V6(b)) => a <= b,
            (IpAddr::V4(_), IpAddr::V6(_)) => true,
            (IpAddr::V6(_), IpAddr::V4(_)) => false,
        }
    }

    /// Whether this address comes before `other` or is `other`.
    pub fn le(self, other: IpAddr) -> (res: bool)
        ensures
            res == self.spec_le(other),
    {
        match (self, other) {
            (IpAddr::V4(a), IpAddr::V4(b)) => a <= b,
            (IpAddr::V6(a), IpAddr::V6(b)) => a <= b,
            (IpAddr::V4(_), IpAddr::V6(_)) => true,
            (IpAddr::V6(_), IpAddr::V4(_)) => false,
        }
    }
}

} // verus!
