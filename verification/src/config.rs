//! The parts of the server configuration that carry rules of their own:
//! the authentication schemes, the console settings, and the tunables.

use crate::ip_net::NUM_INITIAL_RESERVED_IP_ADDRESSES;
use vstd::arithmetic::power2::{lemma2_to64, lemma_pow2_strictly_increases, lemma_pow2_unfold, pow2};
use vstd::prelude::*;
use vstd::string::*;

verus! {

/// The smallest value that the greatest IPv4 prefix length of a subnet can
/// be set to.
pub const MIN_VPC_IPV4_SUBNET_PREFIX: u8 = 8;

/// The greatest IPv4 prefix length of a subnet by default.
///
/// A subnet with this prefix has 64 addresses, of which the reserved ones
/// leave 58: a reasonable size for the smallest subnet that is still
/// useful.
pub const MAX_VPC_IPV4_SUBNET_PREFIX: u8 = 26;

/// Authentication-related configuration.
#[derive(Clone, Debug, PartialEq)]
pub struct AuthnConfig {
    /// Allowed authentication schemes for the external HTTP server.
    pub schemes_external: Vec<SchemeName>,
}

/// Console-related configuration.
#[derive(Clone, Debug, PartialEq)]
pub struct ConsoleConfig {
    pub static_dir: String,
    /// How long the browser can cache static assets.
    pub cache_control_max_age_minutes: u32,
    /// How long a session can be idle before expiring.
    pub session_idle_timeout_minutes: u32,
    /// How long a session can exist before expiring.
    pub session_absolute_timeout_minutes: u32,
}

/// Updates-related configuration.
#[derive(Clone, Debug, PartialEq)]
pub struct UpdatesConfig {
    /// Trusted root role for the updates repository.
    pub trusted_root: String,
    /// Default base URL for the updates repository.
    pub default_base_url: String,
}

/// Tunables as they are read, before they are checked.
#[derive(Clone, Copy, Debug, PartialEq, Eq, Structural)]
pub struct UnvalidatedTunables {
    pub max_vpc_ipv4_subnet_prefix: u8,
}

/// Tunable configuration parameters, for test environments and other
/// situations in which experimentation is valuable.
#[derive(Clone, Copy, Debug, PartialEq, Eq, Structural)]
pub struct Tunables {
    /// The greatest prefix length of the IPv4 block of a VPC subnet, which
    /// sets the least size of a subnet.
    pub max_vpc_ipv4_subnet_prefix: u8,
}

/// A tunable with a value that it cannot have.
#[derive(Clone, Debug, PartialEq, Eq)]
pub struct InvalidTunable {
    tunable: String,
    message: String,
}

/// The supported external authentication schemes.
#[derive(Clone, Copy, Debug, PartialEq, Eq, Structural)]
pub enum SchemeName {
    Spoof,
    SessionCookie,
}

/// The least number of bits that can tell `n` values apart: the least `k`
/// with `n <= 2^k`.
pub open spec fn is_ceil_log2(n: nat, k: nat) -> bool {
    n <= pow2(k) && forall|j: nat| j < k ==> pow2(j) < n
}

/// The greatest prefix length that leaves room in an IPv4 subnet for the
/// reserved addresses.
pub open spec fn absolute_max_prefix() -> nat {
    29
}

/// The decimal digit for a number below ten.
pub open spec fn digit(d: nat) -> Seq<char> {
    if d == 0 {
        "0"@
    } else if d == 1 {
        "1"@
    } else if d == 2 {
        "2"@
    } else if d == 3 {
        "3"@
    } else if d == 4 {
        "4"@
    } else if d == 5 {
        "5"@
    } else if d == 6 {
        "6"@
    } else if d == 7 {
        "7"@
    } else if d == 8 {
        "8"@
    } else {
        "9"@
    }
}

/// A number in decimal, without leading zeros.
pub open spec fn decimal(n: nat) -> Seq<char>
    decreases n,
{
    if n < 10 {
        digit(n)
    } else {
        decimal(n / 10) + digit(n % 10)
    }
}

/// The message for a value outside the range of the greatest IPv4 prefix.
pub open spec fn prefix_range_message(absolute_max: nat, prefix: nat) -> Seq<char> {
    "IPv4 subnet prefix must be in the range [0, "@ + decimal(absolute_max) + "], found: "@
        + decimal(prefix)
}

/// The error for a scheme name that is not supported: the name follows,
/// quoted and escaped as the debug format of a string does.
pub open spec fn unsupported_scheme_message(name: Seq<char>) -> Seq<char> {
    "unsupported authn scheme: "@ + debug_quoted(name)
}

/// A string as its debug format renders it: in double quotes, with the
/// characters escaped that the format escapes.
pub uninterp spec fn debug_quoted(text: Seq<char>) -> Seq<char>;

/// The debug rendering of a string.
///
/// Calls `format!("{:?}", text)`, that is, `<str as Debug>::fmt`. The
/// result is a function of the text alone; it is named, not spelled out.
#[verifier::external_body]
fn debug_quote(text: &str) -> (res: String)
    ensures
        res@ == debug_quoted(text@),
{
    format!("{:?}", text)
}

fn digit_text(d: u8) -> (res: &'static str)
    requires
        d < 10,
    ensures
        res@ == digit(d as nat),
{
    match d {
        0 => "0",
        1 => "1",
        2 => "2",
        3 => "3",
        4 => "4",
        5 => "5",
        6 => "6",
        7 => "7",
        8 => "8",
        _ => "9",
    }
}

/// The number in decimal.
pub fn decimal_text(n: u8) -> (res: String)
    ensures
        res@ == decimal(n as nat),
{
    reveal_with_fuel(decimal, 3);
    if n < 10 {
        String::from_str(digit_text(n))
    } else if n < 100 {
        String::from_str(digit_text(n / 10)).concat(digit_text(n % 10))
    } else {
        String::from_str(digit_text(n / 100)).concat(digit_text(n / 10 % 10)).concat(
            digit_text(n % 10),
        )
    }
}

/// The least number of bits that can tell `n` values apart.
pub fn ceil_log2(n: u8) -> (res: u8)
    ensures
        is_ceil_log2(n as nat, res as nat),
        res <= 8,
{
    let mut k: u8 = 0;
    let mut p: u16 = 1;
    proof {
        lemma2_to64();
    }
    while p < n as u16
        invariant
            k <= 8,
            p == pow2(k as nat),
            k == 8 ==> p >= 256,
            forall|j: nat| j < k ==> pow2(j) < n,
        decreases 9 - k,
    {
        proof {
            lemma2_to64();
            lemma_pow2_unfold((k + 1) as nat);
            assert forall|j: nat| j < k + 1 implies pow2(j) < n by {
                if j < k {
                } else {
                    assert(j == k);
                }
            }
        }
        p = p * 2;
        k = k + 1;
    }
    k
}

impl Default for Tunables {
    fn default() -> (res: Tunables)
        ensures
            res.max_vpc_ipv4_subnet_prefix == MAX_VPC_IPV4_SUBNET_PREFIX,
    {
        Tunables { max_vpc_ipv4_subnet_prefix: MAX_VPC_IPV4_SUBNET_PREFIX }
    }
}

impl Tunables {
    /// Whether the value can be the greatest IPv4 prefix length: a subnet
    /// with that prefix has room for the reserved addresses, and the prefix
    /// is not below the least one allowed.
    pub open spec fn valid_ipv4_prefix(prefix: u8) -> bool {
        MIN_VPC_IPV4_SUBNET_PREFIX <= prefix <= absolute_max_prefix()
    }

    /// Checks a value for the greatest IPv4 prefix length.
    pub fn validate_ipv4_prefix(prefix: u8) -> (res: Result<(), InvalidTunable>)
        ensures
            res is Ok <==> Self::valid_ipv4_prefix(prefix),
            res matches Err(e) ==> e.spec_tunable() == "max_vpc_ipv4_subnet_prefix"@
                && e.spec_message() == prefix_range_message(absolute_max_prefix(), prefix as nat),
    {
        let bits = ceil_log2(NUM_INITIAL_RESERVED_IP_ADDRESSES);
        proof {
            lemma2_to64();
            if bits < 3 {
                lemma_pow2_strictly_increases(bits as nat, 3);
                if bits < 2 {
                    lemma_pow2_strictly_increases(bits as nat, 2);
                }
            }
            if bits > 3 {
                assert(pow2(3) < 6);
            }
        }
        let absolute_max: u8 = 32 - bits;
        if prefix >= MIN_VPC_IPV4_SUBNET_PREFIX && prefix <= absolute_max {
            Ok(())
        } else {
            Err(
                InvalidTunable {
                    tunable: String::from_str("max_vpc_ipv4_subnet_prefix"),
                    message: String::from_str(
                        "IPv4 subnet prefix must be in the range [0, ",
                    ).concat(decimal_text(absolute_max).as_str()).concat("], found: ").concat(
                        decimal_text(prefix).as_str(),
                    ),
                },
            )
        }
    }

    /// The tunables with these values, if the values are valid.
    pub fn try_from(unvalidated: UnvalidatedTunables) -> (res: Result<Tunables, InvalidTunable>)
        ensures
            res is Ok <==> Self::valid_ipv4_prefix(unvalidated.max_vpc_ipv4_subnet_prefix),
            res matches Ok(tunables) ==> tunables.max_vpc_ipv4_subnet_prefix
                == unvalidated.max_vpc_ipv4_subnet_prefix,
            res matches Err(e) ==> e.spec_tunable() == "max_vpc_ipv4_subnet_prefix"@
                && e.spec_message() == prefix_range_message(
                absolute_max_prefix(),
                unvalidated.max_vpc_ipv4_subnet_prefix as nat,
            ),
    {
        match Tunables::validate_ipv4_prefix(unvalidated.max_vpc_ipv4_subnet_prefix) {
            Err(e) => Err(e),
            Ok(()) => Ok(
                Tunables { max_vpc_ipv4_subnet_prefix: unvalidated.max_vpc_ipv4_subnet_prefix },
            ),
        }
    }
}

impl InvalidTunable {
    /// The name of the tunable.
    pub closed spec fn spec_tunable(&self) -> Seq<char> {
        self.tunable@
    }

    /// Why the value is not valid.
    pub closed spec fn spec_message(&self) -> Seq<char> {
        self.message@
    }

    /// The name of the tunable.
    pub fn tunable(&self) -> (res: &String)
        ensures
            res@ == self.spec_tunable(),
    {
        &self.tunable
    }

    /// Why the value is not valid.
    pub fn message(&self) -> (res: &String)
        ensures
            res@ == self.spec_message(),
    {
        &self.message
    }

    /// The error as text.
    pub fn to_string(&self) -> (res: String)
        ensures
            res@ == "invalid \""@ + self.spec_tunable() + "\": \""@ + self.spec_message() + "\""@,
    {
        String::from_str("invalid \"").concat(self.tunable.as_str()).concat("\": \"").concat(
            self.message.as_str(),
        ).concat("\"")
    }
}

impl SchemeName {
    /// The name of the scheme, as configuration files write it.
    pub open spec fn spec_name(self) -> Seq<char> {
        match self {
            SchemeName::Spoof => "spoof"@,
            SchemeName::SessionCookie => "session_cookie"@,
        }
    }

    /// The scheme with the name.
    pub fn from_str(s: &str) -> (res: Result<SchemeName, String>)
        ensures
            s@ == "spoof"@ ==> res == Ok::<SchemeName, String>(SchemeName::Spoof),
            s@ == "session_cookie"@ ==> res == Ok::<SchemeName, String>(SchemeName::SessionCookie),
            s@ != "spoof"@ && s@ != "session_cookie"@ ==> res is Err && res->Err_0@
                == unsupported_scheme_message(s@),
    {
        proof {
            reveal_strlit("spoof");
            reveal_strlit("session_cookie");
            assert("spoof"@.len() == 5);
            assert("session_cookie"@.len() == 14);
        }
        if crate::names::str_eq(s, "spoof") {
            Ok(SchemeName::Spoof)
        } else if crate::names::str_eq(s, "session_cookie") {
            Ok(SchemeName::SessionCookie)
        } else {
            Err(String::from_str("unsupported authn scheme: ").concat(debug_quote(s).as_str()))
        }
    }

    /// The name of the scheme, as configuration files write it.
    pub fn to_string(&self) -> (res: String)
        ensures
            res@ == self.spec_name(),
    {
        match self {
            SchemeName::Spoof => String::from_str("spoof"),
            SchemeName::SessionCookie => String::from_str("session_cookie"),
        }
    }
}

} // verus!
