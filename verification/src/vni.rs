//! Virtual network identifiers and the windowed search for a free one.
//!
//! A VNI is a 24-bit value. The first 1024 values are reserved for the
//! system; the rest is the guest domain. A search for a free guest VNI
//! walks the guest domain cyclically from a seed, one window of
//! [`MAX_VNI_SEARCH_RANGE_SIZE`] candidates at a time.

use crate::error::Error;
use vstd::prelude::*;

verus! {

/// The largest VNI.
pub const MAX_VNI: u32 = 16_777_215;

/// The smallest VNI that a guest VPC may have.
pub const MIN_GUEST_VNI: u32 = 1024;

/// The VNI of the built-in services VPC.
pub const SERVICES_VNI: u32 = 100;

/// The number of candidates examined by one insert.
pub const MAX_VNI_SEARCH_RANGE_SIZE: u32 = 2048;

/// The number of guest VNIs.
pub const GUEST_VNI_COUNT: u32 = 16_776_192;

/// The number of windows that cover the guest domain once.
pub const VNI_SEARCH_WINDOWS: u32 = 8192;

/// A virtual network identifier.
#[derive(Clone, Copy, Debug, PartialEq, Eq, Hash, PartialOrd, Ord, Structural)]
pub struct Vni(u32);

impl Vni {
    #[verifier::type_invariant]
    closed spec fn in_range(self) -> bool {
        self.0 <= MAX_VNI
    }

    /// The number that this VNI is.
    pub closed spec fn as_u32(self) -> u32 {
        self.0
    }

    /// Whether the number is a VNI at all.
    pub open spec fn valid(self) -> bool {
        self.as_u32() <= MAX_VNI
    }

    /// Whether this VNI lies in the guest domain.
    pub open spec fn spec_is_guest(self) -> bool {
        MIN_GUEST_VNI <= self.as_u32() <= MAX_VNI
    }

    /// The VNI with the given number, if the number fits in 24 bits.
    pub fn try_from(value: u32) -> (res: Result<Vni, Error>)
        ensures
            res is Ok <==> value <= MAX_VNI,
            res matches Ok(vni) ==> vni.as_u32() == value,
            res matches Err(e) ==> e@ == Vni::out_of_range(),
    {
        if value <= MAX_VNI {
            Ok(Vni(value))
        } else {
            Err(Error::invalid_value("VNI", "VNI out of range"))
        }
    }

    /// The error for a number that is no VNI.
    pub open spec fn out_of_range() -> crate::error::ErrorView {
        crate::error::ErrorView::InvalidValue { label: "VNI"@, message: "VNI out of range"@ }
    }

    /// The VNI of the built-in services VPC.
    pub fn services() -> (res: Vni)
        ensures
            res.as_u32() == SERVICES_VNI,
    {
        Vni(SERVICES_VNI)
    }

    /// The number that this VNI is.
    pub fn to_u32(self) -> (res: u32)
        ensures
            res == self.as_u32(),
            res <= MAX_VNI,
    {
        proof {
            use_type_invariant(&self);
        }
        self.0
    }

    /// The `k`-th candidate of a search seeded at `seed`.
    pub fn search_candidate(seed: Vni, k: u32) -> (res: Vni)
        requires
            k <= MAX_VNI,
        ensures
            res.as_u32() == search_candidate(seed.as_u32(), k as int),
            res.spec_is_guest(),
    {
        proof {
            use_type_invariant(&seed);
        }
        let offset: u32 = if seed.0 < MIN_GUEST_VNI {
            0
        } else {
            seed.0 - MIN_GUEST_VNI
        };
        Vni(MIN_GUEST_VNI + (offset + k) % GUEST_VNI_COUNT)
    }

    /// Two VNIs that are the same number are the same VNI.
    pub proof fn lemma_same_number(self, other: Vni)
        ensures
            self.as_u32() == other.as_u32() <==> self == other,
    {
    }

    /// Whether this VNI lies in the guest domain.
    pub fn is_guest(self) -> (res: bool)
        ensures
            res == self.spec_is_guest(),
    {
        proof {
            use_type_invariant(&self);
        }
        self.0 >= MIN_GUEST_VNI
    }
}

/// Position of a VNI in the guest domain; a reserved VNI counts as the
/// first guest VNI, so that a search never proposes a reserved value.
pub open spec fn guest_offset(vni: u32) -> int {
    if vni < MIN_GUEST_VNI {
        0
    } else {
        vni - MIN_GUEST_VNI
    }
}

/// The guest VNI at a position, the domain taken cyclically.
pub open spec fn guest_at(offset: int) -> int {
    1024 + offset % 16_776_192
}

/// The `k`-th candidate of a search seeded at `seed`.
pub open spec fn search_candidate(seed: u32, k: int) -> int {
    guest_at(guest_offset(seed) + k)
}

/// The first candidate of the `i`-th window of a search seeded at `seed`.
pub open spec fn window_start(seed: u32, i: int) -> int {
    search_candidate(seed, i * 2048)
}

/// Candidates are guest VNIs.
pub proof fn lemma_candidate_is_guest(seed: u32, k: int)
    requires
        seed <= MAX_VNI,
        0 <= k,
    ensures
        MIN_GUEST_VNI <= search_candidate(seed, k) <= MAX_VNI,
{
}

/// The `j`-th candidate of the `i`-th window is the candidate at position
/// `i * 2048 + j` of the whole search, and the `j`-th candidate of a search
/// seeded at that window's start.
pub proof fn lemma_window_candidate(seed: u32, i: int, j: int)
    requires
        seed <= MAX_VNI,
        0 <= i,
        0 <= j,
    ensures
        search_candidate(window_start(seed, i) as u32, j) == search_candidate(seed, i * 2048 + j),
{
}

/// The windows of one search cover the guest domain: every guest VNI is a
/// candidate of one of the [`VNI_SEARCH_WINDOWS`] windows, whatever the seed.
pub proof fn lemma_search_covers_guest_domain(seed: u32, vni: u32) -> (at: (int, int))
    requires
        seed <= MAX_VNI,
        MIN_GUEST_VNI <= vni <= MAX_VNI,
    ensures
        0 <= at.0 < VNI_SEARCH_WINDOWS,
        0 <= at.1 < MAX_VNI_SEARCH_RANGE_SIZE,
        search_candidate(seed, at.0 * 2048 + at.1) == vni,
{
    let d = (vni - MIN_GUEST_VNI - guest_offset(seed)) % 16_776_192;
    (d / 2048, d % 2048)
}

/// Yields the first candidate of each window of a search, in order.
///
/// The iterator holds nothing but its cursor: a search is restarted by
/// making a new iterator from the same seed.
#[derive(Clone, Copy, Debug)]
pub struct VniSearchIter {
    start: u32,
    current: u32,
    yielded: u32,
}

impl VniSearchIter {
    #[verifier::type_invariant]
    closed spec fn inv(self) -> bool {
        &&& self.start <= MAX_VNI
        &&& self.yielded <= VNI_SEARCH_WINDOWS
        &&& self.current == window_start(self.start, self.yielded as int)
    }

    /// The seed of the search.
    pub closed spec fn seed(self) -> u32 {
        self.start
    }

    /// The number of windows yielded so far.
    pub closed spec fn position(self) -> nat {
        self.yielded as nat
    }

    /// A search seeded at the given VNI.
    pub fn new(start: Vni) -> (res: VniSearchIter)
        ensures
            res.seed() == start.as_u32(),
            res.position() == 0,
    {
        let seed = start.to_u32();
        let current = if seed < MIN_GUEST_VNI {
            MIN_GUEST_VNI
        } else {
            seed
        };
        VniSearchIter { start: seed, current, yielded: 0 }
    }

    /// The first candidate of the next window, or `None` once the windows
    /// have covered the guest domain.
    pub fn next(&mut self) -> (res: Option<Vni>)
        ensures
            final(self).seed() == old(self).seed(),
            old(self).position() < VNI_SEARCH_WINDOWS ==> final(self).position() == old(
                self,
            ).position() + 1,
            old(self).position() < VNI_SEARCH_WINDOWS ==> res is Some && res->0.as_u32()
                == window_start(old(self).seed(), old(self).position() as int),
            old(self).position() >= VNI_SEARCH_WINDOWS ==> res is None && final(self).position()
                == old(self).position(),
    {
        proof {
            use_type_invariant(&*self);
        }
        if self.yielded >= VNI_SEARCH_WINDOWS {
            return None;
        }
        let current = self.current;
        let mut next: u32 = current + MAX_VNI_SEARCH_RANGE_SIZE;
        if next > MAX_VNI {
            next = next - GUEST_VNI_COUNT;
        }
        let yielded: u32 = self.yielded + 1;
        *self = VniSearchIter { start: self.start, current: next, yielded };
        Some(Vni(current))
    }
}

} // verus!
