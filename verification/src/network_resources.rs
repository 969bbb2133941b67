//! The network resources of control-plane zones: for each zone at most one
//! external IP and at most one network interface, and each external IP and
//! each interface with one zone only.

use crate::error::Uuid;
use crate::ip_net::IpAddr;
use vstd::prelude::*;

verus! {

/// An external IP address of a zone.
#[derive(Clone, Copy, Debug, PartialEq, Eq, Structural)]
pub struct OmicronZoneExternalIp {
    pub id: Uuid,
    pub ip: IpAddr,
}

/// A network interface of a zone.
#[derive(Clone, Copy, Debug, PartialEq, Eq, Structural)]
pub struct OmicronZoneNic {
    pub id: Uuid,
    pub mac: u64,
    pub ip: IpAddr,
    pub slot: u8,
    pub primary: bool,
}

/// Why a network resource was not added.
#[derive(Clone, Copy, Debug, PartialEq, Eq, Structural)]
pub enum AddNetworkResourceError {
    /// The zone has an external IP already, or the IP belongs to another
    /// zone.
    DuplicateOmicronZoneExternalIp { zone_id: Uuid, ip: OmicronZoneExternalIp },
    /// The zone has an interface already, or the interface belongs to
    /// another zone.
    DuplicateOmicronZoneNic { zone_id: Uuid, nic: OmicronZoneNic },
}

/// The network resources of the zones.
#[derive(Debug, PartialEq, Eq)]
pub struct OmicronZoneNetworkResources {
    external_ips: Vec<(Uuid, OmicronZoneExternalIp)>,
    nics: Vec<(Uuid, OmicronZoneNic)>,
}

/// The two entries share the zone, the id or the address.
pub open spec fn ips_clash(a: (Uuid, OmicronZoneExternalIp), b: (Uuid, OmicronZoneExternalIp))
    -> bool {
    a.0 == b.0 || a.1.id == b.1.id || a.1.ip == b.1.ip
}

/// The two entries share the zone, the id or the MAC address.
pub open spec fn nics_clash(a: (Uuid, OmicronZoneNic), b: (Uuid, OmicronZoneNic)) -> bool {
    a.0 == b.0 || a.1.id == b.1.id || a.1.mac == b.1.mac
}

/// No two entries clash.
pub open spec fn ips_distinct(entries: Seq<(Uuid, OmicronZoneExternalIp)>) -> bool {
    forall|i: int, j: int|
        0 <= i < j < entries.len() ==> !ips_clash(#[trigger] entries[i], #[trigger] entries[j])
}

/// No two entries clash.
pub open spec fn nics_distinct(entries: Seq<(Uuid, OmicronZoneNic)>) -> bool {
    forall|i: int, j: int|
        0 <= i < j < entries.len() ==> !nics_clash(#[trigger] entries[i], #[trigger] entries[j])
}

/// Some entry clashes with the given one.
pub open spec fn ip_clashes(
    entries: Seq<(Uuid, OmicronZoneExternalIp)>,
    entry: (Uuid, OmicronZoneExternalIp),
) -> bool {
    exists|i: int| 0 <= i < entries.len() && ips_clash(#[trigger] entries[i], entry)
}

/// Some entry clashes with the given one.
pub open spec fn nic_clashes(entries: Seq<(Uuid, OmicronZoneNic)>, entry: (Uuid, OmicronZoneNic))
    -> bool {
    exists|i: int| 0 <= i < entries.len() && nics_clash(#[trigger] entries[i], entry)
}

/// A copy of the list.
fn copy_of<T: Copy>(list: &Vec<T>) -> (res: Vec<T>)
    ensures
        res@ == list@,
{
    let mut res: Vec<T> = Vec::new();
    let mut i: usize = 0;
    while i < list.len()
        invariant
            i <= list.len(),
            res@ == list@.take(i as int),
        decreases list.len() - i,
    {
        res.push(list[i]);
        assert(list@.take(i + 1) == list@.take(i as int).push(list@[i as int]));
        i += 1;
    }
    assert(list@.take(list.len() as int) == list@);
    res
}

impl OmicronZoneNetworkResources {
    #[verifier::type_invariant]
    closed spec fn inv(self) -> bool {
        ips_distinct(self.external_ips@) && nics_distinct(self.nics@)
    }

    /// The external IPs, each with its zone, in the order in which they
    /// were added.
    pub closed spec fn external_ips(self) -> Seq<(Uuid, OmicronZoneExternalIp)> {
        self.external_ips@
    }

    /// The interfaces, each with its zone, in the order in which they were
    /// added.
    pub closed spec fn nics(self) -> Seq<(Uuid, OmicronZoneNic)> {
        self.nics@
    }

    /// No resources.
    pub fn new() -> (res: OmicronZoneNetworkResources)
        ensures
            res.external_ips().len() == 0,
            res.nics().len() == 0,
    {
        OmicronZoneNetworkResources { external_ips: Vec::new(), nics: Vec::new() }
    }

    /// Adds an external IP of a zone. Adding what is there already changes
    /// nothing.
    #[verifier::loop_isolation(false)]
    pub fn add_external_ip(&mut self, zone_id: Uuid, ip: OmicronZoneExternalIp) -> (res: Result<
        (),
        AddNetworkResourceError,
    >)
        ensures
            ips_distinct(final(self).external_ips()),
            nics_distinct(final(self).nics()),
            final(self).nics() == old(self).nics(),
            old(self).external_ips().contains((zone_id, ip)) ==> res is Ok && final(self).external_ips() == old(self).external_ips(),
            !old(self).external_ips().contains((zone_id, ip)) && ip_clashes(
                old(self).external_ips(),
                (zone_id, ip),
            ) ==> res == Err::<(), AddNetworkResourceError>(
                AddNetworkResourceError::DuplicateOmicronZoneExternalIp { zone_id, ip },
            ) && final(self).external_ips() == old(self).external_ips(),
            !ip_clashes(old(self).external_ips(), (zone_id, ip)) ==> res is Ok && final(self).external_ips() == old(self).external_ips().push((zone_id, ip)),
    {
        proof {
            use_type_invariant(&*self);
        }
        let mut clash = false;
        let mut i: usize = 0;
        while i < self.external_ips.len()
            invariant
                i <= self.external_ips.len(),
                *self == *old(self),
                forall|j: int| 0 <= j < i ==> (#[trigger] self.external_ips@[j]) != (zone_id, ip),
                clash == exists|j: int|
                    0 <= j < i && ips_clash(#[trigger] self.external_ips@[j], (zone_id, ip)),
            decreases self.external_ips.len() - i,
        {
            let (zone, entry) = self.external_ips[i];
            if zone == zone_id && entry.id == ip.id && entry.ip == ip.ip {
                assert(self.external_ips@[i as int] == (zone_id, ip));
                return Ok(());
            }
            if zone == zone_id || entry.id == ip.id || entry.ip == ip.ip {
                clash = true;
            }
            i += 1;
        }
        if clash {
            return Err(AddNetworkResourceError::DuplicateOmicronZoneExternalIp { zone_id, ip });
        }
        let mut external_ips = copy_of(&self.external_ips);
        let nics = copy_of(&self.nics);
        assert(external_ips@ =~= self.external_ips@);
        assert(nics@ =~= self.nics@);
        external_ips.push((zone_id, ip));
        *self = OmicronZoneNetworkResources { external_ips, nics };
        Ok(())
    }

    /// Adds a network interface of a zone. Adding what is there already
    /// changes nothing.
    #[verifier::loop_isolation(false)]
    pub fn add_nic(&mut self, zone_id: Uuid, nic: OmicronZoneNic) -> (res: Result<
        (),
        AddNetworkResourceError,
    >)
        ensures
            ips_distinct(final(self).external_ips()),
            nics_distinct(final(self).nics()),
            final(self).external_ips() == old(self).external_ips(),
            old(self).nics().contains((zone_id, nic)) ==> res is Ok && final(self).nics() == old(self).nics(),
            !old(self).nics().contains((zone_id, nic)) && nic_clashes(
                old(self).nics(),
                (zone_id, nic),
            ) ==> res == Err::<(), AddNetworkResourceError>(
                AddNetworkResourceError::DuplicateOmicronZoneNic { zone_id, nic },
            ) && final(self).nics() == old(self).nics(),
            !nic_clashes(old(self).nics(), (zone_id, nic)) ==> res is Ok && final(self).nics()
                == old(self).nics().push((zone_id, nic)),
    {
        proof {
            use_type_invariant(&*self);
        }
        let mut clash = false;
        let mut i: usize = 0;
        while i < self.nics.len()
            invariant
                i <= self.nics.len(),
                *self == *old(self),
                forall|j: int| 0 <= j < i ==> (#[trigger] self.nics@[j]) != (zone_id, nic),
                clash == exists|j: int|
                    0 <= j < i && nics_clash(#[trigger] self.nics@[j], (zone_id, nic)),
            decreases self.nics.len() - i,
        {
            let (zone, entry) = self.nics[i];
            if zone == zone_id && entry == nic {
                assert(self.nics@[i as int] == (zone_id, nic));
                return Ok(());
            }
            if zone == zone_id || entry.id == nic.id || entry.mac == nic.mac {
                clash = true;
            }
            i += 1;
        }
        if clash {
            return Err(AddNetworkResourceError::DuplicateOmicronZoneNic { zone_id, nic });
        }
        let external_ips = copy_of(&self.external_ips);
        let mut nics = copy_of(&self.nics);
        assert(external_ips@ =~= self.external_ips@);
        assert(nics@ =~= self.nics@);
        nics.push((zone_id, nic));
        *self = OmicronZoneNetworkResources { external_ips, nics };
        Ok(())
    }

    /// A copy of the resources.
    pub fn duplicate(&self) -> (res: OmicronZoneNetworkResources)
        ensures
            res.external_ips() == self.external_ips(),
            res.nics() == self.nics(),
    {
        proof {
            use_type_invariant(self);
        }
        let external_ips = copy_of(&self.external_ips);
        let nics = copy_of(&self.nics);
        assert(external_ips@ =~= self.external_ips@);
        assert(nics@ =~= self.nics@);
        OmicronZoneNetworkResources { external_ips, nics }
    }
}

} // verus!
