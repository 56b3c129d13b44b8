//! IP addresses as plain values, and the address classes that the scan
//! policy looks at.

use vstd::prelude::*;

verus! {

/// An IPv4 address by its four octets, or an IPv6 address by its eight
/// 16-bit segments, both in network order.
#[derive(Clone, Copy, Debug)]
pub enum IpAddress {
    V4([u8; 4]),
    V6([u16; 8]),
}

/// An IPv6 address of the IPv4-mapped form `::ffff:a.b.c.d`: five zero
/// segments, then `0xffff`, then the IPv4 address in the last two.
pub open spec fn is_v4_mapped(s: Seq<u16>) -> bool {
    s[0] == 0 && s[1] == 0 && s[2] == 0 && s[3] == 0 && s[4] == 0 && s[5] == 0xffff
}

/// The IPv4 octets that `ip` stands for: those of an IPv4 address, or
/// those embedded in an IPv4-mapped IPv6 address; none for any other IPv6
/// address. The policy classifies a mapped address as the IPv4 address it
/// carries, so that `::ffff:127.0.0.1` is loopback like `127.0.0.1`.
pub open spec fn ipv4_octets(ip: IpAddress) -> Option<Seq<u8>> {
    match ip {
        IpAddress::V4(o) => Some(o@),
        IpAddress::V6(s) => if is_v4_mapped(s@) {
            Some(seq![(s@[6] / 256) as u8, (s@[6] % 256) as u8, (s@[7] / 256) as u8, (s@[7] % 256) as u8])
        } else {
            None
        },
    }
}

/// Loopback: `127.0.0.0/8` for IPv4 (also when IPv4-mapped), `::1` for
/// other IPv6.
pub open spec fn spec_is_loopback(ip: IpAddress) -> bool {
    match ipv4_octets(ip) {
        Some(o) => o[0] == 127,
        None => match ip {
            IpAddress::V6(s) => s@[0] == 0 && s@[1] == 0 && s@[2] == 0 && s@[3] == 0 && s@[4] == 0
                && s@[5] == 0 && s@[6] == 0 && s@[7] == 1,
            IpAddress::V4(_) => false,
        },
    }
}

/// Multicast: `224.0.0.0/4` for IPv4 (also when IPv4-mapped), `ff00::/8`
/// for other IPv6.
pub open spec fn spec_is_multicast(ip: IpAddress) -> bool {
    match ipv4_octets(ip) {
        Some(o) => 224 <= o[0] && o[0] <= 239,
        None => match ip {
            IpAddress::V6(s) => 0xff00 <= s@[0],
            IpAddress::V4(_) => false,
        },
    }
}

/// Private or link-local: `10.0.0.0/8`, `172.16.0.0/12`, `192.168.0.0/16`
/// and `169.254.0.0/16` for IPv4 (also when IPv4-mapped); `fc00::/7`
/// (unique local) and `fe80::/10` (link-local) for other IPv6.
pub open spec fn spec_is_private(ip: IpAddress) -> bool {
    match ipv4_octets(ip) {
        Some(o) => {
            ||| o[0] == 10
            ||| (o[0] == 172 && 16 <= o[1] && o[1] <= 31)
            ||| (o[0] == 192 && o[1] == 168)
            ||| (o[0] == 169 && o[1] == 254)
        },
        None => match ip {
            IpAddress::V6(s) => {
                ||| (0xfc00 <= s@[0] && s@[0] <= 0xfdff)
                ||| (0xfe80 <= s@[0] && s@[0] <= 0xfebf)
            },
            IpAddress::V4(_) => false,
        },
    }
}

impl IpAddress {
    /// The IPv4 octets that this address stands for, if any.
    pub fn ipv4_octets(&self) -> (r: Option<(u8, u8, u8, u8)>)
        ensures
            r is Some <==> ipv4_octets(*self) is Some,
            r matches Some(t) ==> ipv4_octets(*self)->0 == seq![t.0, t.1, t.2, t.3],
    {
        match self {
            IpAddress::V4(o) => {
                assert(o@ =~= seq![o[0], o[1], o[2], o[3]]);
                Some((o[0], o[1], o[2], o[3]))
            },
            IpAddress::V6(s) => {
                if s[0] == 0 && s[1] == 0 && s[2] == 0 && s[3] == 0 && s[4] == 0 && s[5] == 0xffff {
                    let hi: u16 = s[6];
                    let lo: u16 = s[7];
                    Some(((hi / 256) as u8, (hi % 256) as u8, (lo / 256) as u8, (lo % 256) as u8))
                } else {
                    None
                }
            },
        }
    }

    /// Whether this is a loopback address.
    pub fn is_loopback(&self) -> (b: bool)
        ensures
            b == spec_is_loopback(*self),
    {
        match self.ipv4_octets() {
            Some(t) => t.0 == 127,
            None => match self {
                IpAddress::V6(s) => s[0] == 0 && s[1] == 0 && s[2] == 0 && s[3] == 0 && s[4] == 0
                    && s[5] == 0 && s[6] == 0 && s[7] == 1,
                IpAddress::V4(_) => false,
            },
        }
    }

    /// Whether this is a multicast address.
    pub fn is_multicast(&self) -> (b: bool)
        ensures
            b == spec_is_multicast(*self),
    {
        match self.ipv4_octets() {
            Some(t) => t.0 >= 224 && t.0 <= 239,
            None => match self {
                IpAddress::V6(s) => {
                    let seg: u16 = s[0];
                    assert((seg & 0xff00u16) == 0xff00u16 <==> 0xff00u16 <= seg) by (bit_vector);
                    (seg & 0xff00) == 0xff00
                },
                IpAddress::V4(_) => false,
            },
        }
    }
}

/// Whether `ip` is in one of the private or link-local ranges.
pub fn is_private(ip: IpAddress) -> (b: bool)
    ensures
        b == spec_is_private(ip),
{
    match ip.ipv4_octets() {
        Some(t) => {
            t.0 == 10 || (t.0 == 172 && 16 <= t.1 && t.1 <= 31) || (t.0 == 192 && t.1 == 168)
                || (t.0 == 169 && t.1 == 254)
        },
        None => match ip {
            IpAddress::V6(s) => {
                let seg: u16 = s[0];
                assert((seg & 0xfe00u16) == 0xfc00u16 <==> (0xfc00u16 <= seg && seg <= 0xfdffu16))
                    by (bit_vector);
                assert((seg & 0xffc0u16) == 0xfe80u16 <==> (0xfe80u16 <= seg && seg <= 0xfebfu16))
                    by (bit_vector);
                (seg & 0xfe00) == 0xfc00 || (seg & 0xffc0) == 0xfe80
            },
            IpAddress::V4(_) => false,
        },
    }
}

/// An IPv4-mapped IPv6 address falls in exactly the classes of the IPv4
/// address it carries.
pub proof fn lemma_mapped_classified_as_ipv4(s: [u16; 8], o: [u8; 4])
    requires
        is_v4_mapped(s@),
        o@[0] == s@[6] / 256,
        o@[1] == s@[6] % 256,
        o@[2] == s@[7] / 256,
        o@[3] == s@[7] % 256,
    ensures
        spec_is_loopback(IpAddress::V6(s)) == spec_is_loopback(IpAddress::V4(o)),
        spec_is_multicast(IpAddress::V6(s)) == spec_is_multicast(IpAddress::V4(o)),
        spec_is_private(IpAddress::V6(s)) == spec_is_private(IpAddress::V4(o)),
{
}

/// The classes of an IPv4 address a.b.c.d, on its octets: loopback is
/// a == 127; multicast is 224 <= a <= 239; private is a == 10, or a == 172
/// and 16 <= b <= 31, or a == 192 and b == 168, or a == 169 and b == 254.
pub proof fn lemma_ipv4_classes(o: [u8; 4])
    ensures
        spec_is_loopback(IpAddress::V4(o)) <==> o[0] == 127,
        spec_is_multicast(IpAddress::V4(o)) <==> 224 <= o[0] && o[0] <= 239,
        spec_is_private(IpAddress::V4(o)) <==> (o[0] == 10 || (o[0] == 172 && 16 <= o[1] && o[1] <= 31)
            || (o[0] == 192 && o[1] == 168) || (o[0] == 169 && o[1] == 254)),
{
}

/// The classes of an IPv6 address that is not IPv4-mapped, on its first
/// segment: loopback is `::1` alone; multicast is `ff00::/8`; private is
/// `fc00::/7` or `fe80::/10`.
pub proof fn lemma_ipv6_classes(s: [u16; 8])
    requires
        !(s[0] == 0 && s[1] == 0 && s[2] == 0 && s[3] == 0 && s[4] == 0 && s[5] == 0xffff),
    ensures
        spec_is_loopback(IpAddress::V6(s)) <==> (s[0] == 0 && s[1] == 0 && s[2] == 0 && s[3] == 0
            && s[4] == 0 && s[5] == 0 && s[6] == 0 && s[7] == 1),
        spec_is_multicast(IpAddress::V6(s)) <==> s[0] >= 0xff00,
        spec_is_private(IpAddress::V6(s)) <==> ((0xfc00 <= s[0] && s[0] <= 0xfdff) || (0xfe80 <= s[0] && s[0] <= 0xfebf)),
{
}

} // verus!
