//! Guard shared by every code path that turns an untrusted URL into an
//! outbound request: addresses in internal, translation and special-purpose
//! ranges are rejected, so untrusted metadata cannot make the engine probe
//! the local host or network.

use vstd::prelude::*;

verus! {

/// An IP address as plain values: four octets, or eight 16-bit segments.
#[derive(Clone, Copy, Debug, PartialEq, Eq)]
pub enum IpAddress {
    V4([u8; 4]),
    V6([u16; 8]),
}

/// The IPv4 ranges that are never a legitimate public destination.
pub open spec fn v4_blocked(o: Seq<u8>) -> bool {
    ||| o[0] == 127                                   // loopback 127.0.0.0/8
    ||| o[0] == 10                                    // private 10.0.0.0/8
    ||| (o[0] == 172 && 16 <= o[1] <= 31)             // private 172.16.0.0/12
    ||| (o[0] == 192 && o[1] == 168)                  // private 192.168.0.0/16
    ||| (o[0] == 169 && o[1] == 254)                  // link-local 169.254.0.0/16
    ||| o[0] == 0                                     // "this network" 0.0.0.0/8
    ||| 224 <= o[0] <= 239                            // multicast 224.0.0.0/4
    ||| (o[0] == 100 && 64 <= o[1] <= 127)            // shared / CGNAT 100.64.0.0/10
    ||| (o[0] == 192 && o[1] == 0 && o[2] == 0)       // IETF protocol 192.0.0.0/24
    ||| (o[0] == 198 && 18 <= o[1] <= 19)             // benchmarking 198.18.0.0/15
    ||| o[0] >= 240                                   // reserved 240.0.0.0/4, broadcast
}

/// The IPv4 address embedded in an IPv4-mapped (`::ffff:a.b.c.d`) or
/// IPv4-compatible (`::a.b.c.d`) IPv6 address.
pub open spec fn v6_embedded_v4(s: Seq<u16>) -> Option<Seq<u8>> {
    if s[0] == 0 && s[1] == 0 && s[2] == 0 && s[3] == 0 && s[4] == 0
        && (s[5] == 0 || s[5] == 0xffff) {
        Some(seq![(s[6] / 256) as u8, (s[6] % 256) as u8, (s[7] / 256) as u8, (s[7] % 256) as u8])
    } else {
        None
    }
}

/// The IPv6 ranges (outside the embedded-IPv4 forms) that are never a
/// legitimate public destination.
pub open spec fn v6_blocked(s: Seq<u16>) -> bool {
    let zero_prefix = s[0] == 0 && s[1] == 0 && s[2] == 0 && s[3] == 0 && s[4] == 0 && s[5] == 0
        && s[6] == 0;
    ||| (zero_prefix && s[7] == 1)                    // loopback ::1
    ||| (zero_prefix && s[7] == 0)                    // unspecified ::
    ||| s[0] >= 0xff00                                // multicast ff00::/8
    ||| 0xfc00 <= s[0] <= 0xfdff                      // unique local fc00::/7
    ||| 0xfe80 <= s[0] <= 0xfebf                      // link local fe80::/10
    ||| (s[0] == 0x64 && s[1] == 0xff9b)              // NAT64 64:ff9b::/32
}

/// Whether an address may be contacted on behalf of untrusted input.
pub open spec fn spec_is_safe_ip(ip: IpAddress) -> bool {
    match ip {
        IpAddress::V4(o) => !v4_blocked(o@),
        IpAddress::V6(s) => match v6_embedded_v4(s@) {
            Some(o) => !v4_blocked(o),
            None => !v6_blocked(s@),
        },
    }
}

fn v4_octets_safe(o: &[u8; 4]) -> (r: bool)
    ensures
        r == !v4_blocked(o@),
{
    let a = o[0];
    let b = o[1];
    let c = o[2];
    let blocked = a == 127 || a == 10 || (a == 172 && 16 <= b && b <= 31) || (a == 192 && b
        == 168) || (a == 169 && b == 254) || a == 0 || (224 <= a && a <= 239) || (a == 100 && 64
        <= b && b <= 127) || (a == 192 && b == 0 && c == 0) || (a == 198 && 18 <= b && b <= 19)
        || a >= 240;
    !blocked
}

/// SSRF guard: `true` only for publicly routable addresses. IPv4-mapped and
/// IPv4-compatible IPv6 addresses are judged by the IPv4 address they embed.
pub fn is_safe_ip(ip: IpAddress) -> (r: bool)
    ensures
        r == spec_is_safe_ip(ip),
{
    match ip {
        IpAddress::V4(o) => v4_octets_safe(&o),
        IpAddress::V6(s) => {
            if s[0] == 0 && s[1] == 0 && s[2] == 0 && s[3] == 0 && s[4] == 0 && (s[5] == 0 || s[5]
                == 0xffff) {
                let o: [u8; 4] = [
                    (s[6] / 256) as u8,
                    (s[6] % 256) as u8,
                    (s[7] / 256) as u8,
                    (s[7] % 256) as u8,
                ];
                proof {
                    assert(o@ =~= v6_embedded_v4(s@)->0);
                }
                v4_octets_safe(&o)
            } else {
                let s0 = s[0];
                let zero_prefix = s[1] == 0 && s[2] == 0 && s[3] == 0 && s[4] == 0 && s[5] == 0
                    && s[6] == 0 && s0 == 0;
                let blocked = (zero_prefix && s[7] == 1) || (zero_prefix && s[7] == 0) || s0
                    >= 0xff00 || (0xfc00 <= s0 && s0 <= 0xfdff) || (0xfe80 <= s0 && s0 <= 0xfebf)
                    || (s0 == 0x64 && s[1] == 0xff9b);
                !blocked
            }
        },
    }
}


/// Index of the first address that `is_safe_ip` accepts, if any: the
/// album-art fetch pins its request to that address.
pub fn first_safe_ip(addrs: &[IpAddress]) -> (r: Option<usize>)
    ensures
        match r {
            Some(i) => i < addrs@.len() && spec_is_safe_ip(addrs@[i as int]) && forall|j: int|
                0 <= j < i ==> !spec_is_safe_ip(#[trigger] addrs@[j]),
            None => forall|j: int| 0 <= j < addrs@.len() ==> !spec_is_safe_ip(#[trigger] addrs@[j]),
        },
{
    let mut i: usize = 0;
    while i < addrs.len()
        invariant
            i <= addrs@.len(),
            forall|j: int| 0 <= j < i ==> !spec_is_safe_ip(#[trigger] addrs@[j]),
        decreases addrs@.len() - i,
    {
        if is_safe_ip(addrs[i]) {
            return Some(i);
        }
        i = i + 1;
    }
    None
}

/// Whether a host may be handed to a client that resolves it again itself
/// (the canvas proxy and the canvas video stream): it must have resolved to
/// at least one address, and every address must be safe, which closes the
/// mixed-record variant of DNS rebinding.
pub fn all_resolved_safe(addrs: &[IpAddress]) -> (r: bool)
    ensures
        r == (addrs@.len() > 0 && forall|j: int|
            0 <= j < addrs@.len() ==> spec_is_safe_ip(#[trigger] addrs@[j])),
{
    if addrs.len() == 0 {
        return false;
    }
    let mut i: usize = 0;
    while i < addrs.len()
        invariant
            i <= addrs@.len(),
            forall|j: int| 0 <= j < i ==> spec_is_safe_ip(#[trigger] addrs@[j]),
        decreases addrs@.len() - i,
    {
        if !is_safe_ip(addrs[i]) {
            return false;
        }
        i = i + 1;
    }
    true
}

/// Law: an IPv4-mapped IPv6 address (`::ffff:a.b.c.d`) is accepted exactly
/// when the IPv4 address it carries is.
pub proof fn mapped_v6_judged_as_v4(o: [u8; 4], s: [u16; 8])
    requires
        s@[0] == 0 && s@[1] == 0 && s@[2] == 0 && s@[3] == 0 && s@[4] == 0,
        s@[5] == 0xffff,
        s@[6] == o@[0] as int * 256 + o@[1] as int,
        s@[7] == o@[2] as int * 256 + o@[3] as int,
    ensures
        spec_is_safe_ip(IpAddress::V6(s)) == spec_is_safe_ip(IpAddress::V4(o)),
{
    let e = v6_embedded_v4(s@)->0;
    assert(e =~= o@);
}

/// Law: no IPv4 address in an internal, shared, special-purpose or
/// reserved range is ever accepted, whatever its other octets.
pub proof fn internal_v4_never_safe(o: [u8; 4])
    requires
        o@[0] == 127 || o@[0] == 10 || (o@[0] == 172 && 16 <= o@[1] <= 31) || (o@[0] == 192 && o@[1]
            == 168) || (o@[0] == 169 && o@[1] == 254) || o@[0] == 0 || (224 <= o@[0] <= 239) || (
        o@[0] == 100 && 64 <= o@[1] <= 127) || (o@[0] == 192 && o@[1] == 0 && o@[2] == 0) || (
        o@[0] == 198 && 18 <= o@[1] <= 19) || o@[0] >= 240,
    ensures
        !spec_is_safe_ip(IpAddress::V4(o)),
{
}

/// Law: no IPv6 address in the loopback, unique-local, link-local,
/// multicast or NAT64 ranges is ever accepted; in particular a NAT64
/// address cannot smuggle a request to any IPv4 target.
pub proof fn internal_v6_never_safe(s: [u16; 8])
    requires
        (s@[0] == 0 && s@[1] == 0 && s@[2] == 0 && s@[3] == 0 && s@[4] == 0 && s@[5] == 0 && s@[6]
            == 0 && s@[7] <= 1) || (0xfc00 <= s@[0] <= 0xfdff) || (0xfe80 <= s@[0] <= 0xfebf)
            || s@[0] >= 0xff00 || (s@[0] == 0x64 && s@[1] == 0xff9b),
    ensures
        !spec_is_safe_ip(IpAddress::V6(s)),
{
    if s@[0] == 0 && s@[1] == 0 && s@[2] == 0 && s@[3] == 0 && s@[4] == 0 && s@[5] == 0 {
        assert(v6_embedded_v4(s@) is Some);
        assert((s@[6] / 256) as u8 == 0);
    }
}

} // verus!
