//! Network addresses as plain values, the ranges a webhook may never be sent
//! to, and the choice of the address a request is pinned to.

use vstd::prelude::*;

verus! {

/// An IP address: the four octets of an IPv4 address or the eight 16-bit
/// segments of an IPv6 address, most significant first.
#[derive(Clone, Copy, Debug, PartialEq, Eq)]
pub enum IpAddress {
    V4([u8; 4]),
    V6([u16; 8]),
}

/// A resolved candidate: an address and a port.
#[derive(Clone, Copy, Debug, PartialEq, Eq)]
pub struct SocketAddress {
    pub ip: IpAddress,
    pub port: u16,
}

/// 10.0.0.0/8, 172.16.0.0/12 and 192.168.0.0/16.
pub open spec fn v4_is_private(o: [u8; 4]) -> bool {
    o[0] == 10 || (o[0] == 172 && 16 <= o[1] <= 31) || (o[0] == 192 && o[1] == 168)
}

/// 127.0.0.0/8.
pub open spec fn v4_is_loopback(o: [u8; 4]) -> bool {
    o[0] == 127
}

/// 169.254.0.0/16.
pub open spec fn v4_is_link_local(o: [u8; 4]) -> bool {
    o[0] == 169 && o[1] == 254
}

/// 0.0.0.0.
pub open spec fn v4_is_unspecified(o: [u8; 4]) -> bool {
    o[0] == 0 && o[1] == 0 && o[2] == 0 && o[3] == 0
}

/// 192.0.2.0/24, 198.51.100.0/24 and 203.0.113.0/24.
pub open spec fn v4_is_documentation(o: [u8; 4]) -> bool {
    ||| (o[0] == 192 && o[1] == 0 && o[2] == 2)
    ||| (o[0] == 198 && o[1] == 51 && o[2] == 100)
    ||| (o[0] == 203 && o[1] == 0 && o[2] == 113)
}

/// ::1.
pub open spec fn v6_is_loopback(s: [u16; 8]) -> bool {
    &&& forall|i: int| 0 <= i < 7 ==> s[i] == 0
    &&& s[7] == 1
}

/// ::.
pub open spec fn v6_is_unspecified(s: [u16; 8]) -> bool {
    forall|i: int| 0 <= i < 8 ==> s[i] == 0
}

/// fc00::/7.
pub open spec fn v6_is_unique_local(s: [u16; 8]) -> bool {
    0xfc00 <= s[0] <= 0xfdff
}

/// ff00::/8.
pub open spec fn v6_is_multicast(s: [u16; 8]) -> bool {
    0xff00 <= s[0]
}

/// The addresses no webhook is delivered to.
pub open spec fn spec_is_private_ip(ip: IpAddress) -> bool {
    match ip {
        IpAddress::V4(o) => {
            v4_is_private(o) || v4_is_loopback(o) || v4_is_link_local(o) || v4_is_unspecified(o)
                || v4_is_documentation(o)
        },
        IpAddress::V6(s) => {
            v6_is_loopback(s) || v6_is_unspecified(s) || v6_is_unique_local(s)
                || v6_is_multicast(s)
        },
    }
}

/// Whether `ip` is private, loopback, link-local, unspecified or reserved for
/// documentation (IPv4), or loopback, unspecified, unique-local or multicast
/// (IPv6).
pub fn is_private_ip(ip: IpAddress) -> (blocked: bool)
    ensures
        blocked == spec_is_private_ip(ip),
{
    match ip {
        IpAddress::V4(o) => {
            let private = o[0] == 10 || (o[0] == 172 && 16 <= o[1] && o[1] <= 31) || (o[0] == 192
                && o[1] == 168);
            let loopback = o[0] == 127;
            let link_local = o[0] == 169 && o[1] == 254;
            let unspecified = o[0] == 0 && o[1] == 0 && o[2] == 0 && o[3] == 0;
            let documentation = (o[0] == 192 && o[1] == 0 && o[2] == 2) || (o[0] == 198 && o[1]
                == 51 && o[2] == 100) || (o[0] == 203 && o[1] == 0 && o[2] == 113);
            private || loopback || link_local || unspecified || documentation
        },
        IpAddress::V6(s) => {
            let high_zero = s[0] == 0 && s[1] == 0 && s[2] == 0 && s[3] == 0 && s[4] == 0 && s[5]
                == 0 && s[6] == 0;
            let loopback = high_zero && s[7] == 1;
            let unspecified = high_zero && s[7] == 0;
            let unique_local = 0xfc00 <= s[0] && s[0] <= 0xfdff;
            let multicast = 0xff00 <= s[0];
            loopback || unspecified || unique_local || multicast
        },
    }
}

/// The first candidate, in resolution order, whose address is not blocked.
pub open spec fn first_public(addrs: Seq<SocketAddress>) -> Option<SocketAddress>
    decreases addrs.len(),
{
    if addrs.len() == 0 {
        None
    } else if !spec_is_private_ip(addrs[0].ip) {
        Some(addrs[0])
    } else {
        first_public(addrs.drop_first())
    }
}

/// Every candidate is blocked.
pub open spec fn all_private(addrs: Seq<SocketAddress>) -> bool {
    forall|i: int| 0 <= i < addrs.len() ==> spec_is_private_ip(#[trigger] addrs[i].ip)
}

/// `i` is the position of the first candidate that is not blocked.
pub open spec fn is_first_public_at(addrs: Seq<SocketAddress>, i: int) -> bool {
    &&& 0 <= i < addrs.len()
    &&& !spec_is_private_ip(addrs[i].ip)
    &&& forall|j: int| 0 <= j < i ==> spec_is_private_ip(#[trigger] addrs[j].ip)
}

/// Picks the address a request is pinned to: the first candidate that is not
/// blocked, or nothing where every candidate is.
pub fn select_target(addrs: &Vec<SocketAddress>) -> (target: Option<SocketAddress>)
    ensures
        target == first_public(addrs@),
{
    let mut i: usize = 0;
    assert(addrs@.skip(0) =~= addrs@);
    while i < addrs.len()
        invariant
            i <= addrs.len(),
            first_public(addrs@) == first_public(addrs@.skip(i as int)),
        decreases addrs.len() - i,
    {
        let candidate = addrs[i];
        proof {
            let rest = addrs@.skip(i as int);
            assert(rest[0] == candidate);
            assert(rest.drop_first() =~= addrs@.skip(i as int + 1));
        }
        if !is_private_ip(candidate.ip) {
            return Some(candidate);
        }
        i = i + 1;
    }
    assert(addrs@.skip(i as int).len() == 0);
    None
}

/// Where every candidate is blocked, no target is chosen; and only there.
pub proof fn lemma_all_private_has_no_target(addrs: Seq<SocketAddress>)
    ensures
        all_private(addrs) <==> first_public(addrs) is None,
    decreases addrs.len(),
{
    if addrs.len() > 0 {
        let rest = addrs.drop_first();
        lemma_all_private_has_no_target(rest);
        if spec_is_private_ip(addrs[0].ip) {
            if all_private(rest) {
                assert forall|i: int| 0 <= i < addrs.len() implies spec_is_private_ip(
                    #[trigger] addrs[i].ip,
                ) by {
                    if i > 0 {
                        assert(addrs[i] == rest[i - 1]);
                    }
                }
            }
            if all_private(addrs) {
                assert forall|i: int| 0 <= i < rest.len() implies spec_is_private_ip(
                    #[trigger] rest[i].ip,
                ) by {
                    assert(rest[i] == addrs[i + 1]);
                }
            }
        }
    }
}

/// Where some candidate is public, the chosen target is the first such
/// candidate: it is public, and every candidate before it is blocked.
pub proof fn lemma_target_is_first_public(addrs: Seq<SocketAddress>)
    requires
        !all_private(addrs),
    ensures
        first_public(addrs) is Some,
        !spec_is_private_ip(first_public(addrs).unwrap().ip),
        exists|i: int| is_first_public_at(addrs, i) && addrs[i] == first_public(addrs).unwrap(),
    decreases addrs.len(),
{
    lemma_all_private_has_no_target(addrs);
    if !spec_is_private_ip(addrs[0].ip) {
        assert(is_first_public_at(addrs, 0));
    } else {
        let rest = addrs.drop_first();
        lemma_all_private_has_no_target(rest);
        lemma_target_is_first_public(rest);
        let k = choose|k: int| is_first_public_at(rest, k) && rest[k] == first_public(rest).unwrap();
        assert forall|j: int| 0 <= j < k + 1 implies spec_is_private_ip(#[trigger] addrs[j].ip) by {
            if j > 0 {
                assert(addrs[j] == rest[j - 1]);
            }
        }
        assert(addrs[k + 1] == rest[k]);
        assert(is_first_public_at(addrs, k + 1));
    }
}

} // verus!
