//! The IPv4 link-local range and the candidate addresses taken from it.
use vstd::prelude::*;
use crate::codec::Ipv4;

verus! {

/// 169.254.0.0, the network of IPv4 link-local addresses.
pub const LINK_LOCAL_NET: u32 = 0xA9FE_0000;

/// The prefix length of the link-local network.
pub const LINK_LOCAL_PREFIX_LEN: u8 = 16;

/// The prefix length under which an IPv6 link-local address is assigned.
pub const LINK_LOCAL_V6_PREFIX_LEN: u8 = 10;

/// The number of candidate addresses: third octet 1 to 254, any fourth octet.
pub const N_CANDIDATES: usize = 65024;

/// The number of addresses in a network with the given prefix length.
pub open spec fn net_size(prefix_len: u8) -> int {
    vstd::arithmetic::power2::pow2((32 - prefix_len) as nat) as int
}

/// The network address of `ip` under the given prefix length.
pub open spec fn network_of(ip: u32, prefix_len: u8) -> int {
    ip as int - ip as int % net_size(prefix_len)
}

/// Whether `ip` is a candidate: in 169.254.0.0/16, with a third octet other
/// than 0 and 255.
pub open spec fn is_candidate(ip: u32) -> bool {
    &&& ip / 0x10000 == LINK_LOCAL_NET / 0x10000
    &&& (ip / 256) % 256 != 0
    &&& (ip / 256) % 256 != 255
}

/// The candidate addresses in ascending order, from 169.254.1.0 to 169.254.254.255.
pub open spec fn candidates() -> Seq<Ipv4> {
    Seq::new(N_CANDIDATES as nat, |k: int| (LINK_LOCAL_NET + 256 + k) as u32)
}

/// Relies on ipnet's `Ipv4Net::new_assert` and `Ipv4Net::hosts`: below a
/// prefix length of 31 the hosts are the addresses of the network but its
/// network and broadcast addresses, in ascending order.
#[verifier::external_body]
fn net_hosts(net: u32, prefix_len: u8) -> (r: Vec<u32>)
    requires
        prefix_len <= 30,
    ensures
        r@.len() == net_size(prefix_len) - 2,
        forall|i: int|
            0 <= i < r@.len() ==> r@[i] == network_of(net, prefix_len) + 1 + i,
{
    ipnet::Ipv4Net::new_assert(net.into(), prefix_len).hosts().map(u32::from).collect()
}

/// The IPv4 link-local network.
pub struct LocalLinkNet;

impl LocalLinkNet {
    /// The candidate link-local addresses: the hosts of 169.254.0.0/16 whose
    /// third octet is neither 0 nor 255, in ascending order.
    pub fn ipv4() -> (r: Vec<Ipv4>)
        ensures
            r@ == candidates(),
    {
        proof {
            vstd::arithmetic::power2::lemma2_to64();
            assert(LINK_LOCAL_NET as int % 0x10000 == 0);
        }
        let hosts = net_hosts(LINK_LOCAL_NET, LINK_LOCAL_PREFIX_LEN);
        let mut r: Vec<Ipv4> = Vec::new();
        let n = hosts.len();
        let mut j: usize = 0;
        while j < n
            invariant
                n == hosts@.len(),
                n == 65534,
                j <= n,
                forall|i: int| 0 <= i < n ==> hosts@[i] == LINK_LOCAL_NET + 1 + i,
                j <= 255 ==> r@.len() == 0,
                255 <= j <= 65279 ==> r@.len() == j - 255,
                65279 <= j ==> r@.len() == N_CANDIDATES,
                forall|k: int| 0 <= k < r@.len() ==> r@[k] == LINK_LOCAL_NET + 256 + k,
            decreases n - j,
        {
            let h = hosts[j];
            let third = (h / 256) % 256;
            proof {
                let y = 1 + j as int;
                assert(h == 0xA9FE00 * 256 + y);
                assert(h / 256 == 0xA9FE00 + y / 256);
                assert((0xA9FE00 + y / 256) % 256 == y / 256);
            }
            if third != 0 && third != 255 {
                r.push(h);
            }
            j = j + 1;
        }
        assert(r@ =~= candidates());
        r
    }
}

/// The candidates are the addresses of 169.254.0.0/16 with a third octet
/// other than 0 and 255, each once, in strictly ascending order; there are
/// 254 times 256 of them.
pub proof fn lemma_candidates()
    ensures
        candidates().len() == 254 * 256,
        forall|i: int, j: int|
            0 <= i < j < candidates().len() ==> candidates()[i] < candidates()[j],
        forall|i: int| 0 <= i < candidates().len() ==> is_candidate(#[trigger] candidates()[i]),
        forall|ip: u32| is_candidate(ip) ==> candidates().contains(ip),
{
    assert forall|i: int| 0 <= i < candidates().len() implies is_candidate(
        #[trigger] candidates()[i],
    ) by {
        let y = 256 + i;
        assert(candidates()[i] == 0xA9FE * 0x10000 + y);
        assert(candidates()[i] / 0x10000 == 0xA9FE);
        assert(candidates()[i] / 256 == 0xA9FE00 + y / 256);
        assert((0xA9FE00 + y / 256) % 256 == y / 256);
    }
    assert forall|ip: u32| is_candidate(ip) implies candidates().contains(ip) by {
        let k = ip - LINK_LOCAL_NET - 256;
        assert(ip == (ip / 0x10000) * 0x10000 + ip % 0x10000);
        assert(ip % 0x10000 == ((ip / 256) % 256) * 256 + ip % 256);
        assert(0 <= k < N_CANDIDATES);
        assert(candidates()[k] == ip);
    }
}

} // verus!
