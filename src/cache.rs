//! The response cache: the last ARP reply seen from each address, kept for a
//! fixed time.
use vstd::prelude::*;
use crate::codec::{ArpPacket, Ipv4, is_reply};
use std::time::Instant;
use timedmap::TimedMap;

verus! {

/// timedmap's map with expiring entries, held opaque.
#[verifier::external_type_specification]
#[verifier::external_body]
#[verifier::reject_recursive_types(K)]
#[verifier::reject_recursive_types(V)]
#[verifier::reject_recursive_types(TS)]
pub struct ExTimedMap<K, V, TS>(TimedMap<K, V, TS>);

/// std's monotonic clock reading, the default time source of `TimedMap`,
/// held opaque.
#[verifier::external_type_specification]
#[verifier::external_body]
pub struct ExInstant(Instant);

/// The replies by sender address, each with its expiry.
pub type ReplyMap = TimedMap<Ipv4, ArpPacket>;

/// For each key, the value that was last inserted under it. An entry whose
/// lifetime has passed may still stand here: a lookup no longer returns it.
pub uninterp spec fn stored(m: ReplyMap) -> Map<Ipv4, ArpPacket>;

/// Relies on `TimedMap::new`: the map starts empty.
#[verifier::external_body]
fn timed_map_new() -> (r: ReplyMap)
    ensures
        stored(r).dom() == Set::<Ipv4>::empty(),
{
    TimedMap::new()
}

/// Relies on `TimedMap::insert`: the value replaces what was stored under the
/// key, with a lifetime counted from now.
#[verifier::external_body]
fn timed_map_insert(m: &mut ReplyMap, k: Ipv4, v: ArpPacket, lifetime_ms: u64)
    ensures
        stored(*final(m)) == stored(*old(m)).insert(k, v),
{
    m.insert(k, v, std::time::Duration::from_millis(lifetime_ms))
}

/// Relies on `TimedMap::get`: it returns a copy of the value stored under the
/// key while its lifetime lasts, and `None` otherwise.
#[verifier::external_body]
fn timed_map_get(m: &ReplyMap, k: Ipv4) -> (r: Option<ArpPacket>)
    ensures
        r matches Some(v) ==> stored(*m).contains_key(k) && stored(*m)[k] == v,
{
    m.get(&k)
}

/// The ARP replies observed, each under the address of its sender, for a
/// fixed lifetime.
pub struct ResponseCache {
    lifetime_ms: u64,
    responses: ReplyMap,
}

impl ResponseCache {
    /// The replies that the cache has taken in, by sender address, expired
    /// ones included.
    pub closed spec fn entries(&self) -> Map<Ipv4, ArpPacket> {
        stored(self.responses)
    }

    pub closed spec fn lifetime_ms(&self) -> u64 {
        self.lifetime_ms
    }

    /// Every entry is a reply, filed under the address of its sender.
    pub open spec fn wf(&self) -> bool {
        forall|ip: Ipv4|
            #[trigger] self.entries().contains_key(ip) ==> is_reply(self.entries()[ip])
                && self.entries()[ip].sender_proto_addr == ip
    }

    /// An empty cache whose entries last `lifetime_ms` milliseconds.
    pub fn new(lifetime_ms: u64) -> (r: Self)
        ensures
            r.wf(),
            r.entries() == Map::<Ipv4, ArpPacket>::empty(),
            r.lifetime_ms() == lifetime_ms,
    {
        ResponseCache { lifetime_ms, responses: timed_map_new() }
    }

    /// Files a reply under the address of its sender, replacing an earlier one.
    pub fn insert(&mut self, reply: ArpPacket)
        requires
            old(self).wf(),
            is_reply(reply),
        ensures
            final(self).wf(),
            final(self).entries() == old(self).entries().insert(reply.sender_proto_addr, reply),
            final(self).lifetime_ms() == old(self).lifetime_ms(),
    {
        timed_map_insert(&mut self.responses, reply.sender_proto_addr, reply, self.lifetime_ms);
        proof {
            assert forall|ip: Ipv4| #[trigger] self.entries().contains_key(ip) implies is_reply(
                self.entries()[ip],
            ) && self.entries()[ip].sender_proto_addr == ip by {
                if ip != reply.sender_proto_addr {
                    assert(old(self).entries().contains_key(ip));
                }
            }
        }
    }

    /// The reply last observed from `ip`, unless its lifetime has passed.
    pub fn get(&self, ip: Ipv4) -> (r: Option<ArpPacket>)
        requires
            self.wf(),
        ensures
            r matches Some(p) ==> self.entries().contains_key(ip) && p == self.entries()[ip]
                && is_reply(p) && p.sender_proto_addr == ip,
    {
        timed_map_get(&self.responses, ip)
    }
}

} // verus!
