//! The decisions of the ARP client: when a request is answered from the
//! cache, when a frame goes out, what a received frame changes and whom it
//! wakes, and how the result of a probe reads.
use vstd::prelude::*;
use crate::cache::ResponseCache;
use crate::codec::{
    ArpPacket, ArpRequestInput, Ipv4, MacAddr, ZERO_MAC, encode_request, parse_reply,
    request_frame, reply_of,
};
use crate::registry::NotificationRegistry;

verus! {

/// The errors of the ARP client.
#[derive(Clone, Copy, Debug, PartialEq, Eq, Structural)]
pub enum Error {
    /// No reply came within the response timeout.
    ResponseTimeout,
    /// The raw channel could not be opened or bound to the interface.
    InterfaceBind,
    /// The interface has no hardware address.
    InterfaceMissingMac,
    /// Reading or writing the raw channel failed.
    Io,
}

/// A field that a builder was not given.
#[derive(Clone, Copy, Debug, PartialEq, Eq, Structural)]
#[non_exhaustive]
pub enum InputBuildError {
    MissingSenderMac,
    MissingSenderIp,
    MissingTargetMac,
    MissingTargetIp,
}

/// Whether a probed address is in use.
#[derive(Clone, Copy, Debug, PartialEq, Eq, Structural)]
pub enum ProbeStatus {
    /// No reply came.
    Free,
    /// A host replied.
    Occupied,
}

/// What a probe carries: the prober's hardware address and the address probed.
#[derive(Clone, Copy, Debug, PartialEq, Eq)]
pub struct ArpProbeInput {
    pub sender_mac: MacAddr,
    pub target_ip: Ipv4,
}

/// Whether `r` is the error `e`.
pub open spec fn fails_with<T>(r: Result<T, InputBuildError>, e: InputBuildError) -> bool {
    r == Err::<T, InputBuildError>(e)
}

/// Collects the fields of an `ArpRequestInput`.
pub struct ArpRequestInputBuilder {
    sender_ip: Option<Ipv4>,
    sender_mac: Option<MacAddr>,
    target_ip: Option<Ipv4>,
    target_mac: Option<MacAddr>,
}

impl ArpRequestInputBuilder {
    /// The sender hardware address, sender address, target hardware address
    /// and target address set so far.
    pub closed spec fn fields(&self) -> (
        Option<MacAddr>,
        Option<Ipv4>,
        Option<MacAddr>,
        Option<Ipv4>,
    ) {
        (self.sender_mac, self.sender_ip, self.target_mac, self.target_ip)
    }

    /// A builder with no field set.
    pub fn new() -> (r: Self)
        ensures
            r.fields().0 is None && r.fields().1 is None && r.fields().2 is None && r.fields().3 is None,
    {
        ArpRequestInputBuilder { sender_ip: None, sender_mac: None, target_ip: None, target_mac: None }
    }

    pub fn with_sender_mac(self, sender_mac: MacAddr) -> (r: Self)
        ensures
            r.fields() == (Some(sender_mac), self.fields().1, self.fields().2, self.fields().3),
    {
        ArpRequestInputBuilder { sender_mac: Some(sender_mac), ..self }
    }

    pub fn with_sender_ip(self, sender_ip: Ipv4) -> (r: Self)
        ensures
            r.fields() == (self.fields().0, Some(sender_ip), self.fields().2, self.fields().3),
    {
        ArpRequestInputBuilder { sender_ip: Some(sender_ip), ..self }
    }

    pub fn with_target_mac(self, target_mac: MacAddr) -> (r: Self)
        ensures
            r.fields() == (self.fields().0, self.fields().1, Some(target_mac), self.fields().3),
    {
        ArpRequestInputBuilder { target_mac: Some(target_mac), ..self }
    }

    pub fn with_target_ip(self, target_ip: Ipv4) -> (r: Self)
        ensures
            r.fields() == (self.fields().0, self.fields().1, self.fields().2, Some(target_ip)),
    {
        ArpRequestInputBuilder { target_ip: Some(target_ip), ..self }
    }

    /// The input, once every field is set; otherwise the first missing field
    /// in the order target hardware address, target address, sender hardware
    /// address, sender address.
    pub fn build(&self) -> (r: Result<ArpRequestInput, InputBuildError>)
        ensures
            self.fields().2 is None ==> fails_with(r, InputBuildError::MissingTargetMac),
            self.fields().2 is Some && self.fields().3 is None ==> fails_with(r, InputBuildError::MissingTargetIp),
            self.fields().2 is Some && self.fields().3 is Some && self.fields().0 is None ==> fails_with(r, InputBuildError::MissingSenderMac),
            self.fields().2 is Some && self.fields().3 is Some && self.fields().0 is Some
                && self.fields().1 is None ==> fails_with(r, InputBuildError::MissingSenderIp),
            r matches Ok(i) ==> self.fields() == (
                Some(i.sender_mac),
                Some(i.sender_ip),
                Some(i.target_mac),
                Some(i.target_ip),
            ),
    {
        let target_mac = match self.target_mac {
            Some(m) => m,
            None => return Err(InputBuildError::MissingTargetMac),
        };
        let target_ip = match self.target_ip {
            Some(ip) => ip,
            None => return Err(InputBuildError::MissingTargetIp),
        };
        let sender_mac = match self.sender_mac {
            Some(m) => m,
            None => return Err(InputBuildError::MissingSenderMac),
        };
        let sender_ip = match self.sender_ip {
            Some(ip) => ip,
            None => return Err(InputBuildError::MissingSenderIp),
        };
        Ok(ArpRequestInput { sender_mac, sender_ip, target_mac, target_ip })
    }
}

/// Collects the fields of an `ArpProbeInput`.
pub struct ArpProbeInputBuilder {
    sender_mac: Option<MacAddr>,
    target_ip: Option<Ipv4>,
}

impl ArpProbeInputBuilder {
    /// The sender hardware address and target address set so far.
    pub closed spec fn fields(&self) -> (Option<MacAddr>, Option<Ipv4>) {
        (self.sender_mac, self.target_ip)
    }

    /// A builder with no field set.
    pub fn new() -> (r: Self)
        ensures
            r.fields().0 is None && r.fields().1 is None,
    {
        ArpProbeInputBuilder { sender_mac: None, target_ip: None }
    }

    pub fn with_sender_mac(self, sender_mac: MacAddr) -> (r: Self)
        ensures
            r.fields() == (Some(sender_mac), self.fields().1),
    {
        ArpProbeInputBuilder { sender_mac: Some(sender_mac), ..self }
    }

    pub fn with_target_ip(self, target_ip: Ipv4) -> (r: Self)
        ensures
            r.fields() == (self.fields().0, Some(target_ip)),
    {
        ArpProbeInputBuilder { target_ip: Some(target_ip), ..self }
    }

    /// The input, once both fields are set; otherwise the first missing one,
    /// the target address before the hardware address.
    pub fn build(&self) -> (r: Result<ArpProbeInput, InputBuildError>)
        ensures
            self.fields().1 is None ==> fails_with(r, InputBuildError::MissingTargetIp),
            self.fields().1 is Some && self.fields().0 is None ==> fails_with(r, InputBuildError::MissingSenderMac),
            r matches Ok(i) ==> self.fields() == (Some(i.sender_mac), Some(i.target_ip)),
    {
        let target_ip = match self.target_ip {
            Some(ip) => ip,
            None => return Err(InputBuildError::MissingTargetIp),
        };
        let sender_mac = match self.sender_mac {
            Some(m) => m,
            None => return Err(InputBuildError::MissingSenderMac),
        };
        Ok(ArpProbeInput { sender_mac, target_ip })
    }
}

/// The request that probes an address: it claims no address of its own and
/// names no target hardware address.
pub open spec fn probe_request(input: ArpProbeInput) -> ArpRequestInput {
    ArpRequestInput {
        sender_mac: input.sender_mac,
        sender_ip: 0,
        target_mac: ZERO_MAC,
        target_ip: input.target_ip,
    }
}

/// The request that carries a probe.
pub fn probe_input(input: &ArpProbeInput) -> (r: ArpRequestInput)
    ensures
        r == probe_request(*input),
{
    ArpRequestInput {
        sender_mac: input.sender_mac,
        sender_ip: 0,
        target_mac: ZERO_MAC,
        target_ip: input.target_ip,
    }
}

/// How the result of a request reads as the result of a probe.
pub open spec fn status_of(r: Result<ArpPacket, Error>) -> Result<ProbeStatus, Error> {
    match r {
        Ok(_) => Ok(ProbeStatus::Occupied),
        Err(Error::ResponseTimeout) => Ok(ProbeStatus::Free),
        Err(e) => Err(e),
    }
}

/// The result of a probe from that of its request: a reply means the address
/// is in use, a timeout that it is free, and any other error stands.
pub fn probe_status(r: Result<ArpPacket, Error>) -> (s: Result<ProbeStatus, Error>)
    ensures
        s == status_of(r),
{
    match r {
        Ok(_) => Ok(ProbeStatus::Occupied),
        Err(Error::ResponseTimeout) => Ok(ProbeStatus::Free),
        Err(e) => Err(e),
    }
}

/// How a request starts.
pub enum RequestStart {
    /// The cache holds a reply from the target: no frame goes out.
    Cached(ArpPacket),
    /// This frame goes out, and the caller waits on the slot it registered.
    Send(Vec<u8>),
}

/// Where a waiting request stands after a wake-up or at its deadline.
#[derive(Clone, Copy, Debug, PartialEq, Eq)]
pub enum RequestStep {
    /// The request is over with this result.
    Done(Result<ArpPacket, Error>),
    /// No reply is cached yet: wait on.
    Wait,
}

/// The state that an ARP client shares between its requests and the listener
/// of its interface: the response cache and the registry of waiting requests,
/// whose wake-up slots are of type `S`.
pub struct Client<S> {
    response_timeout_ms: u64,
    cache: ResponseCache,
    notification_handler: NotificationRegistry<S>,
}

/// The slot that a received frame wakes, if any: that of the sender of the
/// reply it carries.
pub open spec fn woken_by<S>(slots: Map<Ipv4, S>, frame: Seq<u8>) -> Option<S> {
    match reply_of(frame) {
        Some(p) => if slots.contains_key(p.sender_proto_addr) {
            Some(slots[p.sender_proto_addr])
        } else {
            None
        },
        None => None,
    }
}

impl<S> Client<S> {
    /// The replies cached, by sender address.
    pub closed spec fn cached(&self) -> Map<Ipv4, ArpPacket> {
        self.cache.entries()
    }

    /// The slots of the waiting requests, by target address.
    pub closed spec fn waiting(&self) -> Map<Ipv4, S> {
        self.notification_handler@
    }

    pub closed spec fn response_timeout(&self) -> u64 {
        self.response_timeout_ms
    }

    pub closed spec fn cache_timeout(&self) -> u64 {
        self.cache.lifetime_ms()
    }

    pub closed spec fn wf(&self) -> bool {
        self.cache.wf()
    }

    /// A client with an empty cache whose entries last `cache_timeout_ms`
    /// milliseconds, and no waiting request.
    pub fn new(response_timeout_ms: u64, cache_timeout_ms: u64) -> (r: Self)
        ensures
            r.wf(),
            r.cached() == Map::<Ipv4, ArpPacket>::empty(),
            r.waiting() == Map::<Ipv4, S>::empty(),
            r.response_timeout() == response_timeout_ms,
            r.cache_timeout() == cache_timeout_ms,
    {
        Client {
            response_timeout_ms,
            cache: ResponseCache::new(cache_timeout_ms),
            notification_handler: NotificationRegistry::new(),
        }
    }

    /// How long a request waits for its reply, in milliseconds.
    pub fn response_timeout_ms(&self) -> (r: u64)
        ensures
            r == self.response_timeout(),
    {
        self.response_timeout_ms
    }

    /// Starts a request. A live cached reply from the target answers it at
    /// once; otherwise `slot` is registered for the target before the frame
    /// to send is handed back, so that no reply can come unseen.
    pub fn begin_request(&mut self, input: &ArpRequestInput, slot: S) -> (r: RequestStart)
        requires
            old(self).wf(),
        ensures
            final(self).wf(),
            final(self).cached() == old(self).cached(),
            final(self).response_timeout() == old(self).response_timeout(),
            final(self).cache_timeout() == old(self).cache_timeout(),
            match r {
                RequestStart::Cached(p) => {
                    &&& old(self).cached().contains_key(input.target_ip)
                    &&& p == old(self).cached()[input.target_ip]
                    &&& p.sender_proto_addr == input.target_ip
                    &&& final(self).waiting() == old(self).waiting()
                },
                RequestStart::Send(frame) => {
                    &&& frame@ == request_frame(*input)
                    &&& final(self).waiting() == old(self).waiting().insert(input.target_ip, slot)
                },
            },
    {
        if let Some(cached) = self.cache.get(input.target_ip) {
            return RequestStart::Cached(cached);
        }
        self.notification_handler.register(input.target_ip, slot);
        RequestStart::Send(encode_request(input))
    }

    /// Where a waiting request for `target_ip` stands: past its deadline it
    /// has timed out; after a wake-up it ends with the cached reply, if one
    /// is live, and waits on otherwise.
    pub fn await_step(&self, target_ip: Ipv4, deadline_passed: bool) -> (r: RequestStep)
        requires
            self.wf(),
        ensures
            deadline_passed ==> r == RequestStep::Done(Err(Error::ResponseTimeout)),
            !deadline_passed ==> match r {
                RequestStep::Done(Ok(p)) => self.cached().contains_key(target_ip) && p
                    == self.cached()[target_ip] && p.sender_proto_addr == target_ip,
                RequestStep::Done(Err(_)) => false,
                RequestStep::Wait => true,
            },
    {
        if deadline_passed {
            return RequestStep::Done(Err(Error::ResponseTimeout));
        }
        match self.cache.get(target_ip) {
            Some(p) => RequestStep::Done(Ok(p)),
            None => RequestStep::Wait,
        }
    }

    /// Takes in a frame read from the interface. A reply is cached under its
    /// sender, and the slot waiting on that sender, if any, is removed and
    /// handed back to be woken. Any other frame changes nothing.
    pub fn on_frame(&mut self, frame: &[u8]) -> (r: Option<S>)
        requires
            old(self).wf(),
        ensures
            final(self).wf(),
            final(self).response_timeout() == old(self).response_timeout(),
            final(self).cache_timeout() == old(self).cache_timeout(),
            r == woken_by(old(self).waiting(), frame@),
            match reply_of(frame@) {
                Some(p) => {
                    &&& final(self).cached() == old(self).cached().insert(p.sender_proto_addr, p)
                    &&& final(self).waiting() == old(self).waiting().remove(p.sender_proto_addr)
                },
                None => {
                    &&& final(self).cached() == old(self).cached()
                    &&& final(self).waiting() == old(self).waiting()
                },
            },
    {
        match parse_reply(frame) {
            Some(reply) => {
                self.cache.insert(reply);
                self.notification_handler.notify(reply.sender_proto_addr)
            },
            None => None,
        }
    }
}

/// A reply that arrives after a request registered its slot and before it
/// waits wakes that very slot, and leaves the reply in the cache for the
/// request to read: the wake-up is not lost.
pub proof fn lemma_no_lost_wakeup<S>(
    waiting: Map<Ipv4, S>,
    cached: Map<Ipv4, ArpPacket>,
    input: ArpRequestInput,
    slot: S,
    frame: Seq<u8>,
)
    requires
        reply_of(frame) matches Some(p) && p.sender_proto_addr == input.target_ip,
    ensures
        woken_by(waiting.insert(input.target_ip, slot), frame) == Some(slot),
        ({
            let p = reply_of(frame)->Some_0;
            &&& cached.insert(p.sender_proto_addr, p).contains_key(input.target_ip)
            &&& cached.insert(p.sender_proto_addr, p)[input.target_ip] == p
        }),
{
}

} // verus!
