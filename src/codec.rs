//! Encoding of ARP requests in Ethernet II frames and parsing of received frames.
use vstd::prelude::*;

verus! {

/// A hardware address.
pub type MacAddr = [u8; 6];

/// An IPv4 address as its 32-bit value, most significant octet first.
pub type Ipv4 = u32;

/// Length of an ARP request carried in an Ethernet II frame.
pub const FRAME_LEN: usize = 42;

/// Length of the Ethernet II header.
pub const ETH_HEADER_LEN: usize = 14;

pub const ETHERTYPE_ARP: u16 = 0x0806;

pub const ETHERTYPE_IPV4: u16 = 0x0800;

pub const HTYPE_ETHERNET: u16 = 1;

pub const OPER_REQUEST: u16 = 1;

pub const OPER_REPLY: u16 = 2;

pub const MAC_ADDR_LEN: u8 = 6;

pub const IPV4_ADDR_LEN: u8 = 4;

/// The all-zero hardware address, used as the target of a probe.
pub const ZERO_MAC: MacAddr = [0, 0, 0, 0, 0, 0];

/// The fields of an ARP packet.
#[derive(Clone, Copy, Debug, PartialEq, Eq)]
pub struct ArpPacket {
    pub hardware_type: u16,
    pub protocol_type: u16,
    pub hw_addr_len: u8,
    pub proto_addr_len: u8,
    pub operation: u16,
    pub sender_hw_addr: MacAddr,
    pub sender_proto_addr: Ipv4,
    pub target_hw_addr: MacAddr,
    pub target_proto_addr: Ipv4,
}

/// What an ARP request carries.
#[derive(Clone, Copy, Debug, PartialEq, Eq)]
pub struct ArpRequestInput {
    pub sender_mac: MacAddr,
    pub sender_ip: Ipv4,
    pub target_mac: MacAddr,
    pub target_ip: Ipv4,
}

/// Why a received frame is not an ARP packet.
#[derive(Clone, Copy, Debug, PartialEq, Eq, Structural)]
pub enum FrameError {
    /// The frame is shorter than its headers say.
    Truncated,
    /// The frame carries another protocol than ARP.
    NotArp,
}

/// The high octet of a 16-bit value.
pub open spec fn hi(v: u16) -> u8 {
    (v / 256) as u8
}

/// The low octet of a 16-bit value.
pub open spec fn lo(v: u16) -> u8 {
    (v % 256) as u8
}

/// Octet `k` of an IPv4 address, counted from the most significant one.
pub open spec fn octet(ip: u32, k: int) -> u8 {
    if k == 0 {
        (ip / 0x1000000) as u8
    } else if k == 1 {
        ((ip / 0x10000) % 256) as u8
    } else if k == 2 {
        ((ip / 256) % 256) as u8
    } else {
        (ip % 256) as u8
    }
}

/// The 16-bit big-endian value at `off`.
pub open spec fn read16(b: Seq<u8>, off: int) -> u16 {
    (b[off] as int * 256 + b[off + 1] as int) as u16
}

/// The 32-bit big-endian value at `off`.
pub open spec fn read32(b: Seq<u8>, off: int) -> u32 {
    (b[off] as int * 0x1000000 + b[off + 1] as int * 0x10000 + b[off + 2] as int * 256
        + b[off + 3] as int) as u32
}

/// The six octets at `off`.
pub open spec fn read_mac(b: Seq<u8>, off: int) -> Seq<u8> {
    b.subrange(off, off + 6)
}

/// The frame that carries an ARP request: a broadcast Ethernet II header
/// followed by the ARP payload for Ethernet and IPv4.
pub open spec fn request_frame(i: ArpRequestInput) -> Seq<u8> {
    let s = i.sender_mac;
    let t = i.target_mac;
    seq![
        // destination: broadcast
        0xffu8, 0xffu8, 0xffu8, 0xffu8, 0xffu8, 0xffu8,
        // source
        s[0], s[1], s[2], s[3], s[4], s[5],
        // ethertype
        hi(ETHERTYPE_ARP), lo(ETHERTYPE_ARP),
        // hardware type, protocol type, address lengths
        hi(HTYPE_ETHERNET), lo(HTYPE_ETHERNET),
        hi(ETHERTYPE_IPV4), lo(ETHERTYPE_IPV4),
        MAC_ADDR_LEN, IPV4_ADDR_LEN,
        // operation
        hi(OPER_REQUEST), lo(OPER_REQUEST),
        // sender hardware and protocol address
        s[0], s[1], s[2], s[3], s[4], s[5],
        octet(i.sender_ip, 0), octet(i.sender_ip, 1), octet(i.sender_ip, 2), octet(i.sender_ip, 3),
        // target hardware and protocol address
        t[0], t[1], t[2], t[3], t[4], t[5],
        octet(i.target_ip, 0), octet(i.target_ip, 1), octet(i.target_ip, 2), octet(i.target_ip, 3),
    ]
}

/// The ARP packet that a frame of at least `FRAME_LEN` octets carries.
pub open spec fn packet_at(b: Seq<u8>) -> ArpPacket {
    ArpPacket {
        hardware_type: read16(b, 14),
        protocol_type: read16(b, 16),
        hw_addr_len: b[18],
        proto_addr_len: b[19],
        operation: read16(b, 20),
        sender_hw_addr: arr6(read_mac(b, 22)),
        sender_proto_addr: read32(b, 28),
        target_hw_addr: arr6(read_mac(b, 32)),
        target_proto_addr: read32(b, 38),
    }
}

/// The array of six octets whose view is `s`.
pub open spec fn arr6(s: Seq<u8>) -> MacAddr {
    choose|a: MacAddr| a@ == s
}

/// How a received frame reads: its ARP packet, or why it has none.
pub open spec fn frame_parse(b: Seq<u8>) -> Result<ArpPacket, FrameError> {
    if b.len() < ETH_HEADER_LEN {
        Err(FrameError::Truncated)
    } else if read16(b, 12) != ETHERTYPE_ARP {
        Err(FrameError::NotArp)
    } else if b.len() < FRAME_LEN {
        Err(FrameError::Truncated)
    } else {
        Ok(packet_at(b))
    }
}

/// Whether a packet is a well-formed ARP reply for Ethernet and IPv4 addresses.
pub open spec fn is_reply(p: ArpPacket) -> bool {
    &&& p.operation == OPER_REPLY
    &&& p.hw_addr_len == MAC_ADDR_LEN
    &&& p.proto_addr_len == IPV4_ADDR_LEN
}

/// The reply that a received frame carries, if it carries one.
pub open spec fn reply_of(b: Seq<u8>) -> Option<ArpPacket> {
    match frame_parse(b) {
        Ok(p) => if is_reply(p) { Some(p) } else { None },
        Err(_) => None,
    }
}

/// The packet that the frame of a request carries.
pub open spec fn request_packet(i: ArpRequestInput) -> ArpPacket {
    ArpPacket {
        hardware_type: HTYPE_ETHERNET,
        protocol_type: ETHERTYPE_IPV4,
        hw_addr_len: MAC_ADDR_LEN,
        proto_addr_len: IPV4_ADDR_LEN,
        operation: OPER_REQUEST,
        sender_hw_addr: i.sender_mac,
        sender_proto_addr: i.sender_ip,
        target_hw_addr: i.target_mac,
        target_proto_addr: i.target_ip,
    }
}

proof fn lemma_octets_read_back(ip: u32)
    ensures
        (octet(ip, 0) as int * 0x1000000 + octet(ip, 1) as int * 0x10000 + octet(ip, 2) as int
            * 256 + octet(ip, 3) as int) as u32 == ip,
{
    let x = ip as int;
    assert(x == (x / 256) * 256 + x % 256);
    assert(x / 256 / 256 == x / 0x10000);
    assert(x / 256 == (x / 0x10000) * 256 + (x / 256) % 256);
    assert(x / 0x10000 / 256 == x / 0x1000000);
    assert(x / 0x10000 == (x / 0x1000000) * 256 + (x / 0x10000) % 256);
    assert(x / 0x1000000 < 256);
}

proof fn lemma_arr6_of_view(a: MacAddr)
    ensures
        arr6(a@) == a,
{
    let c = arr6(a@);
    assert(c@ == a@);
    assert(c =~= a);
}

/// Reading back the frame of a request gives the request's fields, with the
/// operation of a request.
pub proof fn lemma_request_round_trip(i: ArpRequestInput)
    ensures
        frame_parse(request_frame(i)) == Ok::<ArpPacket, FrameError>(request_packet(i)),
        reply_of(request_frame(i)) is None,
{
    let b = request_frame(i);
    lemma_octets_read_back(i.sender_ip);
    lemma_octets_read_back(i.target_ip);
    assert(read_mac(b, 22) =~= i.sender_mac@);
    assert(read_mac(b, 32) =~= i.target_mac@);
    lemma_arr6_of_view(i.sender_mac);
    lemma_arr6_of_view(i.target_mac);
    assert(packet_at(b) == request_packet(i));
}

fn push_u16(v: &mut Vec<u8>, x: u16)
    ensures
        final(v)@ == old(v)@.push(hi(x)).push(lo(x)),
{
    v.push((x / 256) as u8);
    v.push((x % 256) as u8);
}

fn push_ipv4(v: &mut Vec<u8>, ip: Ipv4)
    ensures
        final(v)@ == old(v)@.push(octet(ip, 0)).push(octet(ip, 1)).push(octet(ip, 2)).push(
            octet(ip, 3),
        ),
{
    v.push((ip / 0x1000000) as u8);
    v.push(((ip / 0x10000) % 256) as u8);
    v.push(((ip / 256) % 256) as u8);
    v.push((ip % 256) as u8);
}

fn push_mac(v: &mut Vec<u8>, m: &MacAddr)
    ensures
        final(v)@ == old(v)@.push(m[0]).push(m[1]).push(m[2]).push(m[3]).push(m[4]).push(m[5]),
{
    v.push(m[0]);
    v.push(m[1]);
    v.push(m[2]);
    v.push(m[3]);
    v.push(m[4]);
    v.push(m[5]);
}

/// Encodes the Ethernet II frame that carries an ARP request.
pub fn encode_request(input: &ArpRequestInput) -> (r: Vec<u8>)
    ensures
        r@ == request_frame(*input),
        r@.len() == FRAME_LEN,
{
    let mut v: Vec<u8> = Vec::with_capacity(FRAME_LEN);
    push_mac(&mut v, &[0xff, 0xff, 0xff, 0xff, 0xff, 0xff]);
    push_mac(&mut v, &input.sender_mac);
    push_u16(&mut v, ETHERTYPE_ARP);
    push_u16(&mut v, HTYPE_ETHERNET);
    push_u16(&mut v, ETHERTYPE_IPV4);
    v.push(MAC_ADDR_LEN);
    v.push(IPV4_ADDR_LEN);
    push_u16(&mut v, OPER_REQUEST);
    push_mac(&mut v, &input.sender_mac);
    push_ipv4(&mut v, input.sender_ip);
    push_mac(&mut v, &input.target_mac);
    push_ipv4(&mut v, input.target_ip);
    assert(v@ =~= request_frame(*input));
    v
}

fn get_u16(b: &[u8], off: usize) -> (r: u16)
    requires
        off + 1 < b@.len(),
    ensures
        r == read16(b@, off as int),
{
    (b[off] as u16) * 256 + (b[off + 1] as u16)
}

fn get_u32(b: &[u8], off: usize) -> (r: u32)
    requires
        off + 3 < b@.len(),
    ensures
        r == read32(b@, off as int),
{
    (b[off] as u32) * 0x1000000 + (b[off + 1] as u32) * 0x10000 + (b[off + 2] as u32) * 256 + (
    b[off + 3] as u32)
}

fn get_mac(b: &[u8], off: usize) -> (r: MacAddr)
    requires
        off + 5 < b@.len(),
    ensures
        r == arr6(read_mac(b@, off as int)),
{
    let m: MacAddr = [b[off], b[off + 1], b[off + 2], b[off + 3], b[off + 4], b[off + 5]];
    proof {
        assert(m@ =~= read_mac(b@, off as int));
        lemma_arr6_of_view(m);
    }
    m
}

/// Reads the ARP packet that a received Ethernet II frame carries.
pub fn parse_arp_packet(bytes: &[u8]) -> (r: Result<ArpPacket, FrameError>)
    ensures
        r == frame_parse(bytes@),
{
    if bytes.len() < ETH_HEADER_LEN {
        return Err(FrameError::Truncated);
    }
    if get_u16(bytes, 12) != ETHERTYPE_ARP {
        return Err(FrameError::NotArp);
    }
    if bytes.len() < FRAME_LEN {
        return Err(FrameError::Truncated);
    }
    Ok(
        ArpPacket {
            hardware_type: get_u16(bytes, 14),
            protocol_type: get_u16(bytes, 16),
            hw_addr_len: bytes[18],
            proto_addr_len: bytes[19],
            operation: get_u16(bytes, 20),
            sender_hw_addr: get_mac(bytes, 22),
            sender_proto_addr: get_u32(bytes, 28),
            target_hw_addr: get_mac(bytes, 32),
            target_proto_addr: get_u32(bytes, 38),
        },
    )
}

/// The ARP reply that a received frame carries: frames of other protocols,
/// truncated frames, other operations and other address lengths give `None`.
pub fn parse_reply(bytes: &[u8]) -> (r: Option<ArpPacket>)
    ensures
        r == reply_of(bytes@),
{
    match parse_arp_packet(bytes) {
        Ok(p) => {
            if p.operation == OPER_REPLY && p.hw_addr_len == MAC_ADDR_LEN && p.proto_addr_len
                == IPV4_ADDR_LEN {
                Some(p)
            } else {
                None
            }
        },
        Err(_) => None,
    }
}

} // verus!
