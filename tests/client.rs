use link_local_address::cache::ResponseCache;
use link_local_address::client::{
    probe_input, probe_status, ArpProbeInput, ArpProbeInputBuilder, ArpRequestInputBuilder, Client,
    Error, InputBuildError, ProbeStatus, RequestStart, RequestStep,
};
use link_local_address::codec::{encode_request, parse_arp_packet, parse_reply, ArpRequestInput};
use link_local_address::registry::NotificationRegistry;

fn ip(a: u8, b: u8, c: u8, d: u8) -> u32 {
    u32::from_be_bytes([a, b, c, d])
}

fn reply_frame(sender_mac: [u8; 6], sender_ip: u32, target_mac: [u8; 6], target_ip: u32) -> Vec<u8> {
    let mut f = Vec::new();
    f.extend_from_slice(&target_mac);
    f.extend_from_slice(&sender_mac);
    f.extend_from_slice(&[0x08, 0x06, 0x00, 0x01, 0x08, 0x00, 6, 4, 0x00, 0x02]);
    f.extend_from_slice(&sender_mac);
    f.extend_from_slice(&sender_ip.to_be_bytes());
    f.extend_from_slice(&target_mac);
    f.extend_from_slice(&target_ip.to_be_bytes());
    f
}

const MAC: [u8; 6] = [0x02, 0, 0, 0, 0, 0x01];
const HOST_MAC: [u8; 6] = [0x02, 0, 0, 0, 0, 0x99];

#[test]
fn second_request_is_answered_from_cache() {
    let mut client: Client<u32> = Client::new(100, 60_000);
    let target = ip(169, 254, 10, 5);
    let input = probe_input(&ArpProbeInput { sender_mac: MAC, target_ip: target });
    let mut frames_sent = 0;
    match client.begin_request(&input, 1) {
        RequestStart::Send(frame) => {
            frames_sent += 1;
            assert_eq!(frame, encode_request(&input));
        }
        RequestStart::Cached(_) => panic!("nothing is cached yet"),
    }
    let woken = client.on_frame(&reply_frame(HOST_MAC, target, MAC, 0));
    assert_eq!(woken, Some(1));
    let first = match client.await_step(target, false) {
        RequestStep::Done(Ok(p)) => p,
        other => panic!("unexpected {:?}", other),
    };
    match client.begin_request(&input, 2) {
        RequestStart::Cached(p) => assert_eq!(p, first),
        RequestStart::Send(_) => frames_sent += 1,
    }
    assert_eq!(frames_sent, 1);
}

#[test]
fn reply_between_register_and_wait_is_not_lost() {
    let mut client: Client<&'static str> = Client::new(100, 60_000);
    let target = ip(169, 254, 3, 3);
    let input = probe_input(&ArpProbeInput { sender_mac: MAC, target_ip: target });
    assert!(matches!(client.begin_request(&input, "slot"), RequestStart::Send(_)));
    // the reply arrives before the request starts to wait
    assert_eq!(client.on_frame(&reply_frame(HOST_MAC, target, MAC, 0)), Some("slot"));
    match client.await_step(target, false) {
        RequestStep::Done(Ok(p)) => assert_eq!(p.sender_proto_addr, target),
        other => panic!("unexpected {:?}", other),
    }
}

#[test]
fn deadline_gives_response_timeout() {
    let mut client: Client<u8> = Client::new(100, 60_000);
    let target = ip(169, 254, 2, 2);
    let input = probe_input(&ArpProbeInput { sender_mac: MAC, target_ip: target });
    assert!(matches!(client.begin_request(&input, 0), RequestStart::Send(_)));
    assert_eq!(client.await_step(target, false), RequestStep::Wait);
    assert_eq!(client.await_step(target, true), RequestStep::Done(Err(Error::ResponseTimeout)));
    assert_eq!(client.response_timeout_ms(), 100);
}

#[test]
fn listener_isolation_over_mixed_traffic() {
    let mut client: Client<u32> = Client::new(100, 60_000);
    let watched = ip(169, 254, 200, 200);
    let input = probe_input(&ArpProbeInput { sender_mac: MAC, target_ip: watched });
    assert!(matches!(client.begin_request(&input, 7), RequestStart::Send(_)));
    let mut seed: u32 = 12345;
    let mut valid_senders = Vec::new();
    for n in 0..1000u32 {
        seed = seed.wrapping_mul(1103515245).wrapping_add(12345);
        let frame: Vec<u8> = match n % 4 {
            0 => {
                // IPv4 traffic
                let mut f = vec![(seed >> 16) as u8; 60];
                f[12] = 0x08;
                f[13] = 0x00;
                f
            }
            1 => {
                // malformed ARP: cut short
                let f = reply_frame(HOST_MAC, ip(169, 254, 9, (n % 250) as u8), MAC, 0);
                f[..(14 + (seed as usize % 27))].to_vec()
            }
            2 => vec![(seed >> 8) as u8; seed as usize % 80],
            _ => {
                // a valid reply from an address nobody asked about
                let sender = ip(169, 254, 50, (n % 200) as u8);
                valid_senders.push(sender);
                reply_frame(HOST_MAC, sender, MAC, 0)
            }
        };
        assert_eq!(client.on_frame(&frame), None);
    }
    for s in &valid_senders {
        match client.await_step(*s, false) {
            RequestStep::Done(Ok(p)) => assert_eq!(p.sender_proto_addr, *s),
            other => panic!("unexpected {:?}", other),
        }
    }
    assert_eq!(client.await_step(ip(169, 254, 9, 1), false), RequestStep::Wait);
    // the waiting request is still registered and is woken by its own reply
    assert_eq!(client.on_frame(&reply_frame(HOST_MAC, watched, MAC, 0)), Some(7));
    assert_eq!(client.on_frame(&reply_frame(HOST_MAC, watched, MAC, 0)), None);
}

#[test]
fn probe_request_claims_no_address() {
    let i = probe_input(&ArpProbeInput { sender_mac: MAC, target_ip: ip(169, 254, 7, 7) });
    assert_eq!(i.sender_ip, 0);
    assert_eq!(i.target_mac, [0; 6]);
    assert_eq!(i.sender_mac, MAC);
    assert_eq!(i.target_ip, ip(169, 254, 7, 7));
    let p = parse_arp_packet(&encode_request(&i)).unwrap();
    assert_eq!(p.sender_proto_addr, 0);
}

#[test]
fn probe_status_of_request_results() {
    let reply = parse_reply(&reply_frame(HOST_MAC, ip(169, 254, 1, 1), MAC, 0)).unwrap();
    assert_eq!(probe_status(Ok(reply)), Ok(ProbeStatus::Occupied));
    assert_eq!(probe_status(Err(Error::ResponseTimeout)), Ok(ProbeStatus::Free));
    assert_eq!(probe_status(Err(Error::Io)), Err(Error::Io));
}

#[test]
fn cache_keeps_last_reply_per_sender() {
    let mut cache = ResponseCache::new(60_000);
    let a = ip(169, 254, 4, 4);
    assert_eq!(cache.get(a), None);
    let r1 = parse_reply(&reply_frame([1; 6], a, MAC, 0)).unwrap();
    let r2 = parse_reply(&reply_frame([2; 6], a, MAC, 0)).unwrap();
    cache.insert(r1);
    assert_eq!(cache.get(a), Some(r1));
    cache.insert(r2);
    assert_eq!(cache.get(a), Some(r2));
    assert_eq!(cache.get(ip(169, 254, 4, 5)), None);
}

#[test]
fn cache_entries_expire() {
    let mut cache = ResponseCache::new(1);
    let a = ip(169, 254, 4, 4);
    cache.insert(parse_reply(&reply_frame([1; 6], a, MAC, 0)).unwrap());
    let start = std::time::Instant::now();
    while start.elapsed() < std::time::Duration::from_millis(20) {}
    assert_eq!(cache.get(a), None);
}

#[test]
fn registry_wakes_once() {
    let mut reg: NotificationRegistry<u32> = NotificationRegistry::new();
    reg.register(5, 50);
    reg.register(5, 51);
    assert!(reg.is_registered(5));
    assert_eq!(reg.notify(6), None);
    assert_eq!(reg.notify(5), Some(51));
    assert_eq!(reg.notify(5), None);
    assert!(!reg.is_registered(5));
}

#[test]
fn request_builder_reports_missing_fields() {
    assert_eq!(ArpRequestInputBuilder::new().build().err(), Some(InputBuildError::MissingTargetMac));
    let b = ArpRequestInputBuilder::new().with_target_mac([0; 6]);
    assert_eq!(b.build().err(), Some(InputBuildError::MissingTargetIp));
    let b = b.with_target_ip(9);
    assert_eq!(b.build().err(), Some(InputBuildError::MissingSenderMac));
    let b = b.with_sender_mac(MAC);
    assert_eq!(b.build().err(), Some(InputBuildError::MissingSenderIp));
    let built = b.with_sender_ip(3).build().unwrap();
    assert_eq!(
        built,
        ArpRequestInput { sender_mac: MAC, sender_ip: 3, target_mac: [0; 6], target_ip: 9 }
    );
}

#[test]
fn probe_builder_reports_missing_fields() {
    assert_eq!(ArpProbeInputBuilder::new().build().err(), Some(InputBuildError::MissingTargetIp));
    let b = ArpProbeInputBuilder::new().with_target_ip(ip(10, 1, 1, 4));
    assert_eq!(b.build().err(), Some(InputBuildError::MissingSenderMac));
    let built = b.with_sender_mac(MAC).build().unwrap();
    assert_eq!(built, ArpProbeInput { sender_mac: MAC, target_ip: ip(10, 1, 1, 4) });
}
