use link_local_address::client::{probe_status, Client, Error, ProbeStatus, RequestStart, RequestStep};
use link_local_address::codec::parse_arp_packet;
use link_local_address::handler::{Ipv4Handler, Ipv4HandlerConfig, Ipv4ScanConfig};
use link_local_address::probe::{BatchProbe, Outcome, ProbeStep, RetryingProbe};

fn ip(a: u8, b: u8, c: u8, d: u8) -> u32 {
    u32::from_be_bytes([a, b, c, d])
}

fn reply_frame(sender_mac: [u8; 6], sender_ip: u32, target_mac: [u8; 6], target_ip: u32) -> Vec<u8> {
    let mut f = Vec::new();
    f.extend_from_slice(&target_mac);
    f.extend_from_slice(&sender_mac);
    f.extend_from_slice(&[0x08, 0x06, 0x00, 0x01, 0x08, 0x00, 6, 4, 0x00, 0x02]);
    f.extend_from_slice(&sender_mac);
    f.extend_from_slice(&sender_ip.to_be_bytes());
    f.extend_from_slice(&target_mac);
    f.extend_from_slice(&target_ip.to_be_bytes());
    f
}

const MAC: [u8; 6] = [0x02, 0, 0, 0, 0, 0x01];
const HOST_MAC: [u8; 6] = [0x02, 0, 0, 0, 0, 0x99];

/// A segment whose hosts answer the `n`-th request for an address (counted
/// from 1) when `answers(ip, n)` holds.
struct Segment<F: Fn(u32, usize) -> bool> {
    answers: F,
    frames: Vec<Vec<u8>>,
}

impl<F: Fn(u32, usize) -> bool> Segment<F> {
    fn frames_for(&self, target: u32) -> usize {
        self.frames
            .iter()
            .filter(|f| parse_arp_packet(f).unwrap().target_proto_addr == target)
            .count()
    }

    /// Runs the rounds of a batch to its end through the client.
    fn run(&mut self, client: &mut Client<usize>, bp: &mut BatchProbe) {
        loop {
            let pending = bp.pending();
            if pending.is_empty() {
                assert!(bp.is_finished());
                break;
            }
            for (i, req) in pending {
                let result = match client.begin_request(&req, i) {
                    RequestStart::Cached(p) => Ok(p),
                    RequestStart::Send(frame) => {
                        self.frames.push(frame);
                        let target = req.target_ip;
                        if (self.answers)(target, self.frames_for(target)) {
                            assert_eq!(client.on_frame(&reply_frame(HOST_MAC, target, MAC, 0)), Some(i));
                        }
                        match client.await_step(target, false) {
                            RequestStep::Done(r) => r,
                            RequestStep::Wait => match client.await_step(target, true) {
                                RequestStep::Done(r) => r,
                                RequestStep::Wait => unreachable!(),
                            },
                        }
                    }
                };
                bp.record(i, probe_status(result));
            }
        }
    }
}

fn probe_one(n_retries: usize, target: u32, answers: impl Fn(u32, usize) -> bool) -> (Vec<u32>, usize) {
    let mut client: Client<usize> = Client::new(100, 60_000);
    let mut seg = Segment { answers, frames: Vec::new() };
    let mut bp = BatchProbe::new(MAC, &vec![target], n_retries);
    seg.run(&mut client, &mut bp);
    (bp.free_ips().unwrap(), seg.frames_for(target))
}

#[test]
fn silent_address_is_free_after_all_retries() {
    let target = ip(169, 254, 2, 2);
    let (free, frames) = probe_one(3, target, |_, _| false);
    assert_eq!(free, vec![target]);
    assert_eq!(frames, 3);
}

#[test]
fn reply_to_second_request_is_occupied() {
    let target = ip(169, 254, 2, 3);
    let (free, frames) = probe_one(5, target, |_, n| n == 2);
    assert_eq!(free, Vec::<u32>::new());
    assert_eq!(frames, 2);
}

#[test]
fn retrying_probe_steps() {
    let target = ip(169, 254, 2, 2);
    let mut p = RetryingProbe::new(MAC, target, 3);
    for _ in 0..3 {
        match p.step() {
            ProbeStep::Send(req) => {
                assert_eq!(req.target_ip, target);
                assert_eq!(req.sender_ip, 0);
            }
            other => panic!("unexpected {:?}", other),
        }
        p.record(Ok(ProbeStatus::Free));
    }
    let o = match p.step() {
        ProbeStep::Done(o) => o,
        other => panic!("unexpected {:?}", other),
    };
    assert!(o.is_free());
    assert_eq!(*o.target_ip(), target);

    let mut q = RetryingProbe::new(MAC, target, 5);
    q.record(Ok(ProbeStatus::Free));
    q.record(Ok(ProbeStatus::Occupied));
    assert!(q.is_finished());
    assert_eq!(q.step(), ProbeStep::Done(Outcome { ip: target, status: ProbeStatus::Occupied }));

    let mut e = RetryingProbe::new(MAC, target, 5);
    e.record(Err(Error::Io));
    assert_eq!(e.step(), ProbeStep::Failed(Error::Io));

    let z = RetryingProbe::new(MAC, target, 0);
    assert_eq!(z.step(), ProbeStep::Done(Outcome { ip: target, status: ProbeStatus::Free }));
}

#[test]
fn failed_probe_fails_the_batch() {
    let batch = vec![ip(169, 254, 1, 1), ip(169, 254, 1, 2), ip(169, 254, 1, 3)];
    let mut bp = BatchProbe::new(MAC, &batch, 2);
    assert_eq!(bp.len(), 3);
    let pending = bp.pending();
    assert_eq!(pending.iter().map(|(i, _)| *i).collect::<Vec<_>>(), vec![0, 1, 2]);
    bp.record(0, Ok(ProbeStatus::Free));
    bp.record(1, Err(Error::Io));
    bp.record(2, Ok(ProbeStatus::Occupied));
    assert_eq!(bp.pending().iter().map(|(i, _)| *i).collect::<Vec<_>>(), vec![0]);
    bp.record(0, Ok(ProbeStatus::Free));
    assert!(bp.is_finished());
    assert_eq!(bp.free_ips(), Err(Error::Io));
}

#[test]
fn first_free_batch_after_occupied_subrange() {
    let config = Ipv4HandlerConfig::new("eth0".to_string());
    assert_eq!(config.batch_size, 32);
    let mut handler = Ipv4Handler::new(&config, MAC);
    let mut client: Client<usize> = Client::new(100, 60_000);
    let lo = ip(169, 254, 1, 0);
    let hi = ip(169, 254, 1, 127);
    let mut seg = Segment { answers: move |a: u32, _| lo <= a && a <= hi, frames: Vec::new() };
    let mut n = 0;
    let found = loop {
        let mut bp = handler.next_batch().expect("candidates left");
        n += 1;
        seg.run(&mut client, &mut bp);
        let free = bp.free_ips().unwrap();
        if !free.is_empty() {
            break free;
        }
    };
    assert_eq!(n, 5);
    let expected: Vec<u32> = (128..=159).map(|d| ip(169, 254, 1, d)).collect();
    assert_eq!(found, expected);
}

#[test]
fn exhausted_handler_stays_exhausted() {
    let mut config = Ipv4HandlerConfig::new("eth0".to_string());
    config.scan = Ipv4ScanConfig::default().with_n_retries(0);
    let mut handler = Ipv4Handler::new(&config, MAC);
    let mut batches = 0;
    let mut total = 0;
    while let Some(bp) = handler.next_batch() {
        assert!(bp.is_finished());
        total += bp.free_ips().unwrap().len();
        batches += 1;
    }
    assert_eq!(total, 65024);
    assert_eq!(batches, 65024 / 32 + 1);
    for _ in 0..3 {
        assert!(handler.next_batch().is_none());
    }
}

#[test]
fn scan_config_defaults() {
    let c = Ipv4ScanConfig::default();
    assert_eq!(c.n_retries, 5);
    assert_eq!(c.response_timeout_ms, 500);
    assert_eq!(c.cache_timeout_ms, 60_000);
    let d = c.with_response_timeout_ms(100).with_cache_timeout_ms(1000);
    assert_eq!(d.response_timeout_ms, 100);
    assert_eq!(d.cache_timeout_ms, 1000);
    assert_eq!(d.n_retries, 5);
}
