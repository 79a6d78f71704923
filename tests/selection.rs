use link_local_address::batcher::IpBatcher;
use link_local_address::net::{LocalLinkNet, N_CANDIDATES};
use link_local_address::selector::{SelectIp, SequentialIpSelector};

fn ip(a: u8, b: u8, c: u8, d: u8) -> u32 {
    u32::from_be_bytes([a, b, c, d])
}

#[test]
fn link_local_candidates_count_and_order() {
    let ips = LocalLinkNet::ipv4();
    assert_eq!(ips.len(), N_CANDIDATES);
    assert_eq!(ips.len(), 254 * 256);
    assert_eq!(ips[0], ip(169, 254, 1, 0));
    assert_eq!(*ips.last().unwrap(), ip(169, 254, 254, 255));
    assert!(ips.windows(2).all(|w| w[0] < w[1]));
}

#[test]
fn reserved_third_octets_are_never_selected() {
    let ips = LocalLinkNet::ipv4();
    assert!(!ips.contains(&ip(169, 254, 0, 1)));
    assert!(!ips.contains(&ip(169, 254, 255, 254)));
    assert!(ips.contains(&ip(169, 254, 1, 0)));
    assert!(ips.iter().all(|a| {
        let o = a.to_be_bytes();
        o[0] == 169 && o[1] == 254 && o[2] != 0 && o[2] != 255
    }));
}

#[test]
fn selector_hands_out_in_order_then_nothing() {
    let mut s = SequentialIpSelector::new(vec![3u32, 1, 2]);
    assert_eq!(s.select(), Some(3));
    assert_eq!(s.select(), Some(1));
    assert_eq!(s.select(), Some(2));
    assert_eq!(s.select(), None);
    assert_eq!(s.select(), None);
}

#[test]
fn batcher_ends_with_one_empty_batch() {
    let s = SequentialIpSelector::new((0u32..7).collect());
    let mut b = IpBatcher::new(3, s);
    assert_eq!(b.next_batch(), Some(vec![0, 1, 2]));
    assert_eq!(b.next_batch(), Some(vec![3, 4, 5]));
    assert_eq!(b.next_batch(), Some(vec![6]));
    assert_eq!(b.next_batch(), Some(vec![]));
    assert_eq!(b.next_batch(), None);
    assert_eq!(b.next_batch(), None);
}

#[test]
fn batcher_over_exact_multiple() {
    let s = SequentialIpSelector::new(vec![10u32, 11, 12, 13]);
    let mut b = IpBatcher::new(2, s);
    assert_eq!(b.next_batch(), Some(vec![10, 11]));
    assert_eq!(b.next_batch(), Some(vec![12, 13]));
    assert_eq!(b.next_batch(), Some(vec![]));
    assert_eq!(b.next_batch(), None);
}
