use riz::address::{classful_network, AddressFault, Ipv4, Subnet};
use riz::ids::{first_free_id, keys_of};
use riz::models::{Light, Room};
use riz::{Error, Storage};
use std::collections::HashMap;

#[test]
fn address_bits() {
    let ip = Ipv4::new(192, 168, 1, 25);
    assert_eq!(ip.to_bits(), 0xc0a8_0119);
    assert_eq!(Ipv4::from_bits(0xc0a8_0119), ip);
    assert_eq!(ip.octets(), [192, 168, 1, 25]);
    assert_eq!(Ipv4::from_bits(0), Ipv4::new(0, 0, 0, 0));
    assert_eq!(Ipv4::from_bits(u32::MAX), Ipv4::new(255, 255, 255, 255));
}

#[test]
fn address_kinds() {
    assert!(Ipv4::new(169, 254, 1, 1).is_link_local());
    assert!(Ipv4::new(127, 1, 2, 3).is_loopback());
    assert!(Ipv4::new(0, 0, 0, 0).is_unspecified());
    assert_eq!(Ipv4::new(0, 0, 0, 1).is_unspecified(), false);
    assert!(Ipv4::new(255, 255, 255, 255).is_broadcast());
    assert!(Ipv4::new(224, 0, 0, 1).is_multicast());
    assert!(Ipv4::new(239, 255, 255, 255).is_multicast());
    assert_eq!(Ipv4::new(240, 0, 0, 1).is_multicast(), false);
    assert!(Ipv4::new(10, 0, 0, 1).is_private());
    assert!(Ipv4::new(172, 16, 0, 1).is_private());
    assert!(Ipv4::new(172, 31, 0, 1).is_private());
    assert_eq!(Ipv4::new(172, 32, 0, 1).is_private(), false);
    assert!(Ipv4::new(192, 168, 0, 1).is_private());
    assert_eq!(Ipv4::new(192, 169, 0, 1).is_private(), false);
}

#[test]
fn address_kinds_agree_with_the_addresses_of_ipnet() {
    let samples = [
        [10, 1, 2, 3], [172, 16, 0, 17], [172, 15, 0, 1], [192, 168, 1, 25], [8, 8, 8, 8],
        [127, 0, 0, 1], [0, 0, 0, 0], [255, 255, 255, 255], [224, 0, 0, 1], [169, 254, 9, 9],
        [192, 0, 2, 3], [198, 51, 100, 7], [203, 0, 113, 200], [100, 64, 0, 1], [240, 1, 1, 1],
    ];
    for o in samples {
        let std_ip = ipnet::Ipv4Net::new(o.into(), 32).unwrap().addr();
        let ip = Ipv4::new(o[0], o[1], o[2], o[3]);
        assert_eq!(ip.is_link_local(), std_ip.is_link_local());
        assert_eq!(ip.is_loopback(), std_ip.is_loopback());
        assert_eq!(ip.is_unspecified(), std_ip.is_unspecified());
        assert_eq!(ip.is_broadcast(), std_ip.is_broadcast());
        assert_eq!(ip.is_multicast(), std_ip.is_multicast());
        assert_eq!(ip.is_private(), std_ip.is_private());
        assert_eq!(ip.to_bits(), u32::from(std_ip));
    }
}

#[test]
fn subnet_network_and_broadcast() {
    let net = Subnet::new(Ipv4::new(172, 16, 123, 123), 16).unwrap();
    assert_eq!(net.network(), Ipv4::new(172, 16, 0, 0));
    assert_eq!(net.broadcast(), Ipv4::new(172, 16, 255, 255));
    assert_eq!(net.addr(), Ipv4::new(172, 16, 123, 123));
    assert_eq!(net.prefix_len(), 16);

    let net = Subnet::new(Ipv4::new(172, 16, 1, 77), 22).unwrap();
    assert_eq!(net.network(), Ipv4::new(172, 16, 0, 0));
    assert_eq!(net.broadcast(), Ipv4::new(172, 16, 3, 255));

    let all = Subnet::new(Ipv4::new(9, 9, 9, 9), 0).unwrap();
    assert_eq!(all.network(), Ipv4::new(0, 0, 0, 0));
    assert_eq!(all.broadcast(), Ipv4::new(255, 255, 255, 255));

    let one = Subnet::new(Ipv4::new(9, 9, 9, 9), 32).unwrap();
    assert_eq!(one.network(), Ipv4::new(9, 9, 9, 9));
    assert_eq!(one.broadcast(), Ipv4::new(9, 9, 9, 9));

    assert!(Subnet::new(Ipv4::new(9, 9, 9, 9), 33).is_none());
}

#[test]
fn classful_networks() {
    let a = classful_network(&Ipv4::new(10, 1, 2, 3)).unwrap();
    assert_eq!(a.prefix_len(), 8);
    assert_eq!(a.network(), Ipv4::new(10, 0, 0, 0));
    assert_eq!(a.broadcast(), Ipv4::new(10, 255, 255, 255));
    let b = classful_network(&Ipv4::new(172, 16, 5, 6)).unwrap();
    assert_eq!(b.prefix_len(), 16);
    assert_eq!(b.network(), Ipv4::new(172, 16, 0, 0));
    assert_eq!(b.broadcast(), Ipv4::new(172, 16, 255, 255));
    let c = classful_network(&Ipv4::new(192, 168, 1, 25)).unwrap();
    assert_eq!(c.prefix_len(), 24);
    assert_eq!(c.network(), Ipv4::new(192, 168, 1, 0));
    assert_eq!(c.broadcast(), Ipv4::new(192, 168, 1, 255));
    assert_eq!(classful_network(&Ipv4::new(1, 0, 0, 0)).unwrap().prefix_len(), 8);
    assert_eq!(classful_network(&Ipv4::new(126, 0, 0, 0)).unwrap().prefix_len(), 8);
    assert_eq!(classful_network(&Ipv4::new(128, 0, 0, 0)).unwrap().prefix_len(), 16);
    assert_eq!(classful_network(&Ipv4::new(191, 0, 0, 0)).unwrap().prefix_len(), 16);
    assert_eq!(classful_network(&Ipv4::new(223, 0, 0, 0)).unwrap().prefix_len(), 24);
    assert!(classful_network(&Ipv4::new(0, 1, 2, 3)).is_none());
    assert!(classful_network(&Ipv4::new(127, 0, 0, 1)).is_none());
    assert!(classful_network(&Ipv4::new(224, 0, 0, 1)).is_none());
    assert!(classful_network(&Ipv4::new(255, 0, 0, 1)).is_none());
}

#[test]
fn address_faults() {
    assert_eq!(Ipv4::new(8, 8, 8, 8).check(), Some(AddressFault::Public));
    assert_eq!(Ipv4::new(127, 0, 0, 1).check(), Some(AddressFault::Local));
    assert_eq!(Ipv4::new(169, 254, 0, 1).check(), Some(AddressFault::Local));
    assert_eq!(Ipv4::new(0, 0, 0, 0).check(), Some(AddressFault::Unspecified));
    assert_eq!(Ipv4::new(255, 255, 255, 255).check(), Some(AddressFault::Broadcast));
    assert_eq!(Ipv4::new(224, 0, 0, 1).check(), Some(AddressFault::Multicast));
    assert_eq!(Ipv4::new(192, 168, 1, 0).check(), Some(AddressFault::SubnetNetwork));
    assert_eq!(Ipv4::new(172, 16, 255, 255).check(), Some(AddressFault::SubnetBroadcast));
    assert_eq!(Ipv4::new(10, 0, 0, 0).check(), Some(AddressFault::SubnetNetwork));
    assert_eq!(Ipv4::new(10, 255, 255, 255).check(), Some(AddressFault::SubnetBroadcast));
    assert_eq!(Ipv4::new(172, 16, 0, 0).check(), Some(AddressFault::SubnetNetwork));
    assert_eq!(Ipv4::new(192, 168, 1, 255).check(), Some(AddressFault::SubnetBroadcast));
    assert_eq!(Ipv4::new(10, 1, 2, 3).check(), None);
    assert_eq!(Ipv4::new(192, 168, 1, 25).check(), None);
    assert_eq!(Ipv4::new(172, 16, 0, 17).check(), None);
    assert_eq!(Ipv4::new(10, 0, 255, 0).check(), None);
    assert_eq!(Ipv4::new(172, 16, 255, 0).check(), None);
    assert_eq!(Ipv4::new(192, 0, 2, 3).check(), Some(AddressFault::Public));
    assert_eq!(Ipv4::new(198, 51, 100, 7).check(), Some(AddressFault::Public));
    assert_eq!(Ipv4::new(203, 0, 113, 200).check(), Some(AddressFault::Public));
    assert_eq!(Ipv4::new(10, 1, 2, 0).check(), None);
    assert_eq!(Ipv4::new(10, 1, 2, 255).check(), None);
}

#[test]
fn address_fault_reasons() {
    assert_eq!(AddressFault::Local.reason(), "a local ip");
    assert_eq!(AddressFault::Unspecified.reason(), "unspecified");
    assert_eq!(AddressFault::Broadcast.reason(), "a broadcast address");
    assert_eq!(AddressFault::Multicast.reason(), "a multicast address");
    assert_eq!(AddressFault::Public.reason(), "a public ip");
    assert_eq!(AddressFault::SubnetNetwork.reason(), "the subnet's network address");
    assert_eq!(AddressFault::SubnetBroadcast.reason(), "the subnet's broadcast address");
}

#[test]
fn validate_ip_table() {
    let storage = Storage::new();
    let refused = [
        (Ipv4::new(8, 8, 8, 8), "a public ip"),
        (Ipv4::new(127, 0, 0, 1), "a local ip"),
        (Ipv4::new(0, 0, 0, 0), "unspecified"),
        (Ipv4::new(255, 255, 255, 255), "a broadcast address"),
        (Ipv4::new(224, 0, 0, 1), "a multicast address"),
        (Ipv4::new(192, 168, 1, 0), "the subnet's network address"),
        (Ipv4::new(172, 16, 255, 255), "the subnet's broadcast address"),
    ];
    for (ip, reason) in refused {
        assert_eq!(storage.validate_ip(&ip), Err(Error::invalid_ip(&ip, reason)));
    }
    for ip in [Ipv4::new(10, 1, 2, 3), Ipv4::new(192, 168, 1, 25), Ipv4::new(172, 16, 0, 17)] {
        assert_eq!(storage.validate_ip(&ip), Ok(()));
    }
    let documentation = Ipv4::new(192, 0, 2, 3);
    assert_eq!(
        storage.validate_ip(&documentation),
        Err(Error::invalid_ip(&documentation, "a public ip"))
    );
}

#[test]
fn new_ids_are_random_and_of_version_four() {
    let mut storage = Storage::new();
    let first = storage.new_room(Room::new("a")).unwrap();
    let second = storage.new_room(Room::new("b")).unwrap();
    assert_ne!(first, second);
    for id in [first, second] {
        assert_eq!((id >> 76) & 0xf, 4);
        assert_eq!((id >> 62) & 0x3, 2);
    }
    let mut room = Room::new("c");
    let light = room.new_light(Light::new(Ipv4::new(10, 1, 2, 3), None)).unwrap();
    assert_eq!((light >> 76) & 0xf, 4);
    assert_eq!((light >> 62) & 0x3, 2);
}

#[test]
fn first_free_id_skips_taken_ids() {
    let mut map: HashMap<u128, u8> = HashMap::new();
    assert_eq!(first_free_id(&map, 5), 5);
    map.insert(5, 0);
    map.insert(6, 0);
    map.insert(8, 0);
    assert_eq!(first_free_id(&map, 5), 7);
    assert_eq!(first_free_id(&map, 8), 9);
    assert_eq!(first_free_id(&map, 4), 4);
    map.insert(u128::MAX, 0);
    map.insert(0, 0);
    assert_eq!(first_free_id(&map, u128::MAX), 1);
    let mut keys = keys_of(&map);
    keys.sort();
    assert_eq!(keys, vec![0, 5, 6, 8, u128::MAX]);
}
