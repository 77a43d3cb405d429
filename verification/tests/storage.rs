use riz::address::Ipv4;
use riz::models::{Light, Room};
use riz::{Error, Storage};

/// Reads an address written as four numbers with dots between them.
fn ip(text: &str) -> Ipv4 {
    let parts: Vec<u8> = text.split('.').map(|part| part.parse().unwrap()).collect();
    assert_eq!(parts.len(), 4);
    Ipv4::new(parts[0], parts[1], parts[2], parts[3])
}

#[test]
fn unique_ips_same_room() {
    let mut room = Room::new("test");
    let ip = ip("192.168.2.3");
    let light = Light::new(ip, Some("bulb"));

    assert!(room.new_light(light.clone()).is_ok());
    let res = room.new_light(light);

    assert_eq!(res, Err(Error::invalid_ip(&ip, "already known")));
}

#[test]
fn unique_ips_different_rooms() {
    let ip = ip("192.168.2.3");

    let mut room = Room::new("test");
    let light = Light::new(ip, Some("bulb"));
    room.new_light(light.clone()).unwrap();

    let mut room2 = Room::new("test");
    room2.new_light(light).unwrap();

    let mut storage = Storage::new();
    assert!(storage.new_room(room).is_ok());

    let res = storage.new_room(room2);
    assert_eq!(res, Err(Error::invalid_ip(&ip, "already known")));
}

#[test]
fn new_light_unique_ip() {
    let ip = ip("192.168.2.3");

    let mut room = Room::new("test");
    let light = Light::new(ip, Some("bulb"));
    room.new_light(light.clone()).unwrap();

    let mut storage = Storage::new();
    let room_id = storage.new_room(room).unwrap();

    let res = storage.new_light(room_id, light);
    assert_eq!(res, Err(Error::invalid_ip(&ip, "already known")));
}

#[test]
fn invalid_ips_denied() {
    let tests = vec![
        ("8.8.8.8", "a public ip"),
        ("127.0.0.1", "a local ip"),
        ("0.0.0.0", "unspecified"),
        ("255.255.255.255", "a broadcast address"),
        ("224.224.224.224", "a multicast address"),
        ("192.168.1.0", "the subnet's network address"),
        ("172.16.255.255", "the subnet's broadcast address"),
    ];

    for (text, reason) in tests {
        let ip = ip(text);

        let mut room = Room::new("test");
        let light = Light::new(ip, None);
        room.new_light(light).unwrap();

        let mut storage = Storage::new();
        let res = storage.new_room(room);

        assert_eq!(res, Err(Error::invalid_ip(&ip, reason)));
    }
}

#[test]
fn valid_ips_allowed() {
    let tests = vec!["10.1.2.3", "192.168.1.25", "172.16.0.17"];

    for text in tests {
        let ip = ip(text);

        let mut room = Room::new("test");
        let light = Light::new(ip, None);
        room.new_light(light).unwrap();

        let mut storage = Storage::new();
        let res = storage.new_room(room);

        assert!(res.is_ok());
    }
}
