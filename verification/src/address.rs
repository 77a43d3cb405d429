//! IPv4 addresses of lights: the classes of address that cannot be a light's,
//! and the network and broadcast address of an address's classful subnet.

use vstd::prelude::*;

verus! {

/// An IPv4 address, as its four octets from the first to the last.
#[derive(Clone, Copy, Debug, PartialEq, Eq, Structural, Hash)]
pub struct Ipv4(pub u8, pub u8, pub u8, pub u8);

/// The 32-bit number whose bytes, from the highest to the lowest, are the
/// four octets.
pub open spec fn bits_of(a: u8, b: u8, c: u8, d: u8) -> u32 {
    (a as u32) << 24 | (b as u32) << 16 | (c as u32) << 8 | (d as u32)
}

/// The network mask of a prefix length: that many high bits set.
pub open spec fn netmask(prefix_len: u8) -> u32 {
    if prefix_len == 0 {
        0
    } else {
        0xffff_ffffu32 << ((32 - prefix_len) as u32)
    }
}

/// The host mask of a prefix length: all the bits below the prefix set.
pub open spec fn hostmask(prefix_len: u8) -> u32 {
    if prefix_len >= 32 {
        0
    } else {
        0xffff_ffffu32 >> (prefix_len as u32)
    }
}

impl Ipv4 {
    /// The address with the given octets.
    pub fn new(a: u8, b: u8, c: u8, d: u8) -> (ip: Self)
        ensures
            ip == Ipv4(a, b, c, d),
    {
        Ipv4(a, b, c, d)
    }

    /// The four octets, from the first to the last.
    pub fn octets(&self) -> (o: [u8; 4])
        ensures
            o@ == seq![self.0, self.1, self.2, self.3],
    {
        [self.0, self.1, self.2, self.3]
    }

    /// The address as one number, the first octet in the highest byte.
    pub open spec fn bits(self) -> u32 {
        bits_of(self.0, self.1, self.2, self.3)
    }

    /// The address that the number stands for, the highest byte being the
    /// first octet.
    pub open spec fn of_bits(bits: u32) -> Ipv4 {
        Ipv4((bits >> 24) as u8, (bits >> 16 & 0xff) as u8, (bits >> 8 & 0xff) as u8, (bits & 0xff) as u8)
    }

    /// The address as one number, the first octet in the highest byte.
    pub fn to_bits(&self) -> (bits: u32)
        ensures
            bits == self.bits(),
    {
        (self.0 as u32) << 24 | (self.1 as u32) << 16 | (self.2 as u32) << 8 | (self.3 as u32)
    }

    /// The address that the number stands for.
    pub fn from_bits(bits: u32) -> (ip: Self)
        ensures
            ip == Self::of_bits(bits),
            ip.bits() == bits,
    {
        let a = (bits >> 24) as u8;
        let b = (bits >> 16 & 0xff) as u8;
        let c = (bits >> 8 & 0xff) as u8;
        let d = (bits & 0xff) as u8;
        assert(bits_of(a, b, c, d) == bits) by (bit_vector)
            requires
                a == (bits >> 24) as u8,
                b == (bits >> 16 & 0xff) as u8,
                c == (bits >> 8 & 0xff) as u8,
                d == (bits & 0xff) as u8,
        ;
        Ipv4(a, b, c, d)
    }

    /// An address and its number determine each other.
    pub proof fn lemma_bits_roundtrip(ip: Ipv4)
        ensures
            Self::of_bits(ip.bits()) == ip,
    {
        let (a, b, c, d) = (ip.0, ip.1, ip.2, ip.3);
        let bits = bits_of(a, b, c, d);
        assert((bits >> 24) as u8 == a && (bits >> 16 & 0xff) as u8 == b && (bits >> 8 & 0xff) as u8
            == c && (bits & 0xff) as u8 == d) by (bit_vector)
            requires
                bits == (a as u32) << 24 | (b as u32) << 16 | (c as u32) << 8 | (d as u32),
        ;
    }

    /// A link-local address: 169.254.0.0/16.
    pub open spec fn link_local(self) -> bool {
        self.0 == 169 && self.1 == 254
    }

    /// A loopback address: 127.0.0.0/8.
    pub open spec fn loopback(self) -> bool {
        self.0 == 127
    }

    /// The unspecified address, 0.0.0.0.
    pub open spec fn unspecified(self) -> bool {
        self == Ipv4(0, 0, 0, 0)
    }

    /// The broadcast address, 255.255.255.255.
    pub open spec fn broadcast(self) -> bool {
        self == Ipv4(255, 255, 255, 255)
    }

    /// A multicast address: 224.0.0.0/4.
    pub open spec fn multicast(self) -> bool {
        224 <= self.0 <= 239
    }

    /// A private address: 10.0.0.0/8, 172.16.0.0/12 or 192.168.0.0/16.
    pub open spec fn private(self) -> bool {
        ||| self.0 == 10
        ||| self.0 == 172 && 16 <= self.1 <= 31
        ||| self.0 == 192 && self.1 == 168
    }

    /// Whether this is a link-local address.
    #[verifier::when_used_as_spec(link_local)]
    pub fn is_link_local(self) -> (r: bool)
        ensures
            r == self.link_local(),
    {
        self.0 == 169 && self.1 == 254
    }

    /// Whether this is a loopback address.
    #[verifier::when_used_as_spec(loopback)]
    pub fn is_loopback(self) -> (r: bool)
        ensures
            r == self.loopback(),
    {
        self.0 == 127
    }

    /// Whether this is the unspecified address.
    #[verifier::when_used_as_spec(unspecified)]
    pub fn is_unspecified(self) -> (r: bool)
        ensures
            r == self.unspecified(),
    {
        self.0 == 0 && self.1 == 0 && self.2 == 0 && self.3 == 0
    }

    /// Whether this is the broadcast address.
    #[verifier::when_used_as_spec(broadcast)]
    pub fn is_broadcast(self) -> (r: bool)
        ensures
            r == self.broadcast(),
    {
        self.0 == 255 && self.1 == 255 && self.2 == 255 && self.3 == 255
    }

    /// Whether this is a multicast address.
    #[verifier::when_used_as_spec(multicast)]
    pub fn is_multicast(self) -> (r: bool)
        ensures
            r == self.multicast(),
    {
        224 <= self.0 && self.0 <= 239
    }

    /// Whether this is a private address.
    #[verifier::when_used_as_spec(private)]
    pub fn is_private(self) -> (r: bool)
        ensures
            r == self.private(),
    {
        self.0 == 10 || (self.0 == 172 && 16 <= self.1 && self.1 <= 31) || (self.0 == 192
            && self.1 == 168)
    }

    /// The prefix length of the classful subnet of this address, which its
    /// first octet decides: 8 for class A, 16 for class B, 24 for class C.
    /// Other addresses have no classful subnet.
    pub open spec fn class_prefix(self) -> Option<u8> {
        if 1 <= self.0 <= 126 {
            Some(8u8)
        } else if 128 <= self.0 <= 191 {
            Some(16u8)
        } else if 192 <= self.0 <= 223 {
            Some(24u8)
        } else {
            None
        }
    }

    /// The network address of the classful subnet of this address: the host
    /// part is all zeros.
    pub open spec fn class_network(self) -> Option<Ipv4> {
        match self.class_prefix() {
            Some(8) => Some(Ipv4(self.0, 0, 0, 0)),
            Some(16) => Some(Ipv4(self.0, self.1, 0, 0)),
            Some(_) => Some(Ipv4(self.0, self.1, self.2, 0)),
            None => None,
        }
    }

    /// The broadcast address of the classful subnet of this address: the
    /// host part is all ones.
    pub open spec fn class_broadcast(self) -> Option<Ipv4> {
        match self.class_prefix() {
            Some(8) => Some(Ipv4(self.0, 255, 255, 255)),
            Some(16) => Some(Ipv4(self.0, self.1, 255, 255)),
            Some(_) => Some(Ipv4(self.0, self.1, self.2, 255)),
            None => None,
        }
    }
}

/// The network address of the network that holds `addr` with the given prefix
/// length, both addresses as numbers.
///
/// Calls `ipnet::Ipv4Net::new` and `ipnet::Ipv4Net::network`. A prefix length
/// over 32 is refused by `new`, and the result is `None`. Else the result is
/// the address with the bits below the prefix cleared.
#[verifier::external_body]
fn subnet_network(addr: u32, prefix_len: u8) -> (r: Option<u32>)
    ensures
        prefix_len > 32 ==> r is None,
        prefix_len <= 32 ==> r == Some(addr & netmask(prefix_len)),
{
    match ipnet::Ipv4Net::new(addr.into(), prefix_len) {
        Ok(net) => Some(net.network().into()),
        Err(_) => None,
    }
}

/// The broadcast address of the network that holds `addr` with the given
/// prefix length, both addresses as numbers.
///
/// Calls `ipnet::Ipv4Net::new` and `ipnet::Ipv4Net::broadcast`. A prefix
/// length over 32 is refused by `new`, and the result is `None`. Else the
/// result is the address with the bits below the prefix set.
#[verifier::external_body]
fn subnet_broadcast(addr: u32, prefix_len: u8) -> (r: Option<u32>)
    ensures
        prefix_len > 32 ==> r is None,
        prefix_len <= 32 ==> r == Some(addr | hostmask(prefix_len)),
{
    match ipnet::Ipv4Net::new(addr.into(), prefix_len) {
        Ok(net) => Some(net.broadcast().into()),
        Err(_) => None,
    }
}

/// A network: an address in it and the length of its prefix, at most 32.
#[derive(Clone, Copy, Debug, PartialEq, Eq)]
pub struct Subnet {
    addr: Ipv4,
    prefix_len: u8,
}

/// A network, as plain values.
pub struct SubnetModel {
    pub addr: Ipv4,
    pub prefix_len: u8,
}

impl View for Subnet {
    type V = SubnetModel;

    closed spec fn view(&self) -> SubnetModel {
        SubnetModel { addr: self.addr, prefix_len: self.prefix_len }
    }
}

impl SubnetModel {
    /// The network address: the address with the bits below the prefix
    /// cleared.
    pub open spec fn network(self) -> Ipv4 {
        Ipv4::of_bits(self.addr.bits() & netmask(self.prefix_len))
    }

    /// The broadcast address: the address with the bits below the prefix
    /// set.
    pub open spec fn broadcast(self) -> Ipv4 {
        Ipv4::of_bits(self.addr.bits() | hostmask(self.prefix_len))
    }
}

impl Subnet {
    #[verifier::type_invariant]
    spec fn well_formed(self) -> bool {
        self.prefix_len <= 32
    }

    /// The network that holds `addr` with the given prefix length; none if
    /// the prefix length is over 32.
    pub fn new(addr: Ipv4, prefix_len: u8) -> (r: Option<Self>)
        ensures
            r is Some <==> prefix_len <= 32,
            r matches Some(net) ==> net@ == (SubnetModel { addr, prefix_len }),
    {
        if prefix_len <= 32 {
            Some(Subnet { addr, prefix_len })
        } else {
            None
        }
    }

    /// The address that the network was made with.
    pub fn addr(&self) -> (a: Ipv4)
        ensures
            a == self@.addr,
    {
        self.addr
    }

    /// The length of the prefix.
    pub fn prefix_len(&self) -> (n: u8)
        ensures
            n == self@.prefix_len,
            n <= 32,
    {
        proof {
            use_type_invariant(self);
        }
        self.prefix_len
    }

    /// The network address.
    pub fn network(&self) -> (a: Ipv4)
        ensures
            a == self@.network(),
    {
        proof {
            use_type_invariant(self);
        }
        match subnet_network(self.addr.to_bits(), self.prefix_len) {
            Some(bits) => Ipv4::from_bits(bits),
            None => self.addr,
        }
    }

    /// The broadcast address.
    pub fn broadcast(&self) -> (a: Ipv4)
        ensures
            a == self@.broadcast(),
    {
        proof {
            use_type_invariant(self);
        }
        match subnet_broadcast(self.addr.to_bits(), self.prefix_len) {
            Some(bits) => Ipv4::from_bits(bits),
            None => self.addr,
        }
    }
}

/// For the three classful prefix lengths, clearing or setting the bits below
/// the prefix is clearing or setting the octets of the host part.
pub proof fn lemma_classful_masks(ip: Ipv4)
    ensures
        (SubnetModel { addr: ip, prefix_len: 8 }).network() == Ipv4(ip.0, 0, 0, 0),
        (SubnetModel { addr: ip, prefix_len: 16 }).network() == Ipv4(ip.0, ip.1, 0, 0),
        (SubnetModel { addr: ip, prefix_len: 24 }).network() == Ipv4(ip.0, ip.1, ip.2, 0),
        (SubnetModel { addr: ip, prefix_len: 8 }).broadcast() == Ipv4(ip.0, 255, 255, 255),
        (SubnetModel { addr: ip, prefix_len: 16 }).broadcast() == Ipv4(ip.0, ip.1, 255, 255),
        (SubnetModel { addr: ip, prefix_len: 24 }).broadcast() == Ipv4(ip.0, ip.1, ip.2, 255),
{
    let (a, b, c, d) = (ip.0, ip.1, ip.2, ip.3);
    let bits = bits_of(a, b, c, d);
    assert(bits & (0xffff_ffffu32 << 24u32) == bits_of(a, 0, 0, 0) && bits & (0xffff_ffffu32
        << 16u32) == bits_of(a, b, 0, 0) && bits & (0xffff_ffffu32 << 8u32) == bits_of(a, b, c, 0)
        && bits | (0xffff_ffffu32 >> 8u32) == bits_of(a, 255, 255, 255) && bits | (0xffff_ffffu32
        >> 16u32) == bits_of(a, b, 255, 255) && bits | (0xffff_ffffu32 >> 24u32) == bits_of(
        a,
        b,
        c,
        255,
    )) by (bit_vector)
        requires
            bits == (a as u32) << 24 | (b as u32) << 16 | (c as u32) << 8 | (d as u32),
    ;
    Ipv4::lemma_bits_roundtrip(Ipv4(a, 0, 0, 0));
    Ipv4::lemma_bits_roundtrip(Ipv4(a, b, 0, 0));
    Ipv4::lemma_bits_roundtrip(Ipv4(a, b, c, 0));
    Ipv4::lemma_bits_roundtrip(Ipv4(a, 255, 255, 255));
    Ipv4::lemma_bits_roundtrip(Ipv4(a, b, 255, 255));
    Ipv4::lemma_bits_roundtrip(Ipv4(a, b, c, 255));
}

/// The classful subnet of an address: class A with an 8-bit prefix for a
/// first octet from 1 to 126, class B with 16 bits from 128 to 191, class C
/// with 24 bits from 192 to 223, and none for any other address.
pub fn classful_network(ip: &Ipv4) -> (r: Option<Subnet>)
    ensures
        r is Some <==> ip.class_prefix() is Some,
        r matches Some(net) ==> {
            &&& net@ == (SubnetModel { addr: *ip, prefix_len: ip.class_prefix()->0 })
            &&& Some(net@.network()) == ip.class_network()
            &&& Some(net@.broadcast()) == ip.class_broadcast()
        },
{
    proof {
        lemma_classful_masks(*ip);
    }
    let first = ip.0;
    if 1 <= first && first <= 126 {
        Subnet::new(*ip, 8)
    } else if 128 <= first && first <= 191 {
        Subnet::new(*ip, 16)
    } else if 192 <= first && first <= 223 {
        Subnet::new(*ip, 24)
    } else {
        None
    }
}

/// Why an address cannot be that of a light.
#[derive(Clone, Copy, Debug, PartialEq, Eq, Structural)]
pub enum AddressFault {
    /// A link-local or loopback address
    Local,
    /// The unspecified address
    Unspecified,
    /// The broadcast address
    Broadcast,
    /// A multicast address
    Multicast,
    /// An address that is not private
    Public,
    /// The network address of the address's classful subnet
    SubnetNetwork,
    /// The broadcast address of the address's classful subnet
    SubnetBroadcast,
}

impl AddressFault {
    /// The words that name the fault in an error: what the address is.
    pub open spec fn text(self) -> Seq<char> {
        match self {
            AddressFault::Local => "a local ip"@,
            AddressFault::Unspecified => "unspecified"@,
            AddressFault::Broadcast => "a broadcast address"@,
            AddressFault::Multicast => "a multicast address"@,
            AddressFault::Public => "a public ip"@,
            AddressFault::SubnetNetwork => "the subnet's network address"@,
            AddressFault::SubnetBroadcast => "the subnet's broadcast address"@,
        }
    }

    /// The words that name the fault in an error.
    pub fn reason(&self) -> (words: &'static str)
        ensures
            words@ == self.text(),
    {
        match self {
            AddressFault::Local => "a local ip",
            AddressFault::Unspecified => "unspecified",
            AddressFault::Broadcast => "a broadcast address",
            AddressFault::Multicast => "a multicast address",
            AddressFault::Public => "a public ip",
            AddressFault::SubnetNetwork => "the subnet's network address",
            AddressFault::SubnetBroadcast => "the subnet's broadcast address",
        }
    }
}

impl Ipv4 {
    /// The first reason, if there is one, for which this address cannot be
    /// that of a light.
    ///
    /// A light has a private address that is neither the network address
    /// nor the broadcast address of its classful subnet. The classes of
    /// address are looked at in a fixed order, and the first that holds
    /// gives the fault: local, unspecified, broadcast, multicast, public,
    /// then the two subnet addresses.
    pub open spec fn fault(self) -> Option<AddressFault> {
        if self.link_local() || self.loopback() {
            Some(AddressFault::Local)
        } else if self.unspecified() {
            Some(AddressFault::Unspecified)
        } else if self.broadcast() {
            Some(AddressFault::Broadcast)
        } else if self.multicast() {
            Some(AddressFault::Multicast)
        } else if !self.private() {
            Some(AddressFault::Public)
        } else if self.class_network() == Some(self) {
            Some(AddressFault::SubnetNetwork)
        } else if self.class_broadcast() == Some(self) {
            Some(AddressFault::SubnetBroadcast)
        } else {
            None
        }
    }

    /// The first reason, if there is one, for which this address cannot be
    /// that of a light.
    pub fn check(&self) -> (r: Option<AddressFault>)
        ensures
            r == self.fault(),
    {
        let ip = *self;
        if ip.is_link_local() || ip.is_loopback() {
            return Some(AddressFault::Local);
        }
        if ip.is_unspecified() {
            return Some(AddressFault::Unspecified);
        }
        if ip.is_broadcast() {
            return Some(AddressFault::Broadcast);
        }
        if ip.is_multicast() {
            return Some(AddressFault::Multicast);
        }
        if !ip.is_private() {
            return Some(AddressFault::Public);
        }
        // check if this address is a subnet broadcast or network address;
        // the subnet is the classful one, as the network that the lights
        // are on is not known here
        if let Some(net) = classful_network(self) {
            if ip == net.network() {
                return Some(AddressFault::SubnetNetwork);
            }
            if ip == net.broadcast() {
                return Some(AddressFault::SubnetBroadcast);
            }
        }
        None
    }
}

} // verus!
