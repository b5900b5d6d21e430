//! The address codec: an IPv4 endpoint and its fixed six-byte wire form.

use vstd::prelude::*;
use vstd::arithmetic::div_mod::lemma_fundamental_div_mod;

verus! {

/// An IPv4 address and port, the unit the directory protocol speaks in and
/// the key of the server store. Equality is by the five fields, which is
/// the same as equality of the six-byte wire form.
#[derive(Clone, Copy, PartialEq, Eq, Hash, Structural, Debug)]
pub struct Address {
    pub ip0: u8,
    pub ip1: u8,
    pub ip2: u8,
    pub ip3: u8,
    pub port: u16,
}

impl Address {
    /// The six-byte wire form: the four address octets in network order,
    /// then the port, big-endian.
    pub open spec fn wire(self) -> Seq<u8> {
        seq![
            self.ip0,
            self.ip1,
            self.ip2,
            self.ip3,
            (self.port / 256) as u8,
            (self.port % 256) as u8,
        ]
    }

    /// The address a six-byte record denotes.
    pub open spec fn spec_decode(b: Seq<u8>) -> Address
        recommends
            b.len() == 6,
    {
        Address {
            ip0: b[0],
            ip1: b[1],
            ip2: b[2],
            ip3: b[3],
            port: (b[4] as int * 256 + b[5] as int) as u16,
        }
    }

    /// The reserved all-zero value. On the wire it means "end of list"; as
    /// the continuation of a request it means "start from the beginning".
    pub open spec fn spec_is_null(self) -> bool {
        self.ip0 == 0 && self.ip1 == 0 && self.ip2 == 0 && self.ip3 == 0 && self.port == 0
    }

    /// The null address, 0.0.0.0:0.
    pub fn null() -> (r: Address)
        ensures
            r.spec_is_null(),
    {
        Address { ip0: 0, ip1: 0, ip2: 0, ip3: 0, port: 0 }
    }

    /// Whether this is the reserved all-zero value.
    pub fn is_null(&self) -> (r: bool)
        ensures
            r == self.spec_is_null(),
    {
        self.ip0 == 0 && self.ip1 == 0 && self.ip2 == 0 && self.ip3 == 0 && self.port == 0
    }

    /// Encodes the address into its six-byte wire form.
    pub fn encode(&self) -> (r: Vec<u8>)
        ensures
            r@ == self.wire(),
    {
        proof {
            lemma_port_bytes(self.port);
        }
        let mut r: Vec<u8> = Vec::new();
        r.push(self.ip0);
        r.push(self.ip1);
        r.push(self.ip2);
        r.push(self.ip3);
        r.push((self.port / 256) as u8);
        r.push((self.port % 256) as u8);
        proof {
            assert(r@ =~= self.wire());
        }
        r
    }

    /// Decodes a six-byte record. Callers only ever hand over slices that
    /// framing has already cut to exactly six bytes.
    pub fn decode(bytes: &[u8]) -> (r: Address)
        requires
            bytes@.len() == 6,
        ensures
            r == Address::spec_decode(bytes@),
    {
        let port: u16 = (bytes[4] as u16) * 256 + (bytes[5] as u16);
        Address { ip0: bytes[0], ip1: bytes[1], ip2: bytes[2], ip3: bytes[3], port }
    }
}

/// The big-endian split of a port: both bytes are in range and reassemble
/// to the port.
proof fn lemma_port_bytes(p: u16)
    ensures
        p / 256 < 256,
        p % 256 < 256,
        (p / 256) * 256 + (p % 256) == p,
{
    lemma_fundamental_div_mod(p as int, 256);
}

/// Law: decoding an encoded address gives the address back, for every
/// address, the null address included.
pub proof fn lemma_codec_round_trip(a: Address)
    ensures
        Address::spec_decode(a.wire()) == a,
{
    lemma_port_bytes(a.port);
    assert(Address::spec_decode(a.wire()) == a);
}

/// Law: the wire form determines the address, so equality of the five
/// fields and equality of the six wire bytes are the same relation.
pub proof fn lemma_wire_injective(a: Address, b: Address)
    ensures
        (a.wire() == b.wire()) <==> (a == b),
{
    if a.wire() == b.wire() {
        lemma_codec_round_trip(a);
        lemma_codec_round_trip(b);
    }
}

/// Law: the null address and the all-zero six-byte record denote each
/// other: an address is null exactly when its wire form is six zero bytes.
pub proof fn lemma_null_wire(a: Address)
    ensures
        a.spec_is_null() <==> a.wire() == seq![0u8, 0u8, 0u8, 0u8, 0u8, 0u8],
{
    lemma_port_bytes(a.port);
    if a.spec_is_null() {
        assert(a.wire() =~= seq![0u8, 0u8, 0u8, 0u8, 0u8, 0u8]);
    }
    if a.wire() == seq![0u8, 0u8, 0u8, 0u8, 0u8, 0u8] {
        assert(a.wire()[4] == 0 && a.wire()[5] == 0);
        assert(a.port == 0);
    }
}

} // verus!
