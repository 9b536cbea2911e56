//! Bluetooth device addresses (six octets) and their byte form as seen by scripts.
use vstd::prelude::*;

verus! {

broadcast use vstd::array::group_array_axioms;

/// Number of octets in a Bluetooth device address.
pub const ADDRESS_LEN: usize = 6;

/// A Bluetooth device address, most significant octet first.
#[derive(Clone, Copy, Debug)]
pub struct DeviceAddress {
    pub octets: [u8; 6],
}

impl DeviceAddress {
    /// The octets of the address as a sequence.
    pub open spec fn bytes(self) -> Seq<u8> {
        self.octets@
    }

    /// Builds an address from its six octets.
    pub fn new(octets: [u8; 6]) -> (addr: DeviceAddress)
        ensures
            addr.octets == octets,
    {
        DeviceAddress { octets }
    }

    /// Reads an address from a byte string; only a string of exactly six bytes
    /// is an address.
    pub fn from_bytes(bytes: &[u8]) -> (addr: Option<DeviceAddress>)
        ensures
            addr is Some <==> bytes@.len() == ADDRESS_LEN,
            addr matches Some(a) ==> a.bytes() == bytes@,
    {
        if bytes.len() != ADDRESS_LEN {
            return None;
        }
        let octets: [u8; 6] = [bytes[0], bytes[1], bytes[2], bytes[3], bytes[4], bytes[5]];
        let addr = DeviceAddress { octets };
        assert(addr.bytes() =~= bytes@);
        Some(addr)
    }

    /// The six octets of the address as a byte vector.
    pub fn to_bytes(&self) -> (bytes: Vec<u8>)
        ensures
            bytes@ == self.bytes(),
            bytes@.len() == ADDRESS_LEN,
    {
        let mut bytes: Vec<u8> = Vec::new();
        let mut i: usize = 0;
        while i < ADDRESS_LEN
            invariant
                i <= ADDRESS_LEN,
                bytes@ =~= self.bytes().subrange(0, i as int),
            decreases ADDRESS_LEN - i,
        {
            bytes.push(self.octets[i]);
            i = i + 1;
        }
        assert(self.bytes().subrange(0, 6) =~= self.bytes());
        bytes
    }

    /// Whether two addresses name the same device.
    pub fn same_as(&self, other: &DeviceAddress) -> (same: bool)
        ensures
            same <==> *self == *other,
    {
        let mut i: usize = 0;
        while i < ADDRESS_LEN
            invariant
                i <= ADDRESS_LEN,
                forall|j: int| 0 <= j < i ==> self.octets[j] == other.octets[j],
            decreases ADDRESS_LEN - i,
        {
            if self.octets[i] != other.octets[i] {
                return false;
            }
            i = i + 1;
        }
        assert(self.octets =~= other.octets);
        true
    }
}

/// Two addresses with the same octets are the same address.
pub proof fn lemma_address_determined_by_bytes(a: DeviceAddress, b: DeviceAddress)
    requires
        a.bytes() == b.bytes(),
    ensures
        a == b,
{
    assert(forall|i: int| 0 <= i < 6 ==> a.octets[i] == a.bytes()[i]);
    assert(forall|i: int| 0 <= i < 6 ==> b.octets[i] == b.bytes()[i]);
    assert(a.octets =~= b.octets);
}

/// The byte form of an address has exactly six bytes and no other address has
/// the same byte form, so reading it back with `from_bytes` gives the address
/// itself: `from_bytes(&a.to_bytes()) == Some(a)`.
pub proof fn lemma_bytes_roundtrip(a: DeviceAddress)
    ensures
        a.bytes().len() == ADDRESS_LEN,
        forall|b: DeviceAddress| #[trigger] b.bytes() == a.bytes() ==> b == a,
{
    assert forall|b: DeviceAddress| #[trigger] b.bytes() == a.bytes() implies b == a by {
        lemma_address_determined_by_bytes(b, a);
    }
}

} // verus!
