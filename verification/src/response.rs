//! Parsing of one directory response datagram into six-byte address
//! records.

use vstd::prelude::*;
use crate::address::Address;

verus! {

/// The record size of the directory's response format.
pub const RECORD_SIZE: usize = 6;

/// The addresses a datagram carries: its consecutive six-byte windows,
/// starting at offset zero, each decoded. Trailing bytes that do not fill a
/// record do not contribute.
pub open spec fn spec_records(d: Seq<u8>) -> Seq<Address> {
    Seq::new(d.len() / 6, |i: int| Address::spec_decode(d.subrange(6 * i, 6 * i + 6)))
}

/// Splits a raw datagram into consecutive six-byte records and decodes each.
///
/// A datagram whose length is not a multiple of the record size violates the
/// protocol framing; the policy applied here, consistently, is to keep the
/// complete records and discard the trailing partial bytes.
pub fn parse_response(d: &Vec<u8>) -> (r: Vec<Address>)
    ensures
        r@ == spec_records(d@),
{
    let mut r: Vec<Address> = Vec::new();
    let bytes: &[u8] = d.as_slice();
    let n: usize = bytes.len() / RECORD_SIZE;
    let mut i: usize = 0;
    while i < n
        invariant
            n == bytes@.len() / 6,
            bytes@ == d@,
            bytes@.len() <= usize::MAX,
            i <= n,
            r@.len() == i,
            forall|j: int| 0 <= j < i ==> r@[j] == spec_records(d@)[j],
        decreases n - i,
    {
        proof {
            assert(6 * (i as int) + 6 <= bytes@.len()) by {
                vstd::arithmetic::div_mod::lemma_fundamental_div_mod(bytes@.len() as int, 6);
            };
        }
        let start: usize = i * 6;
        let window: &[u8] = &bytes[start..start + 6];
        let addr = Address::decode(window);
        r.push(addr);
        i = i + 1;
    }
    proof {
        assert(r@ =~= spec_records(d@));
    }
    r
}

} // verus!
