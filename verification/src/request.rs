//! Framing of one directory query into the exact byte layout the master
//! directory expects.

use vstd::prelude::*;
use crate::address::Address;

verus! {

/// One directory query: a message-type tag, a region selector, the
/// continuation address (null for the first page of a pass) and a filter
/// text, framed by `to_vec` into the byte layout the directory mandates.
pub struct MasterServerQueryBuffer {
    pub message_type: u8,
    pub region: u8,
    pub addr: Address,
    pub filter: Vec<u8>,
}

impl MasterServerQueryBuffer {
    /// The mandated layout: tag, region, the six wire bytes of the
    /// continuation address, a fixed `0x00` separator, the filter bytes, and
    /// a trailing `0x00` terminator. Both zero bytes are emitted even when
    /// the filter is empty.
    pub open spec fn spec_bytes(self) -> Seq<u8> {
        seq![self.message_type, self.region] + self.addr.wire() + seq![0u8] + self.filter@
            + seq![0u8]
    }

    pub fn new(message_type: u8, region: u8, addr: Address, filter: Vec<u8>) -> (r:
        MasterServerQueryBuffer)
        ensures
            r.message_type == message_type,
            r.region == region,
            r.addr == addr,
            r.filter@ == filter@,
    {
        MasterServerQueryBuffer { message_type, region, addr, filter }
    }

    /// Serializes the query into the wire bytes.
    pub fn to_vec(&self) -> (r: Vec<u8>)
        ensures
            r@ == self.spec_bytes(),
    {
        let mut r: Vec<u8> = Vec::new();
        r.push(self.message_type);
        r.push(self.region);
        let mut wire = self.addr.encode();
        r.append(&mut wire);
        r.push(0x00);
        let mut i: usize = 0;
        while i < self.filter.len()
            invariant
                i <= self.filter@.len(),
                r@ == seq![self.message_type, self.region] + self.addr.wire() + seq![0u8]
                    + self.filter@.take(i as int),
            decreases self.filter@.len() - i,
        {
            r.push(self.filter[i]);
            proof {
                assert(self.filter@.take(i + 1) =~= self.filter@.take(i as int).push(
                    self.filter@[i as int],
                ));
            }
            i = i + 1;
        }
        r.push(0x00);
        proof {
            assert(self.filter@.take(self.filter@.len() as int) =~= self.filter@);
            assert(r@ =~= self.spec_bytes());
        }
        r
    }
}

/// Law: with an empty filter and the null continuation address the framed
/// request is exactly the ten bytes
/// `[tag, region, 0, 0, 0, 0, 0, 0, 0x00, 0x00]` — six zero bytes for the
/// null address, then the separator and the trailing terminator.
pub proof fn lemma_initial_request_shape(q: MasterServerQueryBuffer)
    requires
        q.filter@.len() == 0,
        q.addr.spec_is_null(),
    ensures
        q.spec_bytes() == seq![q.message_type, q.region, 0u8, 0u8, 0u8, 0u8, 0u8, 0u8, 0u8, 0u8],
{
    assert(q.spec_bytes() =~= seq![
        q.message_type,
        q.region,
        0u8,
        0u8,
        0u8,
        0u8,
        0u8,
        0u8,
        0u8,
        0u8,
    ]);
}

} // verus!
