//! The paging state machine of one discovery pass against the master
//! directory, and the transport-failure taxonomy of a pass.

use vstd::prelude::*;
use crate::address::Address;
use crate::request::MasterServerQueryBuffer;
use crate::response::{parse_response, spec_records};

verus! {

/// The message-type tag every directory query carries.
pub const QUERY_TYPE_TAG: u8 = 0x31;

/// Where a discovery pass stands.
#[derive(Clone, Copy, PartialEq, Eq, Structural, Debug)]
pub enum PassPhase {
    /// The pass has a request framed and awaits the page it asks for.
    Requesting,
    /// Terminal: the directory signalled the end of its list.
    Done,
    /// Terminal: a transport failure ended the pass early. Whatever earlier
    /// pages put in the store stays there; the pass is not retried.
    Aborted,
}

/// The addresses of `recs` that are not the reserved terminator: the ones a
/// detail query is run for.
pub open spec fn spec_live_records(recs: Seq<Address>) -> Seq<Address> {
    recs.filter(|a: Address| !a.spec_is_null())
}

/// One discovery pass: the loop state of paging through the directory's
/// address list.
///
/// The pass performs no I/O of its own. The caller sends `request_bytes` to
/// the directory, awaits one datagram with a bounded timeout, and hands the
/// outcome back: the datagram to [`DiscoveryPass::on_response`], a send,
/// receive or timeout failure to [`DiscoveryPass::on_transport_error`]. The
/// addresses `on_response` returns are the ones to run a detail query for;
/// the pass is over when `phase` leaves [`PassPhase::Requesting`].
pub struct DiscoveryPass {
    /// The request framing for the page currently awaited; its continuation
    /// address moves to the last record of each parsed page.
    pub buffer: MasterServerQueryBuffer,
    /// Where the pass stands.
    pub phase: PassPhase,
}

impl DiscoveryPass {
    /// A fresh pass for one region and filter: the first request continues
    /// from the null address, meaning "start of the list".
    pub fn new(region: u8, filter: Vec<u8>) -> (r: DiscoveryPass)
        ensures
            r.phase == PassPhase::Requesting,
            r.buffer.message_type == QUERY_TYPE_TAG,
            r.buffer.region == region,
            r.buffer.filter@ == filter@,
            r.buffer.addr.spec_is_null(),
    {
        DiscoveryPass {
            buffer: MasterServerQueryBuffer::new(QUERY_TYPE_TAG, region, Address::null(), filter),
            phase: PassPhase::Requesting,
        }
    }

    /// The framed request for the page the pass currently awaits.
    pub fn request_bytes(&self) -> (r: Vec<u8>)
        requires
            self.phase == PassPhase::Requesting,
        ensures
            r@ == self.buffer.spec_bytes(),
    {
        self.buffer.to_vec()
    }

    /// A send or receive failure is fatal to the pass, never to the
    /// process: the pass ends, and no page is retried.
    pub fn on_transport_error(&mut self)
        ensures
            final(self).phase == PassPhase::Aborted,
            final(self).buffer == old(self).buffer,
    {
        self.phase = PassPhase::Aborted;
    }

    /// Takes the page the directory answered with and decides how the pass
    /// goes on.
    ///
    /// The datagram is parsed into six-byte records; returned are its
    /// non-terminator addresses, the ones to run a detail query for. If the
    /// last record is the terminator the pass is done. Otherwise the next
    /// request continues from the last record. A datagram without one
    /// complete record also ends the pass as done: repeating the same
    /// request could make no progress.
    pub fn on_response(&mut self, datagram: &Vec<u8>) -> (to_query: Vec<Address>)
        requires
            old(self).phase == PassPhase::Requesting,
        ensures
            to_query@ == spec_live_records(spec_records(datagram@)),
            final(self).buffer.message_type == old(self).buffer.message_type,
            final(self).buffer.region == old(self).buffer.region,
            final(self).buffer.filter == old(self).buffer.filter,
            ({
                let recs = spec_records(datagram@);
                if recs.len() == 0 {
                    final(self).phase == PassPhase::Done
                } else if recs.last().spec_is_null() {
                    final(self).phase == PassPhase::Done
                } else {
                    final(self).phase == PassPhase::Requesting && final(self).buffer.addr
                        == recs.last()
                }
            }),
    {
        let records = parse_response(datagram);
        let mut to_query: Vec<Address> = Vec::new();
        let n = records.len();
        proof {
            assert(spec_live_records(records@.take(0)) =~= Seq::<Address>::empty()) by {
                reveal(Seq::filter);
            };
        }
        let mut i: usize = 0;
        while i < n
            invariant
                n == records@.len(),
                i <= n,
                to_query@ == spec_live_records(records@.take(i as int)),
            decreases n - i,
        {
            let a = records[i];
            if !a.is_null() {
                to_query.push(a);
            }
            proof {
                reveal(Seq::filter);
                assert(records@.take(i + 1).drop_last() =~= records@.take(i as int));
                assert(records@.take(i + 1).last() == records@[i as int]);
            }
            i = i + 1;
        }
        proof {
            assert(records@.take(n as int) =~= records@);
        }
        if n == 0 {
            self.phase = PassPhase::Done;
        } else {
            let last = records[n - 1];
            if last.is_null() {
                self.phase = PassPhase::Done;
            } else {
                self.buffer.addr = last;
            }
        }
        to_query
    }
}

/// The error a failed send or receive against the directory carries.
#[derive(Debug)]
pub struct SendRecvError {
    /// The failure text, for reporting to whoever triggered the pass.
    pub message: String,
}

impl From<String> for SendRecvError {
    fn from(value: String) -> (r: Self) {
        SendRecvError { message: value }
    }
}

impl vstd::std_specs::convert::FromSpecImpl<String> for SendRecvError {
    open spec fn obeys_from_spec() -> bool {
        true
    }

    open spec fn from_spec(value: String) -> Self {
        SendRecvError { message: value }
    }
}

/// What can end a discovery pass early; only a transport failure does.
#[derive(Clone, Copy, PartialEq, Eq, Structural, Debug)]
pub enum MasterServerError {
    /// Sending a request or receiving a response failed.
    SendRecvError,
}

} // verus!
