//! A verified core for a Modbus TCP slave: stream framing, request/response
//! codec, and a bounded register store with the standard exception semantics.
use vstd::prelude::*;

pub mod bits;
pub mod pdu;
pub mod codec;
pub mod laws;
pub mod store;

use crate::pdu::{
    pdu_bytes, Header, ModbusTCPRequest, ModbusTCPResponse, RequestPduView, ResponsePduView,
};
use crate::store::{request_admissible, resp_matches, store_after, BlankRegisters, StoreModel};

verus! {

/// Any response the store can produce fits comfortably in one frame: at most
/// two bytes of code and byte count plus 250 data bytes for the reads, five
/// bytes for the write echoes, two for an exception.
pub proof fn lemma_response_size(s: StoreModel, req: RequestPduView, r: ResponsePduView)
    requires
        resp_matches(s, req, r),
    ensures
        pdu_bytes(r).len() <= 260,
{
}

/// Serve one decoded request against `store`: dispatch the PDU, then echo the
/// request header with its length recomputed for the actual response PDU
/// (unit id byte plus PDU bytes).
pub fn respond(store: &mut BlankRegisters, req: ModbusTCPRequest) -> (r: ModbusTCPResponse)
    requires
        old(store)@.wf(),
        request_admissible(req.pdu@),
    ensures
        final(store)@.wf(),
        final(store)@ == store_after(old(store)@, req.pdu@),
        resp_matches(old(store)@, req.pdu@, r.pdu@),
        r.header.tid == req.header.tid,
        r.header.pid == req.header.pid,
        r.header.uid == req.header.uid,
        r.header.len == 1 + pdu_bytes(r.pdu@).len(),
{
    let header = req.header;
    let pdu = store.call(req.pdu);
    let encoded = pdu.encode();
    proof {
        lemma_response_size(old(store)@, req.pdu@, pdu@);
    }
    let len: u16 = (encoded.len() + 1) as u16;
    ModbusTCPResponse {
        header: Header { tid: header.tid, pid: header.pid, len, uid: header.uid },
        pdu,
    }
}

} // verus!
