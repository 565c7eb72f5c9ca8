//! Stream framing and the byte-level codec: deciding when a complete ADU has
//! arrived, parsing it into a typed request, and serializing a response.
use vstd::prelude::*;

use crate::bits::{word_from, word_of};
use crate::pdu::{
    header_bytes, is_multi_write, pdu_bytes, recognized, FooterView, FunctionCode, Header,
    ModbusFooter, ModbusRequestPDU, ModbusTCPRequest, ModbusTCPResponse, RequestPduView,
};
use vstd::slice::{slice_index_get, slice_subrange, slice_to_vec};

verus! {

/// The header encoded in the first seven bytes of a buffer.
pub open spec fn parsed_header(b: Seq<u8>) -> Header {
    Header {
        tid: word_of(b[0], b[1]),
        pid: word_of(b[2], b[3]),
        len: word_of(b[4], b[5]),
        uid: b[6],
    }
}

/// The request PDU encoded in `p`: function code, address, quantity-or-value,
/// and, for the two multi-write codes, the byte-counted footer holding the
/// rest of the PDU.
pub open spec fn parsed_request_pdu(p: Seq<u8>) -> RequestPduView {
    RequestPduView {
        code: p[0],
        address: word_of(p[1], p[2]),
        q_or_v: word_of(p[3], p[4]),
        addl: if is_multi_write(p[0]) {
            Some(FooterView { byte_count: p[5], data: p.skip(6) })
        } else {
            None
        },
    }
}

/// Length of the complete frame at the front of `b`, or `None` if more bytes
/// are needed. Meaningful once the function code at offset 7 is recognized:
/// a multi-write frame runs to `13 + byte count`, every other frame is
/// exactly 12 bytes.
pub open spec fn frame_len(b: Seq<u8>) -> Option<int> {
    if b.len() < 12 {
        None
    } else if is_multi_write(b[7]) {
        if b.len() >= 13 && b.len() >= 13 + b[12] {
            Some(13 + b[12])
        } else {
            None
        }
    } else {
        Some(12)
    }
}

/// A framing failure. It ends the connection: once a function code outside
/// the implemented set appears at a frame boundary, later byte boundaries
/// cannot be trusted.
#[derive(Clone, Copy, Debug, PartialEq, Eq, Structural)]
pub enum DecodeError {
    UnrecognizedFunctionCode { code: u8 },
}

/// Decode the seven MBAP header bytes.
pub fn parse_mbap(from: &[u8]) -> (r: Header)
    requires
        from@.len() >= 7,
    ensures
        r == parsed_header(from@),
{
    Header {
        tid: word_from(*slice_index_get(from, 0), *slice_index_get(from, 1)),
        pid: word_from(*slice_index_get(from, 2), *slice_index_get(from, 3)),
        len: word_from(*slice_index_get(from, 4), *slice_index_get(from, 5)),
        uid: *slice_index_get(from, 6),
    }
}

/// Decode a request PDU from the bytes that follow the header. The caller
/// screens the function code first; a multi-write PDU must reach its byte
/// count at offset 5.
pub fn parse_modbus_request_pdu(from: &[u8]) -> (r: ModbusRequestPDU)
    requires
        from@.len() >= 5,
        recognized(from@[0]),
        is_multi_write(from@[0]) ==> from@.len() >= 6,
    ensures
        r@ == parsed_request_pdu(from@),
{
    let code = *slice_index_get(from, 0);
    let address = word_from(*slice_index_get(from, 1), *slice_index_get(from, 2));
    let count = word_from(*slice_index_get(from, 3), *slice_index_get(from, 4));
    let mut addl: Option<ModbusFooter> = None;
    if code == 0x0f || code == 0x10 {
        let byte_count = *slice_index_get(from, 5);
        let data = slice_to_vec(slice_subrange(from, 6, from.len()));
        assert(data@ =~= from@.skip(6));
        addl = Some(ModbusFooter { byte_count, data });
    }
    ModbusRequestPDU { code, address, q_or_v: count, addl }
}

/// Remove the first `n` bytes of `buf`, keeping the rest in order.
fn drain_front(buf: &mut Vec<u8>, n: usize)
    requires
        n <= old(buf)@.len(),
    ensures
        final(buf)@ == old(buf)@.skip(n as int),
{
    let mut rest: Vec<u8> = Vec::new();
    let mut i: usize = n;
    while i < buf.len()
        invariant
            n <= i <= buf@.len(),
            buf@ == old(buf)@,
            rest@ == buf@.subrange(n as int, i as int),
        decreases buf@.len() - i,
    {
        rest.push(buf[i]);
        i = i + 1;
        assert(rest@ =~= buf@.subrange(n as int, i as int));
    }
    assert(rest@ =~= old(buf)@.skip(n as int));
    *buf = rest;
}

/// Frames a Modbus TCP byte stream into requests and responses back to bytes.
#[derive(Default)]
pub struct ModbusTCPCodec;

impl ModbusTCPCodec {
    /// Try to extract one complete frame from the front of `buf`. Returns
    /// `Ok(None)` and leaves the buffer alone while the frame is still
    /// incomplete; on success the frame's bytes are drained and the decoded
    /// request returned; an unrecognized function code at the frame boundary
    /// is a connection-fatal error.
    pub fn decode(&self, buf: &mut Vec<u8>) -> (r: Result<
        Option<ModbusTCPRequest>,
        DecodeError,
    >)
        ensures
            old(buf)@.len() < 12 ==> (r matches Ok(o) && o is None && final(buf)@ == old(buf)@),
            old(buf)@.len() >= 12 && !recognized(old(buf)@[7]) ==> r == Err::<
                Option<ModbusTCPRequest>,
                DecodeError,
            >(DecodeError::UnrecognizedFunctionCode { code: old(buf)@[7] }) && final(buf)@ == old(
                buf,
            )@,
            old(buf)@.len() >= 12 && recognized(old(buf)@[7]) && frame_len(old(buf)@) is None ==> (r
                matches Ok(o) && o is None && final(buf)@ == old(buf)@),
            old(buf)@.len() >= 12 && recognized(old(buf)@[7]) ==> (frame_len(old(buf)@) matches
                Some(len) ==> (r matches Ok(o) && o matches Some(req) && req.header
                == parsed_header(old(buf)@) && req.pdu@ == parsed_request_pdu(
                old(buf)@.subrange(7, len),
            ) && final(buf)@ == old(buf)@.skip(len))),
    {
        if buf.len() < 12 {
            return Ok(None);
        }
        let code = buf[7];
        if FunctionCode::from_u8(code).is_none() {
            return Err(DecodeError::UnrecognizedFunctionCode { code });
        }
        let length: usize;
        if code == 0x0f || code == 0x10 {
            if buf.len() == 12 {
                return Ok(None);
            }
            let byte_count = buf[12] as usize;
            if buf.len() >= byte_count + 13 {
                length = byte_count + 13;
            } else {
                return Ok(None);
            }
        } else {
            length = 12;
        }
        let header = parse_mbap(slice_subrange(buf.as_slice(), 0, 7));
        let pdu = parse_modbus_request_pdu(slice_subrange(buf.as_slice(), 7, length));
        proof {
            let b = buf@;
            assert(parsed_header(b.subrange(0, 7)) == parsed_header(b));
        }
        drain_front(buf, length);
        Ok(Some(ModbusTCPRequest { header, pdu }))
    }

    /// Decode a request from a buffer known to hold one whole frame.
    pub fn decode_eof(&self, buf: &Vec<u8>) -> (r: ModbusTCPRequest)
        requires
            buf@.len() >= 12,
            recognized(buf@[7]),
            is_multi_write(buf@[7]) ==> buf@.len() >= 13,
        ensures
            r.header == parsed_header(buf@),
            r.pdu@ == parsed_request_pdu(buf@.skip(7)),
    {
        let header = parse_mbap(slice_subrange(buf.as_slice(), 0, 7));
        let pdu = parse_modbus_request_pdu(slice_subrange(buf.as_slice(), 7, buf.len()));
        proof {
            let b = buf@;
            assert(parsed_header(b.subrange(0, 7)) == parsed_header(b));
            assert(b.subrange(7, b.len() as int) =~= b.skip(7));
        }
        ModbusTCPRequest { header, pdu }
    }

    /// Serialize a response, header first, appending to `into`.
    pub fn encode(&self, item: ModbusTCPResponse, into: &mut Vec<u8>)
        ensures
            final(into)@ == old(into)@ + header_bytes(item.header) + pdu_bytes(item.pdu@),
    {
        let mut header = item.header.encode();
        let mut pdu = item.pdu.encode();
        into.append(&mut header);
        into.append(&mut pdu);
    }
}

} // verus!
