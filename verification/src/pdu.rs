//! The Modbus application data unit: header, request and response PDUs, and
//! their big-endian serialized forms.
use vstd::prelude::*;

use crate::bits::{
    unpack_bytes, push_word, word_hi, word_lo, words_to_bytes,
};

verus! {

/// The eight function codes this slave implements.
#[derive(Copy, Clone, Debug, PartialEq, Eq, Structural)]
pub enum FunctionCode {
    ReadCoils,
    ReadDiscreteInputs,
    ReadHoldingRegisters,
    ReadInputRegisters,
    WriteSingleCoil,
    WriteSingleRegister,
    WriteMultipleCoils,
    WriteMultipleRegisters,
}

impl FunctionCode {
    /// The wire value of this function code.
    pub open spec fn spec_code(self) -> u8 {
        match self {
            FunctionCode::ReadCoils => 0x01,
            FunctionCode::ReadDiscreteInputs => 0x02,
            FunctionCode::ReadHoldingRegisters => 0x03,
            FunctionCode::ReadInputRegisters => 0x04,
            FunctionCode::WriteSingleCoil => 0x05,
            FunctionCode::WriteSingleRegister => 0x06,
            FunctionCode::WriteMultipleCoils => 0x0f,
            FunctionCode::WriteMultipleRegisters => 0x10,
        }
    }

    /// The function code a wire value denotes, if any.
    pub open spec fn spec_from_u8(code: u8) -> Option<FunctionCode> {
        match code {
            0x01 => Some(FunctionCode::ReadCoils),
            0x02 => Some(FunctionCode::ReadDiscreteInputs),
            0x03 => Some(FunctionCode::ReadHoldingRegisters),
            0x04 => Some(FunctionCode::ReadInputRegisters),
            0x05 => Some(FunctionCode::WriteSingleCoil),
            0x06 => Some(FunctionCode::WriteSingleRegister),
            0x0f => Some(FunctionCode::WriteMultipleCoils),
            0x10 => Some(FunctionCode::WriteMultipleRegisters),
            _ => None,
        }
    }

    pub fn code(self) -> (r: u8)
        ensures
            r == self.spec_code(),
    {
        match self {
            FunctionCode::ReadCoils => 0x01,
            FunctionCode::ReadDiscreteInputs => 0x02,
            FunctionCode::ReadHoldingRegisters => 0x03,
            FunctionCode::ReadInputRegisters => 0x04,
            FunctionCode::WriteSingleCoil => 0x05,
            FunctionCode::WriteSingleRegister => 0x06,
            FunctionCode::WriteMultipleCoils => 0x0f,
            FunctionCode::WriteMultipleRegisters => 0x10,
        }
    }

    pub fn from_u8(code: u8) -> (r: Option<FunctionCode>)
        ensures
            r == FunctionCode::spec_from_u8(code),
    {
        match code {
            0x01 => Some(FunctionCode::ReadCoils),
            0x02 => Some(FunctionCode::ReadDiscreteInputs),
            0x03 => Some(FunctionCode::ReadHoldingRegisters),
            0x04 => Some(FunctionCode::ReadInputRegisters),
            0x05 => Some(FunctionCode::WriteSingleCoil),
            0x06 => Some(FunctionCode::WriteSingleRegister),
            0x0f => Some(FunctionCode::WriteMultipleCoils),
            0x10 => Some(FunctionCode::WriteMultipleRegisters),
            _ => None,
        }
    }
}

/// A wire value that denotes one of the eight implemented function codes.
pub open spec fn recognized(code: u8) -> bool {
    FunctionCode::spec_from_u8(code) is Some
}

/// The two function codes whose request carries a byte-counted footer.
pub open spec fn is_multi_write(code: u8) -> bool {
    code == 0x0f || code == 0x10
}

/// The MBAP header that precedes every PDU on a Modbus TCP stream.
#[derive(Copy, Clone, Debug, PartialEq, Eq, Structural)]
pub struct Header {
    pub tid: u16,
    pub pid: u16,
    pub len: u16,
    pub uid: u8,
}

/// The serialized form of a header: three big-endian words and the unit id.
pub open spec fn header_bytes(h: Header) -> Seq<u8> {
    seq![
        word_hi(h.tid),
        word_lo(h.tid),
        word_hi(h.pid),
        word_lo(h.pid),
        word_hi(h.len),
        word_lo(h.len),
        h.uid,
    ]
}

impl Header {
    pub fn encode(&self) -> (r: Vec<u8>)
        ensures
            r@ == header_bytes(*self),
    {
        let mut buff: Vec<u8> = Vec::new();
        push_word(&mut buff, self.tid);
        push_word(&mut buff, self.pid);
        push_word(&mut buff, self.len);
        buff.push(self.uid);
        assert(buff@ =~= header_bytes(*self));
        buff
    }
}

/// The footer of a multi-write request: a byte count and the payload bytes.
#[derive(Clone, Debug)]
pub struct ModbusFooter {
    pub byte_count: u8,
    pub data: Vec<u8>,
}

/// Mathematical view of a footer.
pub struct FooterView {
    pub byte_count: u8,
    pub data: Seq<u8>,
}

impl View for ModbusFooter {
    type V = FooterView;

    open spec fn view(&self) -> FooterView {
        FooterView { byte_count: self.byte_count, data: self.data@ }
    }
}

/// A decoded request PDU. `q_or_v` is the quantity of coils or registers for
/// the read and multi-write operations, and the written value for the two
/// single-write operations. The footer is present exactly for the two
/// multi-write function codes.
#[derive(Clone, Debug)]
pub struct ModbusRequestPDU {
    pub code: u8,
    pub address: u16,
    pub q_or_v: u16,
    pub addl: Option<ModbusFooter>,
}

/// Mathematical view of a request PDU.
pub struct RequestPduView {
    pub code: u8,
    pub address: u16,
    pub q_or_v: u16,
    pub addl: Option<FooterView>,
}

impl View for ModbusRequestPDU {
    type V = RequestPduView;

    open spec fn view(&self) -> RequestPduView {
        RequestPduView {
            code: self.code,
            address: self.address,
            q_or_v: self.q_or_v,
            addl: match self.addl {
                Some(f) => Some(f@),
                None => None,
            },
        }
    }
}

/// A response PDU: one variant per function code, plus the exception variant
/// whose code is the request's function code with bit `0x80` set.
#[derive(Clone, Debug)]
pub enum ModbusResponsePDU {
    ReadCoilsResponse { code: u8, byte_count: u8, coil_status: Vec<u8> },
    ReadDiscreteInputsResponse { code: u8, byte_count: u8, input_status: Vec<u8> },
    ReadHoldingRegistersResponse { code: u8, byte_count: u8, values: Vec<u16> },
    ReadInputRegistersResponse { code: u8, byte_count: u8, values: Vec<u16> },
    WriteSingleCoilResponse { code: u8, address: u16, value: u16 },
    WriteSingleRegisterResponse { code: u8, address: u16, value: u16 },
    WriteMultipleCoilsResponse { code: u8, address: u16, quantity: u16 },
    WriteMultipleRegistersResponse { code: u8, address: u16, quantity: u16 },
    ModbusErrorResponse { code: u8, exception_code: u8 },
}

/// Mathematical view of a response PDU.
pub enum ResponsePduView {
    ReadCoilsResponse { code: u8, byte_count: u8, coil_status: Seq<u8> },
    ReadDiscreteInputsResponse { code: u8, byte_count: u8, input_status: Seq<u8> },
    ReadHoldingRegistersResponse { code: u8, byte_count: u8, values: Seq<u16> },
    ReadInputRegistersResponse { code: u8, byte_count: u8, values: Seq<u16> },
    WriteSingleCoilResponse { code: u8, address: u16, value: u16 },
    WriteSingleRegisterResponse { code: u8, address: u16, value: u16 },
    WriteMultipleCoilsResponse { code: u8, address: u16, quantity: u16 },
    WriteMultipleRegistersResponse { code: u8, address: u16, quantity: u16 },
    ModbusErrorResponse { code: u8, exception_code: u8 },
}

impl View for ModbusResponsePDU {
    type V = ResponsePduView;

    open spec fn view(&self) -> ResponsePduView {
        match self {
            ModbusResponsePDU::ReadCoilsResponse { code, byte_count, coil_status } => (
            ResponsePduView::ReadCoilsResponse {
                code: *code,
                byte_count: *byte_count,
                coil_status: coil_status@,
            }),
            ModbusResponsePDU::ReadDiscreteInputsResponse { code, byte_count, input_status } => (
            ResponsePduView::ReadDiscreteInputsResponse {
                code: *code,
                byte_count: *byte_count,
                input_status: input_status@,
            }),
            ModbusResponsePDU::ReadHoldingRegistersResponse { code, byte_count, values } => (
            ResponsePduView::ReadHoldingRegistersResponse {
                code: *code,
                byte_count: *byte_count,
                values: values@,
            }),
            ModbusResponsePDU::ReadInputRegistersResponse { code, byte_count, values } => (
            ResponsePduView::ReadInputRegistersResponse {
                code: *code,
                byte_count: *byte_count,
                values: values@,
            }),
            ModbusResponsePDU::WriteSingleCoilResponse { code, address, value } => (
            ResponsePduView::WriteSingleCoilResponse {
                code: *code,
                address: *address,
                value: *value,
            }),
            ModbusResponsePDU::WriteSingleRegisterResponse { code, address, value } => (
            ResponsePduView::WriteSingleRegisterResponse {
                code: *code,
                address: *address,
                value: *value,
            }),
            ModbusResponsePDU::WriteMultipleCoilsResponse { code, address, quantity } => (
            ResponsePduView::WriteMultipleCoilsResponse {
                code: *code,
                address: *address,
                quantity: *quantity,
            }),
            ModbusResponsePDU::WriteMultipleRegistersResponse { code, address, quantity } => (
            ResponsePduView::WriteMultipleRegistersResponse {
                code: *code,
                address: *address,
                quantity: *quantity,
            }),
            ModbusResponsePDU::ModbusErrorResponse { code, exception_code } => (
            ResponsePduView::ModbusErrorResponse {
                code: *code,
                exception_code: *exception_code,
            }),
        }
    }
}

/// The serialized form of a response PDU, per the Modbus wire layout.
pub open spec fn pdu_bytes(p: ResponsePduView) -> Seq<u8> {
    match p {
        ResponsePduView::ReadCoilsResponse { code, byte_count, coil_status } => seq![
            code,
            byte_count,
        ] + coil_status,
        ResponsePduView::ReadDiscreteInputsResponse { code, byte_count, input_status } => seq![
            code,
            byte_count,
        ] + input_status,
        ResponsePduView::ReadHoldingRegistersResponse { code, byte_count, values } => seq![
            code,
            byte_count,
        ] + words_to_bytes(values),
        ResponsePduView::ReadInputRegistersResponse { code, byte_count, values } => seq![
            code,
            byte_count,
        ] + words_to_bytes(values),
        ResponsePduView::WriteSingleCoilResponse { code, address, value } => seq![
            code,
            word_hi(address),
            word_lo(address),
            word_hi(value),
            word_lo(value),
        ],
        ResponsePduView::WriteSingleRegisterResponse { code, address, value } => seq![
            code,
            word_hi(address),
            word_lo(address),
            word_hi(value),
            word_lo(value),
        ],
        ResponsePduView::WriteMultipleCoilsResponse { code, address, quantity } => seq![
            code,
            word_hi(address),
            word_lo(address),
            word_hi(quantity),
            word_lo(quantity),
        ],
        ResponsePduView::WriteMultipleRegistersResponse { code, address, quantity } => seq![
            code,
            word_hi(address),
            word_lo(address),
            word_hi(quantity),
            word_lo(quantity),
        ],
        ResponsePduView::ModbusErrorResponse { code, exception_code } => seq![
            code,
            exception_code,
        ],
    }
}

impl ModbusResponsePDU {
    pub fn encode(&self) -> (r: Vec<u8>)
        ensures
            r@ == pdu_bytes(self@),
    {
        let mut buff: Vec<u8> = Vec::new();
        match self {
            ModbusResponsePDU::ReadCoilsResponse { code, byte_count, coil_status } => {
                buff.push(*code);
                buff.push(*byte_count);
                let mut i: usize = 0;
                while i < coil_status.len()
                    invariant
                        i <= coil_status@.len(),
                        buff@ == seq![*code, *byte_count] + coil_status@.take(i as int),
                    decreases coil_status@.len() - i,
                {
                    buff.push(coil_status[i]);
                    i = i + 1;
                    assert(buff@ =~= seq![*code, *byte_count] + coil_status@.take(i as int));
                }
                assert(coil_status@.take(coil_status@.len() as int) =~= coil_status@);
            },
            ModbusResponsePDU::ReadDiscreteInputsResponse { code, byte_count, input_status } => {
                buff.push(*code);
                buff.push(*byte_count);
                let mut i: usize = 0;
                while i < input_status.len()
                    invariant
                        i <= input_status@.len(),
                        buff@ == seq![*code, *byte_count] + input_status@.take(i as int),
                    decreases input_status@.len() - i,
                {
                    buff.push(input_status[i]);
                    i = i + 1;
                    assert(buff@ =~= seq![*code, *byte_count] + input_status@.take(i as int));
                }
                assert(input_status@.take(input_status@.len() as int) =~= input_status@);
            },
            ModbusResponsePDU::ReadHoldingRegistersResponse { code, byte_count, values } => {
                buff.push(*code);
                buff.push(*byte_count);
                let words = unpack_bytes(values.as_slice());
                let mut i: usize = 0;
                while i < words.len()
                    invariant
                        i <= words@.len(),
                        words@ == words_to_bytes(values@),
                        buff@ == seq![*code, *byte_count] + words@.take(i as int),
                    decreases words@.len() - i,
                {
                    buff.push(words[i]);
                    i = i + 1;
                    assert(buff@ =~= seq![*code, *byte_count] + words@.take(i as int));
                }
                assert(words@.take(words@.len() as int) =~= words@);
            },
            ModbusResponsePDU::ReadInputRegistersResponse { code, byte_count, values } => {
                buff.push(*code);
                buff.push(*byte_count);
                let words = unpack_bytes(values.as_slice());
                let mut i: usize = 0;
                while i < words.len()
                    invariant
                        i <= words@.len(),
                        words@ == words_to_bytes(values@),
                        buff@ == seq![*code, *byte_count] + words@.take(i as int),
                    decreases words@.len() - i,
                {
                    buff.push(words[i]);
                    i = i + 1;
                    assert(buff@ =~= seq![*code, *byte_count] + words@.take(i as int));
                }
                assert(words@.take(words@.len() as int) =~= words@);
            },
            ModbusResponsePDU::WriteSingleCoilResponse { code, address, value } => {
                buff.push(*code);
                push_word(&mut buff, *address);
                push_word(&mut buff, *value);
                assert(buff@ =~= pdu_bytes(self@));
            },
            ModbusResponsePDU::WriteSingleRegisterResponse { code, address, value } => {
                buff.push(*code);
                push_word(&mut buff, *address);
                push_word(&mut buff, *value);
                assert(buff@ =~= pdu_bytes(self@));
            },
            ModbusResponsePDU::WriteMultipleCoilsResponse { code, address, quantity } => {
                buff.push(*code);
                push_word(&mut buff, *address);
                push_word(&mut buff, *quantity);
                assert(buff@ =~= pdu_bytes(self@));
            },
            ModbusResponsePDU::WriteMultipleRegistersResponse { code, address, quantity } => {
                buff.push(*code);
                push_word(&mut buff, *address);
                push_word(&mut buff, *quantity);
                assert(buff@ =~= pdu_bytes(self@));
            },
            ModbusResponsePDU::ModbusErrorResponse { code, exception_code } => {
                buff.push(*code);
                buff.push(*exception_code);
                assert(buff@ =~= pdu_bytes(self@));
            },
        }
        buff
    }
}

/// A complete decoded request: MBAP header plus request PDU.
#[derive(Clone, Debug)]
pub struct ModbusTCPRequest {
    pub header: Header,
    pub pdu: ModbusRequestPDU,
}

/// A complete response: MBAP header plus response PDU.
#[derive(Clone, Debug)]
pub struct ModbusTCPResponse {
    pub header: Header,
    pub pdu: ModbusResponsePDU,
}

} // verus!
