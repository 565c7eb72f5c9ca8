//! The simulated register device: four fixed-size banks with the bounded
//! read/write semantics of the eight implemented function codes.
use vstd::prelude::*;

use crate::bits::{
    bytes_to_words, pack_bits, pack_bytes, packs, unpack_bits, unpacked_bits,
};
use crate::pdu::{
    is_multi_write, recognized, FunctionCode, ModbusRequestPDU, ModbusResponsePDU, RequestPduView,
    ResponsePduView,
};
use vstd::slice::{slice_index_get, slice_subrange};

verus! {

/// Number of addressable entries in each bank.
pub const BANK_SIZE: usize = 65536;

/// Exception code for a request whose quantity or value is out of range.
pub const ILLEGAL_DATA_VALUE: u8 = 0x03;

/// Exception code for a request whose address range falls outside the bank.
pub const ILLEGAL_DATA_ADDRESS: u8 = 0x02;

/// Mathematical view of the four register banks.
pub struct StoreModel {
    pub coils: Seq<bool>,
    pub discrete_registers: Seq<bool>,
    pub holding_registers: Seq<u16>,
    pub input_registers: Seq<u16>,
}

impl StoreModel {
    /// Every bank has its full fixed size.
    pub open spec fn wf(self) -> bool {
        &&& self.coils.len() == BANK_SIZE
        &&& self.discrete_registers.len() == BANK_SIZE
        &&& self.holding_registers.len() == BANK_SIZE
        &&& self.input_registers.len() == BANK_SIZE
    }
}

/// The state of a store fresh from the constructor: everything off or zero.
pub open spec fn fresh_store() -> StoreModel {
    StoreModel {
        coils: Seq::new(BANK_SIZE as nat, |i: int| false),
        discrete_registers: Seq::new(BANK_SIZE as nat, |i: int| false),
        holding_registers: Seq::new(BANK_SIZE as nat, |i: int| 0u16),
        input_registers: Seq::new(BANK_SIZE as nat, |i: int| 0u16),
    }
}

/// `bank` with `vals` written element-wise starting at `addr`.
pub open spec fn overwritten<T>(bank: Seq<T>, addr: int, vals: Seq<T>) -> Seq<T> {
    Seq::new(
        bank.len(),
        |i: int| if addr <= i < addr + vals.len() {
            vals[i - addr]
        } else {
            bank[i]
        },
    )
}

/// An inert slave device, with a data store for each category.
pub struct BlankRegisters {
    holding_registers: Vec<u16>,
    input_registers: Vec<u16>,
    coils: Vec<bool>,
    discrete_registers: Vec<bool>,
}

impl View for BlankRegisters {
    type V = StoreModel;

    closed spec fn view(&self) -> StoreModel {
        StoreModel {
            coils: self.coils@,
            discrete_registers: self.discrete_registers@,
            holding_registers: self.holding_registers@,
            input_registers: self.input_registers@,
        }
    }
}

/// A vector of `n` copies of `false`.
fn off_bank(n: usize) -> (r: Vec<bool>)
    ensures
        r@ == Seq::new(n as nat, |i: int| false),
{
    let mut v: Vec<bool> = Vec::new();
    let mut i: usize = 0;
    while i < n
        invariant
            i <= n,
            v@ == Seq::new(i as nat, |k: int| false),
        decreases n - i,
    {
        v.push(false);
        i = i + 1;
        assert(v@ =~= Seq::new(i as nat, |k: int| false));
    }
    v
}

/// A vector of `n` zero words.
fn zero_bank(n: usize) -> (r: Vec<u16>)
    ensures
        r@ == Seq::new(n as nat, |i: int| 0u16),
{
    let mut v: Vec<u16> = Vec::new();
    let mut i: usize = 0;
    while i < n
        invariant
            i <= n,
            v@ == Seq::new(i as nat, |k: int| 0u16),
        decreases n - i,
    {
        v.push(0);
        i = i + 1;
        assert(v@ =~= Seq::new(i as nat, |k: int| 0u16));
    }
    v
}

impl BlankRegisters {
    pub fn new() -> (r: BlankRegisters)
        ensures
            r@ == fresh_store(),
            r@.wf(),
    {
        let holding_registers = zero_bank(BANK_SIZE);
        let coils = off_bank(BANK_SIZE);
        let discrete_registers = off_bank(BANK_SIZE);
        let input_registers = zero_bank(BANK_SIZE);
        BlankRegisters { holding_registers, coils, input_registers, discrete_registers }
    }

    /// Force a single coil on (`0xff00`) or off (`0x0000`); any other value
    /// is rejected with IllegalDataValue and leaves the store unchanged.
    pub fn write_single_coil(&mut self, code: u8, address: u16, value: u16) -> (r:
        ModbusResponsePDU)
        requires
            old(self)@.wf(),
            code == 0x05,
        ensures
            final(self)@.wf(),
            final(self)@.discrete_registers == old(self)@.discrete_registers,
            final(self)@.holding_registers == old(self)@.holding_registers,
            final(self)@.input_registers == old(self)@.input_registers,
            value == 0xff00 ==> final(self)@.coils == old(self)@.coils.update(address as int, true)
                && r@ == (ResponsePduView::WriteSingleCoilResponse { code, address, value }),
            value == 0x0000 ==> final(self)@.coils == old(self)@.coils.update(
                address as int,
                false,
            ) && r@ == (ResponsePduView::WriteSingleCoilResponse { code, address, value }),
            value != 0xff00 && value != 0x0000 ==> final(self)@.coils == old(self)@.coils && r@ == (
            ResponsePduView::ModbusErrorResponse {
                code: 0x85,
                exception_code: ILLEGAL_DATA_VALUE,
            }),
    {
        match value {
            0xff00 => {
                self.coils.set(address as usize, true);
                ModbusResponsePDU::WriteSingleCoilResponse { code, address, value }
            },
            0x0000 => {
                self.coils.set(address as usize, false);
                ModbusResponsePDU::WriteSingleCoilResponse { code, address, value }
            },
            _ => ModbusResponsePDU::ModbusErrorResponse {
                code: 0x85,
                exception_code: ILLEGAL_DATA_VALUE,
            },
        }
    }

    /// Overwrite a single holding register; always accepted.
    pub fn write_single_register(&mut self, code: u8, address: u16, value: u16) -> (r:
        ModbusResponsePDU)
        requires
            old(self)@.wf(),
            code == 0x06,
        ensures
            final(self)@.wf(),
            final(self)@.coils == old(self)@.coils,
            final(self)@.discrete_registers == old(self)@.discrete_registers,
            final(self)@.input_registers == old(self)@.input_registers,
            final(self)@.holding_registers == old(self)@.holding_registers.update(
                address as int,
                value,
            ),
            r@ == (ResponsePduView::WriteSingleRegisterResponse { code, address, value }),
    {
        self.holding_registers.set(address as usize, value);
        ModbusResponsePDU::WriteSingleRegisterResponse { code, address, value }
    }

    /// Read up to 2000 coils, packed one bit per coil.
    pub fn read_coils(&self, code: u8, address: u16, quantity: u16) -> (r: ModbusResponsePDU)
        requires
            self@.wf(),
            code == 0x01,
        ensures
            quantity > 2000 ==> r@ == (ResponsePduView::ModbusErrorResponse {
                code: 0x81,
                exception_code: ILLEGAL_DATA_VALUE,
            }),
            quantity <= 2000 && address + quantity > self@.coils.len() ==> r@ == (
            ResponsePduView::ModbusErrorResponse {
                code: 0x81,
                exception_code: ILLEGAL_DATA_ADDRESS,
            }),
            quantity <= 2000 && address + quantity <= self@.coils.len() ==> (r@ matches
                ResponsePduView::ReadCoilsResponse { code: c, byte_count, coil_status }
                && c == code && byte_count == (quantity + 7) / 8 && packs(
                self@.coils.subrange(address as int, address + quantity),
                coil_status,
            )),
    {
        if quantity > 2000 {
            ModbusResponsePDU::ModbusErrorResponse {
                code: code + 0x80,
                exception_code: ILLEGAL_DATA_VALUE,
            }
        } else if address as usize + quantity as usize > self.coils.len() {
            ModbusResponsePDU::ModbusErrorResponse {
                code: code + 0x80,
                exception_code: ILLEGAL_DATA_ADDRESS,
            }
        } else {
            let values: Vec<u8> = pack_bits(
                slice_subrange(
                    self.coils.as_slice(),
                    address as usize,
                    address as usize + quantity as usize,
                ),
            );
            ModbusResponsePDU::ReadCoilsResponse {
                code,
                byte_count: values.len() as u8,
                coil_status: values,
            }
        }
    }

    /// Read up to 2000 discrete inputs, packed one bit per input.
    pub fn read_discrete_inputs(&self, code: u8, address: u16, quantity: u16) -> (r:
        ModbusResponsePDU)
        requires
            self@.wf(),
            code == 0x02,
        ensures
            quantity > 2000 ==> r@ == (ResponsePduView::ModbusErrorResponse {
                code: 0x82,
                exception_code: ILLEGAL_DATA_VALUE,
            }),
            quantity <= 2000 && address + quantity > self@.discrete_registers.len() ==> r@ == (
            ResponsePduView::ModbusErrorResponse {
                code: 0x82,
                exception_code: ILLEGAL_DATA_ADDRESS,
            }),
            quantity <= 2000 && address + quantity <= self@.discrete_registers.len() ==> (r@ matches
                ResponsePduView::ReadDiscreteInputsResponse { code: c, byte_count, input_status }
                && c == code && byte_count == (quantity + 7) / 8 && packs(
                self@.discrete_registers.subrange(address as int, address + quantity),
                input_status,
            )),
    {
        if quantity > 2000 {
            ModbusResponsePDU::ModbusErrorResponse {
                code: code + 0x80,
                exception_code: ILLEGAL_DATA_VALUE,
            }
        } else if address as usize + quantity as usize > self.discrete_registers.len() {
            ModbusResponsePDU::ModbusErrorResponse {
                code: code + 0x80,
                exception_code: ILLEGAL_DATA_ADDRESS,
            }
        } else {
            let values: Vec<u8> = pack_bits(
                slice_subrange(
                    self.discrete_registers.as_slice(),
                    address as usize,
                    address as usize + quantity as usize,
                ),
            );
            ModbusResponsePDU::ReadDiscreteInputsResponse {
                code,
                byte_count: values.len() as u8,
                input_status: values,
            }
        }
    }

    /// Read up to 125 holding registers.
    pub fn read_holding_registers(&self, code: u8, address: u16, quantity: u16) -> (r:
        ModbusResponsePDU)
        requires
            self@.wf(),
            code == 0x03,
        ensures
            quantity > 125 ==> r@ == (ResponsePduView::ModbusErrorResponse {
                code: 0x83,
                exception_code: ILLEGAL_DATA_VALUE,
            }),
            quantity <= 125 && address + quantity > self@.holding_registers.len() ==> r@ == (
            ResponsePduView::ModbusErrorResponse {
                code: 0x83,
                exception_code: ILLEGAL_DATA_ADDRESS,
            }),
            quantity <= 125 && address + quantity <= self@.holding_registers.len() ==> r@ == (
            ResponsePduView::ReadHoldingRegistersResponse {
                code,
                byte_count: (2 * quantity) as u8,
                values: self@.holding_registers.subrange(address as int, address + quantity),
            }),
    {
        if quantity > 125 {
            ModbusResponsePDU::ModbusErrorResponse {
                code: code + 0x80,
                exception_code: ILLEGAL_DATA_VALUE,
            }
        } else if address as usize + quantity as usize > self.holding_registers.len() {
            ModbusResponsePDU::ModbusErrorResponse {
                code: code + 0x80,
                exception_code: ILLEGAL_DATA_ADDRESS,
            }
        } else {
            let values: Vec<u16> = slice_to_vec_u16(
                slice_subrange(
                    self.holding_registers.as_slice(),
                    address as usize,
                    address as usize + quantity as usize,
                ),
            );
            ModbusResponsePDU::ReadHoldingRegistersResponse {
                code,
                byte_count: (2 * quantity) as u8,
                values,
            }
        }
    }

    /// Read up to 125 input registers.
    pub fn read_input_registers(&self, code: u8, address: u16, quantity: u16) -> (r:
        ModbusResponsePDU)
        requires
            self@.wf(),
            code == 0x04,
        ensures
            quantity > 125 ==> r@ == (ResponsePduView::ModbusErrorResponse {
                code: 0x84,
                exception_code: ILLEGAL_DATA_VALUE,
            }),
            quantity <= 125 && address + quantity > self@.input_registers.len() ==> r@ == (
            ResponsePduView::ModbusErrorResponse {
                code: 0x84,
                exception_code: ILLEGAL_DATA_ADDRESS,
            }),
            quantity <= 125 && address + quantity <= self@.input_registers.len() ==> r@ == (
            ResponsePduView::ReadInputRegistersResponse {
                code,
                byte_count: (2 * quantity) as u8,
                values: self@.input_registers.subrange(address as int, address + quantity),
            }),
    {
        if quantity > 125 {
            ModbusResponsePDU::ModbusErrorResponse {
                code: code + 0x80,
                exception_code: ILLEGAL_DATA_VALUE,
            }
        } else if address as usize + quantity as usize > self.input_registers.len() {
            ModbusResponsePDU::ModbusErrorResponse {
                code: code + 0x80,
                exception_code: ILLEGAL_DATA_ADDRESS,
            }
        } else {
            let values: Vec<u16> = slice_to_vec_u16(
                slice_subrange(
                    self.input_registers.as_slice(),
                    address as usize,
                    address as usize + quantity as usize,
                ),
            );
            ModbusResponsePDU::ReadInputRegistersResponse {
                code,
                byte_count: (2 * quantity) as u8,
                values,
            }
        }
    }

    /// Write up to 1968 coils, copied element-wise from `values`.
    pub fn write_multiple_coils(
        &mut self,
        code: u8,
        address: u16,
        quantity: u16,
        values: Vec<bool>,
    ) -> (r: ModbusResponsePDU)
        requires
            old(self)@.wf(),
            code == 0x0f,
            quantity <= 0x07b0 && address + quantity <= old(self)@.coils.len() ==> quantity
                <= values@.len(),
        ensures
            final(self)@.wf(),
            final(self)@.discrete_registers == old(self)@.discrete_registers,
            final(self)@.holding_registers == old(self)@.holding_registers,
            final(self)@.input_registers == old(self)@.input_registers,
            quantity > 0x07b0 ==> final(self)@.coils == old(self)@.coils && r@ == (
            ResponsePduView::ModbusErrorResponse {
                code: 0x8f,
                exception_code: ILLEGAL_DATA_VALUE,
            }),
            quantity <= 0x07b0 && address + quantity > old(self)@.coils.len() ==> final(self)@.coils
                == old(self)@.coils && r@ == (ResponsePduView::ModbusErrorResponse {
                code: 0x8f,
                exception_code: ILLEGAL_DATA_ADDRESS,
            }),
            quantity <= 0x07b0 && address + quantity <= old(self)@.coils.len() ==> final(self)@.coils == overwritten(
                old(self)@.coils,
                address as int,
                values@.take(quantity as int),
            ) && r@ == (ResponsePduView::WriteMultipleCoilsResponse { code, address, quantity }),
    {
        if quantity > 0x07b0 {
            ModbusResponsePDU::ModbusErrorResponse {
                code: code + 0x80,
                exception_code: ILLEGAL_DATA_VALUE,
            }
        } else if address as usize + quantity as usize > self.coils.len() {
            ModbusResponsePDU::ModbusErrorResponse {
                code: code + 0x80,
                exception_code: ILLEGAL_DATA_ADDRESS,
            }
        } else {
            let mut i: usize = 0;
            while i < quantity as usize
                invariant
                    i <= quantity,
                    quantity <= values@.len(),
                    address + quantity <= self.coils@.len(),
                    self@.coils == overwritten(
                        old(self)@.coils,
                        address as int,
                        values@.take(i as int),
                    ),
                    self@.discrete_registers == old(self)@.discrete_registers,
                    self@.holding_registers == old(self)@.holding_registers,
                    self@.input_registers == old(self)@.input_registers,
                decreases quantity - i,
            {
                self.coils.set(address as usize + i, values[i]);
                i = i + 1;
                assert(self@.coils =~= overwritten(
                    old(self)@.coils,
                    address as int,
                    values@.take(i as int),
                ));
            }
            ModbusResponsePDU::WriteMultipleCoilsResponse { code, address, quantity }
        }
    }

    /// Write up to 123 holding registers, copied element-wise from `values`.
    pub fn write_multiple_registers(
        &mut self,
        code: u8,
        address: u16,
        quantity: u16,
        values: Vec<u16>,
    ) -> (r: ModbusResponsePDU)
        requires
            old(self)@.wf(),
            code == 0x10,
            quantity <= 0x007b && address + quantity <= old(self)@.holding_registers.len()
                ==> quantity <= values@.len(),
        ensures
            final(self)@.wf(),
            final(self)@.coils == old(self)@.coils,
            final(self)@.discrete_registers == old(self)@.discrete_registers,
            final(self)@.input_registers == old(self)@.input_registers,
            quantity > 0x007b ==> final(self)@.holding_registers == old(self)@.holding_registers
                && r@ == (ResponsePduView::ModbusErrorResponse {
                code: 0x90,
                exception_code: ILLEGAL_DATA_VALUE,
            }),
            quantity <= 0x007b && address + quantity > old(self)@.holding_registers.len() ==> final(self)@.holding_registers == old(self)@.holding_registers && r@ == (
            ResponsePduView::ModbusErrorResponse {
                code: 0x90,
                exception_code: ILLEGAL_DATA_ADDRESS,
            }),
            quantity <= 0x007b && address + quantity <= old(self)@.holding_registers.len() ==> final(self)@.holding_registers == overwritten(
                old(self)@.holding_registers,
                address as int,
                values@.take(quantity as int),
            ) && r@ == (ResponsePduView::WriteMultipleRegistersResponse {
                code,
                address,
                quantity,
            }),
    {
        if quantity > 0x007b {
            ModbusResponsePDU::ModbusErrorResponse {
                code: code + 0x80,
                exception_code: ILLEGAL_DATA_VALUE,
            }
        } else if address as usize + quantity as usize > self.holding_registers.len() {
            ModbusResponsePDU::ModbusErrorResponse {
                code: code + 0x80,
                exception_code: ILLEGAL_DATA_ADDRESS,
            }
        } else {
            let mut i: usize = 0;
            while i < quantity as usize
                invariant
                    i <= quantity,
                    quantity <= values@.len(),
                    address + quantity <= self.holding_registers@.len(),
                    self@.holding_registers == overwritten(
                        old(self)@.holding_registers,
                        address as int,
                        values@.take(i as int),
                    ),
                    self@.coils == old(self)@.coils,
                    self@.discrete_registers == old(self)@.discrete_registers,
                    self@.input_registers == old(self)@.input_registers,
                decreases quantity - i,
            {
                self.holding_registers.set(address as usize + i, values[i]);
                i = i + 1;
                assert(self@.holding_registers =~= overwritten(
                    old(self)@.holding_registers,
                    address as int,
                    values@.take(i as int),
                ));
            }
            ModbusResponsePDU::WriteMultipleRegistersResponse { code, address, quantity }
        }
    }
}

/// A decoded request the dispatcher accepts: the function code is one of the
/// eight implemented ones, the footer is present exactly for the two
/// multi-write codes, and the footer payload is large enough to supply the
/// requested quantity (a frame whose byte count understates the quantity is a
/// framing-level defect the caller must reject before dispatching).
pub open spec fn request_admissible(r: RequestPduView) -> bool {
    &&& recognized(r.code)
    &&& (is_multi_write(r.code) <==> r.addl is Some)
    &&& r.code == 0x0f ==> r.q_or_v <= 8 * r.addl->Some_0.data.len()
    &&& r.code == 0x10 ==> r.addl->Some_0.data.len() % 2 == 0 && ((r.q_or_v <= 0x007b && r.address
        + r.q_or_v <= BANK_SIZE) ==> r.q_or_v <= r.addl->Some_0.data.len() / 2)
}

/// The store contents after one admissible request is applied: the two
/// single-write and two multi-write codes mutate their bank when their checks
/// pass; everything else leaves the store unchanged.
pub open spec fn store_after(s: StoreModel, req: RequestPduView) -> StoreModel {
    if req.code == 0x05 {
        if req.q_or_v == 0xff00 {
            StoreModel { coils: s.coils.update(req.address as int, true), ..s }
        } else if req.q_or_v == 0x0000 {
            StoreModel { coils: s.coils.update(req.address as int, false), ..s }
        } else {
            s
        }
    } else if req.code == 0x06 {
        StoreModel {
            holding_registers: s.holding_registers.update(req.address as int, req.q_or_v),
            ..s
        }
    } else if req.code == 0x0f {
        if req.q_or_v <= 0x07b0 && req.address + req.q_or_v <= s.coils.len() {
            StoreModel {
                coils: overwritten(
                    s.coils,
                    req.address as int,
                    unpacked_bits(req.addl->Some_0.data, req.q_or_v as nat),
                ),
                ..s
            }
        } else {
            s
        }
    } else if req.code == 0x10 {
        if req.q_or_v <= 0x007b && req.address + req.q_or_v <= s.holding_registers.len() {
            StoreModel {
                holding_registers: overwritten(
                    s.holding_registers,
                    req.address as int,
                    bytes_to_words(req.addl->Some_0.data).take(req.q_or_v as int),
                ),
                ..s
            }
        } else {
            s
        }
    } else {
        s
    }
}

/// The response an admissible request must produce against store contents
/// `s`. Everything is pinned down exactly; the packed byte arrays of the two
/// bit-read responses are pinned bit by bit through `packs`.
pub open spec fn resp_matches(s: StoreModel, req: RequestPduView, r: ResponsePduView) -> bool {
    if req.code == 0x01 {
        if req.q_or_v > 2000 {
            r == (ResponsePduView::ModbusErrorResponse {
                code: 0x81,
                exception_code: ILLEGAL_DATA_VALUE,
            })
        } else if req.address + req.q_or_v > s.coils.len() {
            r == (ResponsePduView::ModbusErrorResponse {
                code: 0x81,
                exception_code: ILLEGAL_DATA_ADDRESS,
            })
        } else {
            &&& r matches ResponsePduView::ReadCoilsResponse { code, byte_count, coil_status }
            &&& code == req.code
            &&& byte_count == (req.q_or_v + 7) / 8
            &&& packs(s.coils.subrange(req.address as int, req.address + req.q_or_v), coil_status)
        }
    } else if req.code == 0x02 {
        if req.q_or_v > 2000 {
            r == (ResponsePduView::ModbusErrorResponse {
                code: 0x82,
                exception_code: ILLEGAL_DATA_VALUE,
            })
        } else if req.address + req.q_or_v > s.discrete_registers.len() {
            r == (ResponsePduView::ModbusErrorResponse {
                code: 0x82,
                exception_code: ILLEGAL_DATA_ADDRESS,
            })
        } else {
            &&& r matches ResponsePduView::ReadDiscreteInputsResponse {
                code,
                byte_count,
                input_status,
            }
            &&& code == req.code
            &&& byte_count == (req.q_or_v + 7) / 8
            &&& packs(
                s.discrete_registers.subrange(req.address as int, req.address + req.q_or_v),
                input_status,
            )
        }
    } else if req.code == 0x03 {
        if req.q_or_v > 125 {
            r == (ResponsePduView::ModbusErrorResponse {
                code: 0x83,
                exception_code: ILLEGAL_DATA_VALUE,
            })
        } else if req.address + req.q_or_v > s.holding_registers.len() {
            r == (ResponsePduView::ModbusErrorResponse {
                code: 0x83,
                exception_code: ILLEGAL_DATA_ADDRESS,
            })
        } else {
            r == (ResponsePduView::ReadHoldingRegistersResponse {
                code: req.code,
                byte_count: (2 * req.q_or_v) as u8,
                values: s.holding_registers.subrange(req.address as int, req.address + req.q_or_v),
            })
        }
    } else if req.code == 0x04 {
        if req.q_or_v > 125 {
            r == (ResponsePduView::ModbusErrorResponse {
                code: 0x84,
                exception_code: ILLEGAL_DATA_VALUE,
            })
        } else if req.address + req.q_or_v > s.input_registers.len() {
            r == (ResponsePduView::ModbusErrorResponse {
                code: 0x84,
                exception_code: ILLEGAL_DATA_ADDRESS,
            })
        } else {
            r == (ResponsePduView::ReadInputRegistersResponse {
                code: req.code,
                byte_count: (2 * req.q_or_v) as u8,
                values: s.input_registers.subrange(req.address as int, req.address + req.q_or_v),
            })
        }
    } else if req.code == 0x05 {
        if req.q_or_v == 0xff00 || req.q_or_v == 0x0000 {
            r == (ResponsePduView::WriteSingleCoilResponse {
                code: req.code,
                address: req.address,
                value: req.q_or_v,
            })
        } else {
            r == (ResponsePduView::ModbusErrorResponse {
                code: 0x85,
                exception_code: ILLEGAL_DATA_VALUE,
            })
        }
    } else if req.code == 0x06 {
        r == (ResponsePduView::WriteSingleRegisterResponse {
            code: req.code,
            address: req.address,
            value: req.q_or_v,
        })
    } else if req.code == 0x0f {
        if req.q_or_v > 0x07b0 {
            r == (ResponsePduView::ModbusErrorResponse {
                code: 0x8f,
                exception_code: ILLEGAL_DATA_VALUE,
            })
        } else if req.address + req.q_or_v > s.coils.len() {
            r == (ResponsePduView::ModbusErrorResponse {
                code: 0x8f,
                exception_code: ILLEGAL_DATA_ADDRESS,
            })
        } else {
            r == (ResponsePduView::WriteMultipleCoilsResponse {
                code: req.code,
                address: req.address,
                quantity: req.q_or_v,
            })
        }
    } else if req.code == 0x10 {
        if req.q_or_v > 0x007b {
            r == (ResponsePduView::ModbusErrorResponse {
                code: 0x90,
                exception_code: ILLEGAL_DATA_VALUE,
            })
        } else if req.address + req.q_or_v > s.holding_registers.len() {
            r == (ResponsePduView::ModbusErrorResponse {
                code: 0x90,
                exception_code: ILLEGAL_DATA_ADDRESS,
            })
        } else {
            r == (ResponsePduView::WriteMultipleRegistersResponse {
                code: req.code,
                address: req.address,
                quantity: req.q_or_v,
            })
        }
    } else {
        false
    }
}

impl BlankRegisters {
    /// Dispatch one decoded request to the operation its function code names.
    pub fn call(&mut self, req: ModbusRequestPDU) -> (r: ModbusResponsePDU)
        requires
            old(self)@.wf(),
            request_admissible(req@),
        ensures
            final(self)@.wf(),
            final(self)@ == store_after(old(self)@, req@),
            resp_matches(old(self)@, req@, r@),
    {
        let fc = match FunctionCode::from_u8(req.code) {
            Some(f) => f,
            None => {
                proof {
                    assert(false);
                }
                vstd::pervasive::unreached()
            },
        };
        let resp = match fc {
            FunctionCode::WriteMultipleCoils => {
                let footer = req.addl.unwrap();
                let values = unpack_bits(footer.data.as_slice(), req.q_or_v);
                let r = self.write_multiple_coils(req.code, req.address, req.q_or_v, values);
                proof {
                    if req.q_or_v <= 0x07b0 && req.address + req.q_or_v <= old(self)@.coils.len() {
                        assert(unpacked_bits(footer.data@, req.q_or_v as nat).take(
                            req.q_or_v as int,
                        ) =~= unpacked_bits(footer.data@, req.q_or_v as nat));
                    }
                    assert(self@ =~= store_after(old(self)@, req@));
                }
                r
            },
            FunctionCode::WriteMultipleRegisters => {
                let footer = req.addl.unwrap();
                let values = pack_bytes(footer.data.as_slice());
                let r = self.write_multiple_registers(req.code, req.address, req.q_or_v, values);
                proof {
                    assert(self@ =~= store_after(old(self)@, req@));
                }
                r
            },
            FunctionCode::WriteSingleCoil => {
                let r = self.write_single_coil(req.code, req.address, req.q_or_v);
                proof {
                    assert(self@ =~= store_after(old(self)@, req@));
                }
                r
            },
            FunctionCode::WriteSingleRegister => {
                let r = self.write_single_register(req.code, req.address, req.q_or_v);
                proof {
                    assert(self@ =~= store_after(old(self)@, req@));
                }
                r
            },
            FunctionCode::ReadHoldingRegisters => self.read_holding_registers(
                req.code,
                req.address,
                req.q_or_v,
            ),
            FunctionCode::ReadInputRegisters => self.read_input_registers(
                req.code,
                req.address,
                req.q_or_v,
            ),
            FunctionCode::ReadCoils => self.read_coils(req.code, req.address, req.q_or_v),
            FunctionCode::ReadDiscreteInputs => self.read_discrete_inputs(
                req.code,
                req.address,
                req.q_or_v,
            ),
        };
        proof {
            assert(self@ =~= store_after(old(self)@, req@));
        }
        resp
    }
}

/// Copy a slice of registers into a fresh vector.
fn slice_to_vec_u16(s: &[u16]) -> (r: Vec<u16>)
    ensures
        r@ == s@,
{
    let mut v: Vec<u16> = Vec::new();
    let mut i: usize = 0;
    while i < s.len()
        invariant
            i <= s@.len(),
            v@ == s@.take(i as int),
        decreases s@.len() - i,
    {
        v.push(*slice_index_get(s, i));
        i = i + 1;
        assert(v@ =~= s@.take(i as int));
    }
    assert(s@.take(s@.len() as int) =~= s@);
    v
}

} // verus!
