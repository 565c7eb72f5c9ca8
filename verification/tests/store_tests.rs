use modbus_server::pdu::{FunctionCode, ModbusFooter, ModbusRequestPDU, ModbusResponsePDU};
use modbus_server::store::BlankRegisters;

#[test]
fn main_test_read_coils() {
    let mut br = BlankRegisters::new();
    let req = ModbusRequestPDU {
        code: FunctionCode::ReadCoils.code(),
        address: 1 as u16,
        q_or_v: 10 as u16,
        addl: None,
    };
    let resp = br.call(req.clone());
    match resp {
        ModbusResponsePDU::ReadCoilsResponse { code, byte_count, coil_status } => {
            assert!(code == req.code);
            assert!(coil_status.len() == (req.q_or_v / 8 + 1) as usize);
            for i in 0..byte_count {
                assert!(0 as u8 == coil_status[i as usize]);
            }
        }
        _ => {
            assert!(false);
        }
    };
}

#[test]
fn test_test_read_coils() {
    let mut br = BlankRegisters::new();
    let req = ModbusRequestPDU {
        code: FunctionCode::ReadCoils.code(),
        address: 1 as u16,
        q_or_v: 10 as u16,
        addl: None,
    };
    let resp = br.call(req.clone());
    match resp {
        ModbusResponsePDU::ReadCoilsResponse { code, byte_count, coil_status } => {
            assert!(code == req.code);
            assert!(coil_status.len() == (req.q_or_v / 8 + 1) as usize);
            for i in 0..byte_count {
                assert!(0 as u8 == coil_status[i as usize]);
            }
        }
        _ => {
            assert!(false);
        }
    };
}

#[test]
fn test_read_coils_quantity_too_large() {
    let br = BlankRegisters::new();
    let resp = br.read_coils(0x01, 42, 2001);
    match resp {
        ModbusResponsePDU::ModbusErrorResponse { code, exception_code } => {
            assert_eq!(code, 0x81);
            assert_eq!(exception_code, 0x03);
        }
        _ => panic!("expected an exception"),
    }
}

#[test]
fn test_read_discrete_inputs_quantity_too_large() {
    let br = BlankRegisters::new();
    let resp = br.read_discrete_inputs(0x02, 0, 2001);
    match resp {
        ModbusResponsePDU::ModbusErrorResponse { code, exception_code } => {
            assert_eq!(code, 0x82);
            assert_eq!(exception_code, 0x03);
        }
        _ => panic!("expected an exception"),
    }
}

#[test]
fn test_read_holding_registers_address_overflow() {
    let br = BlankRegisters::new();
    let resp = br.read_holding_registers(0x03, 65535, 2);
    match resp {
        ModbusResponsePDU::ModbusErrorResponse { code, exception_code } => {
            assert_eq!(code, 0x83);
            assert_eq!(exception_code, 0x02);
        }
        _ => panic!("expected an exception"),
    }
}

#[test]
fn test_read_input_registers_address_overflow() {
    let br = BlankRegisters::new();
    let resp = br.read_input_registers(0x04, 65500, 125);
    match resp {
        ModbusResponsePDU::ModbusErrorResponse { code, exception_code } => {
            assert_eq!(code, 0x84);
            assert_eq!(exception_code, 0x02);
        }
        _ => panic!("expected an exception"),
    }
}

#[test]
fn test_write_single_register_then_read_back() {
    let mut br = BlankRegisters::new();
    let resp = br.write_single_register(0x06, 123, 0xbeef);
    match resp {
        ModbusResponsePDU::WriteSingleRegisterResponse { code, address, value } => {
            assert_eq!(code, 0x06);
            assert_eq!(address, 123);
            assert_eq!(value, 0xbeef);
        }
        _ => panic!("expected a write echo"),
    }
    let resp = br.read_holding_registers(0x03, 123, 1);
    match resp {
        ModbusResponsePDU::ReadHoldingRegistersResponse { code, byte_count, values } => {
            assert_eq!(code, 0x03);
            assert_eq!(byte_count, 2);
            assert_eq!(values, vec![0xbeef]);
        }
        _ => panic!("expected register data"),
    }
}

#[test]
fn test_write_single_coil_on_off_and_invalid() {
    let mut br = BlankRegisters::new();

    let resp = br.write_single_coil(0x05, 7, 0xff00);
    assert!(matches!(
        resp,
        ModbusResponsePDU::WriteSingleCoilResponse { code: 0x05, address: 7, value: 0xff00 }
    ));
    match br.read_coils(0x01, 7, 1) {
        ModbusResponsePDU::ReadCoilsResponse { coil_status, .. } => {
            assert_eq!(coil_status, vec![0x01]);
        }
        _ => panic!("expected coil data"),
    }

    // An invalid value is rejected and must leave the coil as it was.
    let resp = br.write_single_coil(0x05, 7, 0x1234);
    match resp {
        ModbusResponsePDU::ModbusErrorResponse { code, exception_code } => {
            assert_eq!(code, 0x85);
            assert_eq!(exception_code, 0x03);
        }
        _ => panic!("expected an exception"),
    }
    match br.read_coils(0x01, 7, 1) {
        ModbusResponsePDU::ReadCoilsResponse { coil_status, .. } => {
            assert_eq!(coil_status, vec![0x01]);
        }
        _ => panic!("expected coil data"),
    }

    let resp = br.write_single_coil(0x05, 7, 0x0000);
    assert!(matches!(
        resp,
        ModbusResponsePDU::WriteSingleCoilResponse { code: 0x05, address: 7, value: 0x0000 }
    ));
    match br.read_coils(0x01, 7, 1) {
        ModbusResponsePDU::ReadCoilsResponse { coil_status, .. } => {
            assert_eq!(coil_status, vec![0x00]);
        }
        _ => panic!("expected coil data"),
    }
}

#[test]
fn test_write_multiple_coils_roundtrip() {
    let mut br = BlankRegisters::new();
    // Ten coils: 0xaa gives off/on alternating, 0x01 turns coil 8 on.
    let req = ModbusRequestPDU {
        code: FunctionCode::WriteMultipleCoils.code(),
        address: 100,
        q_or_v: 10,
        addl: Some(ModbusFooter { byte_count: 2, data: vec![0xaa, 0x01] }),
    };
    let resp = br.call(req);
    assert!(matches!(
        resp,
        ModbusResponsePDU::WriteMultipleCoilsResponse { code: 0x0f, address: 100, quantity: 10 }
    ));
    match br.read_coils(0x01, 100, 10) {
        ModbusResponsePDU::ReadCoilsResponse { code, byte_count, coil_status } => {
            assert_eq!(code, 0x01);
            assert_eq!(byte_count, 2);
            assert_eq!(coil_status, vec![0xaa, 0x01]);
        }
        _ => panic!("expected coil data"),
    }
}

#[test]
fn test_write_multiple_coils_quantity_too_large() {
    let mut br = BlankRegisters::new();
    let values = vec![false; 1969];
    let resp = br.write_multiple_coils(0x0f, 0, 1969, values);
    match resp {
        ModbusResponsePDU::ModbusErrorResponse { code, exception_code } => {
            assert_eq!(code, 0x8f);
            assert_eq!(exception_code, 0x03);
        }
        _ => panic!("expected an exception"),
    }
}

#[test]
fn test_write_multiple_coils_address_overflow() {
    let mut br = BlankRegisters::new();
    let values = vec![true; 10];
    let resp = br.write_multiple_coils(0x0f, 65530, 10, values);
    match resp {
        ModbusResponsePDU::ModbusErrorResponse { code, exception_code } => {
            assert_eq!(code, 0x8f);
            assert_eq!(exception_code, 0x02);
        }
        _ => panic!("expected an exception"),
    }
}

#[test]
fn test_write_multiple_registers_via_call() {
    let mut br = BlankRegisters::new();
    let req = ModbusRequestPDU {
        code: FunctionCode::WriteMultipleRegisters.code(),
        address: 10,
        q_or_v: 2,
        addl: Some(ModbusFooter { byte_count: 4, data: vec![0x12, 0x34, 0x56, 0x78] }),
    };
    let resp = br.call(req);
    assert!(matches!(
        resp,
        ModbusResponsePDU::WriteMultipleRegistersResponse { code: 0x10, address: 10, quantity: 2 }
    ));
    match br.read_holding_registers(0x03, 10, 2) {
        ModbusResponsePDU::ReadHoldingRegistersResponse { byte_count, values, .. } => {
            assert_eq!(byte_count, 4);
            assert_eq!(values, vec![0x1234, 0x5678]);
        }
        _ => panic!("expected register data"),
    }
}

#[test]
fn test_write_multiple_registers_quantity_too_large() {
    let mut br = BlankRegisters::new();
    let values = vec![0u16; 124];
    let resp = br.write_multiple_registers(0x10, 0, 124, values);
    match resp {
        ModbusResponsePDU::ModbusErrorResponse { code, exception_code } => {
            assert_eq!(code, 0x90);
            assert_eq!(exception_code, 0x03);
        }
        _ => panic!("expected an exception"),
    }
}

#[test]
fn test_read_coils_address_overflow() {
    let br = BlankRegisters::new();
    let resp = br.read_coils(0x01, 65000, 2000);
    match resp {
        ModbusResponsePDU::ModbusErrorResponse { code, exception_code } => {
            assert_eq!(code, 0x81);
            assert_eq!(exception_code, 0x02);
        }
        _ => panic!("expected an exception"),
    }
}

#[test]
fn test_read_coils_largest_quantity() {
    let br = BlankRegisters::new();
    match br.read_coils(0x01, 0, 2000) {
        ModbusResponsePDU::ReadCoilsResponse { code, byte_count, coil_status } => {
            assert_eq!(code, 0x01);
            assert_eq!(byte_count, 250);
            assert_eq!(coil_status, vec![0u8; 250]);
        }
        _ => panic!("expected coil data"),
    }
}

#[test]
fn test_read_holding_registers_largest_quantity() {
    let br = BlankRegisters::new();
    match br.read_holding_registers(0x03, 65411, 125) {
        ModbusResponsePDU::ReadHoldingRegistersResponse { byte_count, values, .. } => {
            assert_eq!(byte_count, 250);
            assert_eq!(values, vec![0u16; 125]);
        }
        _ => panic!("expected register data"),
    }
}

#[test]
fn test_write_multiple_coils_largest_quantity() {
    let mut br = BlankRegisters::new();
    let values = vec![true; 1968];
    let resp = br.write_multiple_coils(0x0f, 0, 1968, values);
    assert!(matches!(
        resp,
        ModbusResponsePDU::WriteMultipleCoilsResponse { code: 0x0f, address: 0, quantity: 1968 }
    ));
    match br.read_coils(0x01, 0, 1968) {
        ModbusResponsePDU::ReadCoilsResponse { byte_count, coil_status, .. } => {
            assert_eq!(byte_count, 246);
            assert_eq!(coil_status, vec![0xffu8; 246]);
        }
        _ => panic!("expected coil data"),
    }
}
