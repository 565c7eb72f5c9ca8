use modbus_server::codec::{DecodeError, ModbusTCPCodec};
use modbus_server::pdu::{Header, ModbusResponsePDU, ModbusTCPResponse};
use modbus_server::respond;
use modbus_server::store::BlankRegisters;

#[test]
fn test_frame_fixed_length_complete() {
    // Seven header bytes, then function code 0x03, address, quantity: 12 bytes.
    let codec = ModbusTCPCodec;
    let mut buf = vec![0x00, 0x01, 0x00, 0x00, 0x00, 0x06, 0x11, 0x03, 0x00, 0x05, 0x00, 0x02];
    let req = codec.decode(&mut buf).unwrap().expect("frame is complete at 12 bytes");
    assert_eq!(buf.len(), 0);
    assert_eq!(req.header.tid, 1);
    assert_eq!(req.header.pid, 0);
    assert_eq!(req.header.len, 6);
    assert_eq!(req.header.uid, 0x11);
    assert_eq!(req.pdu.code, 0x03);
    assert_eq!(req.pdu.address, 5);
    assert_eq!(req.pdu.q_or_v, 2);
    assert!(req.pdu.addl.is_none());
}

#[test]
fn test_frame_eleven_bytes_incomplete() {
    let codec = ModbusTCPCodec;
    let mut buf = vec![0x00, 0x01, 0x00, 0x00, 0x00, 0x06, 0x11, 0x03, 0x00, 0x05, 0x00];
    let r = codec.decode(&mut buf).unwrap();
    assert!(r.is_none());
    assert_eq!(buf.len(), 11);
}

#[test]
fn test_frame_multi_write_complete_at_seventeen() {
    // Function code 0x10 with byte count 4: frame length 13 + 4 = 17.
    let codec = ModbusTCPCodec;
    let mut buf = vec![
        0x00, 0x02, 0x00, 0x00, 0x00, 0x0b, 0x11, 0x10, 0x00, 0x0a, 0x00, 0x02, 0x04, 0xde, 0xad,
        0xbe, 0xef,
    ];
    let req = codec.decode(&mut buf).unwrap().expect("frame is complete at 17 bytes");
    assert_eq!(buf.len(), 0);
    assert_eq!(req.pdu.code, 0x10);
    assert_eq!(req.pdu.address, 10);
    assert_eq!(req.pdu.q_or_v, 2);
    let footer = req.pdu.addl.expect("multi-write carries a footer");
    assert_eq!(footer.byte_count, 4);
    assert_eq!(footer.data, vec![0xde, 0xad, 0xbe, 0xef]);
}

#[test]
fn test_frame_multi_write_sixteen_bytes_incomplete() {
    let codec = ModbusTCPCodec;
    let mut buf = vec![
        0x00, 0x02, 0x00, 0x00, 0x00, 0x0b, 0x11, 0x10, 0x00, 0x0a, 0x00, 0x02, 0x04, 0xde, 0xad,
        0xbe,
    ];
    let r = codec.decode(&mut buf).unwrap();
    assert!(r.is_none());
    assert_eq!(buf.len(), 16);
}

#[test]
fn test_frame_pipelined_leftover_stays_buffered() {
    let codec = ModbusTCPCodec;
    let mut buf = vec![
        0x00, 0x01, 0x00, 0x00, 0x00, 0x06, 0x11, 0x01, 0x00, 0x00, 0x00, 0x08,
        // Start of the next frame, still incomplete.
        0x00, 0x02, 0x00,
    ];
    let req = codec.decode(&mut buf).unwrap().expect("first frame is complete");
    assert_eq!(req.pdu.code, 0x01);
    assert_eq!(buf, vec![0x00, 0x02, 0x00]);
    assert!(codec.decode(&mut buf).unwrap().is_none());
}

#[test]
fn test_frame_unrecognized_function_code() {
    let codec = ModbusTCPCodec;
    let mut buf = vec![0x00, 0x01, 0x00, 0x00, 0x00, 0x06, 0x11, 0x07, 0x00, 0x05, 0x00, 0x02];
    let r = codec.decode(&mut buf);
    match r {
        Err(DecodeError::UnrecognizedFunctionCode { code }) => assert_eq!(code, 0x07),
        _ => panic!("expected a framing error"),
    }
    assert_eq!(buf.len(), 12);
}

#[test]
fn test_decode_eof_whole_buffer() {
    let codec = ModbusTCPCodec;
    let buf = vec![0x00, 0x09, 0x00, 0x00, 0x00, 0x06, 0x01, 0x05, 0x00, 0x07, 0xff, 0x00];
    let req = codec.decode_eof(&buf);
    assert_eq!(req.header.tid, 9);
    assert_eq!(req.pdu.code, 0x05);
    assert_eq!(req.pdu.address, 7);
    assert_eq!(req.pdu.q_or_v, 0xff00);
}

#[test]
fn test_header_encode_exact_bytes() {
    let h = Header { tid: 0x0102, pid: 0x0304, len: 0x0506, uid: 0x07 };
    assert_eq!(h.encode(), vec![0x01, 0x02, 0x03, 0x04, 0x05, 0x06, 0x07]);
}

#[test]
fn test_encode_read_holding_registers_response() {
    // Registers serialize big-endian, high byte first.
    let pdu = ModbusResponsePDU::ReadHoldingRegistersResponse {
        code: 0x03,
        byte_count: 4,
        values: vec![0x1234, 0xabcd],
    };
    assert_eq!(pdu.encode(), vec![0x03, 0x04, 0x12, 0x34, 0xab, 0xcd]);
}

#[test]
fn test_encode_error_response() {
    let pdu = ModbusResponsePDU::ModbusErrorResponse { code: 0x81, exception_code: 0x03 };
    assert_eq!(pdu.encode(), vec![0x81, 0x03]);
}

#[test]
fn test_encode_full_response_with_header() {
    let codec = ModbusTCPCodec;
    let item = ModbusTCPResponse {
        header: Header { tid: 1, pid: 0, len: 5, uid: 0x11 },
        pdu: ModbusResponsePDU::WriteSingleCoilResponse { code: 0x05, address: 7, value: 0xff00 },
    };
    let mut out = Vec::new();
    codec.encode(item, &mut out);
    assert_eq!(
        out,
        vec![0x00, 0x01, 0x00, 0x00, 0x00, 0x05, 0x11, 0x05, 0x00, 0x07, 0xff, 0x00]
    );
}

#[test]
fn test_end_to_end_read_coils() {
    // Request bytes for ReadCoils at address 1, quantity 10, on a fresh store.
    let codec = ModbusTCPCodec;
    let mut store = BlankRegisters::new();
    let mut buf = vec![0x00, 0x01, 0x00, 0x00, 0x00, 0x06, 0x01, 0x01, 0x00, 0x01, 0x00, 0x0a];
    let req = codec.decode(&mut buf).unwrap().expect("complete frame");
    let resp = respond(&mut store, req);
    assert_eq!(resp.header.tid, 1);
    assert_eq!(resp.header.uid, 1);
    // One unit-id byte plus a four-byte PDU.
    assert_eq!(resp.header.len, 5);
    match resp.pdu {
        ModbusResponsePDU::ReadCoilsResponse { code, byte_count, coil_status } => {
            assert_eq!(code, 0x01);
            assert_eq!(byte_count, 2);
            assert_eq!(coil_status, vec![0x00, 0x00]);
        }
        _ => panic!("expected coil data"),
    }
}
