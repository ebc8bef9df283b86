use bytes::{Bytes, BytesMut};
use modbus_rtu::frame::{
    Header, Request, RequestAdu, Response, ResponseAdu, ResponsePdu,
};
use modbus_rtu::rtu::{ClientCodec, ServerCodec};

#[test]
fn decode_partly_received_client_message() {
    let mut codec = ClientCodec::default();
    let mut buf = BytesMut::from(vec![
        0x12, // slave address
        0x02, // function code
        0x03, // byte count
        0x00, // data
        0x00, // data
        0x00, // data
        0x00, // CRC first byte
              // missing crc second byte
    ]);
    let res = codec.decode(&mut buf).unwrap();
    assert!(res.is_none());
    assert_eq!(buf.len(), 7);
}

#[test]
fn decode_empty_client_message() {
    let mut codec = ClientCodec::default();
    let mut buf = BytesMut::new();
    assert_eq!(0, buf.len());

    let res = codec.decode(&mut buf).unwrap();

    assert!(res.is_none());
    assert_eq!(0, buf.len());
}

#[test]
fn decode_single_byte_client_message() {
    let mut codec = ClientCodec::default();
    let mut buf = BytesMut::from(vec![0x00]);
    assert_eq!(1, buf.len());

    let res = codec.decode(&mut buf).unwrap();

    assert!(res.is_none());
    assert_eq!(1, buf.len());
}

#[test]
fn decode_empty_server_message() {
    let mut codec = ServerCodec::default();
    let mut buf = BytesMut::new();
    assert_eq!(0, buf.len());

    let res = codec.decode(&mut buf).unwrap();

    assert!(res.is_none());
    assert_eq!(0, buf.len());
}

#[test]
fn decode_single_byte_server_message() {
    let mut codec = ServerCodec::default();
    let mut buf = BytesMut::from(vec![0x00]);
    assert_eq!(1, buf.len());

    let res = codec.decode(&mut buf).unwrap();

    assert!(res.is_none());
    assert_eq!(1, buf.len());
}

#[test]
fn decode_partly_received_server_message_0x16() {
    let mut codec = ServerCodec::default();
    let mut buf = BytesMut::from(vec![
        0x12, // slave address
        0x16, // function code
    ]);
    assert_eq!(buf.len(), 2);

    let res = codec.decode(&mut buf).unwrap();

    assert!(res.is_none());
    assert_eq!(buf.len(), 2);
}

#[test]
fn decode_partly_received_server_message_0x0f() {
    let mut codec = ServerCodec::default();
    let mut buf = BytesMut::from(vec![
        0x12, // slave address
        0x0F, // function code
    ]);
    assert_eq!(buf.len(), 2);

    let res = codec.decode(&mut buf).unwrap();

    assert!(res.is_none());
    assert_eq!(buf.len(), 2);
}

#[test]
fn decode_partly_received_server_message_0x10() {
    let mut codec = ServerCodec::default();
    let mut buf = BytesMut::from(vec![
        0x12, // slave address
        0x10, // function code
    ]);
    assert_eq!(buf.len(), 2);

    let res = codec.decode(&mut buf).unwrap();

    assert!(res.is_none());
    assert_eq!(buf.len(), 2);
}

#[test]
fn decode_rtu_message() {
    let mut codec = ClientCodec::default();
    let mut buf = BytesMut::from(vec![
        0x01, // slave address
        0x03, // function code
        0x04, // byte count
        0x89, //
        0x02, //
        0x42, //
        0xC7, //
        0x00, // crc
        0x9D, // crc
        0x00,
    ]);
    let ResponseAdu { hdr, pdu } = codec.decode(&mut buf).unwrap().unwrap();
    assert_eq!(buf.len(), 1);
    assert_eq!(hdr.slave_id, 0x01);
    if let Ok(Response::ReadHoldingRegisters(data)) = pdu.into() {
        assert_eq!(data.len(), 2);
        assert_eq!(data, vec![0x8902, 0x42C7]);
    } else {
        panic!("unexpected response")
    }
}

#[test]
fn decode_rtu_response_drop_invalid_bytes() {
    let mut codec = ClientCodec::default();
    let mut buf = BytesMut::from(vec![
        0x42, // dropped byte
        0x43, // dropped byte
        0x01, // slave address
        0x03, // function code
        0x04, // byte count
        0x89, //
        0x02, //
        0x42, //
        0xC7, //
        0x00, // crc
        0x9D, // crc
        0x00,
    ]);
    let ResponseAdu { hdr, pdu } = codec.decode(&mut buf).unwrap().unwrap();
    assert_eq!(buf.len(), 1);
    assert_eq!(hdr.slave_id, 0x01);
    if let Ok(Response::ReadHoldingRegisters(data)) = pdu.into() {
        assert_eq!(data.len(), 2);
        assert_eq!(data, vec![0x8902, 0x42C7]);
    } else {
        panic!("unexpected response")
    }
}

#[test]
fn decode_exception_message() {
    let mut codec = ClientCodec::default();
    let mut buf = BytesMut::from(vec![
        0x66, //
        0x82, // exception = 0x80 + 0x02
        0x03, //
        0xB1, // crc
        0x7E, // crc
    ]);

    let ResponseAdu { pdu, .. } = codec.decode(&mut buf).unwrap().unwrap();
    if let ResponsePdu(Err(err)) = pdu {
        assert_eq!(err.description(), "Modbus function 2: Illegal data value");
        assert_eq!(buf.len(), 0);
    } else {
        panic!("unexpected response")
    }
}

#[test]
fn encode_read_request() {
    let mut codec = ClientCodec::default();
    let mut buf = BytesMut::new();
    let req = Request::ReadHoldingRegisters(0x082b, 2);
    let pdu = req.clone().into();
    let slave_id = 0x01;
    let hdr = Header { slave_id };
    let adu = RequestAdu { hdr, pdu };
    codec.encode(adu.clone(), &mut buf).unwrap();

    assert_eq!(
        buf,
        Bytes::from_static(&[0x01, 0x03, 0x08, 0x2B, 0x00, 0x02, 0xB6, 0x63])
    );
}

#[test]
fn encode_with_limited_buf_capacity() {
    let mut codec = ClientCodec::default();
    let req = Request::ReadHoldingRegisters(0x082b, 2);
    let pdu = req.clone().into();
    let slave_id = 0x01;
    let hdr = Header { slave_id };
    let adu = RequestAdu { hdr, pdu };
    let mut buf = BytesMut::with_capacity(40);
    buf.resize(33, 0);
    assert!(codec.encode(adu, &mut buf).is_ok());
    assert_eq!(buf.len(), 41);
}
