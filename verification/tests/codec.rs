use bytes::{Bytes, BytesMut};
use modbus_rtu::error::{Error, ErrorKind};
use modbus_rtu::frame::{
    Exception, ExceptionResponse, Header, Request, RequestAdu, RequestPdu, Response, ResponseAdu,
    ResponsePdu,
};
use modbus_rtu::rtu::{
    request_adu, response_adu, take_frame, ClientCodec, RequestDecoder, ResponseDecoder,
    ServerCodec,
};
use modbus_rtu::scan::{scan, DecoderType, FoundFrame};

/// A frame around arbitrary PDU bytes.
fn framed(slave: u8, pdu: &[u8]) -> BytesMut {
    let mut codec = ClientCodec::default();
    let mut buf = BytesMut::new();
    let pdu = RequestPdu(Request::Custom(pdu[0], pdu[1..].to_vec()));
    let hdr = Header { slave_id: slave };
    codec.encode(RequestAdu { hdr, pdu }, &mut buf).unwrap();
    buf
}

fn request_over_the_wire(request: Request) -> Result<Option<RequestAdu>, Error> {
    let mut buf = BytesMut::new();
    let hdr = Header { slave_id: 0x11 };
    let adu = RequestAdu { hdr, pdu: request.into() };
    ClientCodec::default().encode(adu, &mut buf).unwrap();
    buf.extend_from_slice(&[0xAA, 0xBB]);
    let received = ServerCodec::default().try_decode(&mut buf);
    if let Ok(Some(_)) = received {
        assert_eq!(buf, Bytes::from_static(&[0xAA, 0xBB]));
    }
    received
}

fn response_over_the_wire(pdu: ResponsePdu) -> ResponsePdu {
    let mut buf = BytesMut::new();
    let hdr = Header { slave_id: 0x11 };
    ServerCodec::default().encode(ResponseAdu { hdr, pdu }, &mut buf).unwrap();
    buf.extend_from_slice(&[0xAA]);
    let received = ClientCodec::default().decode(&mut buf).unwrap().unwrap();
    assert_eq!(buf, Bytes::from_static(&[0xAA]));
    assert_eq!(received.hdr.slave_id, 0x11);
    received.pdu
}

#[test]
fn requests_reach_the_server() {
    let requests = vec![
        Request::ReadCoils(0x0102, 0x0304),
        Request::ReadDiscreteInputs(0xFFFF, 1),
        Request::ReadHoldingRegisters(0, 125),
        Request::ReadInputRegisters(0x1000, 7),
        Request::WriteSingleCoil(5, true),
        Request::WriteSingleCoil(6, false),
        Request::WriteSingleRegister(0x2222, 0xABCD),
        Request::WriteMultipleCoils(9, vec![]),
        Request::WriteMultipleRegisters(9, vec![]),
        Request::ReadWriteMultipleRegisters(1, 2, 3, vec![0x0405, 0x0607]),
        Request::Custom(0x07, vec![]),
        Request::Custom(0x16, vec![1, 2, 3, 4, 5, 6]),
        Request::Custom(0x18, vec![1, 2]),
    ];
    for request in requests {
        let adu = request_over_the_wire(request.clone()).unwrap().unwrap();
        assert_eq!(adu.hdr.slave_id, 0x11);
        assert_eq!(adu.pdu, RequestPdu(request));
    }
}

#[test]
fn multiple_writes_are_not_recognised() {
    let coils = Request::WriteMultipleCoils(1, vec![true; 3]);
    assert_eq!(request_over_the_wire(coils), Ok(None));
    let words = Request::WriteMultipleRegisters(1, vec![1, 2]);
    assert_eq!(request_over_the_wire(words), Ok(None));
}

#[test]
fn responses_reach_the_client() {
    let responses = vec![
        Response::ReadCoils(vec![true, false, true, true, false, false, false, true]),
        Response::ReadDiscreteInputs(vec![false; 16]),
        Response::ReadHoldingRegisters(vec![0x8902, 0x42C7]),
        Response::ReadInputRegisters(vec![]),
        Response::WriteSingleCoil(1, true),
        Response::WriteSingleRegister(1, 2),
        Response::WriteMultipleCoils(3, 4),
        Response::WriteMultipleRegisters(5, 6),
        Response::ReadWriteMultipleRegisters(vec![0xFFFF]),
        Response::Custom(0x07, vec![9]),
        Response::Custom(0x0C, vec![2, 8, 9]),
        Response::Custom(0x18, vec![0, 1, 7]),
    ];
    for response in responses {
        let received = response_over_the_wire(response.clone().into());
        assert_eq!(received, ResponsePdu(Ok(response)));
    }
}

#[test]
fn coils_come_back_padded() {
    let sent = Response::ReadCoils(vec![true, true, false, false, false, false, false, false, true]);
    let mut coils = vec![false; 16];
    coils[0] = true;
    coils[1] = true;
    coils[8] = true;
    let received = response_over_the_wire(sent.into());
    assert_eq!(received, ResponsePdu(Ok(Response::ReadCoils(coils))));
}

#[test]
fn exceptions_reach_the_client() {
    for code in 0x00..=0xFF {
        if let Some(exception) = Exception::from_code(code) {
            assert_eq!(exception.code(), code);
            let sent = ExceptionResponse { function: 0x2B, exception };
            assert_eq!(response_over_the_wire(sent.into()), ResponsePdu(Err(sent)));
        }
    }
    assert_eq!(Exception::from_code(0x07), None);
    assert_eq!(Exception::from_code(0x0C), None);
}

#[test]
fn checksum_covers_what_was_buffered_before() {
    let mut codec = ClientCodec::default();
    let mut buf = BytesMut::from(vec![0x01, 0x03]);
    let hdr = Header { slave_id: 0x08 };
    let pdu = RequestPdu(Request::Custom(0x2B, vec![0x00, 0x02]));
    codec.encode(RequestAdu { hdr, pdu }, &mut buf).unwrap();
    assert_eq!(
        buf,
        Bytes::from_static(&[0x01, 0x03, 0x08, 0x2B, 0x00, 0x02, 0xB6, 0x63])
    );
}

#[test]
fn server_encodes_response() {
    let mut buf = BytesMut::new();
    let hdr = Header { slave_id: 0x01 };
    let pdu = ResponsePdu(Ok(Response::ReadHoldingRegisters(vec![0x8902, 0x42C7])));
    ServerCodec::default().encode(ResponseAdu { hdr, pdu }, &mut buf).unwrap();
    assert_eq!(
        buf,
        Bytes::from_static(&[0x01, 0x03, 0x04, 0x89, 0x02, 0x42, 0xC7, 0x00, 0x9D])
    );
}

#[test]
fn every_part_of_a_frame_is_waited_for() {
    let whole = [0x12, 0x06, 0x22, 0x22, 0xAB, 0xCD, 0x9F, 0xBE];
    for received in 0..whole.len() {
        let mut buf = BytesMut::from(&whole[..received]);
        assert_eq!(ServerCodec::default().decode(&mut buf), Ok(None));
        assert_eq!(buf, Bytes::from(&whole[..received]));
    }
    let mut buf = BytesMut::from(&whole[..]);
    let adu = ServerCodec::default().decode(&mut buf).unwrap().unwrap();
    assert_eq!(adu.hdr.slave_id, 0x12);
    assert_eq!(adu.pdu, RequestPdu(Request::WriteSingleRegister(0x2222, 0xABCD)));
    assert!(buf.is_empty());
}

#[test]
fn damaged_frame_is_not_accepted() {
    let mut buf = BytesMut::from(vec![0x12, 0x06, 0x22, 0x22, 0xAB, 0xCD, 0x5F, 0xBE]);
    assert_eq!(ServerCodec::default().decode(&mut buf), Ok(None));
    assert_eq!(buf.len(), 8);
}

#[test]
fn frames_are_decoded_one_after_the_other() {
    let mut buf = framed(0x01, &[0x06, 0, 1, 0, 2]);
    buf.extend_from_slice(&framed(0x02, &[0x06, 0, 3, 0, 4]));
    let mut codec = ServerCodec::default();
    let first = codec.try_decode(&mut buf).unwrap().unwrap();
    assert_eq!(first.hdr.slave_id, 0x01);
    assert_eq!(first.pdu, RequestPdu(Request::WriteSingleRegister(1, 2)));
    let second = codec.try_decode(&mut buf).unwrap().unwrap();
    assert_eq!(second.hdr.slave_id, 0x02);
    assert_eq!(second.pdu, RequestPdu(Request::WriteSingleRegister(3, 4)));
    assert_eq!(codec.try_decode(&mut buf), Ok(None));
}

#[test]
fn noise_is_skipped_up_to_a_limit() {
    let frame = [0x01, 0x03, 0x04, 0x89, 0x02, 0x42, 0xC7, 0x00, 0x9D];

    let mut bytes = vec![0x42; 255];
    bytes.extend_from_slice(&frame);
    let mut buf = BytesMut::from(bytes);
    let (slave, pdu) = ResponseDecoder::default().decode(&mut buf).unwrap().unwrap();
    assert_eq!(slave, 0x01);
    assert_eq!(pdu, Bytes::from_static(&[0x03, 0x04, 0x89, 0x02, 0x42, 0xC7]));
    assert!(buf.is_empty());

    let mut bytes = vec![0x42; 257];
    bytes.extend_from_slice(&frame);
    let mut buf = BytesMut::from(bytes);
    assert_eq!(
        ResponseDecoder::default().decode(&mut buf),
        Err(Error::Frame("Invalid function code: 0x42".to_string()))
    );
    assert_eq!(buf.len(), 266);
    assert_eq!(
        ClientCodec::default().try_decode(&mut buf),
        Err(Error::Frame("Invalid function code: 0x42".to_string()))
    );
    assert_eq!(buf.len(), 266);
}

#[test]
fn outcome_outlasts_reception() {
    let mut buf = framed(0x05, &[0x01, 0, 0, 0, 8]);
    let before = scan(DecoderType::Request, &buf);
    buf.extend_from_slice(&[0x05, 0x01, 0xFF]);
    assert_eq!(scan(DecoderType::Request, &buf), before);
    let expected = FoundFrame { slave: 0x05, pdu: vec![0x01, 0, 0, 0, 8], start: 0, size: 8 };
    assert_eq!(before, Ok(Some(expected)));
}

#[test]
fn request_decoder_hands_out_the_pdu() {
    let mut buf = BytesMut::from(vec![0x42, 0x42]);
    buf.extend_from_slice(&framed(0x07, &[0x04, 0x10, 0x00, 0x00, 0x07]));
    buf.extend_from_slice(&[0x99]);
    let (slave, pdu) = RequestDecoder::default().decode(&mut buf).unwrap().unwrap();
    assert_eq!(slave, 0x07);
    assert_eq!(pdu, Bytes::from_static(&[0x04, 0x10, 0x00, 0x00, 0x07]));
    assert_eq!(buf, Bytes::from_static(&[0x99]));
}

#[test]
fn requests_without_meaning_are_refused() {
    let cases = vec![
        (vec![0x05, 0, 1, 0x12, 0x34], Error::InvalidCoilValue(0x1234)),
        (vec![0x10, 0, 1, 1, 1, 3, 9], Error::TooShort),
        (vec![0x10, 0, 1, 1, 1, 1, 9], Error::UnexpectedEof),
    ];
    for (pdu, error) in cases {
        let mut buf = framed(0x01, &pdu);
        let before = buf.clone();
        assert_eq!(ServerCodec::default().try_decode(&mut buf), Err(error));
        assert_eq!(buf, before);
    }
}

#[test]
fn responses_without_meaning_are_refused() {
    let cases = vec![
        (vec![0x05, 0, 1, 0xFF, 0x01], Error::InvalidCoilValue(0xFF01)),
        (vec![0x81, 0x07], Error::InvalidExceptionCode(0x07)),
    ];
    for (pdu, error) in cases {
        let mut buf = framed(0x01, &pdu);
        let before = buf.clone();
        assert_eq!(ClientCodec::default().try_decode(&mut buf), Err(error));
        assert_eq!(buf, before);
    }
}

#[test]
fn client_takes_what_it_can_decode() {
    let mut buf = framed(0x01, &[0x82, 0x03]);
    let adu = ClientCodec::default().try_decode(&mut buf).unwrap().unwrap();
    let expected = ExceptionResponse { function: 2, exception: Exception::IllegalDataValue };
    assert_eq!(adu.pdu, ResponsePdu(Err(expected)));
    assert!(buf.is_empty());
}

#[test]
fn found_frame_is_taken() {
    let mut buf = BytesMut::from(vec![1, 2, 3, 4, 5, 6]);
    let frame = FoundFrame { slave: 9, pdu: vec![7, 8], start: 1, size: 3 };
    assert_eq!(take_frame(Ok(Some(frame)), &mut buf), Ok(Some((9, Bytes::from_static(&[7, 8])))));
    assert_eq!(buf, Bytes::from_static(&[5, 6]));

    assert_eq!(take_frame(Ok(None), &mut buf), Ok(None));
    assert_eq!(buf, Bytes::from_static(&[5, 6]));

    let failed = take_frame(Err("no frame".to_string()), &mut buf);
    assert_eq!(failed, Err(Error::Frame("no frame".to_string())));
    assert_eq!(buf, Bytes::from_static(&[5, 6]));
}

#[test]
fn frame_contents_are_read() {
    assert_eq!(request_adu(None), Ok(None));
    assert_eq!(response_adu(None), Ok(None));
    let request = request_adu(Some((3, Bytes::from_static(&[0x06, 0, 1, 0, 2])))).unwrap().unwrap();
    assert_eq!(request.hdr, Header { slave_id: 3 });
    assert_eq!(request.pdu, RequestPdu(Request::WriteSingleRegister(1, 2)));
    let response = response_adu(Some((4, Bytes::from_static(&[0x06, 0, 1, 0, 2])))).unwrap().unwrap();
    assert_eq!(response.hdr, Header { slave_id: 4 });
    assert_eq!(response.pdu, ResponsePdu(Ok(Response::WriteSingleRegister(1, 2))));
    let refused = request_adu(Some((3, Bytes::from_static(&[0x80]))));
    assert_eq!(refused, Err(Error::InvalidFunctionCode(0x80)));
}

#[test]
fn errors_fall_into_two_classes() {
    assert_eq!(Error::UnexpectedEof.kind(), ErrorKind::UnexpectedEof);
    assert_eq!(Error::TooShort.kind(), ErrorKind::InvalidData);
    assert_eq!(Error::Frame(String::new()).kind(), ErrorKind::InvalidData);
}

#[test]
fn codecs_accept_what_they_can_encode() {
    let buf = BytesMut::new();
    let hdr = Header { slave_id: 1 };
    let request = |n: usize| RequestAdu {
        hdr,
        pdu: Request::WriteMultipleRegisters(0, vec![0; n]).into(),
    };
    assert!(ClientCodec::default().accepts(&request(127), &buf));
    assert!(!ClientCodec::default().accepts(&request(128), &buf));
    let response = |n: usize| ResponseAdu {
        hdr,
        pdu: Response::ReadHoldingRegisters(vec![0; n]).into(),
    };
    assert!(ServerCodec::default().accepts(&response(127), &buf));
    assert!(!ServerCodec::default().accepts(&response(128), &buf));
}
