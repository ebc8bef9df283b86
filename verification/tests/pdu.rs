use bytes::Bytes;
use modbus_rtu::error::Error;
use modbus_rtu::frame::{
    Exception, ExceptionResponse, Request, RequestPdu, Response, ResponsePdu,
};
use modbus_rtu::wire::{put_coils, put_words, read_coils, read_words};

fn read_request(bytes: &[u8]) -> Result<RequestPdu, Error> {
    RequestPdu::try_from(Bytes::from(bytes))
}

fn read_response(bytes: &[u8]) -> Result<ResponsePdu, Error> {
    ResponsePdu::try_from(Bytes::from(bytes))
}

#[test]
fn requests_have_these_bytes() {
    let cases = vec![
        (Request::ReadCoils(0x12, 0x34), vec![0x01, 0, 0x12, 0, 0x34]),
        (Request::ReadDiscreteInputs(0x03, 19), vec![0x02, 0, 3, 0, 19]),
        (Request::ReadHoldingRegisters(0x09, 77), vec![0x03, 0, 9, 0, 0x4D]),
        (Request::ReadInputRegisters(0x09, 77), vec![0x04, 0, 9, 0, 0x4D]),
        (Request::WriteSingleCoil(0x1234, true), vec![0x05, 0x12, 0x34, 0xFF, 0x00]),
        (Request::WriteSingleCoil(0x1234, false), vec![0x05, 0x12, 0x34, 0x00, 0x00]),
        (Request::WriteSingleRegister(0x07, 0xABCD), vec![0x06, 0, 7, 0xAB, 0xCD]),
        (
            Request::WriteMultipleCoils(0x3311, vec![true, false, true, true]),
            vec![0x0F, 0x33, 0x11, 0x00, 0x04, 0x01, 0b1101],
        ),
        (
            Request::WriteMultipleRegisters(0x06, vec![0xABCD, 0xEF12]),
            vec![0x10, 0x00, 0x06, 0x00, 0x02, 0x04, 0xAB, 0xCD, 0xEF, 0x12],
        ),
        (
            Request::ReadWriteMultipleRegisters(0x05, 51, 0x03, vec![0xABCD, 0xEF12]),
            vec![0x17, 0, 5, 0, 0x33, 0, 3, 0, 2, 0x04, 0xAB, 0xCD, 0xEF, 0x12],
        ),
        (Request::Custom(0x55, vec![0xCC, 0x88]), vec![0x55, 0xCC, 0x88]),
    ];
    for (request, bytes) in cases {
        let pdu = RequestPdu(request);
        assert!(pdu.is_encodable());
        assert_eq!(pdu.to_bytes(), bytes);
        assert_eq!(read_request(&bytes), Ok(pdu));
    }
}

#[test]
fn responses_have_these_bytes() {
    let coils = vec![true, false, false, true, false, false, false, false];
    let cases = vec![
        (Response::ReadCoils(coils.clone()), vec![0x01, 1, 0b1001]),
        (Response::ReadDiscreteInputs(coils), vec![0x02, 1, 0b1001]),
        (Response::ReadHoldingRegisters(vec![0xAA00, 0x1111]), vec![0x03, 4, 0xAA, 0x00, 0x11, 0x11]),
        (Response::ReadInputRegisters(vec![0xAA00]), vec![0x04, 2, 0xAA, 0x00]),
        (Response::WriteSingleCoil(0x33, true), vec![0x05, 0x00, 0x33, 0xFF, 0x00]),
        (Response::WriteSingleRegister(0x07, 0xABCD), vec![0x06, 0x00, 0x07, 0xAB, 0xCD]),
        (Response::WriteMultipleCoils(0x3311, 5), vec![0x0F, 0x33, 0x11, 0x00, 0x05]),
        (Response::WriteMultipleRegisters(0x06, 2), vec![0x10, 0x00, 0x06, 0x00, 0x02]),
        (Response::ReadWriteMultipleRegisters(vec![0x1234]), vec![0x17, 2, 0x12, 0x34]),
        (Response::Custom(0x55, vec![0xCC, 0x88]), vec![0x55, 0xCC, 0x88]),
    ];
    for (response, bytes) in cases {
        let pdu = ResponsePdu(Ok(response));
        assert!(pdu.is_encodable());
        assert_eq!(pdu.to_bytes(), bytes);
        assert_eq!(read_response(&bytes), Ok(pdu));
    }
}

#[test]
fn exception_has_these_bytes() {
    let exception = ExceptionResponse { function: 0x03, exception: Exception::IllegalDataAddress };
    let pdu = ResponsePdu::from(exception);
    assert_eq!(pdu.to_bytes(), vec![0x83, 0x02]);
    assert_eq!(read_response(&[0x83, 0x02]), Ok(pdu));
}

#[test]
fn incomplete_requests_are_refused() {
    assert_eq!(read_request(&[]), Err(Error::UnexpectedEof));
    assert_eq!(read_request(&[0x01, 0, 0, 0]), Err(Error::UnexpectedEof));
    assert_eq!(read_request(&[0x0F, 0, 0, 0, 1]), Err(Error::UnexpectedEof));
    assert_eq!(read_request(&[0x0F, 0, 0, 0, 1, 1]), Err(Error::TooShort));
    assert_eq!(read_request(&[0x0F, 0, 0, 0, 9, 1, 1]), Err(Error::UnexpectedEof));
    assert_eq!(read_request(&[0x10, 0, 0, 0, 1, 2, 1]), Err(Error::TooShort));
    assert_eq!(read_request(&[0x10, 0, 0, 0, 2, 2, 1, 1]), Err(Error::UnexpectedEof));
    assert_eq!(read_request(&[0x17, 0, 0, 0, 1, 0, 0, 0, 1]), Err(Error::UnexpectedEof));
    assert_eq!(read_request(&[0x17, 0, 0, 0, 1, 0, 0, 0, 1, 2]), Err(Error::TooShort));
    assert_eq!(read_request(&[0x17, 0, 0, 0, 1, 0, 0, 0, 1, 0]), Err(Error::UnexpectedEof));
}

#[test]
fn meaningless_requests_are_refused() {
    assert_eq!(read_request(&[0x80]), Err(Error::InvalidFunctionCode(0x80)));
    assert_eq!(read_request(&[0x05, 0, 0, 0, 1]), Err(Error::InvalidCoilValue(1)));
}

#[test]
fn meaningless_responses_are_refused() {
    assert_eq!(read_response(&[]), Err(Error::UnexpectedEof));
    assert_eq!(read_response(&[0x81]), Err(Error::UnexpectedEof));
    assert_eq!(read_response(&[0x81, 0x00]), Err(Error::InvalidExceptionCode(0)));
    assert_eq!(read_response(&[0x01, 2, 0]), Err(Error::UnexpectedEof));
    assert_eq!(read_response(&[0x03, 4, 0, 0]), Err(Error::UnexpectedEof));
    assert_eq!(read_response(&[0x06, 0, 0, 0]), Err(Error::UnexpectedEof));
    assert_eq!(read_response(&[0x05, 0, 0, 0xFF, 0xFF]), Err(Error::InvalidCoilValue(0xFFFF)));
}

#[test]
fn payloads_must_be_countable() {
    assert!(RequestPdu(Request::WriteMultipleCoils(0, vec![true; 2040])).is_encodable());
    assert!(!RequestPdu(Request::WriteMultipleCoils(0, vec![true; 2041])).is_encodable());
    assert!(RequestPdu(Request::WriteMultipleRegisters(0, vec![0; 127])).is_encodable());
    assert!(!RequestPdu(Request::WriteMultipleRegisters(0, vec![0; 128])).is_encodable());
    assert!(!RequestPdu(Request::ReadWriteMultipleRegisters(0, 0, 0, vec![0; 128])).is_encodable());
    assert!(!ResponsePdu(Ok(Response::ReadCoils(vec![true; 2041]))).is_encodable());
    assert!(!ResponsePdu(Ok(Response::ReadInputRegisters(vec![0; 128]))).is_encodable());
    let exception = Exception::Acknowledge;
    assert!(!ResponsePdu(Err(ExceptionResponse { function: 0x80, exception })).is_encodable());
}

#[test]
fn coils_survive_packing() {
    let mut coils = vec![false; 11];
    coils[0] = true;
    coils[7] = true;
    coils[9] = true;
    let mut bytes = vec![0xEE];
    put_coils(&mut bytes, &coils);
    assert_eq!(bytes, vec![0xEE, 0b1000_0001, 0b0000_0010]);
    assert_eq!(read_coils(&bytes, 1, 11), coils);
}

#[test]
fn words_survive_writing() {
    let words = vec![0x0102, 0xFFFE];
    let mut bytes = vec![0xEE];
    put_words(&mut bytes, &words);
    assert_eq!(bytes, vec![0xEE, 0x01, 0x02, 0xFF, 0xFE]);
    assert_eq!(read_words(&bytes, 1, 2), words);
}

#[test]
fn exceptions_are_described() {
    let cases = vec![
        (0, Exception::IllegalFunction, "Modbus function 0: Illegal function"),
        (10, Exception::IllegalDataAddress, "Modbus function 10: Illegal data address"),
        (99, Exception::ServerDeviceFailure, "Modbus function 99: Server device failure"),
        (100, Exception::Acknowledge, "Modbus function 100: Acknowledge"),
        (255, Exception::ServerDeviceBusy, "Modbus function 255: Server device busy"),
        (7, Exception::MemoryParityError, "Modbus function 7: Memory parity error"),
        (8, Exception::GatewayPathUnavailable, "Modbus function 8: Gateway path unavailable"),
        (
            9,
            Exception::GatewayTargetDevice,
            "Modbus function 9: Gateway target device failed to respond",
        ),
    ];
    for (function, exception, text) in cases {
        assert_eq!(ExceptionResponse { function, exception }.description(), text);
    }
}
