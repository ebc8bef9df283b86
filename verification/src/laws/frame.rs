//! Messages and errors as values: what every call that converts, numbers or words them does.

use crate::error::{Error, ErrorKind};
use crate::frame::{
    Exception, ExceptionResponse, Request, RequestPdu, Response, ResponsePdu,
};
use vstd::prelude::*;

verus! {

/// Each exception has one code.
pub proof fn law_exception_codes(exception: Exception, code: u8)
    requires
        call_ensures(Exception::code, (exception,), code),
    ensures
        exception is IllegalFunction <==> code == 0x01,
        exception is IllegalDataAddress <==> code == 0x02,
        exception is IllegalDataValue <==> code == 0x03,
        exception is ServerDeviceFailure <==> code == 0x04,
        exception is Acknowledge <==> code == 0x05,
        exception is ServerDeviceBusy <==> code == 0x06,
        exception is MemoryParityError <==> code == 0x08,
        exception is GatewayPathUnavailable <==> code == 0x0A,
        exception is GatewayTargetDevice <==> code == 0x0B,
{
}

/// The exception of a code is the one that has this code, and there is none if no exception has
/// it.
pub proof fn law_exception_of_code(
    code: u8,
    found: Option<Exception>,
    exception: Exception,
    its_code: u8,
)
    requires
        call_ensures(Exception::from_code, (code,), found),
        call_ensures(Exception::code, (exception,), its_code),
    ensures
        found == Some(exception) <==> its_code == code,
        found is None <==> !(0x01 <= code <= 0x06 || code == 0x08 || code == 0x0A || code == 0x0B),
{
}

/// Each exception has a wording of its own.
pub proof fn law_exception_wording(exception: Exception, text: &'static str)
    requires
        call_ensures(Exception::description, (exception,), text),
    ensures
        text@ == match exception {
            Exception::IllegalFunction => "Illegal function"@,
            Exception::IllegalDataAddress => "Illegal data address"@,
            Exception::IllegalDataValue => "Illegal data value"@,
            Exception::ServerDeviceFailure => "Server device failure"@,
            Exception::Acknowledge => "Acknowledge"@,
            Exception::ServerDeviceBusy => "Server device busy"@,
            Exception::MemoryParityError => "Memory parity error"@,
            Exception::GatewayPathUnavailable => "Gateway path unavailable"@,
            Exception::GatewayTargetDevice => "Gateway target device failed to respond"@,
        },
{
}

/// An exception response in words is `Modbus function`, the function as a decimal number
/// without leading zeros, a colon and the wording of the exception.
pub proof fn law_exception_response_wording(
    response: ExceptionResponse,
    text: String,
    reason: &'static str,
) -> (digits: Seq<char>)
    requires
        call_ensures(ExceptionResponse::description, (&response,), text),
        call_ensures(Exception::description, (response.exception,), reason),
    ensures
        text@ == "Modbus function "@ + digits + ": "@ + reason@,
        forall|i: int| 0 <= i < digits.len() ==> '0' <= #[trigger] digits[i] <= '9',
        digits.len() > 1 ==> digits[0] != '0',
        1 <= digits.len() <= 3,
        response.function == (if digits.len() == 1 {
            digits[0] as int - 48
        } else if digits.len() == 2 {
            10 * (digits[0] as int - 48) + (digits[1] as int - 48)
        } else {
            100 * (digits[0] as int - 48) + 10 * (digits[1] as int - 48) + (digits[2] as int - 48)
        }),
{
    reveal_with_fuel(crate::frame::decimal, 3);
    reveal_strlit("0");
    reveal_strlit("1");
    reveal_strlit("2");
    reveal_strlit("3");
    reveal_strlit("4");
    reveal_strlit("5");
    reveal_strlit("6");
    reveal_strlit("7");
    reveal_strlit("8");
    reveal_strlit("9");
    crate::frame::decimal(response.function as nat)
}

/// A request becomes the PDU that holds it.
pub proof fn law_request_becomes_pdu(request: Request, pdu: RequestPdu)
    requires
        call_ensures(<RequestPdu as From<Request>>::from, (request,), pdu),
    ensures
        pdu.0 == request,
{
}

/// A response and an exception become the PDU that holds them, and a PDU gives back what it
/// holds.
pub proof fn law_response_becomes_pdu(
    response: Response,
    exception: ExceptionResponse,
    with_response: ResponsePdu,
    with_exception: ResponsePdu,
    pdu: ResponsePdu,
    held: Result<Response, ExceptionResponse>,
)
    requires
        call_ensures(<ResponsePdu as From<Response>>::from, (response,), with_response),
        call_ensures(<ResponsePdu as From<ExceptionResponse>>::from, (exception,), with_exception),
        call_ensures(
            <Result<Response, ExceptionResponse> as From<ResponsePdu>>::from,
            (pdu,),
            held,
        ),
    ensures
        with_response.0 == Ok::<Response, ExceptionResponse>(response),
        with_exception.0 == Err::<Response, ExceptionResponse>(exception),
        held == pdu.0,
{
}

/// The end of the data is a class of its own; every other error is one of the data.
pub proof fn law_error_classes(error: Error, kind: ErrorKind)
    requires
        call_ensures(Error::kind, (&error,), kind),
    ensures
        kind == ErrorKind::UnexpectedEof <==> error == Error::UnexpectedEof,
        kind == ErrorKind::InvalidData <==> error != Error::UnexpectedEof,
{
}

} // verus!
