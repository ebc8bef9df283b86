//! The messages of the protocol and their models.

use vstd::prelude::*;
use vstd::std_specs::convert::FromSpecImpl;

verus! {

/// The address of a server on the line.
pub type SlaveId = u8;

/// What a message is about.
pub type FunctionCode = u8;

/// The address of a data item.
pub type Address = u16;

/// A number of data items.
pub type Quantity = u16;

/// A single bit of data.
pub type Coil = bool;

/// A data item of sixteen bits.
pub type Word = u16;

/// A message from the client to the server.
#[derive(Debug, Clone, PartialEq, Eq)]
pub enum Request {
    ReadCoils(Address, Quantity),
    ReadDiscreteInputs(Address, Quantity),
    ReadHoldingRegisters(Address, Quantity),
    ReadInputRegisters(Address, Quantity),
    WriteSingleCoil(Address, Coil),
    WriteSingleRegister(Address, Word),
    WriteMultipleCoils(Address, Vec<Coil>),
    WriteMultipleRegisters(Address, Vec<Word>),
    /// Address and quantity to read, then address and words to write.
    ReadWriteMultipleRegisters(Address, Quantity, Address, Vec<Word>),
    /// Any other function, with the bytes that follow its code.
    Custom(FunctionCode, Vec<u8>),
}

/// The answer of the server to a request that it has carried out.
#[derive(Debug, Clone, PartialEq, Eq)]
pub enum Response {
    ReadCoils(Vec<Coil>),
    ReadDiscreteInputs(Vec<Coil>),
    ReadHoldingRegisters(Vec<Word>),
    ReadInputRegisters(Vec<Word>),
    WriteSingleCoil(Address, Coil),
    WriteSingleRegister(Address, Word),
    WriteMultipleCoils(Address, Quantity),
    WriteMultipleRegisters(Address, Quantity),
    ReadWriteMultipleRegisters(Vec<Word>),
    /// Any other function, with the bytes that follow its code.
    Custom(FunctionCode, Vec<u8>),
}

/// Why the server has not carried out a request.
#[derive(Debug, Clone, Copy, PartialEq, Eq, Structural)]
pub enum Exception {
    IllegalFunction,
    IllegalDataAddress,
    IllegalDataValue,
    ServerDeviceFailure,
    Acknowledge,
    ServerDeviceBusy,
    MemoryParityError,
    GatewayPathUnavailable,
    GatewayTargetDevice,
}

/// The answer of the server to a request that it has not carried out.
#[derive(Debug, Clone, Copy, PartialEq, Eq, Structural)]
pub struct ExceptionResponse {
    /// The function that was asked for.
    pub function: FunctionCode,
    /// The reason.
    pub exception: Exception,
}

/// The part of a request that does not depend on the transport.
#[derive(Debug, Clone, PartialEq, Eq)]
pub struct RequestPdu(pub Request);

/// The part of a response that does not depend on the transport.
#[derive(Debug, PartialEq, Eq)]
pub struct ResponsePdu(pub Result<Response, ExceptionResponse>);

/// What the serial line adds in front of a PDU.
#[derive(Debug, Clone, Copy, PartialEq, Eq, Structural)]
pub struct Header {
    pub slave_id: SlaveId,
}

/// A request with the server that it is meant for.
#[derive(Debug, Clone, PartialEq, Eq)]
pub struct RequestAdu {
    pub hdr: Header,
    pub pdu: RequestPdu,
}

/// A response with the server that it comes from.
#[derive(Debug, PartialEq, Eq)]
pub struct ResponseAdu {
    pub hdr: Header,
    pub pdu: ResponsePdu,
}

/// The model of a [`Request`].
pub enum RequestView {
    ReadCoils(u16, u16),
    ReadDiscreteInputs(u16, u16),
    ReadHoldingRegisters(u16, u16),
    ReadInputRegisters(u16, u16),
    WriteSingleCoil(u16, bool),
    WriteSingleRegister(u16, u16),
    WriteMultipleCoils(u16, Seq<bool>),
    WriteMultipleRegisters(u16, Seq<u16>),
    ReadWriteMultipleRegisters(u16, u16, u16, Seq<u16>),
    Custom(u8, Seq<u8>),
}

/// The model of a [`Response`].
pub enum ResponseView {
    ReadCoils(Seq<bool>),
    ReadDiscreteInputs(Seq<bool>),
    ReadHoldingRegisters(Seq<u16>),
    ReadInputRegisters(Seq<u16>),
    WriteSingleCoil(u16, bool),
    WriteSingleRegister(u16, u16),
    WriteMultipleCoils(u16, u16),
    WriteMultipleRegisters(u16, u16),
    ReadWriteMultipleRegisters(Seq<u16>),
    Custom(u8, Seq<u8>),
}

/// The model of a [`ResponsePdu`].
pub type ResponsePduView = Result<ResponseView, ExceptionResponse>;

impl View for Request {
    type V = RequestView;

    open spec fn view(&self) -> RequestView {
        match *self {
            Request::ReadCoils(a, q) => RequestView::ReadCoils(a, q),
            Request::ReadDiscreteInputs(a, q) => RequestView::ReadDiscreteInputs(a, q),
            Request::ReadHoldingRegisters(a, q) => RequestView::ReadHoldingRegisters(a, q),
            Request::ReadInputRegisters(a, q) => RequestView::ReadInputRegisters(a, q),
            Request::WriteSingleCoil(a, on) => RequestView::WriteSingleCoil(a, on),
            Request::WriteSingleRegister(a, w) => RequestView::WriteSingleRegister(a, w),
            Request::WriteMultipleCoils(a, c) => RequestView::WriteMultipleCoils(a, c@),
            Request::WriteMultipleRegisters(a, w) => RequestView::WriteMultipleRegisters(a, w@),
            Request::ReadWriteMultipleRegisters(ra, q, wa, w) =>
                RequestView::ReadWriteMultipleRegisters(ra, q, wa, w@),
            Request::Custom(f, d) => RequestView::Custom(f, d@),
        }
    }
}

impl View for Response {
    type V = ResponseView;

    open spec fn view(&self) -> ResponseView {
        match *self {
            Response::ReadCoils(c) => ResponseView::ReadCoils(c@),
            Response::ReadDiscreteInputs(c) => ResponseView::ReadDiscreteInputs(c@),
            Response::ReadHoldingRegisters(w) => ResponseView::ReadHoldingRegisters(w@),
            Response::ReadInputRegisters(w) => ResponseView::ReadInputRegisters(w@),
            Response::WriteSingleCoil(a, on) => ResponseView::WriteSingleCoil(a, on),
            Response::WriteSingleRegister(a, w) => ResponseView::WriteSingleRegister(a, w),
            Response::WriteMultipleCoils(a, q) => ResponseView::WriteMultipleCoils(a, q),
            Response::WriteMultipleRegisters(a, q) => ResponseView::WriteMultipleRegisters(a, q),
            Response::ReadWriteMultipleRegisters(w) =>
                ResponseView::ReadWriteMultipleRegisters(w@),
            Response::Custom(f, d) => ResponseView::Custom(f, d@),
        }
    }
}

impl View for RequestPdu {
    type V = RequestView;

    open spec fn view(&self) -> RequestView {
        self.0@
    }
}

impl View for ResponsePdu {
    type V = ResponsePduView;

    open spec fn view(&self) -> ResponsePduView {
        match self.0 {
            Ok(response) => Ok(response@),
            Err(exception) => Err(exception),
        }
    }
}

impl FromSpecImpl<Request> for RequestPdu {
    open spec fn obeys_from_spec() -> bool {
        true
    }

    open spec fn from_spec(request: Request) -> RequestPdu {
        RequestPdu(request)
    }
}

impl From<Request> for RequestPdu {
    fn from(request: Request) -> (pdu: RequestPdu) {
        RequestPdu(request)
    }
}

impl FromSpecImpl<Response> for ResponsePdu {
    open spec fn obeys_from_spec() -> bool {
        true
    }

    open spec fn from_spec(response: Response) -> ResponsePdu {
        ResponsePdu(Ok(response))
    }
}

impl From<Response> for ResponsePdu {
    fn from(response: Response) -> (pdu: ResponsePdu) {
        ResponsePdu(Ok(response))
    }
}

impl FromSpecImpl<ExceptionResponse> for ResponsePdu {
    open spec fn obeys_from_spec() -> bool {
        true
    }

    open spec fn from_spec(exception: ExceptionResponse) -> ResponsePdu {
        ResponsePdu(Err(exception))
    }
}

impl From<ExceptionResponse> for ResponsePdu {
    fn from(exception: ExceptionResponse) -> (pdu: ResponsePdu) {
        ResponsePdu(Err(exception))
    }
}

impl FromSpecImpl<ResponsePdu> for Result<Response, ExceptionResponse> {
    open spec fn obeys_from_spec() -> bool {
        true
    }

    open spec fn from_spec(pdu: ResponsePdu) -> Result<Response, ExceptionResponse> {
        pdu.0
    }
}

impl From<ResponsePdu> for Result<Response, ExceptionResponse> {
    fn from(pdu: ResponsePdu) -> (result: Result<Response, ExceptionResponse>) {
        pdu.0
    }
}

impl Exception {
    /// The code under which an exception is transmitted.
    pub open spec fn spec_code(self) -> u8 {
        match self {
            Exception::IllegalFunction => 0x01,
            Exception::IllegalDataAddress => 0x02,
            Exception::IllegalDataValue => 0x03,
            Exception::ServerDeviceFailure => 0x04,
            Exception::Acknowledge => 0x05,
            Exception::ServerDeviceBusy => 0x06,
            Exception::MemoryParityError => 0x08,
            Exception::GatewayPathUnavailable => 0x0A,
            Exception::GatewayTargetDevice => 0x0B,
        }
    }

    /// The code under which the exception is transmitted.
    pub fn code(self) -> (code: u8)
        ensures
            code == self.spec_code(),
    {
        match self {
            Exception::IllegalFunction => 0x01,
            Exception::IllegalDataAddress => 0x02,
            Exception::IllegalDataValue => 0x03,
            Exception::ServerDeviceFailure => 0x04,
            Exception::Acknowledge => 0x05,
            Exception::ServerDeviceBusy => 0x06,
            Exception::MemoryParityError => 0x08,
            Exception::GatewayPathUnavailable => 0x0A,
            Exception::GatewayTargetDevice => 0x0B,
        }
    }

    /// The exception that is transmitted under a code, if there is one.
    pub open spec fn spec_from_code(code: u8) -> Option<Exception> {
        if code == 0x01 {
            Some(Exception::IllegalFunction)
        } else if code == 0x02 {
            Some(Exception::IllegalDataAddress)
        } else if code == 0x03 {
            Some(Exception::IllegalDataValue)
        } else if code == 0x04 {
            Some(Exception::ServerDeviceFailure)
        } else if code == 0x05 {
            Some(Exception::Acknowledge)
        } else if code == 0x06 {
            Some(Exception::ServerDeviceBusy)
        } else if code == 0x08 {
            Some(Exception::MemoryParityError)
        } else if code == 0x0A {
            Some(Exception::GatewayPathUnavailable)
        } else if code == 0x0B {
            Some(Exception::GatewayTargetDevice)
        } else {
            None
        }
    }

    /// The exception that is transmitted under a code, if there is one.
    pub fn from_code(code: u8) -> (exception: Option<Exception>)
        ensures
            exception == Exception::spec_from_code(code),
    {
        match code {
            0x01 => Some(Exception::IllegalFunction),
            0x02 => Some(Exception::IllegalDataAddress),
            0x03 => Some(Exception::IllegalDataValue),
            0x04 => Some(Exception::ServerDeviceFailure),
            0x05 => Some(Exception::Acknowledge),
            0x06 => Some(Exception::ServerDeviceBusy),
            0x08 => Some(Exception::MemoryParityError),
            0x0A => Some(Exception::GatewayPathUnavailable),
            0x0B => Some(Exception::GatewayTargetDevice),
            _ => None,
        }
    }

    /// An exception in words.
    pub open spec fn spec_description(self) -> Seq<char> {
        match self {
            Exception::IllegalFunction => "Illegal function"@,
            Exception::IllegalDataAddress => "Illegal data address"@,
            Exception::IllegalDataValue => "Illegal data value"@,
            Exception::ServerDeviceFailure => "Server device failure"@,
            Exception::Acknowledge => "Acknowledge"@,
            Exception::ServerDeviceBusy => "Server device busy"@,
            Exception::MemoryParityError => "Memory parity error"@,
            Exception::GatewayPathUnavailable => "Gateway path unavailable"@,
            Exception::GatewayTargetDevice => "Gateway target device failed to respond"@,
        }
    }

    /// The exception in words.
    pub fn description(self) -> (text: &'static str)
        ensures
            text@ == self.spec_description(),
    {
        match self {
            Exception::IllegalFunction => "Illegal function",
            Exception::IllegalDataAddress => "Illegal data address",
            Exception::IllegalDataValue => "Illegal data value",
            Exception::ServerDeviceFailure => "Server device failure",
            Exception::Acknowledge => "Acknowledge",
            Exception::ServerDeviceBusy => "Server device busy",
            Exception::MemoryParityError => "Memory parity error",
            Exception::GatewayPathUnavailable => "Gateway path unavailable",
            Exception::GatewayTargetDevice => "Gateway target device failed to respond",
        }
    }
}

/// The decimal digit `d`.
pub open spec fn digit(d: nat) -> Seq<char> {
    if d == 0 {
        "0"@
    } else if d == 1 {
        "1"@
    } else if d == 2 {
        "2"@
    } else if d == 3 {
        "3"@
    } else if d == 4 {
        "4"@
    } else if d == 5 {
        "5"@
    } else if d == 6 {
        "6"@
    } else if d == 7 {
        "7"@
    } else if d == 8 {
        "8"@
    } else {
        "9"@
    }
}

/// A number in decimal notation.
pub open spec fn decimal(n: nat) -> Seq<char>
    decreases n,
{
    if n < 10 {
        digit(n)
    } else {
        decimal(n / 10) + digit(n % 10)
    }
}

fn push_digit(text: &mut String, d: u8)
    requires
        d < 10,
    ensures
        final(text)@ == old(text)@ + digit(d as nat),
{
    let symbol = match d {
        0 => "0",
        1 => "1",
        2 => "2",
        3 => "3",
        4 => "4",
        5 => "5",
        6 => "6",
        7 => "7",
        8 => "8",
        _ => "9",
    };
    text.append(symbol);
}

fn push_decimal(text: &mut String, n: u8)
    ensures
        final(text)@ == old(text)@ + decimal(n as nat),
{
    proof {
        reveal_with_fuel(decimal, 3);
    }
    if n >= 100 {
        push_digit(text, n / 100);
    }
    if n >= 10 {
        push_digit(text, (n / 10) % 10);
    }
    push_digit(text, n % 10);
    assert(text@ =~= old(text)@ + decimal(n as nat));
}

impl ExceptionResponse {
    /// An exception response in words: the function in decimal notation, then the reason.
    pub open spec fn spec_description(self) -> Seq<char> {
        "Modbus function "@ + decimal(self.function as nat) + ": "@
            + self.exception.spec_description()
    }

    /// The exception response in words, such as `Modbus function 2: Illegal data value`.
    pub fn description(&self) -> (text: String)
        ensures
            text@ == self.spec_description(),
    {
        let mut text = String::new();
        text.append("Modbus function ");
        push_decimal(&mut text, self.function);
        text.append(": ");
        text.append(self.exception.description());
        assert(text@ =~= self.spec_description());
        text
    }
}

} // verus!
