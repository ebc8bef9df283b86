//! Requests and responses as bytes.

use crate::buffer::{bytes_slice, payload};
use crate::error::Error;
use crate::frame::{
    Exception, ExceptionResponse, Request, RequestPdu, RequestView, Response, ResponsePdu,
    ResponsePduView, ResponseView,
};
use crate::wire::{
    coil, coils_at, coils_bytes, law_coils_round_trip, law_words_round_trip, packed_len, put_coils,
    put_u16, put_words, read_coils, read_u16, read_words, u16_at, u16_bytes, words_at, words_bytes,
};
use bytes::Bytes;
use vstd::prelude::*;
use vstd::slice::{slice_subrange, slice_to_vec};

verus! {

/// The most coils of which the packed form has a length that one byte can hold.
pub const MAX_COILS: usize = 2040;

/// The most words of which the bytes can be counted in one byte.
pub const MAX_WORDS: usize = 127;

/// The function codes that have a message of their own.
pub open spec fn assigned(code: u8) -> bool {
    0x01 <= code <= 0x06 || code == 0x0F || code == 0x10 || code == 0x17
}

/// The word that stands for a coil.
pub open spec fn coil_word(on: bool) -> u16 {
    if on {
        0xFF00
    } else {
        0x0000
    }
}

impl RequestView {
    /// The payload can be counted in the one byte that the format has for the count.
    pub open spec fn encodable(self) -> bool {
        match self {
            RequestView::WriteMultipleCoils(_, coils) => coils.len() <= MAX_COILS,
            RequestView::WriteMultipleRegisters(_, words) => words.len() <= MAX_WORDS,
            RequestView::ReadWriteMultipleRegisters(_, _, _, words) => words.len() <= MAX_WORDS,
            _ => true,
        }
    }

    /// The message is not a custom one under the code of another message, or of no request.
    pub open spec fn canonical(self) -> bool {
        self matches RequestView::Custom(code, _) ==> code < 0x80 && !assigned(code)
    }
}

impl ResponseView {
    /// The payload can be counted in the one byte that the format has for the count.
    pub open spec fn encodable(self) -> bool {
        match self {
            ResponseView::ReadCoils(coils) => coils.len() <= MAX_COILS,
            ResponseView::ReadDiscreteInputs(coils) => coils.len() <= MAX_COILS,
            ResponseView::ReadHoldingRegisters(words) => words.len() <= MAX_WORDS,
            ResponseView::ReadInputRegisters(words) => words.len() <= MAX_WORDS,
            ResponseView::ReadWriteMultipleRegisters(words) => words.len() <= MAX_WORDS,
            _ => true,
        }
    }

    /// The message is not a custom one under the code of another message, or of an exception.
    pub open spec fn canonical(self) -> bool {
        self matches ResponseView::Custom(code, _) ==> code < 0x80 && !assigned(code)
    }

    /// The message as a receiver sees it: it cannot tell padding from coils, so that there
    /// are as many coils as there are bits.
    pub open spec fn padded(self) -> ResponseView {
        match self {
            ResponseView::ReadCoils(coils) => ResponseView::ReadCoils(padded_coils(coils)),
            ResponseView::ReadDiscreteInputs(coils) => ResponseView::ReadDiscreteInputs(
                padded_coils(coils),
            ),
            _ => self,
        }
    }
}

/// Coils, followed by coils that are off up to a multiple of eight.
pub open spec fn padded_coils(coils: Seq<bool>) -> Seq<bool> {
    Seq::new((8 * packed_len(coils.len())) as nat, |i: int| coil(coils, i))
}

/// The payload of a response can be counted in one byte, and the function of an exception
/// leaves the highest bit of its code free.
pub open spec fn response_encodable(pdu: ResponsePduView) -> bool {
    match pdu {
        Ok(response) => response.encodable(),
        Err(exception) => exception.function < 0x80,
    }
}

/// The message is not a custom one under the code of another message, or of an exception.
pub open spec fn response_canonical(pdu: ResponsePduView) -> bool {
    pdu matches Ok(response) ==> response.canonical()
}

/// A response as a receiver sees it.
pub open spec fn response_padded(pdu: ResponsePduView) -> ResponsePduView {
    match pdu {
        Ok(response) => Ok(response.padded()),
        Err(exception) => Err(exception),
    }
}

/// A function code and two words.
pub open spec fn two_words(code: u8, first: u16, second: u16) -> Seq<u8> {
    seq![code] + u16_bytes(first) + u16_bytes(second)
}

/// The bytes of a request.
pub open spec fn request_bytes(request: RequestView) -> Seq<u8> {
    match request {
        RequestView::ReadCoils(address, quantity) => two_words(0x01, address, quantity),
        RequestView::ReadDiscreteInputs(address, quantity) => two_words(0x02, address, quantity),
        RequestView::ReadHoldingRegisters(address, quantity) => two_words(0x03, address, quantity),
        RequestView::ReadInputRegisters(address, quantity) => two_words(0x04, address, quantity),
        RequestView::WriteSingleCoil(address, on) => two_words(0x05, address, coil_word(on)),
        RequestView::WriteSingleRegister(address, word) => two_words(0x06, address, word),
        RequestView::WriteMultipleCoils(address, coils) => two_words(
            0x0F,
            address,
            coils.len() as u16,
        ) + seq![packed_len(coils.len()) as u8] + coils_bytes(coils),
        RequestView::WriteMultipleRegisters(address, words) => two_words(
            0x10,
            address,
            words.len() as u16,
        ) + seq![(2 * words.len()) as u8] + words_bytes(words),
        RequestView::ReadWriteMultipleRegisters(read_address, quantity, write_address, words) =>
            two_words(0x17, read_address, quantity) + u16_bytes(write_address) + u16_bytes(
                words.len() as u16,
            ) + seq![(2 * words.len()) as u8] + words_bytes(words),
        RequestView::Custom(code, data) => seq![code] + data,
    }
}

/// A function code, a byte count and packed coils.
pub open spec fn counted_coils(code: u8, coils: Seq<bool>) -> Seq<u8> {
    seq![code, packed_len(coils.len()) as u8] + coils_bytes(coils)
}

/// A function code, a byte count and words.
pub open spec fn counted_words(code: u8, words: Seq<u16>) -> Seq<u8> {
    seq![code, (2 * words.len()) as u8] + words_bytes(words)
}

/// The bytes of a response.
pub open spec fn response_bytes(pdu: ResponsePduView) -> Seq<u8> {
    match pdu {
        Ok(ResponseView::ReadCoils(coils)) => counted_coils(0x01, coils),
        Ok(ResponseView::ReadDiscreteInputs(coils)) => counted_coils(0x02, coils),
        Ok(ResponseView::ReadHoldingRegisters(words)) => counted_words(0x03, words),
        Ok(ResponseView::ReadInputRegisters(words)) => counted_words(0x04, words),
        Ok(ResponseView::WriteSingleCoil(address, on)) => two_words(0x05, address, coil_word(on)),
        Ok(ResponseView::WriteSingleRegister(address, word)) => two_words(0x06, address, word),
        Ok(ResponseView::WriteMultipleCoils(address, quantity)) => two_words(
            0x0F,
            address,
            quantity,
        ),
        Ok(ResponseView::WriteMultipleRegisters(address, quantity)) => two_words(
            0x10,
            address,
            quantity,
        ),
        Ok(ResponseView::ReadWriteMultipleRegisters(words)) => counted_words(0x17, words),
        Ok(ResponseView::Custom(code, data)) => seq![code] + data,
        Err(exception) => seq![
            (exception.function + 0x80) as u8,
            exception.exception.spec_code(),
        ],
    }
}

/// The request in a sequence of bytes, or what is wrong with them.
pub open spec fn parse_request(bytes: Seq<u8>) -> Result<RequestView, Error> {
    if bytes.len() == 0 {
        Err(Error::UnexpectedEof)
    } else if bytes[0] >= 0x80 {
        Err(Error::InvalidFunctionCode(bytes[0]))
    } else if !assigned(bytes[0]) {
        Ok(RequestView::Custom(bytes[0], bytes.skip(1)))
    } else if bytes.len() < 5 {
        Err(Error::UnexpectedEof)
    } else {
        let first = u16_at(bytes, 1);
        let second = u16_at(bytes, 3);
        if bytes[0] == 0x01 {
            Ok(RequestView::ReadCoils(first, second))
        } else if bytes[0] == 0x02 {
            Ok(RequestView::ReadDiscreteInputs(first, second))
        } else if bytes[0] == 0x03 {
            Ok(RequestView::ReadHoldingRegisters(first, second))
        } else if bytes[0] == 0x04 {
            Ok(RequestView::ReadInputRegisters(first, second))
        } else if bytes[0] == 0x05 {
            if second == coil_word(true) {
                Ok(RequestView::WriteSingleCoil(first, true))
            } else if second == coil_word(false) {
                Ok(RequestView::WriteSingleCoil(first, false))
            } else {
                Err(Error::InvalidCoilValue(second))
            }
        } else if bytes[0] == 0x06 {
            Ok(RequestView::WriteSingleRegister(first, second))
        } else if bytes[0] == 0x0F {
            if bytes.len() < 6 {
                Err(Error::UnexpectedEof)
            } else if bytes.len() < 6 + bytes[5] {
                Err(Error::TooShort)
            } else if bytes.len() < 6 + packed_len(second as nat) {
                Err(Error::UnexpectedEof)
            } else {
                Ok(RequestView::WriteMultipleCoils(first, coils_at(bytes, 6, second as nat)))
            }
        } else if bytes[0] == 0x10 {
            if bytes.len() < 6 {
                Err(Error::UnexpectedEof)
            } else if bytes.len() < 6 + bytes[5] {
                Err(Error::TooShort)
            } else if bytes.len() < 6 + 2 * second {
                Err(Error::UnexpectedEof)
            } else {
                Ok(RequestView::WriteMultipleRegisters(first, words_at(bytes, 6, second as nat)))
            }
        } else {
            if bytes.len() < 10 {
                Err(Error::UnexpectedEof)
            } else if bytes.len() < 10 + bytes[9] {
                Err(Error::TooShort)
            } else if bytes.len() < 10 + 2 * u16_at(bytes, 7) {
                Err(Error::UnexpectedEof)
            } else {
                Ok(
                    RequestView::ReadWriteMultipleRegisters(
                        first,
                        second,
                        u16_at(bytes, 5),
                        words_at(bytes, 10, u16_at(bytes, 7) as nat),
                    ),
                )
            }
        }
    }
}

/// The exception response in two or more bytes of which the first marks one.
pub open spec fn parse_exception(bytes: Seq<u8>) -> Result<ExceptionResponse, Error> {
    match Exception::spec_from_code(bytes[1]) {
        Some(exception) => Ok(
            ExceptionResponse { function: (bytes[0] - 0x80) as u8, exception },
        ),
        None => Err(Error::InvalidExceptionCode(bytes[1])),
    }
}

/// The response in a sequence of bytes, or what is wrong with them.
pub open spec fn parse_response(bytes: Seq<u8>) -> Result<ResponsePduView, Error> {
    if bytes.len() == 0 {
        Err(Error::UnexpectedEof)
    } else if bytes[0] < 0x80 && !assigned(bytes[0]) {
        Ok(Ok(ResponseView::Custom(bytes[0], bytes.skip(1))))
    } else if bytes.len() < 2 {
        Err(Error::UnexpectedEof)
    } else if bytes[0] >= 0x80 {
        match parse_exception(bytes) {
            Ok(exception) => Ok(Err(exception)),
            Err(error) => Err(error),
        }
    } else if bytes[0] == 0x01 || bytes[0] == 0x02 {
        let coils = coils_at(bytes, 2, (8 * bytes[1]) as nat);
        if bytes.len() < 2 + bytes[1] {
            Err(Error::UnexpectedEof)
        } else if bytes[0] == 0x01 {
            Ok(Ok(ResponseView::ReadCoils(coils)))
        } else {
            Ok(Ok(ResponseView::ReadDiscreteInputs(coils)))
        }
    } else if bytes[0] == 0x03 || bytes[0] == 0x04 || bytes[0] == 0x17 {
        let words = words_at(bytes, 2, (bytes[1] / 2) as nat);
        if bytes.len() < 2 + 2 * (bytes[1] / 2) {
            Err(Error::UnexpectedEof)
        } else if bytes[0] == 0x03 {
            Ok(Ok(ResponseView::ReadHoldingRegisters(words)))
        } else if bytes[0] == 0x04 {
            Ok(Ok(ResponseView::ReadInputRegisters(words)))
        } else {
            Ok(Ok(ResponseView::ReadWriteMultipleRegisters(words)))
        }
    } else if bytes.len() < 5 {
        Err(Error::UnexpectedEof)
    } else {
        let first = u16_at(bytes, 1);
        let second = u16_at(bytes, 3);
        if bytes[0] == 0x05 {
            if second == coil_word(true) {
                Ok(Ok(ResponseView::WriteSingleCoil(first, true)))
            } else if second == coil_word(false) {
                Ok(Ok(ResponseView::WriteSingleCoil(first, false)))
            } else {
                Err(Error::InvalidCoilValue(second))
            }
        } else if bytes[0] == 0x06 {
            Ok(Ok(ResponseView::WriteSingleRegister(first, second)))
        } else if bytes[0] == 0x0F {
            Ok(Ok(ResponseView::WriteMultipleCoils(first, second)))
        } else {
            Ok(Ok(ResponseView::WriteMultipleRegisters(first, second)))
        }
    }
}

fn put_two_words(out: &mut Vec<u8>, code: u8, first: u16, second: u16)
    ensures
        final(out)@ == old(out)@ + two_words(code, first, second),
{
    out.push(code);
    put_u16(out, first);
    put_u16(out, second);
    assert(out@ =~= old(out)@ + two_words(code, first, second));
}

fn bool_to_coil(on: bool) -> (word: u16)
    ensures
        word == coil_word(on),
{
    if on {
        0xFF00
    } else {
        0x0000
    }
}

fn coil_to_bool(word: u16) -> (on: Result<bool, Error>)
    ensures
        on == (if word == coil_word(true) {
            Ok::<bool, Error>(true)
        } else if word == coil_word(false) {
            Ok(false)
        } else {
            Err(Error::InvalidCoilValue(word))
        }),
{
    match word {
        0xFF00 => Ok(true),
        0x0000 => Ok(false),
        _ => Err(Error::InvalidCoilValue(word)),
    }
}

impl RequestPdu {
    /// Whether the payload can be counted in one byte, so that the request can be encoded.
    pub fn is_encodable(&self) -> (fits: bool)
        ensures
            fits == self@.encodable(),
    {
        match &self.0 {
            Request::WriteMultipleCoils(_, coils) => coils.len() <= MAX_COILS,
            Request::WriteMultipleRegisters(_, words) => words.len() <= MAX_WORDS,
            Request::ReadWriteMultipleRegisters(_, _, _, words) => words.len() <= MAX_WORDS,
            _ => true,
        }
    }

    /// Writes the request out.
    pub fn to_bytes(&self) -> (bytes: Vec<u8>)
        requires
            self@.encodable(),
        ensures
            bytes@ == request_bytes(self@),
    {
        let mut out: Vec<u8> = Vec::new();
        match &self.0 {
            Request::ReadCoils(address, quantity) => {
                put_two_words(&mut out, 0x01, *address, *quantity);
            },
            Request::ReadDiscreteInputs(address, quantity) => {
                put_two_words(&mut out, 0x02, *address, *quantity);
            },
            Request::ReadHoldingRegisters(address, quantity) => {
                put_two_words(&mut out, 0x03, *address, *quantity);
            },
            Request::ReadInputRegisters(address, quantity) => {
                put_two_words(&mut out, 0x04, *address, *quantity);
            },
            Request::WriteSingleCoil(address, on) => {
                put_two_words(&mut out, 0x05, *address, bool_to_coil(*on));
            },
            Request::WriteSingleRegister(address, word) => {
                put_two_words(&mut out, 0x06, *address, *word);
            },
            Request::WriteMultipleCoils(address, coils) => {
                put_two_words(&mut out, 0x0F, *address, coils.len() as u16);
                out.push(((coils.len() + 7) / 8) as u8);
                put_coils(&mut out, coils.as_slice());
            },
            Request::WriteMultipleRegisters(address, words) => {
                put_two_words(&mut out, 0x10, *address, words.len() as u16);
                out.push((2 * words.len()) as u8);
                put_words(&mut out, words.as_slice());
            },
            Request::ReadWriteMultipleRegisters(read_address, quantity, write_address, words) => {
                put_two_words(&mut out, 0x17, *read_address, *quantity);
                put_u16(&mut out, *write_address);
                put_u16(&mut out, words.len() as u16);
                out.push((2 * words.len()) as u8);
                put_words(&mut out, words.as_slice());
            },
            Request::Custom(code, data) => {
                out.push(*code);
                out.extend_from_slice(data.as_slice());
            },
        }
        assert(out@ =~= request_bytes(self@));
        out
    }

    /// Reads a request.
    pub fn try_from(bytes: Bytes) -> (pdu: Result<RequestPdu, Error>)
        ensures
            match pdu {
                Ok(pdu) => parse_request(payload(bytes)) == Ok::<RequestView, Error>(pdu@),
                Err(error) => parse_request(payload(bytes)) == Err::<RequestView, Error>(error),
            },
    {
        match read_request(bytes_slice(&bytes)) {
            Ok(request) => Ok(RequestPdu(request)),
            Err(error) => Err(error),
        }
    }
}

/// Reads a request out of a slice.
pub(crate) fn read_request(bytes: &[u8]) -> (request: Result<Request, Error>)
    ensures
        match request {
            Ok(request) => parse_request(bytes@) == Ok::<RequestView, Error>(request@),
            Err(error) => parse_request(bytes@) == Err::<RequestView, Error>(error),
        },
{
    let len: usize = bytes.len();
    if len == 0 {
        return Err(Error::UnexpectedEof);
    }
    let code: u8 = bytes[0];
    if code >= 0x80 {
        return Err(Error::InvalidFunctionCode(code));
    }
    if !is_assigned(code) {
        assert(bytes@.skip(1) =~= bytes@.subrange(1, len as int));
        return Ok(Request::Custom(code, slice_to_vec(slice_subrange(bytes, 1, len))));
    }
    if len < 5 {
        return Err(Error::UnexpectedEof);
    }
    let first: u16 = read_u16(bytes, 1);
    let second: u16 = read_u16(bytes, 3);
    match code {
        0x01 => Ok(Request::ReadCoils(first, second)),
        0x02 => Ok(Request::ReadDiscreteInputs(first, second)),
        0x03 => Ok(Request::ReadHoldingRegisters(first, second)),
        0x04 => Ok(Request::ReadInputRegisters(first, second)),
        0x05 => match coil_to_bool(second) {
            Ok(on) => Ok(Request::WriteSingleCoil(first, on)),
            Err(error) => Err(error),
        },
        0x06 => Ok(Request::WriteSingleRegister(first, second)),
        0x0F => {
            let n: usize = second as usize;
            if len < 6 {
                Err(Error::UnexpectedEof)
            } else if len < 6 + bytes[5] as usize {
                Err(Error::TooShort)
            } else if len < 6 + (n + 7) / 8 {
                Err(Error::UnexpectedEof)
            } else {
                Ok(Request::WriteMultipleCoils(first, read_coils(bytes, 6, n)))
            }
        },
        0x10 => {
            let n: usize = second as usize;
            if len < 6 {
                Err(Error::UnexpectedEof)
            } else if len < 6 + bytes[5] as usize {
                Err(Error::TooShort)
            } else if len < 6 + 2 * n {
                Err(Error::UnexpectedEof)
            } else {
                Ok(Request::WriteMultipleRegisters(first, read_words(bytes, 6, n)))
            }
        },
        _ => {
            if len < 10 {
                return Err(Error::UnexpectedEof);
            }
            let n: usize = read_u16(bytes, 7) as usize;
            if len < 10 + bytes[9] as usize {
                Err(Error::TooShort)
            } else if len < 10 + 2 * n {
                Err(Error::UnexpectedEof)
            } else {
                let write_address: u16 = read_u16(bytes, 5);
                let words = read_words(bytes, 10, n);
                Ok(Request::ReadWriteMultipleRegisters(first, second, write_address, words))
            }
        },
    }
}

fn is_assigned(code: u8) -> (known: bool)
    ensures
        known == assigned(code),
{
    (0x01 <= code && code <= 0x06) || code == 0x0F || code == 0x10 || code == 0x17
}

fn put_counted_coils(out: &mut Vec<u8>, code: u8, coils: &[bool])
    requires
        coils@.len() <= MAX_COILS,
    ensures
        final(out)@ == old(out)@ + counted_coils(code, coils@),
{
    out.push(code);
    out.push(((coils.len() + 7) / 8) as u8);
    put_coils(out, coils);
    assert(out@ =~= old(out)@ + counted_coils(code, coils@));
}

fn put_counted_words(out: &mut Vec<u8>, code: u8, words: &[u16])
    requires
        words@.len() <= MAX_WORDS,
    ensures
        final(out)@ == old(out)@ + counted_words(code, words@),
{
    out.push(code);
    out.push((2 * words.len()) as u8);
    put_words(out, words);
    assert(out@ =~= old(out)@ + counted_words(code, words@));
}

impl ResponsePdu {
    /// Whether the payload can be counted in one byte, or the function of the exception
    /// leaves the highest bit free, so that the response can be encoded.
    pub fn is_encodable(&self) -> (fits: bool)
        ensures
            fits == response_encodable(self@),
    {
        match &self.0 {
            Ok(Response::ReadCoils(coils)) => coils.len() <= MAX_COILS,
            Ok(Response::ReadDiscreteInputs(coils)) => coils.len() <= MAX_COILS,
            Ok(Response::ReadHoldingRegisters(words)) => words.len() <= MAX_WORDS,
            Ok(Response::ReadInputRegisters(words)) => words.len() <= MAX_WORDS,
            Ok(Response::ReadWriteMultipleRegisters(words)) => words.len() <= MAX_WORDS,
            Ok(_) => true,
            Err(exception) => exception.function < 0x80,
        }
    }

    /// Writes the response out.
    pub fn to_bytes(&self) -> (bytes: Vec<u8>)
        requires
            response_encodable(self@),
        ensures
            bytes@ == response_bytes(self@),
    {
        let mut out: Vec<u8> = Vec::new();
        match &self.0 {
            Ok(Response::ReadCoils(coils)) => {
                put_counted_coils(&mut out, 0x01, coils.as_slice());
            },
            Ok(Response::ReadDiscreteInputs(coils)) => {
                put_counted_coils(&mut out, 0x02, coils.as_slice());
            },
            Ok(Response::ReadHoldingRegisters(words)) => {
                put_counted_words(&mut out, 0x03, words.as_slice());
            },
            Ok(Response::ReadInputRegisters(words)) => {
                put_counted_words(&mut out, 0x04, words.as_slice());
            },
            Ok(Response::WriteSingleCoil(address, on)) => {
                put_two_words(&mut out, 0x05, *address, bool_to_coil(*on));
            },
            Ok(Response::WriteSingleRegister(address, word)) => {
                put_two_words(&mut out, 0x06, *address, *word);
            },
            Ok(Response::WriteMultipleCoils(address, quantity)) => {
                put_two_words(&mut out, 0x0F, *address, *quantity);
            },
            Ok(Response::WriteMultipleRegisters(address, quantity)) => {
                put_two_words(&mut out, 0x10, *address, *quantity);
            },
            Ok(Response::ReadWriteMultipleRegisters(words)) => {
                put_counted_words(&mut out, 0x17, words.as_slice());
            },
            Ok(Response::Custom(code, data)) => {
                out.push(*code);
                out.extend_from_slice(data.as_slice());
            },
            Err(exception) => {
                out.push(exception.function + 0x80);
                out.push(exception.exception.code());
            },
        }
        assert(out@ =~= response_bytes(self@));
        out
    }

    /// Reads a response.
    pub fn try_from(bytes: Bytes) -> (pdu: Result<ResponsePdu, Error>)
        ensures
            match pdu {
                Ok(pdu) => parse_response(payload(bytes)) == Ok::<ResponsePduView, Error>(pdu@),
                Err(error) => parse_response(payload(bytes)) == Err::<ResponsePduView, Error>(
                    error,
                ),
            },
    {
        read_response(bytes_slice(&bytes))
    }
}

/// Reads a response out of a slice.
pub(crate) fn read_response(bytes: &[u8]) -> (pdu: Result<ResponsePdu, Error>)
    ensures
        match pdu {
            Ok(pdu) => parse_response(bytes@) == Ok::<ResponsePduView, Error>(pdu@),
            Err(error) => parse_response(bytes@) == Err::<ResponsePduView, Error>(error),
        },
{
    let len: usize = bytes.len();
    if len == 0 {
        return Err(Error::UnexpectedEof);
    }
    let code: u8 = bytes[0];
    if code < 0x80 && !is_assigned(code) {
        assert(bytes@.skip(1) =~= bytes@.subrange(1, len as int));
        let data = slice_to_vec(slice_subrange(bytes, 1, len));
        return Ok(ResponsePdu(Ok(Response::Custom(code, data))));
    }
    if len < 2 {
        return Err(Error::UnexpectedEof);
    }
    let count: usize = bytes[1] as usize;
    if code >= 0x80 {
        return match Exception::from_code(bytes[1]) {
            Some(exception) => Ok(
                ResponsePdu(Err(ExceptionResponse { function: code - 0x80, exception })),
            ),
            None => Err(Error::InvalidExceptionCode(bytes[1])),
        };
    }
    let response = match code {
        0x01 | 0x02 => {
            if len < 2 + count {
                return Err(Error::UnexpectedEof);
            }
            let coils = read_coils(bytes, 2, 8 * count);
            if code == 0x01 {
                Response::ReadCoils(coils)
            } else {
                Response::ReadDiscreteInputs(coils)
            }
        },
        0x03 | 0x04 | 0x17 => {
            let n: usize = count / 2;
            if len < 2 + 2 * n {
                return Err(Error::UnexpectedEof);
            }
            let words = read_words(bytes, 2, n);
            if code == 0x03 {
                Response::ReadHoldingRegisters(words)
            } else if code == 0x04 {
                Response::ReadInputRegisters(words)
            } else {
                Response::ReadWriteMultipleRegisters(words)
            }
        },
        _ => {
            if len < 5 {
                return Err(Error::UnexpectedEof);
            }
            let first: u16 = read_u16(bytes, 1);
            let second: u16 = read_u16(bytes, 3);
            match code {
                0x05 => match coil_to_bool(second) {
                    Ok(on) => Response::WriteSingleCoil(first, on),
                    Err(error) => {
                        return Err(error);
                    },
                },
                0x06 => Response::WriteSingleRegister(first, second),
                0x0F => Response::WriteMultipleCoils(first, second),
                _ => Response::WriteMultipleRegisters(first, second),
            }
        },
    };
    Ok(ResponsePdu(Ok(response)))
}

/// The fields of a message that starts with a function code and two words.
proof fn lemma_two_words(code: u8, first: u16, second: u16, rest: Seq<u8>)
    ensures
        ({
            let bytes = two_words(code, first, second) + rest;
            &&& bytes.len() == 5 + rest.len()
            &&& bytes[0] == code
            &&& u16_at(bytes, 1) == first
            &&& u16_at(bytes, 3) == second
        }),
{
    let bytes = two_words(code, first, second) + rest;
    assert(bytes[1] == (first / 256) as u8 && bytes[2] == (first % 256) as u8);
    assert(bytes[3] == (second / 256) as u8 && bytes[4] == (second % 256) as u8);
}

/// The fields of a message that goes on with a byte count and counted bytes.
proof fn lemma_counted_bytes(code: u8, first: u16, second: u16, count: u8, data: Seq<u8>)
    ensures
        ({
            let front = two_words(code, first, second) + seq![count];
            let bytes = front + data;
            &&& bytes.len() == 6 + data.len()
            &&& bytes[0] == code
            &&& u16_at(bytes, 1) == first
            &&& u16_at(bytes, 3) == second
            &&& bytes[5] == count
            &&& bytes == front + data + Seq::<u8>::empty()
            &&& front.len() == 6
        }),
{
    let front = two_words(code, first, second) + seq![count];
    let bytes = front + data;
    assert(bytes =~= two_words(code, first, second) + (seq![count] + data));
    lemma_two_words(code, first, second, seq![count] + data);
    assert(bytes[5] == seq![count][0]);
    assert(bytes =~= front + data + Seq::<u8>::empty());
}

/// The fields of a request to write coils.
pub(crate) proof fn lemma_coils_request(address: u16, coils: Seq<bool>)
    requires
        coils.len() <= MAX_COILS,
    ensures
        ({
            let bytes = request_bytes(RequestView::WriteMultipleCoils(address, coils));
            &&& bytes.len() == 6 + packed_len(coils.len())
            &&& bytes[0] == 0x0F
            &&& u16_at(bytes, 1) == address
            &&& u16_at(bytes, 3) == coils.len()
            &&& bytes[5] == packed_len(coils.len())
            &&& coils_at(bytes, 6, coils.len()) == coils
        }),
{
    let n = coils.len() as u16;
    let count = packed_len(coils.len()) as u8;
    let data = coils_bytes(coils);
    lemma_counted_bytes(0x0F, address, n, count, data);
    law_coils_round_trip(
        two_words(0x0F, address, n) + seq![count],
        coils,
        Seq::empty(),
        coils.len(),
    );
    assert(Seq::new(coils.len(), |i: int| coil(coils, i)) =~= coils);
}

/// The fields of a request to write words.
pub(crate) proof fn lemma_words_request(address: u16, words: Seq<u16>)
    requires
        words.len() <= MAX_WORDS,
    ensures
        ({
            let bytes = request_bytes(RequestView::WriteMultipleRegisters(address, words));
            &&& bytes.len() == 6 + 2 * words.len()
            &&& bytes[0] == 0x10
            &&& u16_at(bytes, 1) == address
            &&& u16_at(bytes, 3) == words.len()
            &&& bytes[5] == 2 * words.len()
            &&& words_at(bytes, 6, words.len()) == words
        }),
{
    let n = words.len() as u16;
    let count = (2 * words.len()) as u8;
    lemma_counted_bytes(0x10, address, n, count, words_bytes(words));
    law_words_round_trip(two_words(0x10, address, n) + seq![count], words, Seq::empty());
}

/// The fields of a message that goes on with two words, a byte count and counted bytes.
proof fn lemma_more_counted_bytes(
    code: u8,
    first: u16,
    second: u16,
    third: u16,
    fourth: u16,
    count: u8,
    data: Seq<u8>,
)
    ensures
        ({
            let front = two_words(code, first, second) + u16_bytes(third) + u16_bytes(fourth)
                + seq![count];
            let bytes = front + data;
            &&& bytes.len() == 10 + data.len()
            &&& bytes[0] == code
            &&& u16_at(bytes, 1) == first
            &&& u16_at(bytes, 3) == second
            &&& u16_at(bytes, 5) == third
            &&& u16_at(bytes, 7) == fourth
            &&& bytes[9] == count
            &&& bytes == front + data + Seq::<u8>::empty()
            &&& front.len() == 10
        }),
{
    let front = two_words(code, first, second) + u16_bytes(third) + u16_bytes(fourth) + seq![count];
    let bytes = front + data;
    let middle = u16_bytes(third) + u16_bytes(fourth) + seq![count];
    assert(bytes =~= two_words(code, first, second) + (middle + data));
    lemma_two_words(code, first, second, middle + data);
    assert(bytes[5] == middle[0] && bytes[6] == middle[1]);
    assert(bytes[7] == middle[2] && bytes[8] == middle[3] && bytes[9] == middle[4]);
    assert(bytes =~= front + data + Seq::<u8>::empty());
}

/// The fields of a request to read and write words.
pub(crate) proof fn lemma_read_write_request(from: u16, quantity: u16, to: u16, words: Seq<u16>)
    requires
        words.len() <= MAX_WORDS,
    ensures
        ({
            let bytes = request_bytes(
                RequestView::ReadWriteMultipleRegisters(from, quantity, to, words),
            );
            &&& bytes.len() == 10 + 2 * words.len()
            &&& bytes[0] == 0x17
            &&& u16_at(bytes, 1) == from
            &&& u16_at(bytes, 3) == quantity
            &&& u16_at(bytes, 5) == to
            &&& u16_at(bytes, 7) == words.len()
            &&& bytes[9] == 2 * words.len()
            &&& words_at(bytes, 10, words.len()) == words
        }),
{
    let n = words.len() as u16;
    let count = (2 * words.len()) as u8;
    let front = two_words(0x17, from, quantity) + u16_bytes(to) + u16_bytes(n) + seq![count];
    lemma_more_counted_bytes(0x17, from, quantity, to, n, count, words_bytes(words));
    law_words_round_trip(front, words, Seq::empty());
}

/// A request that is written out and read back is the same request.
pub proof fn law_request_round_trip(request: RequestView)
    requires
        request.encodable(),
        request.canonical(),
    ensures
        parse_request(request_bytes(request)) == Ok::<RequestView, Error>(request),
{
    let bytes = request_bytes(request);
    let none = Seq::<u8>::empty();
    match request {
        RequestView::WriteMultipleCoils(address, coils) => {
            lemma_coils_request(address, coils);
        },
        RequestView::WriteMultipleRegisters(address, words) => {
            lemma_words_request(address, words);
        },
        RequestView::ReadWriteMultipleRegisters(from, quantity, to, words) => {
            lemma_read_write_request(from, quantity, to, words);
        },
        RequestView::Custom(code, data) => {
            assert(bytes.skip(1) =~= data);
        },
        RequestView::ReadCoils(first, second) => {
            lemma_two_words(0x01, first, second, none);
            assert(bytes + none =~= bytes);
        },
        RequestView::ReadDiscreteInputs(first, second) => {
            lemma_two_words(0x02, first, second, none);
            assert(bytes + none =~= bytes);
        },
        RequestView::ReadHoldingRegisters(first, second) => {
            lemma_two_words(0x03, first, second, none);
            assert(bytes + none =~= bytes);
        },
        RequestView::ReadInputRegisters(first, second) => {
            lemma_two_words(0x04, first, second, none);
            assert(bytes + none =~= bytes);
        },
        RequestView::WriteSingleCoil(first, on) => {
            lemma_two_words(0x05, first, coil_word(on), none);
            assert(bytes + none =~= bytes);
        },
        RequestView::WriteSingleRegister(first, second) => {
            lemma_two_words(0x06, first, second, none);
            assert(bytes + none =~= bytes);
        },
    }
}

/// The fields of a response that carries coils.
proof fn lemma_counted_coils(code: u8, coils: Seq<bool>)
    requires
        coils.len() <= MAX_COILS,
    ensures
        ({
            let bytes = counted_coils(code, coils);
            &&& bytes.len() == 2 + packed_len(coils.len())
            &&& bytes[0] == code
            &&& bytes[1] == packed_len(coils.len())
            &&& coils_at(bytes, 2, (8 * bytes[1]) as nat) == padded_coils(coils)
        }),
{
    let bytes = counted_coils(code, coils);
    let none = Seq::<u8>::empty();
    let head = seq![code, packed_len(coils.len()) as u8];
    assert(bytes =~= head + coils_bytes(coils) + none);
    assert(bytes[0] == head[0] && bytes[1] == head[1]);
    law_coils_round_trip(head, coils, none, (8 * packed_len(coils.len())) as nat);
}

/// The fields of a response that carries words.
proof fn lemma_counted_words(code: u8, words: Seq<u16>)
    requires
        words.len() <= MAX_WORDS,
    ensures
        ({
            let bytes = counted_words(code, words);
            &&& bytes.len() == 2 + 2 * words.len()
            &&& bytes[0] == code
            &&& bytes[1] == 2 * words.len()
            &&& words_at(bytes, 2, (bytes[1] / 2) as nat) == words
        }),
{
    let bytes = counted_words(code, words);
    let none = Seq::<u8>::empty();
    let head = seq![code, (2 * words.len()) as u8];
    assert(bytes =~= head + words_bytes(words) + none);
    assert(bytes[0] == head[0] && bytes[1] == head[1]);
    law_words_round_trip(head, words, none);
}

/// A response that is written out and read back is the same response, but for coils: these
/// come back padded to whole bytes.
pub proof fn law_response_round_trip(pdu: ResponsePduView)
    requires
        response_encodable(pdu),
        response_canonical(pdu),
    ensures
        parse_response(response_bytes(pdu)) == Ok::<ResponsePduView, Error>(response_padded(pdu)),
{
    let bytes = response_bytes(pdu);
    let none = Seq::<u8>::empty();
    match pdu {
        Ok(ResponseView::ReadCoils(coils)) => lemma_counted_coils(0x01, coils),
        Ok(ResponseView::ReadDiscreteInputs(coils)) => lemma_counted_coils(0x02, coils),
        Ok(ResponseView::ReadHoldingRegisters(words)) => lemma_counted_words(0x03, words),
        Ok(ResponseView::ReadInputRegisters(words)) => lemma_counted_words(0x04, words),
        Ok(ResponseView::ReadWriteMultipleRegisters(words)) => lemma_counted_words(0x17, words),
        Ok(ResponseView::Custom(code, data)) => {
            assert(bytes.skip(1) =~= data);
        },
        Ok(ResponseView::WriteSingleCoil(first, on)) => {
            lemma_two_words(0x05, first, coil_word(on), none);
            assert(bytes + none =~= bytes);
        },
        Ok(ResponseView::WriteSingleRegister(first, second)) => {
            lemma_two_words(0x06, first, second, none);
            assert(bytes + none =~= bytes);
        },
        Ok(ResponseView::WriteMultipleCoils(first, second)) => {
            lemma_two_words(0x0F, first, second, none);
            assert(bytes + none =~= bytes);
        },
        Ok(ResponseView::WriteMultipleRegisters(first, second)) => {
            lemma_two_words(0x10, first, second, none);
            assert(bytes + none =~= bytes);
        },
        Err(_) => {},
    }
}

/// Padding leaves whole bytes of coils alone.
pub proof fn law_whole_bytes_need_no_padding(coils: Seq<bool>)
    requires
        coils.len() % 8 == 0,
    ensures
        padded_coils(coils) == coils,
{
    assert(padded_coils(coils) =~= coils);
}

} // verus!
