//! Responses as bytes: what every call that writes or reads one does.

use crate::buffer::payload;
use crate::error::Error;
use crate::frame::{Exception, ExceptionResponse, Response, ResponsePdu};
use crate::pdu::law_response_round_trip;
use crate::wire::{coils_bytes, lemma_coil_byte_bit, lemma_word_bytes, words_bytes};
use bytes::Bytes;
use vstd::prelude::*;

verus! {

/// A response can be written out if it carries no more than 2040 coils or 127 words, as many as
/// one byte can count the bytes of. An exception can be if the highest bit of its function is
/// free.
pub proof fn law_responses_to_write(pdu: ResponsePdu, fits: bool)
    requires
        call_ensures(ResponsePdu::is_encodable, (&pdu,), fits),
    ensures
        fits == match pdu.0 {
            Ok(Response::ReadCoils(coils)) => coils@.len() <= 2040,
            Ok(Response::ReadDiscreteInputs(coils)) => coils@.len() <= 2040,
            Ok(Response::ReadHoldingRegisters(words)) => words@.len() <= 127,
            Ok(Response::ReadInputRegisters(words)) => words@.len() <= 127,
            Ok(Response::ReadWriteMultipleRegisters(words)) => words@.len() <= 127,
            Ok(_) => true,
            Err(exception) => exception.function < 0x80,
        },
        fits ==> call_requires(ResponsePdu::to_bytes, (&pdu,)),
{
}

/// A response that carries words is the function code, the number of bytes that hold the words,
/// and the words in their order, each with its high byte first.
pub proof fn law_words_response_layout(
    code: u8,
    words: Vec<u16>,
    pdu: ResponsePdu,
    bytes: Vec<u8>,
)
    requires
        words@.len() <= 127,
        pdu.0 == Ok::<Response, ExceptionResponse>(Response::ReadHoldingRegisters(words)) && code
            == 0x03 || pdu.0 == Ok::<Response, ExceptionResponse>(
            Response::ReadInputRegisters(words),
        ) && code == 0x04 || pdu.0 == Ok::<Response, ExceptionResponse>(
            Response::ReadWriteMultipleRegisters(words),
        ) && code == 0x17,
        call_ensures(ResponsePdu::to_bytes, (&pdu,), bytes),
    ensures
        bytes@.len() == 2 + 2 * words@.len(),
        bytes@[0] == code,
        bytes@[1] == 2 * words@.len(),
        forall|i: int|
            0 <= i < words@.len() ==> bytes@[2 + 2 * i] * 256 + bytes@[3 + 2 * i]
                == #[trigger] words@[i],
{
    let data = words_bytes(words@);
    assert(bytes@ == seq![code, (2 * words@.len()) as u8] + data);
    assert forall|i: int| 0 <= i < words@.len() implies bytes@[2 + 2 * i] * 256 + bytes@[3 + 2 * i]
        == #[trigger] words@[i] by {
        lemma_word_bytes(words@, i);
        assert(bytes@[2 + 2 * i] == data[2 * i] && bytes@[3 + 2 * i] == data[2 * i + 1]);
    }
}

/// A response that carries coils is the function code, the number of bytes that hold the coils,
/// and the coils, eight to a byte and the first in the lowest bit. The bits that are left over
/// in the last byte are zero.
pub proof fn law_coils_response_layout(
    code: u8,
    coils: Vec<bool>,
    pdu: ResponsePdu,
    bytes: Vec<u8>,
)
    requires
        coils@.len() <= 2040,
        pdu.0 == Ok::<Response, ExceptionResponse>(Response::ReadCoils(coils)) && code == 0x01
            || pdu.0 == Ok::<Response, ExceptionResponse>(Response::ReadDiscreteInputs(coils))
            && code == 0x02,
        call_ensures(ResponsePdu::to_bytes, (&pdu,), bytes),
    ensures
        bytes@.len() == 2 + (coils@.len() + 7) / 8,
        bytes@[0] == code,
        bytes@[1] == (coils@.len() + 7) / 8,
        forall|k: int, j: u8|
            0 <= k < (coils@.len() + 7) / 8 && j < 8 ==> (#[trigger] (bytes@[2 + k] >> j) & 1 == 1)
                == (8 * k + j < coils@.len() && coils@[8 * k + j]),
{
    let data = coils_bytes(coils@);
    assert(bytes@ == seq![code, ((coils@.len() + 7) / 8) as u8] + data);
    assert forall|k: int, j: u8| 0 <= k < (coils@.len() + 7) / 8 && j < 8 implies (#[trigger] (
    bytes@[2 + k] >> j) & 1 == 1) == (8 * k + j < coils@.len() && coils@[8 * k + j]) by {
        lemma_coil_byte_bit(coils@, k, j);
        assert(bytes@[2 + k] == data[k]);
    }
}

/// The response to a request to write is the function code, the address, and the item that was
/// written or the number of items, high byte first. A coil is `FF 00` if it is on and `00 00`
/// if it is off. A custom response is its function code, then its data.
pub proof fn law_write_response_layout(response: Response, bytes: Vec<u8>)
    requires
        call_ensures(ResponsePdu::to_bytes, (&ResponsePdu(Ok(response)),), bytes),
    ensures
        response matches Response::WriteSingleCoil(address, on) ==> bytes@ == seq![
            0x05u8,
            (address / 256) as u8,
            (address % 256) as u8,
            if on {
                0xFFu8
            } else {
                0x00u8
            },
            0x00u8,
        ],
        response matches Response::WriteSingleRegister(address, word) ==> bytes@ == seq![
            0x06u8,
            (address / 256) as u8,
            (address % 256) as u8,
            (word / 256) as u8,
            (word % 256) as u8,
        ],
        response matches Response::WriteMultipleCoils(address, quantity) ==> bytes@ == seq![
            0x0Fu8,
            (address / 256) as u8,
            (address % 256) as u8,
            (quantity / 256) as u8,
            (quantity % 256) as u8,
        ],
        response matches Response::WriteMultipleRegisters(address, quantity) ==> bytes@ == seq![
            0x10u8,
            (address / 256) as u8,
            (address % 256) as u8,
            (quantity / 256) as u8,
            (quantity % 256) as u8,
        ],
        response matches Response::Custom(code, data) ==> bytes@ == seq![code] + data@,
{
}

/// An exception is two bytes: its function, with the highest bit set, and its code.
pub proof fn law_exception_layout(exception: ExceptionResponse, code: u8, bytes: Vec<u8>)
    requires
        exception.function < 0x80,
        call_ensures(Exception::code, (exception.exception,), code),
        call_ensures(ResponsePdu::to_bytes, (&ResponsePdu(Err(exception)),), bytes),
    ensures
        bytes@ == seq![(exception.function + 0x80) as u8, code],
{
}

/// Words that were read stand in the bytes that they were read from, behind the function code
/// and the byte count, in their order and each with its high byte first. There are as many as
/// the byte count has room for.
pub proof fn law_words_response_fields(
    bytes: Bytes,
    code: u8,
    words: Vec<u16>,
    pdu: ResponsePdu,
)
    requires
        pdu.0 == Ok::<Response, ExceptionResponse>(Response::ReadHoldingRegisters(words)) && code
            == 0x03 || pdu.0 == Ok::<Response, ExceptionResponse>(
            Response::ReadInputRegisters(words),
        ) && code == 0x04 || pdu.0 == Ok::<Response, ExceptionResponse>(
            Response::ReadWriteMultipleRegisters(words),
        ) && code == 0x17,
        call_ensures(ResponsePdu::try_from, (bytes,), Ok::<ResponsePdu, Error>(pdu)),
    ensures
        ({
            let b = payload(bytes);
            &&& b.len() >= 2 + 2 * words@.len()
            &&& b[0] == code
            &&& b[1] / 2 == words@.len()
            &&& forall|i: int|
                0 <= i < words@.len() ==> #[trigger] words@[i] == b[2 + 2 * i] * 256 + b[3 + 2 * i]
        }),
{
}

/// Coils that were read stand in the bytes that they were read from, behind the function code
/// and the byte count, eight to a byte and the first in the lowest bit. There are eight for each
/// byte that was counted.
pub proof fn law_coils_response_fields(
    bytes: Bytes,
    code: u8,
    coils: Vec<bool>,
    pdu: ResponsePdu,
)
    requires
        pdu.0 == Ok::<Response, ExceptionResponse>(Response::ReadCoils(coils)) && code == 0x01
            || pdu.0 == Ok::<Response, ExceptionResponse>(Response::ReadDiscreteInputs(coils))
            && code == 0x02,
        call_ensures(ResponsePdu::try_from, (bytes,), Ok::<ResponsePdu, Error>(pdu)),
    ensures
        ({
            let b = payload(bytes);
            &&& b.len() >= 2 + b[1]
            &&& b[0] == code
            &&& 8 * b[1] == coils@.len()
            &&& forall|k: int, j: u8|
                0 <= k < b[1] && j < 8 ==> coils@[8 * k + j] == (#[trigger] (b[2 + k] >> j) & 1
                    == 1)
        }),
{
    let b = payload(bytes);
    assert forall|k: int, j: u8| 0 <= k < b[1] && j < 8 implies coils@[8 * k + j] == (#[trigger] (
    b[2 + k] >> j) & 1 == 1) by {
        assert((8 * k + j) / 8 == k && (8 * k + j) % 8 == j as int);
    }
}

/// The fields of any other response that was read stand in the bytes that it was read from,
/// behind the function code, high byte first. Only data of a custom response goes on to the
/// last byte. The function of an exception is the first byte without its highest bit, and the
/// second byte is its code.
pub proof fn law_response_fields(bytes: Bytes, pdu: ResponsePdu, code: u8)
    requires
        call_ensures(ResponsePdu::try_from, (bytes,), Ok::<ResponsePdu, Error>(pdu)),
        pdu.0 matches Err(exception) ==> call_ensures(
            Exception::code,
            (exception.exception,),
            code,
        ),
    ensures
        ({
            let b = payload(bytes);
            let first = b[1] * 256 + b[2];
            let second = b[3] * 256 + b[4];
            match pdu.0 {
                Ok(Response::WriteSingleCoil(address, on)) => b.len() >= 5 && b[0] == 0x05
                    && address == first && b[3] == (if on {
                    0xFFu8
                } else {
                    0x00u8
                }) && b[4] == 0,
                Ok(Response::WriteSingleRegister(address, word)) => b.len() >= 5 && b[0] == 0x06
                    && address == first && word == second,
                Ok(Response::WriteMultipleCoils(address, quantity)) => b.len() >= 5 && b[0] == 0x0F
                    && address == first && quantity == second,
                Ok(Response::WriteMultipleRegisters(address, quantity)) => b.len() >= 5 && b[0]
                    == 0x10 && address == first && quantity == second,
                Ok(Response::Custom(code, data)) => {
                    &&& b == seq![code] + data@
                    &&& code < 0x80
                    &&& !(0x01 <= code <= 0x06 || code == 0x0F || code == 0x10 || code == 0x17)
                },
                Ok(_) => true,
                Err(exception) => b.len() >= 2 && b[0] == exception.function + 0x80 && b[1] == code,
            }
        }),
{
    if let Ok(Response::Custom(code, data)) = pdu.0 {
        assert(payload(bytes) =~= seq![code] + data@);
    }
}

/// Every sequence of bytes gives a response, an exception or one error. The code of an exception
/// is an assigned one, a coil is on or off, and bytes that are missing are the end of the data.
pub proof fn law_responses_to_read(bytes: Bytes, pdu: Result<ResponsePdu, Error>)
    requires
        call_ensures(ResponsePdu::try_from, (bytes,), pdu),
    ensures
        ({
            let b = payload(bytes);
            let n = b.len();
            match pdu {
                Ok(_) => n > 0,
                Err(Error::InvalidExceptionCode(code)) => n >= 2 && b[0] >= 0x80 && code == b[1]
                    && !(0x01 <= code <= 0x06 || code == 0x08 || code == 0x0A || code == 0x0B),
                Err(Error::InvalidCoilValue(value)) => n >= 5 && b[0] == 0x05 && value == b[3] * 256
                    + b[4] && value != 0xFF00 && value != 0x0000,
                Err(Error::UnexpectedEof) => {
                    ||| n == 0
                    ||| b[0] >= 0x80 && n < 2
                    ||| (b[0] == 0x01 || b[0] == 0x02) && (n < 2 || n < 2 + b[1])
                    ||| (b[0] == 0x03 || b[0] == 0x04 || b[0] == 0x17) && (n < 2 || n < 2 + 2 * (
                    b[1] / 2))
                    ||| (b[0] == 0x05 || b[0] == 0x06 || b[0] == 0x0F || b[0] == 0x10) && n < 5
                },
                Err(_) => false,
            }
        }),
{
}

/// A response that is written out and read back is the same response, field by field, but for
/// coils: these are followed by coils that are off, up to a multiple of eight.
pub proof fn law_response_is_kept(
    pdu: ResponsePdu,
    written: Vec<u8>,
    bytes: Bytes,
    read: Result<ResponsePdu, Error>,
)
    requires
        call_ensures(ResponsePdu::is_encodable, (&pdu,), true),
        pdu.0 matches Ok(Response::Custom(code, _)) ==> code < 0x80 && !(0x01 <= code <= 0x06
            || code == 0x0F || code == 0x10 || code == 0x17),
        call_ensures(ResponsePdu::to_bytes, (&pdu,), written),
        payload(bytes) == written@,
        call_ensures(ResponsePdu::try_from, (bytes,), read),
    ensures
        read matches Ok(read) && match (pdu.0, read.0) {
            (Ok(Response::ReadCoils(coils)), Ok(Response::ReadCoils(c))) => {
                &&& c@.len() == 8 * ((coils@.len() + 7) / 8)
                &&& forall|i: int|
                    0 <= i < c@.len() ==> #[trigger] c@[i] == (i < coils@.len() && coils@[i])
            },
            (Ok(Response::ReadDiscreteInputs(coils)), Ok(Response::ReadDiscreteInputs(c))) => {
                &&& c@.len() == 8 * ((coils@.len() + 7) / 8)
                &&& forall|i: int|
                    0 <= i < c@.len() ==> #[trigger] c@[i] == (i < coils@.len() && coils@[i])
            },
            (Ok(Response::ReadHoldingRegisters(words)), Ok(Response::ReadHoldingRegisters(w))) => w@
                == words@,
            (Ok(Response::ReadInputRegisters(words)), Ok(Response::ReadInputRegisters(w))) => w@
                == words@,
            (
                Ok(Response::ReadWriteMultipleRegisters(words)),
                Ok(Response::ReadWriteMultipleRegisters(w)),
            ) => w@ == words@,
            (Ok(Response::Custom(code, data)), Ok(Response::Custom(c, d))) => c == code && d@
                == data@,
            (sent, received) => received == sent,
        },
{
    law_response_round_trip(pdu@);
}

} // verus!
