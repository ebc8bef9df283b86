//! Requests as bytes: what every call that writes or reads one does.

use crate::buffer::payload;
use crate::error::Error;
use crate::frame::{Request, RequestPdu};
use crate::pdu::{law_request_round_trip, two_words};
use crate::wire::{coils_bytes, lemma_coil_byte_bit, lemma_word_bytes, u16_bytes, words_bytes};
use bytes::Bytes;
use vstd::prelude::*;

verus! {

/// A request can be written out if it carries no more than 2040 coils or 127 words, as many as
/// one byte can count the bytes of.
pub proof fn law_requests_to_write(pdu: RequestPdu, fits: bool)
    requires
        call_ensures(RequestPdu::is_encodable, (&pdu,), fits),
    ensures
        fits == match pdu.0 {
            Request::WriteMultipleCoils(_, coils) => coils@.len() <= 2040,
            Request::WriteMultipleRegisters(_, words) => words@.len() <= 127,
            Request::ReadWriteMultipleRegisters(_, _, _, words) => words@.len() <= 127,
            _ => true,
        },
        fits ==> call_requires(RequestPdu::to_bytes, (&pdu,)),
{
}

/// A request for data is the function code, then the address and the quantity, high byte first.
pub proof fn law_read_request_layout(pdu: RequestPdu, bytes: Vec<u8>)
    requires
        call_ensures(RequestPdu::to_bytes, (&pdu,), bytes),
    ensures
        pdu.0 matches Request::ReadCoils(address, quantity) ==> bytes@ == seq![
            0x01u8,
            (address / 256) as u8,
            (address % 256) as u8,
            (quantity / 256) as u8,
            (quantity % 256) as u8,
        ],
        pdu.0 matches Request::ReadDiscreteInputs(address, quantity) ==> bytes@ == seq![
            0x02u8,
            (address / 256) as u8,
            (address % 256) as u8,
            (quantity / 256) as u8,
            (quantity % 256) as u8,
        ],
        pdu.0 matches Request::ReadHoldingRegisters(address, quantity) ==> bytes@ == seq![
            0x03u8,
            (address / 256) as u8,
            (address % 256) as u8,
            (quantity / 256) as u8,
            (quantity % 256) as u8,
        ],
        pdu.0 matches Request::ReadInputRegisters(address, quantity) ==> bytes@ == seq![
            0x04u8,
            (address / 256) as u8,
            (address % 256) as u8,
            (quantity / 256) as u8,
            (quantity % 256) as u8,
        ],
{
}

/// A request to write one item is the function code, then the address and the item, high byte
/// first. A coil is `FF 00` if it is on and `00 00` if it is off. A custom request is its
/// function code, then its data.
pub proof fn law_single_write_request_layout(pdu: RequestPdu, bytes: Vec<u8>)
    requires
        call_ensures(RequestPdu::to_bytes, (&pdu,), bytes),
    ensures
        pdu.0 matches Request::WriteSingleCoil(address, on) ==> bytes@ == seq![
            0x05u8,
            (address / 256) as u8,
            (address % 256) as u8,
            if on {
                0xFFu8
            } else {
                0x00u8
            },
            0x00u8,
        ],
        pdu.0 matches Request::WriteSingleRegister(address, word) ==> bytes@ == seq![
            0x06u8,
            (address / 256) as u8,
            (address % 256) as u8,
            (word / 256) as u8,
            (word % 256) as u8,
        ],
        pdu.0 matches Request::Custom(code, data) ==> bytes@ == seq![code] + data@,
{
}

/// The head of a message with a byte count, and the place of the bytes that are counted.
proof fn lemma_head(code: u8, address: u16, n: nat, count: u8, data: Seq<u8>)
    requires
        n <= 0xFFFF,
    ensures
        ({
            let bytes = two_words(code, address, n as u16) + seq![count] + data;
            &&& bytes.len() == 6 + data.len()
            &&& bytes.take(6) == seq![
                code,
                (address / 256) as u8,
                (address % 256) as u8,
                (n / 256) as u8,
                (n % 256) as u8,
                count,
            ]
            &&& forall|i: int| 0 <= i < data.len() ==> bytes[6 + i] == #[trigger] data[i]
        }),
{
    let bytes = two_words(code, address, n as u16) + seq![count] + data;
    assert(bytes.take(6) =~= two_words(code, address, n as u16) + seq![count]);
}

/// A request to write coils is the function code, the address, the number of coils, the number
/// of bytes that hold them, and the coils, eight to a byte and the first in the lowest bit.
pub proof fn law_coils_request_layout(address: u16, coils: Vec<bool>, bytes: Vec<u8>)
    requires
        coils@.len() <= 2040,
        call_ensures(
            RequestPdu::to_bytes,
            (&RequestPdu(Request::WriteMultipleCoils(address, coils)),),
            bytes,
        ),
    ensures
        bytes@.len() == 6 + (coils@.len() + 7) / 8,
        bytes@.take(6) == seq![
            0x0Fu8,
            (address / 256) as u8,
            (address % 256) as u8,
            (coils@.len() / 256) as u8,
            (coils@.len() % 256) as u8,
            ((coils@.len() + 7) / 8) as u8,
        ],
        forall|k: int, j: u8|
            0 <= k < (coils@.len() + 7) / 8 && j < 8 ==> (#[trigger] (bytes@[6 + k] >> j) & 1 == 1)
                == (8 * k + j < coils@.len() && coils@[8 * k + j]),
{
    let n = coils@.len();
    let data = coils_bytes(coils@);
    lemma_head(0x0F, address, n, ((n + 7) / 8) as u8, data);
    assert forall|k: int, j: u8| 0 <= k < (n + 7) / 8 && j < 8 implies (#[trigger] (bytes@[6 + k]
        >> j) & 1 == 1) == (8 * k + j < n && coils@[8 * k + j]) by {
        lemma_coil_byte_bit(coils@, k, j);
        assert(bytes@[6 + k] == data[k]);
    }
}

/// A request to write words is the function code, the address, the number of words, the number
/// of bytes that hold them, and the words in their order, each with its high byte first.
pub proof fn law_words_request_layout(address: u16, words: Vec<u16>, bytes: Vec<u8>)
    requires
        words@.len() <= 127,
        call_ensures(
            RequestPdu::to_bytes,
            (&RequestPdu(Request::WriteMultipleRegisters(address, words)),),
            bytes,
        ),
    ensures
        bytes@.len() == 6 + 2 * words@.len(),
        bytes@.take(6) == seq![
            0x10u8,
            (address / 256) as u8,
            (address % 256) as u8,
            0x00u8,
            words@.len() as u8,
            (2 * words@.len()) as u8,
        ],
        forall|i: int|
            0 <= i < words@.len() ==> bytes@[6 + 2 * i] * 256 + bytes@[7 + 2 * i]
                == #[trigger] words@[i],
{
    let n = words@.len();
    let data = words_bytes(words@);
    lemma_head(0x10, address, n, (2 * n) as u8, data);
    assert(n / 256 == 0 && n % 256 == n);
    assert forall|i: int| 0 <= i < n implies bytes@[6 + 2 * i] * 256 + bytes@[7 + 2 * i]
        == #[trigger] words@[i] by {
        lemma_word_bytes(words@, i);
        assert(bytes@[6 + 2 * i] == data[2 * i] && bytes@[7 + 2 * i] == data[2 * i + 1]);
    }
}

/// A request to read and write words is the function code, the address and the quantity to
/// read, the address to write to, the number of words to write, the number of bytes that hold
/// them, and the words in their order, each with its high byte first.
pub proof fn law_read_write_request_layout(
    from: u16,
    quantity: u16,
    to: u16,
    words: Vec<u16>,
    bytes: Vec<u8>,
)
    requires
        words@.len() <= 127,
        call_ensures(
            RequestPdu::to_bytes,
            (&RequestPdu(Request::ReadWriteMultipleRegisters(from, quantity, to, words)),),
            bytes,
        ),
    ensures
        bytes@.len() == 10 + 2 * words@.len(),
        bytes@.take(10) == seq![
            0x17u8,
            (from / 256) as u8,
            (from % 256) as u8,
            (quantity / 256) as u8,
            (quantity % 256) as u8,
            (to / 256) as u8,
            (to % 256) as u8,
            0x00u8,
            words@.len() as u8,
            (2 * words@.len()) as u8,
        ],
        forall|i: int|
            0 <= i < words@.len() ==> bytes@[10 + 2 * i] * 256 + bytes@[11 + 2 * i]
                == #[trigger] words@[i],
{
    let n = words@.len();
    let front = two_words(0x17, from, quantity) + u16_bytes(to) + u16_bytes(n as u16) + seq![
        (2 * n) as u8,
    ];
    let data = words_bytes(words@);
    assert(bytes@ == front + data);
    assert(bytes@.take(10) =~= front);
    assert(n / 256 == 0 && n % 256 == n);
    assert forall|i: int| 0 <= i < n implies bytes@[10 + 2 * i] * 256 + bytes@[11 + 2 * i]
        == #[trigger] words@[i] by {
        lemma_word_bytes(words@, i);
        assert(bytes@[10 + 2 * i] == data[2 * i] && bytes@[11 + 2 * i] == data[2 * i + 1]);
    }
}

/// A request that was read stands in the bytes that it was read from: its function code in the
/// first, then its fields, high byte first. Coils come from the lowest bit up. Only the data of
/// a custom request goes on to the last byte.
pub proof fn law_request_fields(bytes: Bytes, pdu: RequestPdu)
    requires
        call_ensures(RequestPdu::try_from, (bytes,), Ok::<RequestPdu, Error>(pdu)),
    ensures
        ({
            let b = payload(bytes);
            let first = b[1] * 256 + b[2];
            let second = b[3] * 256 + b[4];
            match pdu.0 {
                Request::ReadCoils(address, quantity) => b.len() >= 5 && b[0] == 0x01 && address
                    == first && quantity == second,
                Request::ReadDiscreteInputs(address, quantity) => b.len() >= 5 && b[0] == 0x02
                    && address == first && quantity == second,
                Request::ReadHoldingRegisters(address, quantity) => b.len() >= 5 && b[0] == 0x03
                    && address == first && quantity == second,
                Request::ReadInputRegisters(address, quantity) => b.len() >= 5 && b[0] == 0x04
                    && address == first && quantity == second,
                Request::WriteSingleCoil(address, on) => b.len() >= 5 && b[0] == 0x05 && address
                    == first && b[3] == (if on {
                    0xFFu8
                } else {
                    0x00u8
                }) && b[4] == 0,
                Request::WriteSingleRegister(address, word) => b.len() >= 5 && b[0] == 0x06
                    && address == first && word == second,
                Request::WriteMultipleCoils(address, coils) => {
                    &&& b[0] == 0x0F
                    &&& address == first
                    &&& coils@.len() == second
                    &&& b.len() >= 6 + (coils@.len() + 7) / 8
                    &&& forall|k: int, j: u8|
                        0 <= k && j < 8 && 8 * k + j < coils@.len() ==> coils@[8 * k + j] == (
                        #[trigger] (b[6 + k] >> j) & 1 == 1)
                },
                Request::WriteMultipleRegisters(address, words) => {
                    &&& b[0] == 0x10
                    &&& address == first
                    &&& words@.len() == second
                    &&& b.len() >= 6 + 2 * words@.len()
                    &&& forall|i: int|
                        0 <= i < words@.len() ==> #[trigger] words@[i] == b[6 + 2 * i] * 256 + b[7
                            + 2 * i]
                },
                Request::ReadWriteMultipleRegisters(from, quantity, to, words) => {
                    &&& b[0] == 0x17
                    &&& from == first
                    &&& quantity == second
                    &&& to == b[5] * 256 + b[6]
                    &&& words@.len() == b[7] * 256 + b[8]
                    &&& b.len() >= 10 + 2 * words@.len()
                    &&& forall|i: int|
                        0 <= i < words@.len() ==> #[trigger] words@[i] == b[10 + 2 * i] * 256 + b[11
                            + 2 * i]
                },
                Request::Custom(code, data) => {
                    &&& b == seq![code] + data@
                    &&& !(0x01 <= code <= 0x06 || code == 0x0F || code == 0x10 || code == 0x17)
                },
            }
        }),
{
    let b = payload(bytes);
    match pdu.0 {
        Request::WriteMultipleCoils(address, coils) => {
            assert forall|k: int, j: u8|
                0 <= k && j < 8 && 8 * k + j < coils@.len() implies coils@[8 * k + j] == (
            #[trigger] (b[6 + k] >> j) & 1 == 1) by {
                assert((8 * k + j) / 8 == k && (8 * k + j) % 8 == j as int);
            }
        },
        Request::Custom(code, data) => {
            assert(b =~= seq![code] + data@);
        },
        _ => {},
    }
}

/// Every sequence of bytes gives a request or one error. A code from `0x80` up is that of no
/// request, a coil is on or off, a byte count must not announce more bytes than there are, and
/// other bytes that are missing are the end of the data.
pub proof fn law_requests_to_read(bytes: Bytes, pdu: Result<RequestPdu, Error>)
    requires
        call_ensures(RequestPdu::try_from, (bytes,), pdu),
    ensures
        ({
            let b = payload(bytes);
            let n = b.len();
            let word = b[3] * 256 + b[4];
            match pdu {
                Ok(_) => {
                    &&& n > 0 && b[0] < 0x80
                    &&& b[0] == 0x0F || b[0] == 0x10 ==> n >= 6 + b[5]
                    &&& b[0] == 0x17 ==> n >= 10 + b[9]
                },
                Err(Error::InvalidFunctionCode(code)) => n > 0 && b[0] >= 0x80 && code == b[0],
                Err(Error::InvalidCoilValue(value)) => n >= 5 && b[0] == 0x05 && value == word
                    && value != 0xFF00 && value != 0x0000,
                Err(Error::TooShort) => {
                    ||| (b[0] == 0x0F || b[0] == 0x10) && 6 <= n < 6 + b[5]
                    ||| b[0] == 0x17 && 10 <= n < 10 + b[9]
                },
                Err(Error::UnexpectedEof) => {
                    ||| n == 0
                    ||| 0x01 <= b[0] <= 0x06 && n < 5
                    ||| (b[0] == 0x0F || b[0] == 0x10) && n < 6
                    ||| b[0] == 0x0F && 6 + b[5] <= n < 6 + (word + 7) / 8
                    ||| b[0] == 0x10 && 6 + b[5] <= n < 6 + 2 * word
                    ||| b[0] == 0x17 && n < 10
                    ||| b[0] == 0x17 && 10 + b[9] <= n < 10 + 2 * (b[7] * 256 + b[8])
                },
                Err(_) => false,
            }
        }),
{
}

/// A request that is written out and read back is the same request, field by field.
pub proof fn law_request_is_kept(
    pdu: RequestPdu,
    written: Vec<u8>,
    bytes: Bytes,
    read: Result<RequestPdu, Error>,
)
    requires
        call_ensures(RequestPdu::is_encodable, (&pdu,), true),
        pdu.0 matches Request::Custom(code, _) ==> code < 0x80 && !(0x01 <= code <= 0x06 || code
            == 0x0F || code == 0x10 || code == 0x17),
        call_ensures(RequestPdu::to_bytes, (&pdu,), written),
        payload(bytes) == written@,
        call_ensures(RequestPdu::try_from, (bytes,), read),
    ensures
        read matches Ok(read) && match (pdu.0, read.0) {
            (Request::WriteMultipleCoils(to, coils), Request::WriteMultipleCoils(t, c)) => t == to
                && c@ == coils@,
            (Request::WriteMultipleRegisters(to, words), Request::WriteMultipleRegisters(t, w)) => t
                == to && w@ == words@,
            (
                Request::ReadWriteMultipleRegisters(from, quantity, to, words),
                Request::ReadWriteMultipleRegisters(f, q, t, w),
            ) => f == from && q == quantity && t == to && w@ == words@,
            (Request::Custom(code, data), Request::Custom(c, d)) => c == code && d@ == data@,
            (sent, received) => received == sent,
        },
{
    law_request_round_trip(pdu@);
}

} // verus!
