//! Finding the next RTU frame in a stream of bytes.
//!
//! A frame is one byte of slave address, a PDU and two bytes of checksum. It carries no
//! length: how long its PDU is follows from the function code, which is the second byte.
//! Bytes that cannot be the start of a frame are skipped.
//!
//! The search itself and the checksum are those of the `modbus-core` crate. This module says
//! what the library relies on of them, and what follows from it.

use crate::buffer::{buffer_slice, buffered};
use crate::frame::SlaveId;
use crate::wire::{u16_at, u16_bytes};
use bytes::BytesMut;
use vstd::prelude::*;

verus! {

/// The direction of the messages that are looked for.
#[derive(Debug, Clone, Copy, PartialEq, Eq, Structural)]
pub enum DecoderType {
    /// From client to server.
    Request,
    /// From server to client.
    Response,
}

/// A frame and its place in the bytes that were searched.
#[derive(Debug, Clone, PartialEq, Eq)]
pub struct FoundFrame {
    /// The address in the frame.
    pub slave: SlaveId,
    /// The PDU in the frame.
    pub pdu: Vec<u8>,
    /// The index at which the frame starts.
    pub start: usize,
    /// The number of bytes of the frame.
    pub size: usize,
}

/// The model of a [`FoundFrame`].
pub struct FoundFrameView {
    pub slave: u8,
    pub pdu: Seq<u8>,
    pub start: nat,
    pub size: nat,
}

impl View for FoundFrame {
    type V = FoundFrameView;

    open spec fn view(&self) -> FoundFrameView {
        FoundFrameView {
            slave: self.slave,
            pdu: self.pdu@,
            start: self.start as nat,
            size: self.size as nat,
        }
    }
}

/// What a search comes to: a frame, nothing yet, or the reason for giving up.
pub type Found = Result<Option<FoundFrameView>, Seq<char>>;

/// The model of the outcome of a search.
pub open spec fn found_view(found: Result<Option<FoundFrame>, String>) -> Found {
    match found {
        Ok(Some(frame)) => Ok(Some(frame@)),
        Ok(None) => Ok(None),
        Err(text) => Err(text@),
    }
}

/// How many offsets are tried before the search gives up.
pub const MAX_FRAME_LEN: usize = 256;

/// One step of the division by the generator polynomial, least significant bit first.
pub open spec fn crc_bit(crc: u16) -> u16 {
    if crc & 1 != 0 {
        (crc >> 1) ^ 0xA001
    } else {
        crc >> 1
    }
}

/// The remainder after one more byte.
pub open spec fn crc_byte(crc: u16, byte: u8) -> u16 {
    let mixed = crc ^ (byte as u16);
    crc_bit(crc_bit(crc_bit(crc_bit(crc_bit(crc_bit(crc_bit(crc_bit(mixed))))))))
}

/// The remainder after all bytes of a sequence.
pub open spec fn crc_of(data: Seq<u8>) -> u16
    decreases data.len(),
{
    if data.len() == 0 {
        0xFFFF
    } else {
        crc_byte(crc_of(data.drop_last()), data.last())
    }
}

/// The checksum of a sequence of bytes. Its bytes are swapped, for the low one is transmitted
/// first.
pub open spec fn checksum(data: Seq<u8>) -> u16 {
    (crc_of(data) << 8) | (crc_of(data) >> 8)
}

/// `modbus_core::rtu::crc16` computes the checksum of a slice: the CRC with the polynomial
/// `0x8005`, reflected, from the initial value `0xFFFF`, with its two bytes swapped.
pub assume_specification[ modbus_core::rtu::crc16 ](data: &[u8]) -> (crc: u16)
    ensures
        crc == checksum(data@),
;

/// What is known of the length of the PDU of a frame of which the first bytes are there.
pub enum PduLen {
    /// No frame has this function code.
    Invalid,
    /// The bytes that tell the length are still missing.
    Incomplete,
    /// The PDU has this many bytes.
    Known(nat),
}

/// The PDU length of the request that `adu` starts with.
pub open spec fn request_pdu_len(adu: Seq<u8>) -> PduLen {
    if adu.len() < 2 {
        PduLen::Incomplete
    } else if 0x01 <= adu[1] <= 0x06 {
        PduLen::Known(5)
    } else if adu[1] == 0x07 || adu[1] == 0x0B || adu[1] == 0x0C || adu[1] == 0x11 {
        PduLen::Known(1)
    } else if adu[1] == 0x0F || adu[1] == 0x10 {
        if adu.len() > 4 {
            PduLen::Known((6 + adu[4]) as nat)
        } else {
            PduLen::Incomplete
        }
    } else if adu[1] == 0x16 {
        PduLen::Known(7)
    } else if adu[1] == 0x17 {
        if adu.len() > 10 {
            PduLen::Known((10 + adu[10]) as nat)
        } else {
            PduLen::Incomplete
        }
    } else if adu[1] == 0x18 {
        PduLen::Known(3)
    } else {
        PduLen::Invalid
    }
}

/// The PDU length of the response that `adu` starts with.
pub open spec fn response_pdu_len(adu: Seq<u8>) -> PduLen {
    if adu.len() < 2 {
        PduLen::Incomplete
    } else if 0x01 <= adu[1] <= 0x04 || adu[1] == 0x0C || adu[1] == 0x17 {
        if adu.len() > 2 {
            PduLen::Known((2 + adu[2]) as nat)
        } else {
            PduLen::Incomplete
        }
    } else if adu[1] == 0x05 || adu[1] == 0x06 || adu[1] == 0x0B || adu[1] == 0x0F || adu[1]
        == 0x10 {
        PduLen::Known(5)
    } else if adu[1] == 0x07 || 0x81 <= adu[1] <= 0xAB {
        PduLen::Known(2)
    } else if adu[1] == 0x16 {
        PduLen::Known(7)
    } else if adu[1] == 0x18 {
        if adu.len() > 3 {
            PduLen::Known((3 + u16_at(adu, 2)) as nat)
        } else {
            PduLen::Incomplete
        }
    } else {
        PduLen::Invalid
    }
}

/// The PDU length of the message that `adu` starts with.
pub open spec fn pdu_len(kind: DecoderType, adu: Seq<u8>) -> PduLen {
    match kind {
        DecoderType::Request => request_pdu_len(adu),
        DecoderType::Response => response_pdu_len(adu),
    }
}

/// What a sequence of bytes starts with.
pub enum Candidate {
    /// With something that is no frame, whatever follows.
    Invalid,
    /// With what may become a frame once more bytes have arrived.
    Incomplete,
    /// With a frame whose PDU has this many bytes.
    Frame(nat),
}

/// What `bytes` starts with: the function code gives the length, and the two bytes after the
/// PDU must be the checksum of all bytes before them.
pub open spec fn candidate(kind: DecoderType, bytes: Seq<u8>) -> Candidate {
    match pdu_len(kind, bytes) {
        PduLen::Invalid => Candidate::Invalid,
        PduLen::Incomplete => Candidate::Incomplete,
        PduLen::Known(n) => if bytes.len() < n + 3 {
            Candidate::Incomplete
        } else if u16_at(bytes, n as int + 1) == checksum(bytes.take(n as int + 1)) {
            Candidate::Frame(n)
        } else {
            Candidate::Invalid
        },
    }
}

/// No frame starts at any of the first `k` offsets.
pub open spec fn skipped(kind: DecoderType, bytes: Seq<u8>, k: nat) -> bool {
    &&& k <= bytes.len()
    &&& forall|j: int| 0 <= j < k ==> candidate(kind, #[trigger] bytes.skip(j)) is Invalid
}

/// The frame with a PDU of `n` bytes that starts at offset `k`.
pub open spec fn frame_at(bytes: Seq<u8>, k: nat, n: nat) -> FoundFrameView {
    FoundFrameView {
        slave: bytes[k as int],
        pdu: bytes.subrange(k as int + 1, (k + 1 + n) as int),
        start: k,
        size: n + 3,
    }
}

/// `found` is the outcome of a search that tries one offset after the other, skips those at
/// which no frame starts, stops at the first other one, and gives up after
/// [`MAX_FRAME_LEN`] offsets.
pub open spec fn finds(kind: DecoderType, bytes: Seq<u8>, found: Found) -> bool {
    match found {
        Ok(Some(frame)) => {
            &&& frame.start < MAX_FRAME_LEN
            &&& skipped(kind, bytes, frame.start)
            &&& candidate(kind, bytes.skip(frame.start as int)) == Candidate::Frame(frame.pdu.len())
            &&& frame == frame_at(bytes, frame.start, frame.pdu.len())
        },
        Ok(None) => exists|k: nat|
            #![trigger skipped(kind, bytes, k)]
            {
                &&& k < MAX_FRAME_LEN
                &&& skipped(kind, bytes, k)
                &&& candidate(kind, bytes.skip(k as int)) is Incomplete
            },
        Err(_) => skipped(kind, bytes, MAX_FRAME_LEN as nat),
    }
}

/// The outcome of `modbus_core::rtu::decode` for each direction and each sequence of bytes;
/// an error is given by its text.
pub uninterp spec fn rtu_decoded(kind: DecoderType, bytes: Seq<u8>) -> Found;

/// `modbus_core::rtu::decode` searches a slice for the first frame. Its outcome depends on the
/// arguments alone, is an error for the empty slice, and is that of [`finds`] for any other
/// one. What the texts of its errors are is not said here.
#[verifier::external_body]
fn rtu_decode(kind: DecoderType, buf: &[u8]) -> (found: Result<Option<FoundFrame>, String>)
    ensures
        found_view(found) == rtu_decoded(kind, buf@),
        buf@.len() == 0 ==> found is Err,
        buf@.len() > 0 ==> finds(kind, buf@, found_view(found)),
{
    let decoder_type = match kind {
        DecoderType::Request => modbus_core::DecoderType::Request,
        DecoderType::Response => modbus_core::DecoderType::Response,
    };
    match modbus_core::rtu::decode(decoder_type, buf) {
        Ok(Some((frame, location))) => {
            let (start, size) = (location.start, location.size);
            Ok(Some(FoundFrame { slave: frame.slave, pdu: frame.pdu.to_vec(), start, size }))
        },
        Ok(None) => Ok(None),
        Err(err) => Err(format!("{}", err)),
    }
}

/// The outcome of a search: where there are no bytes, there is no frame yet.
pub open spec fn scanned(kind: DecoderType, bytes: Seq<u8>) -> Found {
    if bytes.len() == 0 {
        Ok(None)
    } else {
        rtu_decoded(kind, bytes)
    }
}

/// Searches a buffer for the first frame. The buffer may be empty.
pub fn scan(kind: DecoderType, buf: &BytesMut) -> (found: Result<Option<FoundFrame>, String>)
    ensures
        found_view(found) == scanned(kind, buffered(*buf)),
        finds(kind, buffered(*buf), scanned(kind, buffered(*buf))),
{
    let bytes = buffer_slice(buf);
    if bytes.len() == 0 {
        assert(skipped(kind, bytes@, 0));
        return Ok(None);
    }
    rtu_decode(kind, bytes)
}

/// The bytes of a frame: address, PDU and the checksum of both.
pub open spec fn adu_bytes(slave: u8, pdu: Seq<u8>) -> Seq<u8> {
    (seq![slave] + pdu) + u16_bytes(checksum(seq![slave] + pdu))
}

/// A PDU whose frame can be recognised: its function code calls for the length that it has.
pub open spec fn recognisable(kind: DecoderType, slave: u8, pdu: Seq<u8>) -> bool {
    pdu_len(kind, adu_bytes(slave, pdu)) == PduLen::Known(pdu.len())
}

/// Once the first bytes have been judged, more bytes behind them change nothing.
pub proof fn lemma_candidate_stays(kind: DecoderType, bytes: Seq<u8>, more: Seq<u8>)
    requires
        candidate(kind, bytes) !is Incomplete,
    ensures
        candidate(kind, bytes + more) == candidate(kind, bytes),
{
    if let PduLen::Known(n) = pdu_len(kind, bytes) {
        assert((bytes + more).take(n as int + 1) =~= bytes.take(n as int + 1));
    }
}

/// The offsets that were skipped are skipped again when more bytes have arrived.
pub proof fn lemma_skipped_stays(kind: DecoderType, bytes: Seq<u8>, more: Seq<u8>, k: nat)
    requires
        skipped(kind, bytes, k),
    ensures
        skipped(kind, bytes + more, k),
{
    assert forall|j: int| 0 <= j < k implies candidate(
        kind,
        #[trigger] (bytes + more).skip(j),
    ) is Invalid by {
        assert((bytes + more).skip(j) =~= bytes.skip(j) + more);
        lemma_candidate_stays(kind, bytes.skip(j), more);
    }
}

/// A search has one outcome, but for the text of an error.
pub proof fn law_search_is_determined(kind: DecoderType, bytes: Seq<u8>, a: Found, b: Found)
    requires
        finds(kind, bytes, a),
        finds(kind, bytes, b),
    ensures
        a is Err <==> b is Err,
        a is Ok ==> a == b,
{
    let ka = stop(kind, bytes, a);
    let kb = stop(kind, bytes, b);
    if ka < kb {
        assert(candidate(kind, bytes.skip(ka as int)) is Invalid);
    }
    if kb < ka {
        assert(candidate(kind, bytes.skip(kb as int)) is Invalid);
    }
}

/// The offset at which the search ends.
spec fn stop(kind: DecoderType, bytes: Seq<u8>, found: Found) -> nat {
    match found {
        Ok(Some(frame)) => frame.start,
        Ok(None) => choose|k: nat|
            #![trigger skipped(kind, bytes, k)]
            {
                &&& k < MAX_FRAME_LEN
                &&& skipped(kind, bytes, k)
                &&& candidate(kind, bytes.skip(k as int)) is Incomplete
            },
        Err(_) => MAX_FRAME_LEN as nat,
    }
}

/// A frame is found whole: it lies within the bytes that were searched, and the two bytes at
/// its end are the checksum of those before them.
pub proof fn law_found_frame_is_intact(kind: DecoderType, bytes: Seq<u8>, frame: FoundFrameView)
    requires
        finds(kind, bytes, Ok(Some(frame))),
    ensures
        frame.pdu.len() >= 1,
        frame.size == frame.pdu.len() + 3,
        frame.start + frame.size <= bytes.len(),
        bytes.subrange(frame.start as int, (frame.start + frame.size) as int) == adu_bytes(
            frame.slave,
            frame.pdu,
        ),
{
    let front = bytes.skip(frame.start as int);
    let n = frame.pdu.len();
    assert(seq![frame.slave] + frame.pdu =~= front.take(n as int + 1));
    let crc = checksum(front.take(n as int + 1));
    assert(u16_at(front, n as int + 1) == crc);
    assert(crc / 256 == front[n as int + 1] && crc % 256 == front[n as int + 2]);
    assert(bytes.subrange(frame.start as int, (frame.start + frame.size) as int) =~= adu_bytes(
        frame.slave,
        frame.pdu,
    ));
}

/// A frame is recognised by its own bytes, whatever follows it.
proof fn lemma_adu_is_candidate(kind: DecoderType, slave: u8, pdu: Seq<u8>, rest: Seq<u8>)
    requires
        recognisable(kind, slave, pdu),
    ensures
        candidate(kind, adu_bytes(slave, pdu) + rest) == Candidate::Frame(pdu.len()),
{
    let adu = adu_bytes(slave, pdu);
    assert(adu.take(pdu.len() as int + 1) =~= seq![slave] + pdu);
    lemma_candidate_stays(kind, adu, rest);
}

/// A frame that follows bytes at which no frame starts is found, with all of these bytes
/// skipped and nothing taken of what comes behind it. There may be up to
/// `MAX_FRAME_LEN - 1` such bytes, or none.
pub proof fn law_noise_is_skipped(
    kind: DecoderType,
    noise: Seq<u8>,
    slave: u8,
    pdu: Seq<u8>,
    rest: Seq<u8>,
    found: Found,
)
    requires
        recognisable(kind, slave, pdu),
        noise.len() < MAX_FRAME_LEN,
        skipped(kind, noise + (adu_bytes(slave, pdu) + rest), noise.len()),
        finds(kind, noise + (adu_bytes(slave, pdu) + rest), found),
    ensures
        found == Found::Ok(
            Some(
                FoundFrameView { slave, pdu, start: noise.len(), size: pdu.len() + 3 },
            ),
        ),
{
    let adu = adu_bytes(slave, pdu);
    let bytes = noise + (adu + rest);
    let k = noise.len();
    let frame = frame_at(bytes, k, pdu.len());
    lemma_adu_is_candidate(kind, slave, pdu, rest);
    assert(bytes.skip(k as int) =~= adu + rest);
    assert(frame.pdu =~= pdu);
    assert(finds(kind, bytes, Ok(Some(frame))));
    law_search_is_determined(kind, bytes, found, Ok(Some(frame)));
}

/// The first bytes of a message tell the length that the whole tells, or none yet.
proof fn lemma_pdu_len_of_part(kind: DecoderType, adu: Seq<u8>, received: nat)
    requires
        received <= adu.len(),
    ensures
        pdu_len(kind, adu.take(received as int)) is Incomplete || pdu_len(
            kind,
            adu.take(received as int),
        ) == pdu_len(kind, adu),
{
}

/// A frame of which some bytes are still to come is waited for.
pub proof fn law_partial_frame_waits(
    kind: DecoderType,
    slave: u8,
    pdu: Seq<u8>,
    received: nat,
    found: Found,
)
    requires
        recognisable(kind, slave, pdu),
        received < adu_bytes(slave, pdu).len(),
        finds(kind, adu_bytes(slave, pdu).take(received as int), found),
    ensures
        found == Found::Ok(None),
{
    let adu = adu_bytes(slave, pdu);
    let part = adu.take(received as int);
    lemma_pdu_len_of_part(kind, adu, received);
    assert(part.skip(0) =~= part);
    assert(skipped(kind, part, 0));
    assert(finds(kind, part, Ok(None)));
    law_search_is_determined(kind, part, found, Ok(None));
}

/// What has been found in the bytes received so far is found in them again when more have
/// arrived, and a search that gave up gives up again.
pub proof fn law_outcome_outlasts_reception(
    kind: DecoderType,
    bytes: Seq<u8>,
    more: Seq<u8>,
    before: Found,
    after: Found,
)
    requires
        finds(kind, bytes, before),
        finds(kind, bytes + more, after),
    ensures
        before matches Ok(Some(frame)) ==> after == before,
        before is Err ==> after is Err,
{
    match before {
        Ok(Some(frame)) => {
            law_found_frame_is_intact(kind, bytes, frame);
            lemma_skipped_stays(kind, bytes, more, frame.start);
            let front = bytes.skip(frame.start as int);
            lemma_candidate_stays(kind, front, more);
            assert((bytes + more).skip(frame.start as int) =~= front + more);
            assert(frame_at(bytes + more, frame.start, frame.pdu.len()).pdu =~= frame.pdu);
            law_search_is_determined(kind, bytes + more, after, before);
        },
        Ok(None) => {},
        Err(_) => {
            lemma_skipped_stays(kind, bytes, more, MAX_FRAME_LEN as nat);
            law_search_is_determined(kind, bytes + more, after, before);
        },
    }
}

} // verus!
