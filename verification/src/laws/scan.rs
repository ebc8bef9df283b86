//! The search for frames: what every search of a buffer gives.

use crate::buffer::buffered;
use crate::scan::{
    adu_bytes, candidate, checksum, crc_bit, crc_byte, crc_of, finds, found_view,
    law_found_frame_is_intact, law_noise_is_skipped, law_partial_frame_waits,
    law_search_is_determined, recognisable, rtu_decoded, scan, skipped, DecoderType, Found,
    FoundFrame, FoundFrameView,
};
use bytes::BytesMut;
use vstd::prelude::*;

verus! {

/// Without bytes there is nothing yet. Otherwise the outcome is that of the search through all
/// bytes of the buffer, in the direction that was asked for, with nothing added or left out.
pub proof fn law_search_covers_buffer(
    kind: DecoderType,
    buf: BytesMut,
    found: Result<Option<FoundFrame>, String>,
)
    requires
        call_ensures(scan, (kind, &buf), found),
    ensures
        buffered(buf).len() == 0 ==> found == Ok::<Option<FoundFrame>, String>(None),
        buffered(buf).len() > 0 ==> match found {
            Ok(Some(frame)) => rtu_decoded(kind, buffered(buf)) == Found::Ok(
                Some(
                    FoundFrameView {
                        slave: frame.slave,
                        pdu: frame.pdu@,
                        start: frame.start as nat,
                        size: frame.size as nat,
                    },
                ),
            ),
            Ok(None) => rtu_decoded(kind, buffered(buf)) == Found::Ok(None),
            Err(text) => rtu_decoded(kind, buffered(buf)) == Found::Err(text@),
        },
{
}

/// A frame that was found stands in the buffer, at one of the first 256 offsets: the address,
/// the PDU, and the checksum of both with its high byte first. No frame starts before it.
pub proof fn law_found_frame_was_received(kind: DecoderType, buf: BytesMut, frame: FoundFrame)
    requires
        call_ensures(scan, (kind, &buf), Ok::<Option<FoundFrame>, String>(Some(frame))),
    ensures
        ({
            let b = buffered(buf);
            let start = frame.start as int;
            let end = start + 1 + frame.pdu@.len();
            &&& start < 256
            &&& frame.size == frame.pdu@.len() + 3
            &&& end + 2 <= b.len()
            &&& frame.slave == b[start]
            &&& frame.pdu@ == b.subrange(start + 1, end)
            &&& checksum(b.subrange(start, end)) == b[end] * 256 + b[end + 1]
            &&& forall|j: int|
                0 <= j < start ==> candidate(kind, #[trigger] b.skip(j)) is Invalid
        }),
{
    let b = buffered(buf);
    let start = frame.start as int;
    let end = start + 1 + frame.pdu@.len();
    law_found_frame_is_intact(kind, b, frame@);
    let whole = b.subrange(start, end + 2);
    let body = seq![frame.slave] + frame.pdu@;
    assert(whole == adu_bytes(frame.slave, frame.pdu@));
    assert(b[start] == whole[0] && b[end] == whole[end - start] && b[end + 1] == whole[end + 1
        - start]);
    assert(frame.pdu@ =~= b.subrange(start + 1, end)) by {
        assert forall|i: int| 0 <= i < frame.pdu@.len() implies frame.pdu@[i] == b.subrange(
            start + 1,
            end,
        )[i] by {
            assert(whole[i + 1] == b[start + 1 + i]);
        }
    }
    assert(b.subrange(start, end) =~= body);
}

/// A frame that is in the buffer is found, behind fewer than 256 bytes at which no frame
/// starts, whatever follows it.
pub proof fn law_received_frame_is_found(
    kind: DecoderType,
    buf: BytesMut,
    noise: Seq<u8>,
    slave: u8,
    pdu: Seq<u8>,
    rest: Seq<u8>,
    found: Result<Option<FoundFrame>, String>,
)
    requires
        recognisable(kind, slave, pdu),
        ({
            let crc = checksum(seq![slave] + pdu);
            buffered(buf) == noise + seq![slave] + pdu + seq![
                (crc / 256) as u8,
                (crc % 256) as u8,
            ] + rest
        }),
        noise.len() < 256,
        forall|j: int|
            0 <= j < noise.len() ==> candidate(kind, #[trigger] buffered(buf).skip(j)) is Invalid,
        call_ensures(scan, (kind, &buf), found),
    ensures
        found matches Ok(Some(frame)) && frame.slave == slave && frame.pdu@ == pdu && frame.start
            == noise.len() && frame.size == pdu.len() + 3,
{
    assert(buffered(buf) =~= noise + (adu_bytes(slave, pdu) + rest));
    law_noise_is_skipped(kind, noise, slave, pdu, rest, found_view(found));
}

/// A frame of which the last bytes are still to come is waited for.
pub proof fn law_search_waits(
    kind: DecoderType,
    buf: BytesMut,
    slave: u8,
    pdu: Seq<u8>,
    missing: Seq<u8>,
    found: Result<Option<FoundFrame>, String>,
)
    requires
        recognisable(kind, slave, pdu),
        missing.len() > 0,
        ({
            let crc = checksum(seq![slave] + pdu);
            buffered(buf) + missing == seq![slave] + pdu + seq![
                (crc / 256) as u8,
                (crc % 256) as u8,
            ]
        }),
        call_ensures(scan, (kind, &buf), found),
    ensures
        found == Ok::<Option<FoundFrame>, String>(None),
{
    let received = buffered(buf).len();
    assert(adu_bytes(slave, pdu) =~= buffered(buf) + missing);
    assert(adu_bytes(slave, pdu).take(received as int) =~= buffered(buf));
    law_partial_frame_waits(kind, slave, pdu, received, found_view(found));
}

/// A search gives up if and only if no frame starts at any of the first 256 offsets.
pub proof fn law_search_gives_up(
    kind: DecoderType,
    buf: BytesMut,
    found: Result<Option<FoundFrame>, String>,
)
    requires
        call_ensures(scan, (kind, &buf), found),
    ensures
        found is Err <==> buffered(buf).len() >= 256 && forall|j: int|
            0 <= j < 256 ==> candidate(kind, #[trigger] buffered(buf).skip(j)) is Invalid,
{
    let b = buffered(buf);
    if b.len() >= 256 && forall|j: int|
        0 <= j < 256 ==> candidate(kind, #[trigger] b.skip(j)) is Invalid {
        assert(skipped(kind, b, 256));
        assert(finds(kind, b, Found::Err(Seq::empty())));
        law_search_is_determined(kind, b, found_view(found), Found::Err(Seq::empty()));
    }
}

/// Eight steps from a remainder whose low byte is zero shift this byte out.
proof fn lemma_low_byte_leaves(crc: u16)
    requires
        crc & 0xFF == 0,
    ensures
        crc_bit(crc_bit(crc_bit(crc_bit(crc_bit(crc_bit(crc_bit(crc_bit(crc)))))))) == crc >> 8u16,
{
    assert(crc & 1 == 0 && (crc >> 1u16) & 1 == 0 && (crc >> 2u16) & 1 == 0 && (crc >> 3u16) & 1
        == 0 && (crc >> 4u16) & 1 == 0 && (crc >> 5u16) & 1 == 0 && (crc >> 6u16) & 1 == 0 && (crc
        >> 7u16) & 1 == 0) by (bit_vector)
        requires
            crc & 0xFF == 0,
    ;
    assert((crc >> 1u16) >> 1u16 == crc >> 2u16 && (crc >> 2u16) >> 1u16 == crc >> 3u16 && (crc
        >> 3u16) >> 1u16 == crc >> 4u16 && (crc >> 4u16) >> 1u16 == crc >> 5u16 && (crc >> 5u16)
        >> 1u16 == crc >> 6u16 && (crc >> 6u16) >> 1u16 == crc >> 7u16 && (crc >> 7u16) >> 1u16
        == crc >> 8u16) by (bit_vector);
    assert(crc_bit(crc) == crc >> 1u16);
    assert(crc_bit(crc >> 1u16) == crc >> 2u16);
    assert(crc_bit(crc >> 2u16) == crc >> 3u16);
    assert(crc_bit(crc >> 3u16) == crc >> 4u16);
    assert(crc_bit(crc >> 4u16) == crc >> 5u16);
    assert(crc_bit(crc >> 5u16) == crc >> 6u16);
    assert(crc_bit(crc >> 6u16) == crc >> 7u16);
    assert(crc_bit(crc >> 7u16) == crc >> 8u16);
}

/// A remainder is cancelled by its own two bytes, low byte first.
proof fn lemma_crc_cancels(crc: u16, high: u8, low: u8)
    requires
        high == ((crc << 8u16) | (crc >> 8u16)) / 256,
        low == ((crc << 8u16) | (crc >> 8u16)) % 256,
    ensures
        crc_byte(crc_byte(crc, high), low) == 0,
{
    assert((crc ^ (high as u16)) & 0xFF == 0 && (crc ^ (high as u16)) >> 8u16 == crc >> 8u16 && (crc
        >> 8u16) ^ (low as u16) == 0) by (bit_vector)
        requires
            high == ((crc << 8u16) | (crc >> 8u16)) / 256,
            low == ((crc << 8u16) | (crc >> 8u16)) % 256,
    ;
    lemma_low_byte_leaves(crc ^ (high as u16));
    assert(0u16 & 0xFF == 0 && 0u16 >> 8u16 == 0) by (bit_vector);
    lemma_low_byte_leaves(0);
}

/// Bytes that are followed by their checksum, high byte first, leave no remainder.
pub proof fn law_checksum_leaves_no_remainder(body: Seq<u8>)
    ensures
        crc_of(
            body + seq![(checksum(body) / 256) as u8, (checksum(body) % 256) as u8],
        ) == 0,
{
    let high = (checksum(body) / 256) as u8;
    let low = (checksum(body) % 256) as u8;
    let whole = body + seq![high, low];
    assert(whole.drop_last() =~= body.push(high));
    assert(body.push(high).drop_last() =~= body);
    assert(crc_of(body.push(high)) == crc_byte(crc_of(body), high));
    assert(crc_of(whole) == crc_byte(crc_of(whole.drop_last()), low));
    lemma_crc_cancels(crc_of(body), high, low);
}

} // verus!
