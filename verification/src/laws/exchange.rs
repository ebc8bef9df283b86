//! Both ends of a line: the frames that one side encodes, and what the other side gets of them.

use crate::buffer::buffered;
use crate::error::Error;
use crate::frame::{RequestAdu, RequestPdu, ResponseAdu, ResponsePdu, SlaveId};
use crate::laws::scan::law_checksum_leaves_no_remainder;
use crate::pdu::{request_bytes, response_bytes, response_canonical, response_padded};
use crate::rtu::{
    law_first_frame, law_request_reaches_server, law_response_reaches_client, request_framed,
    response_framed, ClientCodec, ServerCodec,
};
use crate::scan::{
    adu_bytes, checksum, crc_of, law_partial_frame_waits, recognisable, scanned, DecoderType,
};
use bytes::BytesMut;
use vstd::prelude::*;

verus! {

/// A client puts a request behind what is in the buffer: the address, the bytes of the request,
/// and the checksum of the whole buffer with its high byte first, so that the buffer leaves no
/// remainder. This never fails.
pub proof fn law_request_is_framed(
    codec: &mut ClientCodec,
    adu: RequestAdu,
    buf: &mut BytesMut,
    pdu: Vec<u8>,
    done: Result<(), Error>,
)
    requires
        call_ensures(RequestPdu::to_bytes, (&adu.pdu,), pdu),
        call_ensures(ClientCodec::encode, (codec, adu, buf), done),
    ensures
        ({
            let body = buffered(*old(buf)) + seq![adu.hdr.slave_id] + pdu@;
            let crc = checksum(body);
            buffered(*final(buf)) == body + seq![(crc / 256) as u8, (crc % 256) as u8]
        }),
        crc_of(buffered(*final(buf))) == 0,
        done == Ok::<(), Error>(()),
{
    let body = buffered(*old(buf)) + seq![adu.hdr.slave_id] + pdu@;
    law_checksum_leaves_no_remainder(body);
}

/// A server puts a response behind what is in the buffer: the address, the bytes of the
/// response, and the checksum of the whole buffer with its high byte first, so that the buffer
/// leaves no remainder. This never fails.
pub proof fn law_response_is_framed(
    codec: &mut ServerCodec,
    adu: ResponseAdu,
    buf: &mut BytesMut,
    pdu: Vec<u8>,
    done: Result<(), Error>,
)
    requires
        call_ensures(ResponsePdu::to_bytes, (&adu.pdu,), pdu),
        call_ensures(ServerCodec::encode, (codec, adu, buf), done),
    ensures
        ({
            let body = buffered(*old(buf)) + seq![adu.hdr.slave_id] + pdu@;
            let crc = checksum(body);
            buffered(*final(buf)) == body + seq![(crc / 256) as u8, (crc % 256) as u8]
        }),
        crc_of(buffered(*final(buf))) == 0,
        done == Ok::<(), Error>(()),
{
    let body = buffered(*old(buf)) + seq![adu.hdr.slave_id] + pdu@;
    law_checksum_leaves_no_remainder(body);
}

/// A client accepts a request that can be written out and whose frame, three bytes more than
/// the request, fits into the buffer. What it accepts it can encode.
pub proof fn law_accepted_request_is_encoded(
    codec: ClientCodec,
    adu: RequestAdu,
    buf: BytesMut,
    fits: bool,
    pdu: Vec<u8>,
    accepted: bool,
    encoder: &mut ClientCodec,
    target: &mut BytesMut,
)
    requires
        call_ensures(RequestPdu::is_encodable, (&adu.pdu,), fits),
        fits ==> call_ensures(RequestPdu::to_bytes, (&adu.pdu,), pdu),
        call_ensures(ClientCodec::accepts, (&codec, &adu, &buf), accepted),
        buffered(*old(target)) == buffered(buf),
    ensures
        accepted <==> fits && buffered(buf).len() + pdu@.len() + 3 <= isize::MAX,
        accepted ==> call_requires(ClientCodec::encode, (encoder, adu, target)),
{
}

/// A server accepts a response that can be written out and whose frame, three bytes more than
/// the response, fits into the buffer. What it accepts it can encode.
pub proof fn law_accepted_response_is_encoded(
    codec: ServerCodec,
    adu: ResponseAdu,
    buf: BytesMut,
    fits: bool,
    pdu: Vec<u8>,
    accepted: bool,
    encoder: &mut ServerCodec,
    target: &mut BytesMut,
)
    requires
        call_ensures(ResponsePdu::is_encodable, (&adu.pdu,), fits),
        fits ==> call_ensures(ResponsePdu::to_bytes, (&adu.pdu,), pdu),
        call_ensures(ServerCodec::accepts, (&codec, &adu, &buf), accepted),
        buffered(*old(target)) == buffered(buf),
    ensures
        accepted <==> fits && buffered(buf).len() + pdu@.len() + 3 <= isize::MAX,
        accepted ==> call_requires(ServerCodec::encode, (encoder, adu, target)),
{
}

/// A server that receives the frame of a request gives out this request, under the
/// address that the frame starts with, in both ways of decoding. What arrived behind the frame
/// stays in the buffer.
pub proof fn law_request_is_received(
    slave: SlaveId,
    pdu: RequestPdu,
    written: Vec<u8>,
    rest: Seq<u8>,
    codecs: (&mut ServerCodec, &mut ServerCodec),
    copy: &mut BytesMut,
    tried: Result<Option<RequestAdu>, Error>,
    buf: &mut BytesMut,
    adu: Result<Option<RequestAdu>, Error>,
)
    requires
        call_ensures(RequestPdu::is_encodable, (&pdu,), true),
        pdu@.canonical(),
        request_framed(pdu@),
        call_ensures(RequestPdu::to_bytes, (&pdu,), written),
        ({
            let crc = checksum(seq![slave] + written@);
            buffered(*old(buf)) == seq![slave] + written@ + seq![
                (crc / 256) as u8,
                (crc % 256) as u8,
            ] + rest
        }),
        buffered(*old(copy)) == buffered(*old(buf)),
        call_ensures(ServerCodec::try_decode, (codecs.0, copy), tried),
        call_ensures(ServerCodec::decode, (codecs.1, buf), adu),
    ensures
        tried matches Ok(Some(adu)) && adu.hdr.slave_id == slave && adu.pdu@ == pdu@,
        buffered(*final(copy)) == rest,
        call_requires(ServerCodec::decode, (codecs.1, buf)),
        adu matches Ok(Some(adu)) && adu.hdr.slave_id == slave && adu.pdu@ == pdu@,
        buffered(*final(buf)) == rest,
{
    let bytes = request_bytes(pdu@);
    let found = scanned(DecoderType::Request, buffered(*old(copy)));
    law_first_frame(slave, bytes);
    assert(buffered(*old(copy)) =~= adu_bytes(slave, bytes) + rest);
    law_request_reaches_server(slave, pdu@, rest, found);
}

/// What a client has encoded into an empty buffer, a server that receives it decodes to the
/// same request with the same address. What arrived behind it stays in the buffer.
pub proof fn law_request_arrives(
    sender: &mut ClientCodec,
    sent: RequestAdu,
    sending: &mut BytesMut,
    done: Result<(), Error>,
    rest: Seq<u8>,
    receiver: &mut ServerCodec,
    receiving: &mut BytesMut,
    received: Result<Option<RequestAdu>, Error>,
)
    requires
        call_ensures(RequestPdu::is_encodable, (&sent.pdu,), true),
        sent.pdu@.canonical(),
        request_framed(sent.pdu@),
        buffered(*old(sending)) == Seq::<u8>::empty(),
        call_ensures(ClientCodec::encode, (sender, sent, sending), done),
        buffered(*old(receiving)) == buffered(*final(sending)) + rest,
        call_ensures(ServerCodec::try_decode, (receiver, receiving), received),
    ensures
        received matches Ok(Some(adu)) && adu.hdr == sent.hdr && adu.pdu@ == sent.pdu@,
        buffered(*final(receiving)) == rest,
{
    let found = scanned(DecoderType::Request, buffered(*old(receiving)));
    law_request_reaches_server(sent.hdr.slave_id, sent.pdu@, rest, found);
}

/// A server waits for the rest of a frame and leaves in the buffer what has arrived of it.
pub proof fn law_server_waits(
    slave: SlaveId,
    pdu: Seq<u8>,
    missing: Seq<u8>,
    codec: &mut ServerCodec,
    buf: &mut BytesMut,
    adu: Result<Option<RequestAdu>, Error>,
)
    requires
        recognisable(DecoderType::Request, slave, pdu),
        missing.len() > 0,
        ({
            let crc = checksum(seq![slave] + pdu);
            buffered(*old(buf)) + missing == seq![slave] + pdu + seq![
                (crc / 256) as u8,
                (crc % 256) as u8,
            ]
        }),
        call_ensures(ServerCodec::try_decode, (codec, buf), adu),
    ensures
        adu == Ok::<Option<RequestAdu>, Error>(None),
        buffered(*final(buf)) == buffered(*old(buf)),
{
    let bytes = buffered(*old(buf));
    assert(adu_bytes(slave, pdu) =~= bytes + missing);
    assert(adu_bytes(slave, pdu).take(bytes.len() as int) =~= bytes);
    law_partial_frame_waits(
        DecoderType::Request,
        slave,
        pdu,
        bytes.len(),
        scanned(DecoderType::Request, bytes),
    );
}

/// A client that receives the frame of a response gives out this response, with coils padded to
/// whole bytes, under the address that the frame starts with, in both ways of decoding. What
/// arrived behind the frame stays in the buffer.
pub proof fn law_response_is_received(
    slave: SlaveId,
    pdu: ResponsePdu,
    written: Vec<u8>,
    rest: Seq<u8>,
    codecs: (&mut ClientCodec, &mut ClientCodec),
    copy: &mut BytesMut,
    tried: Result<Option<ResponseAdu>, Error>,
    buf: &mut BytesMut,
    adu: Result<Option<ResponseAdu>, Error>,
)
    requires
        call_ensures(ResponsePdu::is_encodable, (&pdu,), true),
        response_canonical(pdu@),
        response_framed(pdu@),
        call_ensures(ResponsePdu::to_bytes, (&pdu,), written),
        ({
            let crc = checksum(seq![slave] + written@);
            buffered(*old(buf)) == seq![slave] + written@ + seq![
                (crc / 256) as u8,
                (crc % 256) as u8,
            ] + rest
        }),
        buffered(*old(copy)) == buffered(*old(buf)),
        call_ensures(ClientCodec::try_decode, (codecs.0, copy), tried),
        call_ensures(ClientCodec::decode, (codecs.1, buf), adu),
    ensures
        tried matches Ok(Some(adu)) && adu.hdr.slave_id == slave && adu.pdu@ == response_padded(
            pdu@,
        ),
        buffered(*final(copy)) == rest,
        call_requires(ClientCodec::decode, (codecs.1, buf)),
        adu matches Ok(Some(adu)) && adu.hdr.slave_id == slave && adu.pdu@ == response_padded(pdu@),
        buffered(*final(buf)) == rest,
{
    let bytes = response_bytes(pdu@);
    let found = scanned(DecoderType::Response, buffered(*old(copy)));
    law_first_frame(slave, bytes);
    assert(buffered(*old(copy)) =~= adu_bytes(slave, bytes) + rest);
    law_response_reaches_client(slave, pdu@, rest, found);
}

/// What a server has encoded into an empty buffer, a client that receives it decodes to the
/// same response with the same address, but for coils, which come padded to whole bytes. What
/// arrived behind it stays in the buffer.
pub proof fn law_response_arrives(
    sender: &mut ServerCodec,
    sent: ResponseAdu,
    sending: &mut BytesMut,
    done: Result<(), Error>,
    rest: Seq<u8>,
    receiver: &mut ClientCodec,
    receiving: &mut BytesMut,
    received: Result<Option<ResponseAdu>, Error>,
)
    requires
        call_ensures(ResponsePdu::is_encodable, (&sent.pdu,), true),
        response_canonical(sent.pdu@),
        response_framed(sent.pdu@),
        buffered(*old(sending)) == Seq::<u8>::empty(),
        call_ensures(ServerCodec::encode, (sender, sent, sending), done),
        buffered(*old(receiving)) == buffered(*final(sending)) + rest,
        call_ensures(ClientCodec::try_decode, (receiver, receiving), received),
    ensures
        received matches Ok(Some(adu)) && adu.hdr == sent.hdr && adu.pdu@ == response_padded(
            sent.pdu@,
        ),
        buffered(*final(receiving)) == rest,
{
    let found = scanned(DecoderType::Response, buffered(*old(receiving)));
    law_response_reaches_client(sent.hdr.slave_id, sent.pdu@, rest, found);
}

/// A client waits for the rest of a frame and leaves in the buffer what has arrived of it.
pub proof fn law_client_waits(
    slave: SlaveId,
    pdu: Seq<u8>,
    missing: Seq<u8>,
    codec: &mut ClientCodec,
    buf: &mut BytesMut,
    adu: Result<Option<ResponseAdu>, Error>,
)
    requires
        recognisable(DecoderType::Response, slave, pdu),
        missing.len() > 0,
        ({
            let crc = checksum(seq![slave] + pdu);
            buffered(*old(buf)) + missing == seq![slave] + pdu + seq![
                (crc / 256) as u8,
                (crc % 256) as u8,
            ]
        }),
        call_ensures(ClientCodec::try_decode, (codec, buf), adu),
    ensures
        adu == Ok::<Option<ResponseAdu>, Error>(None),
        buffered(*final(buf)) == buffered(*old(buf)),
{
    let bytes = buffered(*old(buf));
    assert(adu_bytes(slave, pdu) =~= bytes + missing);
    assert(adu_bytes(slave, pdu).take(bytes.len() as int) =~= bytes);
    law_partial_frame_waits(
        DecoderType::Response,
        slave,
        pdu,
        bytes.len(),
        scanned(DecoderType::Response, bytes),
    );
}

} // verus!
