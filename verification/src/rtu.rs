//! The RTU codecs: messages to frames and frames to messages, on a buffer that is filled and
//! emptied by the transport.

use crate::buffer::{buffer_slice, buffered, payload};
use crate::error::Error;
use crate::frame::{
    Header, RequestAdu, RequestPdu, RequestView, ResponseAdu, ResponsePdu, ResponsePduView,
    ResponseView, SlaveId,
};
use crate::pdu::{
    law_request_round_trip, law_response_round_trip, lemma_coils_request, lemma_read_write_request,
    lemma_words_request, parse_request, parse_response, read_request, read_response, request_bytes,
    response_bytes, response_canonical, response_encodable, response_padded,
};
use crate::scan::{
    adu_bytes, checksum, finds, found_view, law_found_frame_is_intact, law_noise_is_skipped,
    recognisable, scan, scanned, DecoderType, Found, FoundFrame, FoundFrameView,
};
use crate::wire::{put_u16, u16_at, u16_bytes};
use bytes::{Bytes, BytesMut};
use vstd::prelude::*;

verus! {

/// Takes the frames of requests out of a buffer.
#[derive(Debug, PartialEq, Eq)]
pub struct RequestDecoder;

/// Takes the frames of responses out of a buffer.
#[derive(Debug, PartialEq, Eq)]
pub struct ResponseDecoder;

/// The codec of a client, which sends requests and receives responses.
#[derive(Debug, PartialEq, Eq)]
pub struct ClientCodec {
    pub decoder: ResponseDecoder,
}

/// The codec of a server, which receives requests and sends responses.
#[derive(Debug, PartialEq, Eq)]
pub struct ServerCodec {
    pub decoder: RequestDecoder,
}

impl Default for RequestDecoder {
    fn default() -> (decoder: RequestDecoder)
        ensures
            decoder == RequestDecoder,
    {
        RequestDecoder
    }
}

impl Default for ResponseDecoder {
    fn default() -> (decoder: ResponseDecoder)
        ensures
            decoder == ResponseDecoder,
    {
        ResponseDecoder
    }
}

impl Default for ClientCodec {
    fn default() -> (codec: ClientCodec)
        ensures
            codec == (ClientCodec { decoder: ResponseDecoder }),
    {
        ClientCodec { decoder: ResponseDecoder }
    }
}

impl Default for ServerCodec {
    fn default() -> (codec: ServerCodec)
        ensures
            codec == (ServerCodec { decoder: RequestDecoder }),
    {
        ServerCodec { decoder: RequestDecoder }
    }
}

/// What is left of `bytes` when the frame that was found is taken out: what stands behind it.
/// Where no frame was found, nothing is taken out.
pub open spec fn remainder(found: Found, bytes: Seq<u8>) -> Seq<u8> {
    match found {
        Ok(Some(frame)) => bytes.skip((frame.start + frame.size) as int),
        _ => bytes,
    }
}

/// `taken` is the frame that was found, with its PDU as a value of its own, or the error with
/// the text of the search.
pub open spec fn is_taken(
    found: Found,
    taken: Result<Option<(SlaveId, Bytes)>, Error>,
) -> bool {
    match found {
        Ok(Some(frame)) => taken matches Ok(Some((slave, pdu))) && slave == frame.slave && payload(
            pdu,
        ) == frame.pdu,
        Ok(None) => taken matches Ok(None),
        Err(text) => taken matches Err(Error::Frame(message)) && message@ == text,
    }
}

/// The frame lies within a buffer of `len` bytes and can be copied out of it.
pub open spec fn within(frame: FoundFrameView, len: nat) -> bool {
    &&& frame.start + frame.size <= len
    &&& frame.start + frame.size <= usize::MAX
    &&& frame.pdu.len() <= isize::MAX
}

/// A frame that was found can be taken out of the bytes in which it was found.
pub proof fn law_found_frame_can_be_taken(kind: DecoderType, bytes: Seq<u8>, frame: FoundFrameView)
    requires
        finds(kind, bytes, Ok(Some(frame))),
    ensures
        within(frame, bytes.len()),
{
    law_found_frame_is_intact(kind, bytes, frame);
    assert(frame.pdu.len() <= 0x10002);
}

/// Takes the frame that a search has found out of the buffer, together with all that stands
/// before it.
pub fn take_frame(
    found: Result<Option<FoundFrame>, String>,
    buf: &mut BytesMut,
) -> (taken: Result<Option<(SlaveId, Bytes)>, Error>)
    requires
        found matches Ok(Some(frame)) ==> within(frame@, buffered(*old(buf)).len()),
    ensures
        is_taken(found_view(found), taken),
        buffered(*final(buf)) == remainder(found_view(found), buffered(*old(buf))),
{
    match found {
        Ok(Some(frame)) => {
            let mut pdu = Bytes::new();
            pdu.extend_from_slice(frame.pdu.as_slice());
            assert(payload(pdu) =~= frame.pdu@);
            let _ = buf.split_to(frame.start + frame.size);
            Ok(Some((frame.slave, pdu)))
        },
        Ok(None) => Ok(None),
        Err(text) => Err(Error::Frame(text)),
    }
}

impl RequestDecoder {
    /// Takes the first frame of a request out of the buffer.
    ///
    /// Without a complete frame, and where the search gives up, the buffer stays as it is.
    pub fn decode(&mut self, buf: &mut BytesMut) -> (taken: Result<
        Option<(SlaveId, Bytes)>,
        Error,
    >)
        ensures
            *final(self) == *old(self),
            is_taken(scanned(DecoderType::Request, buffered(*old(buf))), taken),
            buffered(*final(buf)) == remainder(
                scanned(DecoderType::Request, buffered(*old(buf))),
                buffered(*old(buf)),
            ),
            finds(
                DecoderType::Request,
                buffered(*old(buf)),
                scanned(DecoderType::Request, buffered(*old(buf))),
            ),
    {
        let found = scan(DecoderType::Request, buf);
        proof {
            if let Ok(Some(frame)) = found_view(found) {
                law_found_frame_can_be_taken(DecoderType::Request, buffered(*buf), frame);
            }
        }
        take_frame(found, buf)
    }
}

impl ResponseDecoder {
    /// Takes the first frame of a response out of the buffer.
    ///
    /// Without a complete frame, and where the search gives up, the buffer stays as it is.
    pub fn decode(&mut self, buf: &mut BytesMut) -> (taken: Result<
        Option<(SlaveId, Bytes)>,
        Error,
    >)
        ensures
            *final(self) == *old(self),
            is_taken(scanned(DecoderType::Response, buffered(*old(buf))), taken),
            buffered(*final(buf)) == remainder(
                scanned(DecoderType::Response, buffered(*old(buf))),
                buffered(*old(buf)),
            ),
            finds(
                DecoderType::Response,
                buffered(*old(buf)),
                scanned(DecoderType::Response, buffered(*old(buf))),
            ),
    {
        let found = scan(DecoderType::Response, buf);
        proof {
            if let Ok(Some(frame)) = found_view(found) {
                law_found_frame_can_be_taken(DecoderType::Response, buffered(*buf), frame);
            }
        }
        take_frame(found, buf)
    }
}

/// `adu` is the request in the PDU with the address `slave`, or what is wrong with the PDU.
pub open spec fn is_request_adu(
    slave: u8,
    pdu: Seq<u8>,
    adu: Result<Option<RequestAdu>, Error>,
) -> bool {
    match parse_request(pdu) {
        Ok(request) => adu matches Ok(Some(adu)) && adu.hdr.slave_id == slave && adu.pdu@
            == request,
        Err(error) => adu == Err::<Option<RequestAdu>, Error>(error),
    }
}

/// `adu` is the response in the PDU with the address `slave`, or what is wrong with the PDU.
pub open spec fn is_response_adu(
    slave: u8,
    pdu: Seq<u8>,
    adu: Result<Option<ResponseAdu>, Error>,
) -> bool {
    match parse_response(pdu) {
        Ok(response) => adu matches Ok(Some(adu)) && adu.hdr.slave_id == slave && adu.pdu@
            == response,
        Err(error) => adu == Err::<Option<ResponseAdu>, Error>(error),
    }
}

/// Reads the request in a frame, if there is a frame.
pub fn request_adu(frame: Option<(SlaveId, Bytes)>) -> (adu: Result<Option<RequestAdu>, Error>)
    ensures
        match frame {
            Some((slave, pdu)) => is_request_adu(slave, payload(pdu), adu),
            None => adu matches Ok(None),
        },
{
    match frame {
        Some((slave_id, pdu_data)) => {
            let hdr = Header { slave_id };
            match RequestPdu::try_from(pdu_data) {
                Ok(pdu) => Ok(Some(RequestAdu { hdr, pdu })),
                Err(error) => Err(error),
            }
        },
        None => Ok(None),
    }
}

/// Reads the response in a frame, if there is a frame.
pub fn response_adu(frame: Option<(SlaveId, Bytes)>) -> (adu: Result<Option<ResponseAdu>, Error>)
    ensures
        match frame {
            Some((slave, pdu)) => is_response_adu(slave, payload(pdu), adu),
            None => adu matches Ok(None),
        },
{
    match frame {
        Some((slave_id, pdu_data)) => {
            let hdr = Header { slave_id };
            match ResponsePdu::try_from(pdu_data) {
                Ok(pdu) => Ok(Some(ResponseAdu { hdr, pdu })),
                Err(error) => Err(error),
            }
        },
        None => Ok(None),
    }
}

/// `adu` is what a server makes of the outcome of a search.
pub open spec fn is_request(found: Found, adu: Result<Option<RequestAdu>, Error>) -> bool {
    match found {
        Ok(Some(frame)) => is_request_adu(frame.slave, frame.pdu, adu),
        Ok(None) => adu matches Ok(None),
        Err(text) => adu matches Err(Error::Frame(message)) && message@ == text,
    }
}

/// `adu` is what a client makes of the outcome of a search.
pub open spec fn is_response(found: Found, adu: Result<Option<ResponseAdu>, Error>) -> bool {
    match found {
        Ok(Some(frame)) => is_response_adu(frame.slave, frame.pdu, adu),
        Ok(None) => adu matches Ok(None),
        Err(text) => adu matches Err(Error::Frame(message)) && message@ == text,
    }
}

/// The search has not given up, and a frame that it has found holds a request.
pub open spec fn holds_request(found: Found) -> bool {
    match found {
        Ok(Some(frame)) => parse_request(frame.pdu) is Ok,
        Ok(None) => true,
        Err(_) => false,
    }
}

/// The search has not given up, and a frame that it has found holds a response.
pub open spec fn holds_response(found: Found) -> bool {
    match found {
        Ok(Some(frame)) => parse_response(frame.pdu) is Ok,
        Ok(None) => true,
        Err(_) => false,
    }
}

/// The bytes of a buffer after a frame has been appended to it. The checksum is that of all
/// bytes in the buffer, those that were in it before included.
pub open spec fn appended(before: Seq<u8>, slave: u8, pdu: Seq<u8>) -> Seq<u8> {
    let body = before + seq![slave] + pdu;
    body + u16_bytes(checksum(body))
}

/// The buffer has room for a frame with a PDU of `n` bytes.
pub open spec fn has_room(buf: BytesMut, n: nat) -> bool {
    buffered(buf).len() + n + 3 <= isize::MAX
}

/// Tells whether the buffer has room for a frame with a PDU of `n` bytes.
fn room_for(buf: &BytesMut, n: usize) -> (room: bool)
    ensures
        room == has_room(*buf, n as nat),
{
    let limit: usize = isize::MAX as usize;
    let len: usize = buffer_slice(buf).len();
    n <= limit - 3 && len <= limit - 3 - n
}

/// Appends a frame to the buffer.
fn put_frame(buf: &mut BytesMut, slave: SlaveId, pdu: &[u8])
    requires
        has_room(*old(buf), pdu@.len()),
    ensures
        buffered(*final(buf)) == appended(buffered(*old(buf)), slave, pdu@),
{
    let ghost before = buffered(*buf);
    let mut address: Vec<u8> = Vec::new();
    address.push(slave);
    buf.reserve(pdu.len() + 3);
    buf.extend_from_slice(address.as_slice());
    buf.extend_from_slice(pdu);
    assert(buffered(*buf) =~= before + seq![slave] + pdu@);
    let crc: u16 = modbus_core::rtu::crc16(buffer_slice(buf));
    let mut trailer: Vec<u8> = Vec::new();
    put_u16(&mut trailer, crc);
    assert(trailer@ =~= u16_bytes(crc));
    buf.extend_from_slice(trailer.as_slice());
}

impl ClientCodec {
    /// Takes the first response out of the buffer.
    ///
    /// The search for its frame must not give up, and a frame that is found must hold a
    /// response; [`ClientCodec::try_decode`] makes no such demand.
    pub fn decode(&mut self, buf: &mut BytesMut) -> (adu: Result<Option<ResponseAdu>, Error>)
        requires
            holds_response(scanned(DecoderType::Response, buffered(*old(buf)))),
        ensures
            *final(self) == *old(self),
            adu is Ok,
            is_response(scanned(DecoderType::Response, buffered(*old(buf))), adu),
            buffered(*final(buf)) == remainder(
                scanned(DecoderType::Response, buffered(*old(buf))),
                buffered(*old(buf)),
            ),
            finds(
                DecoderType::Response,
                buffered(*old(buf)),
                scanned(DecoderType::Response, buffered(*old(buf))),
            ),
    {
        match self.decoder.decode(buf) {
            Ok(frame) => response_adu(frame),
            Err(error) => Err(error),
        }
    }

    /// Takes the first response out of the buffer, or says why there is none to be had. In the
    /// latter case the buffer stays as it is.
    pub fn try_decode(&mut self, buf: &mut BytesMut) -> (adu: Result<Option<ResponseAdu>, Error>)
        ensures
            *final(self) == *old(self),
            adu is Ok <==> holds_response(scanned(DecoderType::Response, buffered(*old(buf)))),
            is_response(scanned(DecoderType::Response, buffered(*old(buf))), adu),
            buffered(*final(buf)) == (if adu is Ok {
                remainder(
                    scanned(DecoderType::Response, buffered(*old(buf))),
                    buffered(*old(buf)),
                )
            } else {
                buffered(*old(buf))
            }),
            finds(
                DecoderType::Response,
                buffered(*old(buf)),
                scanned(DecoderType::Response, buffered(*old(buf))),
            ),
    {
        match scan(DecoderType::Response, buf) {
            Ok(Some(frame)) => match read_response(frame.pdu.as_slice()) {
                Ok(_) => self.decode(buf),
                Err(error) => Err(error),
            },
            Ok(None) => self.decode(buf),
            Err(text) => Err(Error::Frame(text)),
        }
    }

    /// Tells whether a request can be encoded and the buffer has room for it.
    pub fn accepts(&self, adu: &RequestAdu, buf: &BytesMut) -> (accepted: bool)
        ensures
            accepted == (adu.pdu@.encodable() && has_room(*buf, request_bytes(adu.pdu@).len())),
    {
        adu.pdu.is_encodable() && room_for(buf, adu.pdu.to_bytes().len())
    }

    /// Appends the frame of a request to the buffer.
    pub fn encode(&mut self, adu: RequestAdu, buf: &mut BytesMut) -> (done: Result<(), Error>)
        requires
            adu.pdu@.encodable(),
            has_room(*old(buf), request_bytes(adu.pdu@).len()),
        ensures
            *final(self) == *old(self),
            done == Ok::<(), Error>(()),
            buffered(*final(buf)) == appended(
                buffered(*old(buf)),
                adu.hdr.slave_id,
                request_bytes(adu.pdu@),
            ),
    {
        let RequestAdu { hdr, pdu } = adu;
        let pdu_data = pdu.to_bytes();
        put_frame(buf, hdr.slave_id, pdu_data.as_slice());
        Ok(())
    }
}

impl ServerCodec {
    /// Takes the first request out of the buffer.
    ///
    /// The search for its frame must not give up, and a frame that is found must hold a
    /// request; [`ServerCodec::try_decode`] makes no such demand.
    pub fn decode(&mut self, buf: &mut BytesMut) -> (adu: Result<Option<RequestAdu>, Error>)
        requires
            holds_request(scanned(DecoderType::Request, buffered(*old(buf)))),
        ensures
            *final(self) == *old(self),
            adu is Ok,
            is_request(scanned(DecoderType::Request, buffered(*old(buf))), adu),
            buffered(*final(buf)) == remainder(
                scanned(DecoderType::Request, buffered(*old(buf))),
                buffered(*old(buf)),
            ),
            finds(
                DecoderType::Request,
                buffered(*old(buf)),
                scanned(DecoderType::Request, buffered(*old(buf))),
            ),
    {
        match self.decoder.decode(buf) {
            Ok(frame) => request_adu(frame),
            Err(error) => Err(error),
        }
    }

    /// Takes the first request out of the buffer, or says why there is none to be had. In the
    /// latter case the buffer stays as it is.
    pub fn try_decode(&mut self, buf: &mut BytesMut) -> (adu: Result<Option<RequestAdu>, Error>)
        ensures
            *final(self) == *old(self),
            adu is Ok <==> holds_request(scanned(DecoderType::Request, buffered(*old(buf)))),
            is_request(scanned(DecoderType::Request, buffered(*old(buf))), adu),
            buffered(*final(buf)) == (if adu is Ok {
                remainder(
                    scanned(DecoderType::Request, buffered(*old(buf))),
                    buffered(*old(buf)),
                )
            } else {
                buffered(*old(buf))
            }),
            finds(
                DecoderType::Request,
                buffered(*old(buf)),
                scanned(DecoderType::Request, buffered(*old(buf))),
            ),
    {
        match scan(DecoderType::Request, buf) {
            Ok(Some(frame)) => match read_request(frame.pdu.as_slice()) {
                Ok(_) => self.decode(buf),
                Err(error) => Err(error),
            },
            Ok(None) => self.decode(buf),
            Err(text) => Err(Error::Frame(text)),
        }
    }

    /// Tells whether a response can be encoded and the buffer has room for it.
    pub fn accepts(&self, adu: &ResponseAdu, buf: &BytesMut) -> (accepted: bool)
        ensures
            accepted == (response_encodable(adu.pdu@) && has_room(
                *buf,
                response_bytes(adu.pdu@).len(),
            )),
    {
        adu.pdu.is_encodable() && room_for(buf, adu.pdu.to_bytes().len())
    }

    /// Appends the frame of a response to the buffer.
    pub fn encode(&mut self, adu: ResponseAdu, buf: &mut BytesMut) -> (done: Result<(), Error>)
        requires
            response_encodable(adu.pdu@),
            has_room(*old(buf), response_bytes(adu.pdu@).len()),
        ensures
            *final(self) == *old(self),
            done == Ok::<(), Error>(()),
            buffered(*final(buf)) == appended(
                buffered(*old(buf)),
                adu.hdr.slave_id,
                response_bytes(adu.pdu@),
            ),
    {
        let ResponseAdu { hdr, pdu } = adu;
        let pdu_data = pdu.to_bytes();
        put_frame(buf, hdr.slave_id, pdu_data.as_slice());
        Ok(())
    }
}

/// The requests whose frame a server recognises. In a request that writes several items it
/// takes the high byte of the quantity for the byte count, so that it recognises the empty
/// ones only; of the custom ones it knows those of a fixed length.
pub open spec fn request_framed(request: RequestView) -> bool {
    match request {
        RequestView::WriteMultipleCoils(_, coils) => coils.len() == 0,
        RequestView::WriteMultipleRegisters(_, words) => words.len() == 0,
        RequestView::Custom(code, data) => {
            ||| (code == 0x07 || code == 0x0B || code == 0x0C || code == 0x11) && data.len() == 0
            ||| code == 0x16 && data.len() == 6
            ||| code == 0x18 && data.len() == 2
        },
        _ => true,
    }
}

/// The responses whose frame a client recognises: all but exceptions to functions beyond
/// `0x2B` (or to function zero) and custom responses of unknown length.
pub open spec fn response_framed(pdu: ResponsePduView) -> bool {
    match pdu {
        Ok(ResponseView::Custom(code, data)) => {
            ||| code == 0x07 && data.len() == 1
            ||| code == 0x0B && data.len() == 4
            ||| code == 0x0C && data.len() >= 1 && data.len() == 1 + data[0]
            ||| code == 0x16 && data.len() == 6
            ||| code == 0x18 && data.len() >= 2 && data.len() == 2 + u16_at(data, 0)
        },
        Ok(_) => true,
        Err(exception) => 0x01 <= exception.function <= 0x2B,
    }
}

/// In the bytes of a frame the PDU follows the address.
proof fn lemma_adu_holds_pdu(slave: u8, pdu: Seq<u8>)
    ensures
        adu_bytes(slave, pdu).len() == pdu.len() + 3,
        adu_bytes(slave, pdu)[0] == slave,
        forall|i: int|
            0 <= i < pdu.len() ==> #[trigger] pdu[i] == adu_bytes(slave, pdu)[i + 1],
{
}

/// The requests that [`request_framed`] lists are those whose function code calls for the
/// length that they have.
pub proof fn law_framed_requests(slave: u8, request: RequestView)
    requires
        request.encodable(),
        request.canonical(),
    ensures
        recognisable(DecoderType::Request, slave, request_bytes(request)) <==> request_framed(
            request,
        ),
{
    let pdu = request_bytes(request);
    lemma_adu_holds_pdu(slave, pdu);
    match request {
        RequestView::WriteMultipleCoils(address, coils) => {
            lemma_coils_request(address, coils);
            assert(pdu[3] == coils.len() / 256);
        },
        RequestView::WriteMultipleRegisters(address, words) => {
            lemma_words_request(address, words);
            assert(pdu[3] == words.len() / 256);
        },
        RequestView::ReadWriteMultipleRegisters(from, quantity, to, words) => {
            lemma_read_write_request(from, quantity, to, words);
        },
        _ => {},
    }
}

/// The responses that [`response_framed`] lists are those whose function code calls for the
/// length that they have.
pub proof fn law_framed_responses(slave: u8, pdu: ResponsePduView)
    requires
        response_encodable(pdu),
        response_canonical(pdu),
    ensures
        recognisable(DecoderType::Response, slave, response_bytes(pdu)) <==> response_framed(pdu),
{
    lemma_adu_holds_pdu(slave, response_bytes(pdu));
}

/// A frame that is appended to an empty buffer stands there alone, with a checksum of its own.
pub proof fn law_first_frame(slave: u8, pdu: Seq<u8>)
    ensures
        appended(Seq::empty(), slave, pdu) == adu_bytes(slave, pdu),
{
    assert(Seq::<u8>::empty() + seq![slave] + pdu =~= seq![slave] + pdu);
}

/// Encoding appends: what was in the buffer stays in front, and the frame takes three bytes
/// more than its PDU.
pub proof fn law_encoding_appends(before: Seq<u8>, slave: u8, pdu: Seq<u8>)
    ensures
        appended(before, slave, pdu).len() == before.len() + pdu.len() + 3,
        appended(before, slave, pdu).take(before.len() as int) == before,
        appended(before, slave, pdu).subrange(
            before.len() as int + 1,
            (before.len() + 1 + pdu.len()) as int,
        ) == pdu,
        appended(before, slave, pdu)[before.len() as int] == slave,
{
    let after = appended(before, slave, pdu);
    assert(after.take(before.len() as int) =~= before);
    assert(after.subrange(before.len() as int + 1, (before.len() + 1 + pdu.len()) as int) =~= pdu);
}

/// A sequence in front of another can be cut off, and nothing in front of both changes nothing.
proof fn lemma_front(front: Seq<u8>, rest: Seq<u8>)
    ensures
        (front + rest).skip(front.len() as int) == rest,
        Seq::<u8>::empty() + (front + rest) == front + rest,
{
    assert((front + rest).skip(front.len() as int) =~= rest);
    assert(Seq::<u8>::empty() + (front + rest) =~= front + rest);
}

/// A frame that can be recognised is found in front of whatever follows it, and leaves that.
proof fn lemma_frame_arrives(
    kind: DecoderType,
    slave: u8,
    pdu: Seq<u8>,
    rest: Seq<u8>,
    found: Found,
)
    requires
        recognisable(kind, slave, pdu),
        finds(kind, appended(Seq::empty(), slave, pdu) + rest, found),
    ensures
        found == Found::Ok(
            Some(FoundFrameView { slave, pdu, start: 0, size: pdu.len() + 3 }),
        ),
        remainder(found, appended(Seq::empty(), slave, pdu) + rest) == rest,
{
    law_first_frame(slave, pdu);
    lemma_front(adu_bytes(slave, pdu), rest);
    lemma_adu_holds_pdu(slave, pdu);
    law_noise_is_skipped(kind, Seq::empty(), slave, pdu, rest, found);
}

/// What a client has encoded into an empty buffer, a server that receives these bytes decodes
/// to the same request for the same address; what arrives behind them stays in its buffer.
pub proof fn law_request_reaches_server(
    slave: u8,
    request: RequestView,
    rest: Seq<u8>,
    found: Found,
)
    requires
        request.encodable(),
        request.canonical(),
        request_framed(request),
        finds(
            DecoderType::Request,
            appended(Seq::empty(), slave, request_bytes(request)) + rest,
            found,
        ),
    ensures
        found matches Ok(Some(frame)) && frame.slave == slave && parse_request(frame.pdu) == Ok::<
            RequestView,
            Error,
        >(request),
        remainder(found, appended(Seq::empty(), slave, request_bytes(request)) + rest) == rest,
{
    law_framed_requests(slave, request);
    law_request_round_trip(request);
    lemma_frame_arrives(DecoderType::Request, slave, request_bytes(request), rest, found);
}

/// What a server has encoded into an empty buffer, a client that receives these bytes decodes
/// to the same response from the same address, with coils padded to whole bytes; what arrives
/// behind them stays in its buffer.
pub proof fn law_response_reaches_client(
    slave: u8,
    pdu: ResponsePduView,
    rest: Seq<u8>,
    found: Found,
)
    requires
        response_encodable(pdu),
        response_canonical(pdu),
        response_framed(pdu),
        finds(
            DecoderType::Response,
            appended(Seq::empty(), slave, response_bytes(pdu)) + rest,
            found,
        ),
    ensures
        found matches Ok(Some(frame)) && frame.slave == slave && parse_response(frame.pdu) == Ok::<
            ResponsePduView,
            Error,
        >(response_padded(pdu)),
        remainder(found, appended(Seq::empty(), slave, response_bytes(pdu)) + rest) == rest,
{
    law_framed_responses(slave, pdu);
    law_response_round_trip(pdu);
    lemma_frame_arrives(DecoderType::Response, slave, response_bytes(pdu), rest, found);
}

/// Taking frames out of a buffer never changes the order of the bytes in it or adds to them:
/// what is left is a tail of what was there, shorter by at least a whole frame where one was
/// taken.
pub proof fn law_decoding_takes_from_the_front(kind: DecoderType, bytes: Seq<u8>, found: Found)
    requires
        finds(kind, bytes, found),
    ensures
        remainder(found, bytes).len() <= bytes.len(),
        remainder(found, bytes) == bytes.skip(bytes.len() - remainder(found, bytes).len()),
        found matches Ok(Some(frame)) ==> remainder(found, bytes).len() + 4 <= bytes.len(),
        !(found matches Ok(Some(_))) ==> remainder(found, bytes) == bytes,
{
    if let Ok(Some(frame)) = found {
        law_found_frame_is_intact(kind, bytes, frame);
    } else {
        assert(bytes.skip(0) =~= bytes);
    }
}

} // verus!
