//! The decoders and codecs: what every call takes out of a buffer, and what it leaves there.

use crate::buffer::{buffered, payload};
use crate::error::Error;
use crate::frame::{RequestAdu, RequestPdu, ResponseAdu, ResponsePdu, SlaveId};
use crate::rtu::{
    request_adu, response_adu, take_frame, ClientCodec, RequestDecoder, ResponseDecoder,
    ServerCodec,
};
use crate::scan::{scan, DecoderType, FoundFrame};
use bytes::{Bytes, BytesMut};
use vstd::prelude::*;

verus! {

/// Taking a frame hands out its address and its PDU and leaves what stands behind its last
/// byte. Without a frame the buffer stays as it is, and the text of a failure is handed on.
pub proof fn law_frame_is_taken(
    found: Result<Option<FoundFrame>, String>,
    buf: &mut BytesMut,
    taken: Result<Option<(SlaveId, Bytes)>, Error>,
)
    requires
        found matches Ok(Some(frame)) ==> frame.start + frame.size <= buffered(*old(buf)).len()
            && frame.start + frame.size <= usize::MAX && frame.pdu@.len() <= isize::MAX,
        call_ensures(take_frame, (found, buf), taken),
    ensures
        call_requires(take_frame, (found, buf)),
        match found {
            Ok(Some(frame)) => {
                &&& taken matches Ok(Some((slave, pdu))) && slave == frame.slave && payload(pdu)
                    == frame.pdu@
                &&& buffered(*final(buf)) == buffered(*old(buf)).skip(frame.start + frame.size)
            },
            Ok(None) => taken == Ok::<Option<(SlaveId, Bytes)>, Error>(None) && buffered(
                *final(buf),
            ) == buffered(*old(buf)),
            Err(text) => {
                &&& taken matches Err(Error::Frame(message)) && message@ == text@
                &&& buffered(*final(buf)) == buffered(*old(buf))
            },
        },
{
}

/// The decoder of requests takes out the frame that a search for requests finds, with all that
/// stands before it, and leaves what stands behind it. Without a frame the buffer stays as it
/// is, and the text of a failure is handed on.
pub proof fn law_request_decoder_follows_search(
    decoder: &mut RequestDecoder,
    buf: &mut BytesMut,
    searched: BytesMut,
    found: Result<Option<FoundFrame>, String>,
    taken: Result<Option<(SlaveId, Bytes)>, Error>,
)
    requires
        buffered(searched) == buffered(*old(buf)),
        call_ensures(scan, (DecoderType::Request, &searched), found),
        call_ensures(RequestDecoder::decode, (decoder, buf), taken),
    ensures
        call_requires(RequestDecoder::decode, (decoder, buf)),
        match found {
            Ok(Some(frame)) => {
                &&& taken matches Ok(Some((slave, pdu))) && slave == frame.slave && payload(pdu)
                    == frame.pdu@
                &&& buffered(*final(buf)) == buffered(*old(buf)).skip(frame.start + frame.size)
            },
            Ok(None) => taken == Ok::<Option<(SlaveId, Bytes)>, Error>(None) && buffered(
                *final(buf),
            ) == buffered(*old(buf)),
            Err(text) => {
                &&& taken matches Err(Error::Frame(message)) && message@ == text@
                &&& buffered(*final(buf)) == buffered(*old(buf))
            },
        },
{
}

/// The decoder of responses takes out the frame that a search for responses finds, with all
/// that stands before it, and leaves what stands behind it. Without a frame the buffer stays as
/// it is, and the text of a failure is handed on.
pub proof fn law_response_decoder_follows_search(
    decoder: &mut ResponseDecoder,
    buf: &mut BytesMut,
    searched: BytesMut,
    found: Result<Option<FoundFrame>, String>,
    taken: Result<Option<(SlaveId, Bytes)>, Error>,
)
    requires
        buffered(searched) == buffered(*old(buf)),
        call_ensures(scan, (DecoderType::Response, &searched), found),
        call_ensures(ResponseDecoder::decode, (decoder, buf), taken),
    ensures
        call_requires(ResponseDecoder::decode, (decoder, buf)),
        match found {
            Ok(Some(frame)) => {
                &&& taken matches Ok(Some((slave, pdu))) && slave == frame.slave && payload(pdu)
                    == frame.pdu@
                &&& buffered(*final(buf)) == buffered(*old(buf)).skip(frame.start + frame.size)
            },
            Ok(None) => taken == Ok::<Option<(SlaveId, Bytes)>, Error>(None) && buffered(
                *final(buf),
            ) == buffered(*old(buf)),
            Err(text) => {
                &&& taken matches Err(Error::Frame(message)) && message@ == text@
                &&& buffered(*final(buf)) == buffered(*old(buf))
            },
        },
{
}

/// A request is handed out under the address that came with it, exactly as its bytes read; if
/// they do not, what is wrong with them is handed out.
pub proof fn law_request_keeps_its_address(
    slave: SlaveId,
    pdu: Bytes,
    read: Result<RequestPdu, Error>,
    adu: Result<Option<RequestAdu>, Error>,
)
    requires
        call_ensures(RequestPdu::try_from, (pdu,), read),
        call_ensures(request_adu, (Some((slave, pdu)),), adu),
    ensures
        match read {
            Ok(read) => adu matches Ok(Some(adu)) && adu.hdr.slave_id == slave && adu.pdu@ == read@,
            Err(error) => adu == Err::<Option<RequestAdu>, Error>(error),
        },
{
}

/// A response is handed out under the address that came with it, exactly as its bytes read; if
/// they do not, what is wrong with them is handed out.
pub proof fn law_response_keeps_its_address(
    slave: SlaveId,
    pdu: Bytes,
    read: Result<ResponsePdu, Error>,
    adu: Result<Option<ResponseAdu>, Error>,
)
    requires
        call_ensures(ResponsePdu::try_from, (pdu,), read),
        call_ensures(response_adu, (Some((slave, pdu)),), adu),
    ensures
        match read {
            Ok(read) => adu matches Ok(Some(adu)) && adu.hdr.slave_id == slave && adu.pdu@ == read@,
            Err(error) => adu == Err::<Option<ResponseAdu>, Error>(error),
        },
{
}

/// Without a frame there is no message.
pub proof fn law_no_frame_no_message(
    request: Result<Option<RequestAdu>, Error>,
    response: Result<Option<ResponseAdu>, Error>,
)
    requires
        call_ensures(request_adu, (None,), request),
        call_ensures(response_adu, (None,), response),
    ensures
        request == Ok::<Option<RequestAdu>, Error>(None),
        response == Ok::<Option<ResponseAdu>, Error>(None),
{
}

/// A server gives out the request in the frame that a search finds, under the address in the
/// frame, and leaves what stands behind the frame. Without a frame, or with one that holds no
/// request, the buffer stays as it is.
pub proof fn law_server_follows_search(
    codec: &mut ServerCodec,
    buf: &mut BytesMut,
    searched: BytesMut,
    found: Result<Option<FoundFrame>, String>,
    pdu: Bytes,
    read: Result<RequestPdu, Error>,
    adu: Result<Option<RequestAdu>, Error>,
)
    requires
        buffered(searched) == buffered(*old(buf)),
        call_ensures(scan, (DecoderType::Request, &searched), found),
        found matches Ok(Some(frame)) ==> payload(pdu) == frame.pdu@,
        call_ensures(RequestPdu::try_from, (pdu,), read),
        call_ensures(ServerCodec::try_decode, (codec, buf), adu),
    ensures
        call_requires(ServerCodec::try_decode, (codec, buf)),
        match (found, read) {
            (Ok(Some(frame)), Ok(read)) => {
                &&& adu matches Ok(Some(adu)) && adu.hdr.slave_id == frame.slave && adu.pdu@
                    == read@
                &&& buffered(*final(buf)) == buffered(*old(buf)).skip(frame.start + frame.size)
            },
            (Ok(Some(_)), Err(error)) => adu == Err::<Option<RequestAdu>, Error>(error) && buffered(
                *final(buf),
            ) == buffered(*old(buf)),
            (Ok(None), _) => adu == Ok::<Option<RequestAdu>, Error>(None) && buffered(*final(buf))
                == buffered(*old(buf)),
            (Err(text), _) => {
                &&& adu matches Err(Error::Frame(message)) && message@ == text@
                &&& buffered(*final(buf)) == buffered(*old(buf))
            },
        },
{
}

/// A client gives out the response in the frame that a search finds, under the address in the
/// frame, and leaves what stands behind the frame. Without a frame, or with one that holds no
/// response, the buffer stays as it is.
pub proof fn law_client_follows_search(
    codec: &mut ClientCodec,
    buf: &mut BytesMut,
    searched: BytesMut,
    found: Result<Option<FoundFrame>, String>,
    pdu: Bytes,
    read: Result<ResponsePdu, Error>,
    adu: Result<Option<ResponseAdu>, Error>,
)
    requires
        buffered(searched) == buffered(*old(buf)),
        call_ensures(scan, (DecoderType::Response, &searched), found),
        found matches Ok(Some(frame)) ==> payload(pdu) == frame.pdu@,
        call_ensures(ResponsePdu::try_from, (pdu,), read),
        call_ensures(ClientCodec::try_decode, (codec, buf), adu),
    ensures
        call_requires(ClientCodec::try_decode, (codec, buf)),
        match (found, read) {
            (Ok(Some(frame)), Ok(read)) => {
                &&& adu matches Ok(Some(adu)) && adu.hdr.slave_id == frame.slave && adu.pdu@
                    == read@
                &&& buffered(*final(buf)) == buffered(*old(buf)).skip(frame.start + frame.size)
            },
            (Ok(Some(_)), Err(error)) => adu == Err::<Option<ResponseAdu>, Error>(error)
                && buffered(*final(buf)) == buffered(*old(buf)),
            (Ok(None), _) => adu == Ok::<Option<ResponseAdu>, Error>(None) && buffered(*final(buf))
                == buffered(*old(buf)),
            (Err(text), _) => {
                &&& adu matches Err(Error::Frame(message)) && message@ == text@
                &&& buffered(*final(buf)) == buffered(*old(buf))
            },
        },
{
}

/// Where a server can take a request, or nothing, out of a buffer, both ways of decoding give
/// the same and leave the same.
pub proof fn law_server_decodings_agree(
    codecs: (&mut ServerCodec, &mut ServerCodec),
    buf: &mut BytesMut,
    copy: &mut BytesMut,
    adu: Result<Option<RequestAdu>, Error>,
    tried: Result<Option<RequestAdu>, Error>,
)
    requires
        buffered(*old(copy)) == buffered(*old(buf)),
        call_ensures(ServerCodec::try_decode, (codecs.0, copy), tried),
        tried is Ok,
        call_ensures(ServerCodec::decode, (codecs.1, buf), adu),
    ensures
        call_requires(ServerCodec::decode, (codecs.1, buf)),
        match (tried, adu) {
            (Ok(Some(tried)), Ok(Some(adu))) => adu.hdr == tried.hdr && adu.pdu@ == tried.pdu@,
            (Ok(None), Ok(None)) => true,
            _ => false,
        },
        buffered(*final(buf)) == buffered(*final(copy)),
{
}

/// Where a client can take a response, or nothing, out of a buffer, both ways of decoding give
/// the same and leave the same.
pub proof fn law_client_decodings_agree(
    codecs: (&mut ClientCodec, &mut ClientCodec),
    buf: &mut BytesMut,
    copy: &mut BytesMut,
    adu: Result<Option<ResponseAdu>, Error>,
    tried: Result<Option<ResponseAdu>, Error>,
)
    requires
        buffered(*old(copy)) == buffered(*old(buf)),
        call_ensures(ClientCodec::try_decode, (codecs.0, copy), tried),
        tried is Ok,
        call_ensures(ClientCodec::decode, (codecs.1, buf), adu),
    ensures
        call_requires(ClientCodec::decode, (codecs.1, buf)),
        match (tried, adu) {
            (Ok(Some(tried)), Ok(Some(adu))) => adu.hdr == tried.hdr && adu.pdu@ == tried.pdu@,
            (Ok(None), Ok(None)) => true,
            _ => false,
        },
        buffered(*final(buf)) == buffered(*final(copy)),
{
}

} // verus!
