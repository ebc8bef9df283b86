//! The identification of a coupler: how it is asked for, and what every call makes of the
//! answer.

use crate::coupler::{coupler_id, low_first, COUPLER_ID_ADDRESS, COUPLER_ID_QUANTITY};
use crate::frame::{Request, RequestPdu};
use vstd::prelude::*;
use vstd::utf8::{
    decode_utf8_encode_utf8, encode_utf8, encode_utf8_decode_utf8, encode_utf8_valid_utf8,
    valid_utf8,
};

verus! {

proof fn lemma_low_first(words: Seq<u16>, bytes: Seq<u8>)
    ensures
        bytes == low_first(words) <==> (bytes.len() == 2 * words.len() && forall|i: int|
            0 <= i < words.len() ==> bytes[2 * i] + 256 * bytes[2 * i + 1] == #[trigger] words[i]),
{
    if bytes.len() == 2 * words.len() && forall|i: int|
        0 <= i < words.len() ==> bytes[2 * i] + 256 * bytes[2 * i + 1] == #[trigger] words[i] {
        assert forall|j: int| 0 <= j < bytes.len() implies bytes[j] == low_first(words)[j] by {
            let word = words[j / 2];
            assert(bytes[2 * (j / 2)] + 256 * bytes[2 * (j / 2) + 1] == word);
        }
        assert(bytes =~= low_first(words));
    }
    if bytes == low_first(words) {
        assert forall|i: int| 0 <= i < words.len() implies bytes[2 * i] + 256 * bytes[2 * i + 1]
            == #[trigger] words[i] by {
            assert((2 * i) / 2 == i && (2 * i + 1) / 2 == i);
        }
    }
}

/// The identification is the one text whose UTF-8 form the words hold, the low byte of each
/// first; there is none if they hold the form of no text.
pub proof fn law_identification_is_text(data: &[u16], id: Option<String>, text: Seq<char>)
    requires
        call_ensures(coupler_id, (data,), id),
    ensures
        (id matches Some(id) && id@ == text) <==> ({
            let bytes = encode_utf8(text);
            &&& bytes.len() == 2 * data@.len()
            &&& forall|i: int|
                0 <= i < data@.len() ==> bytes[2 * i] + 256 * bytes[2 * i + 1]
                    == #[trigger] data@[i]
        }),
{
    lemma_low_first(data@, encode_utf8(text));
    encode_utf8_valid_utf8(text);
    encode_utf8_decode_utf8(text);
    if valid_utf8(low_first(data@)) {
        decode_utf8_encode_utf8(low_first(data@));
    }
}

/// The identification is asked for with a request for seven input registers from `0x1000` on.
pub proof fn law_identification_request(bytes: Vec<u8>)
    requires
        call_ensures(
            RequestPdu::to_bytes,
            (&RequestPdu(Request::ReadInputRegisters(COUPLER_ID_ADDRESS, COUPLER_ID_QUANTITY)),),
            bytes,
        ),
    ensures
        bytes@ == seq![0x04u8, 0x10u8, 0x00u8, 0x00u8, 0x07u8],
{
}

} // verus!
