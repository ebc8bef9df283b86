//! The identification of a fieldbus coupler: text that is kept in registers.

use vstd::prelude::*;
use vstd::utf8::{decode_utf8, valid_utf8};

verus! {

/// The address of the first input register that holds the identification.
pub const COUPLER_ID_ADDRESS: u16 = 0x1000;

/// The number of registers that hold the identification.
pub const COUPLER_ID_QUANTITY: u16 = 7;

/// The bytes in a sequence of words, the low byte of each word first.
pub open spec fn low_first(words: Seq<u16>) -> Seq<u8> {
    Seq::new(
        (2 * words.len()) as nat,
        |i: int|
            if i % 2 == 0 {
                (words[i / 2] % 256) as u8
            } else {
                (words[i / 2] / 256) as u8
            },
    )
}

/// `String::from_utf8` turns bytes into the text of which they are the UTF-8 form, and fails
/// if they are the form of no text.
#[verifier::external_body]
fn string_from_utf8(bytes: Vec<u8>) -> (text: Option<String>)
    ensures
        match text {
            Some(text) => valid_utf8(bytes@) && text@ == decode_utf8(bytes@),
            None => !valid_utf8(bytes@),
        },
{
    String::from_utf8(bytes).ok()
}

/// The identification in the registers of a coupler; there is none if their bytes are not
/// UTF-8.
pub fn coupler_id(data: &[u16]) -> (id: Option<String>)
    ensures
        match id {
            Some(id) => valid_utf8(low_first(data@)) && id@ == decode_utf8(low_first(data@)),
            None => !valid_utf8(low_first(data@)),
        },
{
    let mut bytes: Vec<u8> = Vec::new();
    let mut i: usize = 0;
    while i < data.len()
        invariant
            i <= data@.len(),
            bytes@ =~= low_first(data@.take(i as int)),
        decreases data@.len() - i,
    {
        let ghost before = bytes@;
        let elem: u16 = data[i];
        bytes.push((elem % 256) as u8);
        bytes.push((elem / 256) as u8);
        proof {
            let longer = low_first(data@.take(i + 1));
            assert forall|j: int| 0 <= j < 2 * i implies before[j] == longer[j] by {
                assert(data@.take(i as int)[j / 2] == data@.take(i + 1)[j / 2]);
            }
            assert(bytes@ =~= longer);
        }
        i += 1;
    }
    assert(data@.take(i as int) =~= data@);
    string_from_utf8(bytes)
}

} // verus!
