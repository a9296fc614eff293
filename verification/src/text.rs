//! Bytes and text: when a byte string is text, and what the bytes of a
//! thumbnail's name are.

use vstd::prelude::*;
use vstd::string::*;
use vstd::utf8::*;

verus! {

/// The error of `String::from_utf8`, which says why bytes are no text.
#[verifier::external_type_specification]
#[verifier::external_body]
pub struct ExFromUtf8Error(std::string::FromUtf8Error);

/// What stands between stem and extension in a thumbnail's name.
pub open spec fn thumb_marker() -> Seq<char> {
    seq!['_', 't', 'h', 'u', 'm', 'b', '.']
}

/// The bytes of [`thumb_marker`].
pub open spec fn thumb_marker_bytes() -> Seq<u8> {
    seq![95u8, 116u8, 104u8, 117u8, 109u8, 98u8, 46u8]
}

/// The text that `bytes` encode, where they encode one.
pub open spec fn text_of(bytes: Seq<u8>) -> Option<Seq<char>> {
    if valid_utf8(bytes) {
        Some(decode_utf8(bytes))
    } else {
        None
    }
}

/// `String::from_utf8` of std. It takes the bytes as a string exactly when
/// they are well-formed UTF-8, and the string then has those bytes as its
/// encoding; otherwise it hands back an error.
#[verifier::external_body]
fn string_from_utf8(bytes: Vec<u8>) -> (text: Result<String, std::string::FromUtf8Error>)
    ensures
        text is Ok <==> valid_utf8(bytes@),
        text is Ok ==> encode_utf8(text->Ok_0@) == bytes@,
{
    String::from_utf8(bytes)
}

/// A text that may be missing, as a mathematical value.
pub open spec fn text_view(text: Option<String>) -> Option<Seq<char>> {
    match text {
        Some(text) => Some(text@),
        None => None,
    }
}

/// The text that `bytes` encode, or `None` where they are not UTF-8.
pub fn to_text(bytes: Vec<u8>) -> (text: Option<String>)
    ensures
        text_view(text) == text_of(bytes@),
{
    match string_from_utf8(bytes) {
        Ok(text) => {
            proof {
                encode_utf8_decode_utf8(text@);
            }
            Some(text)
        },
        Err(_) => None,
    }
}

/// The marker as a string.
pub fn marker() -> (text: String)
    ensures
        text@ == thumb_marker(),
{
    let text = String::from_str("_thumb.");
    proof {
        reveal_strlit("_thumb.");
        assert(text@ =~= thumb_marker());
    }
    text
}

/// The encoding of a text in two parts is the two encodings in a row.
pub proof fn lemma_encode_concat(front: Seq<char>, back: Seq<char>)
    ensures
        encode_utf8(front + back) == encode_utf8(front) + encode_utf8(back),
    decreases front.len(),
{
    if front.len() == 0 {
        assert(front + back =~= back);
        assert(encode_utf8(front) + encode_utf8(back) =~= encode_utf8(back));
    } else {
        lemma_encode_concat(front.drop_first(), back);
        assert((front + back).drop_first() =~= front.drop_first() + back);
        assert(encode_utf8(front + back) =~= encode_utf8(front) + encode_utf8(back));
    }
}

/// The marker is encoded byte for character.
pub proof fn lemma_marker_bytes()
    ensures
        encode_utf8(thumb_marker()) == thumb_marker_bytes(),
{
    is_ascii_chars_encode_utf8(thumb_marker());
    assert(encode_utf8(thumb_marker()) =~= thumb_marker_bytes());
}

} // verus!
