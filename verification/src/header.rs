//! Which bytes make a header name, and which a header value.
//!
//! The rules are those of the `http` crate, which decides both when a request
//! is built; they are written out here so that contracts can speak of them.
use http::header::{HeaderName, HeaderValue};
use vstd::prelude::*;

verus! {

/// The longest header name, in bytes.
pub const MAX_HEADER_NAME_LEN: usize = 65535;

/// A byte that may stand in a header name: a letter, a digit, or one of
/// `! " # $ % & ' * + - . ^ _ | ~` and the backquote.
pub open spec fn is_name_byte(b: u8) -> bool {
    ||| 33 <= b <= 39
    ||| b == 42
    ||| b == 43
    ||| b == 45
    ||| b == 46
    ||| 48 <= b <= 57
    ||| 65 <= b <= 90
    ||| 94 <= b <= 122
    ||| b == 124
    ||| b == 126
}

/// An upper-case ASCII letter as its lower-case one, any other byte as it is.
pub open spec fn lower(b: u8) -> u8 {
    if 65 <= b <= 90 {
        (b + 32) as u8
    } else {
        b
    }
}

/// A header name is between 1 and 65535 name bytes.
pub open spec fn is_header_name(key: Seq<u8>) -> bool {
    &&& 1 <= key.len() <= MAX_HEADER_NAME_LEN
    &&& forall|i: int| 0 <= i < key.len() ==> is_name_byte(#[trigger] key[i])
}

/// The form in which a header name is kept and compared: in lower case.
pub open spec fn normal_name(key: Seq<u8>) -> Seq<u8> {
    Seq::new(key.len(), |i: int| lower(key[i]))
}

/// A byte that may stand in a header value: a tab, or anything from the
/// space upwards but DEL.
pub open spec fn is_value_byte(b: u8) -> bool {
    b >= 32 && b != 127 || b == 9
}

/// A header value is any run of value bytes, the empty one too.
pub open spec fn is_header_value(value: Seq<u8>) -> bool {
    forall|i: int| 0 <= i < value.len() ==> is_value_byte(#[trigger] value[i])
}

/// A name stays a name when it is put in lower case, and putting it in
/// lower case twice changes nothing more.
pub proof fn lemma_normal_name_is_name(key: Seq<u8>)
    requires
        is_header_name(key),
    ensures
        is_header_name(normal_name(key)),
        normal_name(normal_name(key)) == normal_name(key),
{
}

/// Makes a header name of `key` with `http::header::HeaderName::from_bytes`
/// and hands out what `HeaderName::as_str` reads of it. Not proved: that
/// the call accepts exactly the keys of `is_header_name`, and that the name
/// it makes reads as the key in lower case.
#[verifier::external_body]
pub(crate) fn parse_header_name(key: &[u8]) -> (r: Option<Vec<u8>>)
    ensures
        r is Some <==> is_header_name(key@),
        r is Some ==> r->0@ == normal_name(key@),
{
    match HeaderName::from_bytes(key) {
        Ok(name) => Some(name.as_str().as_bytes().to_vec()),
        Err(_) => None,
    }
}

/// Asks `http::header::HeaderValue::from_bytes` whether `value` makes a
/// header value. Not proved: that the call accepts exactly the values of
/// `is_header_value`, the tab among their bytes.
#[verifier::external_body]
pub(crate) fn accepts_header_value(value: &[u8]) -> (r: bool)
    ensures
        r == is_header_value(value@),
{
    HeaderValue::from_bytes(value).is_ok()
}

} // verus!
