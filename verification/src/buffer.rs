//! Byte buffers as the transport hands them over, and bytes read as text.
use bytes::Bytes;
use vstd::prelude::*;

verus! {

/// `bytes::Bytes`, a shared, immutable run of bytes. Nothing is known of a
/// value but what `bytes_view` names.
#[verifier::external_type_specification]
#[verifier::external_body]
pub struct ExBytes(Bytes);

/// The bytes that a buffer holds, in order: what `Bytes` dereferences to.
pub uninterp spec fn bytes_view(buffer: Bytes) -> Seq<u8>;

/// Borrows what a buffer holds, through `Bytes`'s `AsRef<[u8]>`. Not proved:
/// that the slice is the buffer's contents.
#[verifier::external_body]
pub(crate) fn bytes_as_slice(buffer: &Bytes) -> (r: &[u8])
    ensures
        r@ == bytes_view(*buffer),
{
    buffer.as_ref()
}

/// Makes a buffer of a vector with `Bytes::from`. Not proved: that the
/// buffer holds the vector's bytes.
#[verifier::external_body]
pub(crate) fn bytes_from_vec(bytes: Vec<u8>) -> (r: Bytes)
    ensures
        bytes_view(r) == bytes@,
{
    Bytes::from(bytes)
}

/// Turns bytes into text with `String::from_utf8`. Not proved: that the call
/// succeeds on valid UTF-8 and on nothing else, and that the text is then
/// what the bytes decode to.
#[verifier::external_body]
pub(crate) fn string_from_utf8(bytes: Vec<u8>) -> (r: Option<String>)
    ensures
        r is Some <==> vstd::utf8::valid_utf8(bytes@),
        r is Some ==> r->0@ == vstd::utf8::decode_utf8(bytes@),
{
    String::from_utf8(bytes).ok()
}

} // verus!
