use vstd::prelude::*;
use vstd::utf8::{decode_utf8, encode_utf8, valid_utf8};
use vstd::string::StringSliceAdditionalSpecFns;

verus! {

/// The bytes of a buffer the application passed across the boundary.
pub struct AppByteSlice {
    pub bytes: Vec<u8>,
}

impl View for AppByteSlice {
    type V = Seq<u8>;

    open spec fn view(&self) -> Seq<u8> {
        self.bytes@
    }
}

impl AppByteSlice {
    pub fn new(bytes: Vec<u8>) -> (r: Self)
        ensures
            r@ == bytes@,
    {
        AppByteSlice { bytes }
    }
}

/// `std::str::from_utf8`: it succeeds exactly on well-formed UTF-8, and the
/// string slice it gives back holds the very bytes it was given. The error it
/// gives otherwise, which tells where the bytes go wrong, is dropped.
#[verifier::external_body]
fn str_from_utf8(bytes: &[u8]) -> (r: Option<&str>)
    ensures
        r is Some <==> valid_utf8(bytes@),
        r matches Some(s) ==> s.spec_bytes() == bytes@,
{
    std::str::from_utf8(bytes).ok()
}

/// The text carried by `bytes`: their UTF-8 decoding, or `None` where they are
/// not well-formed UTF-8.
pub fn decode_text(bytes: &AppByteSlice) -> (r: Option<String>)
    ensures
        r is Some <==> valid_utf8(bytes@),
        r matches Some(s) ==> s@ == decode_utf8(bytes@),
{
    match str_from_utf8(bytes.bytes.as_slice()) {
        Some(s) => {
            proof {
                vstd::utf8::encode_utf8_decode_utf8(s@);
            }
            Some(s.to_owned())
        },
        None => None,
    }
}

/// Well-formed UTF-8 decodes to the empty text exactly when it holds no byte.
pub proof fn lemma_decoded_text_empty(bytes: Seq<u8>)
    requires
        valid_utf8(bytes),
    ensures
        decode_utf8(bytes).len() == 0 <==> bytes.len() == 0,
{
    vstd::utf8::decode_utf8_encode_utf8(bytes);
    if decode_utf8(bytes).len() == 0 {
        assert(decode_utf8(bytes) =~= Seq::<char>::empty());
        assert(encode_utf8(Seq::<char>::empty()) =~= Seq::<u8>::empty());
    }
}

} // verus!
