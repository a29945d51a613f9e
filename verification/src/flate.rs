//! The one place where the decoder leaves verified code: inflating a
//! compressed block through the zlib implementation of an outside crate.

use vstd::prelude::*;
use crate::spec_parse::inflate_of;

verus! {

/// Relies on `libflate::zlib::Decoder`: whether a payload is a
/// well-formed zlib stream, and what it decompresses to, are pure
/// functions of its bytes, here named [`inflate_of`]. `None` exactly on
/// the payloads the decoder refuses.
#[verifier::external_body]
pub(crate) fn zlib_inflate(data: &Vec<u8>) -> (r: Option<Vec<u8>>)
    ensures
        match r {
            Some(v) => inflate_of(data@) == Some(v@),
            None => inflate_of(data@) is None,
        },
{
    let mut out = Vec::new();
    match libflate::zlib::Decoder::new(std::io::Cursor::new(data.as_slice())) {
        Ok(mut decoder) => match std::io::Read::read_to_end(&mut decoder, &mut out) {
            Ok(_) => Some(out),
            Err(_) => None,
        },
        Err(_) => None,
    }
}

} // verus!
