//! A small binary codec: values are written to and read from a slice of bytes, integers
//! in as many bytes as their type has, the least significant first.

pub mod de;
pub mod enc;
pub mod error;

use vstd::prelude::*;

use crate::codec::de::Decodable;
use crate::codec::enc::{written, Encodeable};
use crate::codec::error::{DecodeError, EncodeError};

verus! {

/// Encodes `val` at the start of `dst` and returns the number of bytes written. The bytes
/// behind them stay as they were. Where `dst` is too short for the encoding, the call fails
/// and `dst` keeps its length.
pub fn encode_into_slice<E: Encodeable>(val: E, dst: &mut [u8]) -> (result: Result<
    usize,
    EncodeError,
>)
    ensures
        written(old(dst)@, final(dst)@, 0, val.encoding(), result),
        result is Ok <==> val.encoding().len() <= old(dst)@.len(),
        result matches Ok(count) ==> count == val.encoding().len() && final(dst)@
            == val.encoding() + old(dst)@.skip(count as int),
        result matches Err(error) ==> error == EncodeError::UnexpectedEnd,
{
    let result = val.encode(dst, 0);
    proof {
        if let Ok(count) = result {
            assert(dst@ =~= dst@.subrange(0, count as int) + dst@.subrange(
                count as int,
                dst@.len() as int,
            ));
        }
    }
    result
}

/// Decodes the value that `src` starts with. Bytes behind the value are not looked at, and
/// `src` is left as it is.
pub fn decode<D: Decodable>(src: &mut [u8]) -> (result: Result<D, DecodeError>)
    ensures
        final(src)@ == old(src)@,
        match D::parse(old(src)@) {
            Ok((value, count)) => result == Ok::<D, DecodeError>(value),
            Err(error) => result == Err::<D, DecodeError>(error),
        },
{
    assert(src@.skip(0) =~= src@);
    match D::decode(src, 0) {
        Ok((value, _)) => Ok(value),
        Err(error) => Err(error),
    }
}

} // verus!
