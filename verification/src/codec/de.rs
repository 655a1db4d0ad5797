//! Decoding of values from a slice of bytes.

use vstd::prelude::*;

use crate::codec::enc::{byte_limit, le_bytes, lemma_le_bytes_len, Encodeable};
use crate::codec::error::DecodeError;

verus! {

/// The number whose digits in base 256 are `bytes`, the least significant first.
pub open spec fn le_value(bytes: Seq<u8>) -> nat
    decreases bytes.len(),
{
    if bytes.len() == 0 {
        0
    } else {
        bytes[0] as nat + 256 * le_value(bytes.skip(1))
    }
}

/// The number that the first `width` of `bytes` stand for, if there are that many.
pub open spec fn parse_le(bytes: Seq<u8>, width: nat) -> Result<(nat, nat), DecodeError> {
    if bytes.len() < width {
        Err(DecodeError::UnexpectedEnd)
    } else {
        Ok((le_value(bytes.subrange(0, width as int)), width))
    }
}

/// A value that can be read from the bytes that `Encodeable` writes for it.
pub trait Decodable: Encodeable + Sized {
    /// The value that `bytes` start with and the number of bytes that stand for it, or why
    /// there is no such value.
    spec fn parse(bytes: Seq<u8>) -> Result<(Self, nat), DecodeError>;

    /// Reads the value that stands in `src` at position `at` and returns it with the
    /// position behind it.
    fn decode(src: &[u8], at: usize) -> (result: Result<(Self, usize), DecodeError>)
        requires
            at <= src@.len(),
        ensures
            match Self::parse(src@.skip(at as int)) {
                Ok((value, count)) => at + count <= src@.len() && result == Ok::<
                    (Self, usize),
                    DecodeError,
                >((value, (at + count) as usize)),
                Err(error) => result == Err::<(Self, usize), DecodeError>(error),
            },
    ;

    /// What was encoded is what is decoded, whatever follows it.
    proof fn lemma_parse_encoding(value: Self, rest: Seq<u8>)
        ensures
            Self::parse(value.encoding() + rest) == Ok::<(Self, nat), DecodeError>(
                (value, value.encoding().len()),
            ),
    ;
}

/// `width` bytes stand for a number below `256` to the power of `width`.
pub proof fn lemma_le_value_bound(bytes: Seq<u8>)
    ensures
        le_value(bytes) < byte_limit(bytes.len()),
    decreases bytes.len(),
{
    if bytes.len() > 0 {
        lemma_le_value_bound(bytes.skip(1));
    }
}

/// The digits of a number that `width` bytes can hold stand for that number.
pub proof fn lemma_le_value_of_bytes(value: nat, width: nat)
    requires
        value < byte_limit(width),
    ensures
        le_value(le_bytes(value, width)) == value,
    decreases width,
{
    if width > 0 {
        let digits = le_bytes(value, width);
        lemma_le_value_of_bytes(value / 256, (width - 1) as nat);
        assert(digits.skip(1) =~= le_bytes(value / 256, (width - 1) as nat));
    }
}

/// The values of `byte_limit` for the widths of the integer types.
pub proof fn lemma_byte_limits()
    ensures
        byte_limit(1) == 0x100,
        byte_limit(2) == 0x1_0000,
        byte_limit(4) == 0x1_0000_0000,
        byte_limit(8) == 0x1_0000_0000_0000_0000,
{
    reveal_with_fuel(byte_limit, 9);
}

proof fn lemma_parse_le_bytes(value: nat, width: nat, rest: Seq<u8>)
    requires
        value < byte_limit(width),
    ensures
        parse_le(le_bytes(value, width) + rest, width) == Ok::<(nat, nat), DecodeError>(
            (value, width),
        ),
{
    lemma_le_bytes_len(value, width);
    lemma_le_value_of_bytes(value, width);
    assert((le_bytes(value, width) + rest).subrange(0, width as int) =~= le_bytes(value, width));
}

/// Reads the number that `width` bytes of `src` from position `at` on stand for.
pub fn read_le(src: &[u8], at: usize, width: usize) -> (result: Result<(u64, usize), DecodeError>)
    requires
        at <= src@.len(),
        width <= 8,
    ensures
        match parse_le(src@.skip(at as int), width as nat) {
            Ok((value, count)) => at + count <= src@.len() && result == Ok::<
                (u64, usize),
                DecodeError,
            >((value as u64, (at + count) as usize)) && value < byte_limit(width as nat),
            Err(error) => result == Err::<(u64, usize), DecodeError>(error),
        },
{
    let len = src.len();
    if len - at < width {
        return Err(DecodeError::UnexpectedEnd);
    }
    let ghost digits = src@.skip(at as int).subrange(0, width as int);
    let mut value: u64 = 0;
    let mut k: usize = width;
    while k > 0
        invariant
            k <= width <= 8,
            at + width <= len == src@.len(),
            digits == src@.skip(at as int).subrange(0, width as int),
            value == le_value(digits.skip(k as int)),
        decreases k,
    {
        k -= 1;
        proof {
            let tail = digits.skip(k as int);
            assert(tail.skip(1) =~= digits.skip(k + 1));
            assert(tail[0] == src@[at + k]);
            lemma_le_value_bound(tail);
            lemma_byte_limit_grows(tail.len(), 8);
            lemma_byte_limits();
        }
        value = value * 256 + src[at + k] as u64;
    }
    proof {
        assert(digits.skip(0) =~= digits);
        lemma_le_value_bound(digits);
    }
    Ok((value, at + width))
}

proof fn lemma_byte_limit_grows(narrow: nat, wide: nat)
    requires
        narrow <= wide,
    ensures
        byte_limit(narrow) <= byte_limit(wide),
    decreases wide,
{
    if narrow < wide {
        lemma_byte_limit_grows(narrow, (wide - 1) as nat);
    }
}

impl Decodable for u8 {
    open spec fn parse(bytes: Seq<u8>) -> Result<(Self, nat), DecodeError> {
        match parse_le(bytes, 1) {
            Ok((value, count)) => Ok((value as u8, count)),
            Err(error) => Err(error),
        }
    }

    fn decode(src: &[u8], at: usize) -> (result: Result<(Self, usize), DecodeError>) {
        proof {
            lemma_byte_limits();
        }
        match read_le(src, at, 1) {
            Ok((value, behind)) => Ok((value as u8, behind)),
            Err(error) => Err(error),
        }
    }

    proof fn lemma_parse_encoding(value: Self, rest: Seq<u8>) {
        lemma_byte_limits();
        lemma_parse_le_bytes(value as nat, 1, rest);
        lemma_le_bytes_len(value as nat, 1);
    }
}

impl Decodable for u16 {
    open spec fn parse(bytes: Seq<u8>) -> Result<(Self, nat), DecodeError> {
        match parse_le(bytes, 2) {
            Ok((value, count)) => Ok((value as u16, count)),
            Err(error) => Err(error),
        }
    }

    fn decode(src: &[u8], at: usize) -> (result: Result<(Self, usize), DecodeError>) {
        proof {
            lemma_byte_limits();
        }
        match read_le(src, at, 2) {
            Ok((value, behind)) => Ok((value as u16, behind)),
            Err(error) => Err(error),
        }
    }

    proof fn lemma_parse_encoding(value: Self, rest: Seq<u8>) {
        lemma_byte_limits();
        lemma_parse_le_bytes(value as nat, 2, rest);
        lemma_le_bytes_len(value as nat, 2);
    }
}

impl Decodable for u32 {
    open spec fn parse(bytes: Seq<u8>) -> Result<(Self, nat), DecodeError> {
        match parse_le(bytes, 4) {
            Ok((value, count)) => Ok((value as u32, count)),
            Err(error) => Err(error),
        }
    }

    fn decode(src: &[u8], at: usize) -> (result: Result<(Self, usize), DecodeError>) {
        proof {
            lemma_byte_limits();
        }
        match read_le(src, at, 4) {
            Ok((value, behind)) => Ok((value as u32, behind)),
            Err(error) => Err(error),
        }
    }

    proof fn lemma_parse_encoding(value: Self, rest: Seq<u8>) {
        lemma_byte_limits();
        lemma_parse_le_bytes(value as nat, 4, rest);
        lemma_le_bytes_len(value as nat, 4);
    }
}

impl Decodable for u64 {
    open spec fn parse(bytes: Seq<u8>) -> Result<(Self, nat), DecodeError> {
        match parse_le(bytes, 8) {
            Ok((value, count)) => Ok((value as u64, count)),
            Err(error) => Err(error),
        }
    }

    fn decode(src: &[u8], at: usize) -> (result: Result<(Self, usize), DecodeError>) {
        read_le(src, at, 8)
    }

    proof fn lemma_parse_encoding(value: Self, rest: Seq<u8>) {
        lemma_byte_limits();
        lemma_parse_le_bytes(value as nat, 8, rest);
        lemma_le_bytes_len(value as nat, 8);
    }
}

impl Decodable for bool {
    open spec fn parse(bytes: Seq<u8>) -> Result<(Self, nat), DecodeError> {
        if bytes.len() < 1 {
            Err(DecodeError::UnexpectedEnd)
        } else if bytes[0] == 0 {
            Ok((false, 1))
        } else if bytes[0] == 1 {
            Ok((true, 1))
        } else {
            Err(DecodeError::InvalidBoolValue(bytes[0]))
        }
    }

    fn decode(src: &[u8], at: usize) -> (result: Result<(Self, usize), DecodeError>) {
        if src.len() - at < 1 {
            return Err(DecodeError::UnexpectedEnd);
        }
        let byte = src[at];
        if byte == 0 {
            Ok((false, at + 1))
        } else if byte == 1 {
            Ok((true, at + 1))
        } else {
            Err(DecodeError::InvalidBoolValue(byte))
        }
    }

    proof fn lemma_parse_encoding(value: Self, rest: Seq<u8>) {
    }
}

impl Decodable for [u8; 32] {
    open spec fn parse(bytes: Seq<u8>) -> Result<(Self, nat), DecodeError> {
        if bytes.len() < 32 {
            Err(DecodeError::UnexpectedEnd)
        } else {
            Ok((array_of(bytes.subrange(0, 32)), 32))
        }
    }

    fn decode(src: &[u8], at: usize) -> (result: Result<(Self, usize), DecodeError>) {
        if src.len() - at < 32 {
            return Err(DecodeError::UnexpectedEnd);
        }
        let mut value = [0u8; 32];
        let mut k: usize = 0;
        while k < 32
            invariant
                k <= 32,
                at + 32 <= src@.len(),
                forall|i: int| 0 <= i < k ==> value@[i] == src@[at + i],
            decreases 32 - k,
        {
            value[k] = src[at + k];
            k += 1;
        }
        proof {
            let bytes = src@.skip(at as int).subrange(0, 32);
            assert(value@ =~= bytes);
            lemma_array_of(value);
        }
        Ok((value, at + 32))
    }

    proof fn lemma_parse_encoding(value: Self, rest: Seq<u8>) {
        assert((value@ + rest).subrange(0, 32) =~= value@);
        lemma_array_of(value);
    }
}

/// The array of 32 bytes that holds `bytes`.
pub open spec fn array_of(bytes: Seq<u8>) -> [u8; 32] {
    choose|array: [u8; 32]| array@ == bytes
}

proof fn lemma_array_of(array: [u8; 32])
    ensures
        array_of(array@) == array,
{
    let chosen = array_of(array@);
    assert(chosen@ == array@);
    assert(chosen@ =~= array@);
    assert(chosen == array);
}

impl<T: Decodable> Decodable for Option<T> {
    open spec fn parse(bytes: Seq<u8>) -> Result<(Self, nat), DecodeError> {
        if bytes.len() < 1 {
            Err(DecodeError::UnexpectedEnd)
        } else if bytes[0] == 0 {
            Ok((None, 1))
        } else if bytes[0] == 1 {
            match T::parse(bytes.skip(1)) {
                Ok((value, count)) => Ok((Some(value), count + 1)),
                Err(error) => Err(error),
            }
        } else {
            Err(DecodeError::UnexpectedVariant(bytes[0]))
        }
    }

    fn decode(src: &[u8], at: usize) -> (result: Result<(Self, usize), DecodeError>) {
        if src.len() - at < 1 {
            return Err(DecodeError::UnexpectedEnd);
        }
        let tag = src[at];
        if tag == 0 {
            Ok((None, at + 1))
        } else if tag == 1 {
            assert(src@.skip(at as int).skip(1) =~= src@.skip(at + 1));
            match T::decode(src, at + 1) {
                Ok((value, behind)) => Ok((Some(value), behind)),
                Err(error) => Err(error),
            }
        } else {
            Err(DecodeError::UnexpectedVariant(tag))
        }
    }

    proof fn lemma_parse_encoding(value: Self, rest: Seq<u8>) {
        match value {
            None => {},
            Some(inner) => {
                T::lemma_parse_encoding(inner, rest);
                assert((value.encoding() + rest).skip(1) =~= inner.encoding() + rest);
            },
        }
    }
}

} // verus!
