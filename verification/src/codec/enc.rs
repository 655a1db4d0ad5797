//! Encoding of values into a slice of bytes.

use vstd::prelude::*;

use crate::codec::error::EncodeError;

verus! {

/// The `width` lowest digits of `value` in base 256, the least significant first.
pub open spec fn le_bytes(value: nat, width: nat) -> Seq<u8>
    decreases width,
{
    if width == 0 {
        Seq::empty()
    } else {
        seq![(value % 256) as u8] + le_bytes(value / 256, (width - 1) as nat)
    }
}

/// `256` to the power of `width`: the number of values that `width` bytes can hold.
pub open spec fn byte_limit(width: nat) -> nat
    decreases width,
{
    if width == 0 {
        1
    } else {
        256 * byte_limit((width - 1) as nat)
    }
}

/// What an attempt to write `bytes` into a slice at position `at` leaves: on success the
/// bytes stand at `at` and the position behind them is handed out, all other bytes are as
/// before; the attempt fails exactly when the bytes do not fit, and then the slice is as
/// long as before and unchanged up to `at`.
pub open spec fn written(
    before: Seq<u8>,
    after: Seq<u8>,
    at: int,
    bytes: Seq<u8>,
    result: Result<usize, EncodeError>,
) -> bool {
    &&& after.len() == before.len()
    &&& after.subrange(0, at) == before.subrange(0, at)
    &&& match result {
        Ok(end) => {
            &&& end == at + bytes.len()
            &&& end <= before.len()
            &&& after.subrange(at, end as int) == bytes
            &&& after.subrange(end as int, after.len() as int) == before.subrange(
                end as int,
                before.len() as int,
            )
        },
        Err(_) => at + bytes.len() > before.len(),
    }
}

/// A value that can be written as bytes.
pub trait Encodeable {
    /// The bytes that stand for the value.
    spec fn encoding(&self) -> Seq<u8>;

    /// Writes the encoding of the value into `dst` at position `at` and returns the position
    /// behind it.
    fn encode(&self, dst: &mut [u8], at: usize) -> (result: Result<usize, EncodeError>)
        requires
            at <= old(dst)@.len(),
        ensures
            written(old(dst)@, final(dst)@, at as int, self.encoding(), result),
    ;
}

/// The encoding of a number has as many bytes as asked for.
pub proof fn lemma_le_bytes_len(value: nat, width: nat)
    ensures
        le_bytes(value, width).len() == width,
    decreases width,
{
    if width > 0 {
        lemma_le_bytes_len(value / 256, (width - 1) as nat);
    }
}

/// Writes the `width` lowest digits of `value` in base 256 into `dst` at position `at`, the
/// least significant first.
pub fn write_le(dst: &mut [u8], at: usize, value: u64, width: usize) -> (result: Result<
    usize,
    EncodeError,
>)
    requires
        at <= old(dst)@.len(),
        width <= 8,
    ensures
        written(old(dst)@, final(dst)@, at as int, le_bytes(value as nat, width as nat), result),
{
    proof {
        lemma_le_bytes_len(value as nat, width as nat);
    }
    let len = dst.len();
    if len - at < width {
        return Err(EncodeError::UnexpectedEnd);
    }
    let ghost before = dst@;
    let mut rest = value;
    let mut k: usize = 0;
    while k < width
        invariant
            k <= width <= 8,
            at + width <= len == dst@.len(),
            dst@.len() == before.len(),
            dst@.subrange(0, at as int) == before.subrange(0, at as int),
            dst@.subrange(at + width, dst@.len() as int) == before.subrange(
                at + width,
                before.len() as int,
            ),
            le_bytes(value as nat, width as nat) == dst@.subrange(at as int, at + k) + le_bytes(
                rest as nat,
                (width - k) as nat,
            ),
        decreases width - k,
    {
        let ghost earlier = dst@;
        dst[at + k] = (rest % 256) as u8;
        proof {
            assert(dst@.subrange(0, at as int) =~= earlier.subrange(0, at as int));
            assert(dst@.subrange(at + width, dst@.len() as int) =~= earlier.subrange(
                at + width,
                earlier.len() as int,
            ));
            assert(dst@.subrange(at as int, at + k + 1) =~= earlier.subrange(at as int, at + k)
                + seq![(rest % 256) as u8]);
            assert(le_bytes(rest as nat, (width - k) as nat) == seq![(rest % 256) as u8]
                + le_bytes((rest / 256) as nat, (width - k - 1) as nat));
            assert(le_bytes(value as nat, width as nat) =~= dst@.subrange(at as int, at + k + 1)
                + le_bytes((rest / 256) as nat, (width - k - 1) as nat));
        }
        rest = rest / 256;
        k += 1;
    }
    proof {
        assert(le_bytes(rest as nat, 0) =~= Seq::<u8>::empty());
        assert(le_bytes(value as nat, width as nat) =~= dst@.subrange(at as int, at + width));
    }
    Ok(at + width)
}

/// Writes `bytes` into `dst` at position `at`.
pub fn write_bytes(dst: &mut [u8], at: usize, bytes: &[u8]) -> (result: Result<
    usize,
    EncodeError,
>)
    requires
        at <= old(dst)@.len(),
    ensures
        written(old(dst)@, final(dst)@, at as int, bytes@, result),
{
    let len = dst.len();
    let count = bytes.len();
    if len - at < count {
        return Err(EncodeError::UnexpectedEnd);
    }
    let ghost before = dst@;
    let mut k: usize = 0;
    while k < count
        invariant
            k <= count,
            count == bytes@.len(),
            at + count <= len == dst@.len(),
            dst@.len() == before.len(),
            dst@.subrange(0, at as int) == before.subrange(0, at as int),
            dst@.subrange(at + count, dst@.len() as int) == before.subrange(
                at + count,
                before.len() as int,
            ),
            dst@.subrange(at as int, at + k) == bytes@.subrange(0, k as int),
        decreases count - k,
    {
        let ghost earlier = dst@;
        dst[at + k] = bytes[k];
        proof {
            assert(dst@.subrange(0, at as int) =~= earlier.subrange(0, at as int));
            assert(dst@.subrange(at + count, dst@.len() as int) =~= earlier.subrange(
                at + count,
                earlier.len() as int,
            ));
            assert(dst@.subrange(at as int, at + k + 1) =~= earlier.subrange(at as int, at + k)
                + seq![bytes@[k as int]]);
            assert(bytes@.subrange(0, k + 1) =~= bytes@.subrange(0, k as int) + seq![
                bytes@[k as int],
            ]);
        }
        k += 1;
    }
    assert(bytes@.subrange(0, count as int) =~= bytes@);
    Ok(at + count)
}

impl Encodeable for u8 {
    open spec fn encoding(&self) -> Seq<u8> {
        le_bytes(*self as nat, 1)
    }

    fn encode(&self, dst: &mut [u8], at: usize) -> (result: Result<usize, EncodeError>) {
        write_le(dst, at, *self as u64, 1)
    }
}

impl Encodeable for u16 {
    open spec fn encoding(&self) -> Seq<u8> {
        le_bytes(*self as nat, 2)
    }

    fn encode(&self, dst: &mut [u8], at: usize) -> (result: Result<usize, EncodeError>) {
        write_le(dst, at, *self as u64, 2)
    }
}

impl Encodeable for u32 {
    open spec fn encoding(&self) -> Seq<u8> {
        le_bytes(*self as nat, 4)
    }

    fn encode(&self, dst: &mut [u8], at: usize) -> (result: Result<usize, EncodeError>) {
        write_le(dst, at, *self as u64, 4)
    }
}

impl Encodeable for u64 {
    open spec fn encoding(&self) -> Seq<u8> {
        le_bytes(*self as nat, 8)
    }

    fn encode(&self, dst: &mut [u8], at: usize) -> (result: Result<usize, EncodeError>) {
        write_le(dst, at, *self, 8)
    }
}

impl Encodeable for bool {
    open spec fn encoding(&self) -> Seq<u8> {
        seq![if *self { 1u8 } else { 0u8 }]
    }

    fn encode(&self, dst: &mut [u8], at: usize) -> (result: Result<usize, EncodeError>) {
        let byte: [u8; 1] = [if *self { 1u8 } else { 0u8 }];
        assert(byte@ =~= self.encoding());
        write_bytes(dst, at, byte.as_slice())
    }
}

impl Encodeable for [u8; 32] {
    open spec fn encoding(&self) -> Seq<u8> {
        self@
    }

    fn encode(&self, dst: &mut [u8], at: usize) -> (result: Result<usize, EncodeError>) {
        write_bytes(dst, at, self.as_slice())
    }
}

impl<T: Encodeable> Encodeable for Option<T> {
    open spec fn encoding(&self) -> Seq<u8> {
        match self {
            None => seq![0u8],
            Some(value) => seq![1u8] + value.encoding(),
        }
    }

    fn encode(&self, dst: &mut [u8], at: usize) -> (result: Result<usize, EncodeError>) {
        let ghost before = dst@;
        match self {
            None => {
                let tag: [u8; 1] = [0u8];
                assert(tag@ =~= self.encoding());
                write_bytes(dst, at, tag.as_slice())
            },
            Some(value) => {
                let tag: [u8; 1] = [1u8];
                assert(tag@ =~= seq![1u8]);
                match write_bytes(dst, at, tag.as_slice()) {
                    Err(error) => Err(error),
                    Ok(behind) => {
                        let ghost tagged = dst@;
                        let result = value.encode(dst, behind);
                        proof {
                            assert(dst@.subrange(0, at as int) =~= dst@.subrange(
                                0,
                                behind as int,
                            ).subrange(0, at as int));
                            assert(tagged.subrange(0, at as int) =~= tagged.subrange(
                                0,
                                behind as int,
                            ).subrange(0, at as int));
                            if let Ok(end) = result {
                                assert(dst@.subrange(at as int, behind as int) =~= dst@.subrange(
                                    0,
                                    behind as int,
                                ).subrange(at as int, behind as int));
                                assert(tagged.subrange(at as int, behind as int)
                                    =~= tagged.subrange(0, behind as int).subrange(
                                    at as int,
                                    behind as int,
                                ));
                                assert(dst@.subrange(at as int, end as int) =~= dst@.subrange(
                                    at as int,
                                    behind as int,
                                ) + dst@.subrange(behind as int, end as int));
                                assert(tagged.subrange(end as int, tagged.len() as int)
                                    =~= tagged.subrange(behind as int, tagged.len() as int).subrange(
                                    end - behind,
                                    tagged.len() - behind,
                                ));
                                assert(before.subrange(end as int, before.len() as int)
                                    =~= before.subrange(behind as int, before.len() as int).subrange(
                                    end - behind,
                                    before.len() - behind,
                                ));
                            }
                        }
                        result
                    },
                }
            },
        }
    }
}

} // verus!
