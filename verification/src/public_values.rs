//! The public values that the guest commits, and their Solidity-ABI layout.
//!
//! The layout is the tuple `(uint32 n, uint32 n_squared)`: each number fills a
//! 32-byte word, big-endian, with the 28 high bytes zero; the two words follow
//! each other in declaration order, 64 bytes in all.

use crate::base256::{
    lemma_digits_give_value, lemma_value_gives_digits, spec_digit, spec_from_digits,
};
use vstd::prelude::*;

verus! {

/// Bytes in one ABI word.
pub const WORD_LEN: usize = 32;

/// Bytes of a `uint32` inside its word; the bytes before them are padding.
pub const UINT32_LEN: usize = 4;

/// Bytes in an encoded `PublicValuesStruct`.
pub const PUBLIC_VALUES_LEN: usize = 64;

/// What the guest commits: its input and the input's wrapping square.
#[derive(Clone, Copy, Debug, PartialEq, Eq, Structural)]
pub struct PublicValuesStruct {
    pub n: u32,
    pub n_squared: u32,
}

/// Why a blob is not the encoding of any `PublicValuesStruct`.
#[derive(Clone, Copy, Debug, PartialEq, Eq, Structural)]
pub enum MalformedPublicValues {
    /// The blob is not exactly 64 bytes long.
    WrongLength,
    /// One of the 28 high bytes of a word is not zero.
    NonZeroPadding,
}

/// `n * n` reduced modulo 2^32.
pub open spec fn spec_squared(n: u32) -> u32 {
    ((n as int * n as int) % 0x1_0000_0000) as u32
}

/// The four bytes of `value`, most significant first.
pub open spec fn spec_be_bytes(value: u32) -> Seq<u8> {
    seq![spec_digit(value, 3), spec_digit(value, 2), spec_digit(value, 1), spec_digit(value, 0)]
}

/// The number whose big-endian bytes are `b0 b1 b2 b3`.
pub open spec fn spec_from_be_bytes(b0: u8, b1: u8, b2: u8, b3: u8) -> u32 {
    spec_from_digits(b3, b2, b1, b0) as u32
}

/// The 32-byte ABI word of a `uint32`: 28 zero bytes, then the value.
pub open spec fn spec_abi_word(value: u32) -> Seq<u8> {
    Seq::new(28, |i: int| 0u8) + spec_be_bytes(value)
}

/// The 64-byte ABI encoding of `(n, n_squared)`.
pub open spec fn spec_abi_encode(values: PublicValuesStruct) -> Seq<u8> {
    spec_abi_word(values.n) + spec_abi_word(values.n_squared)
}

/// The 28 padding bytes of the word that starts at `start` are all zero.
pub open spec fn spec_padding_is_zero(data: Seq<u8>, start: int) -> bool {
    forall|i: int| start <= i < start + 28 ==> data[i] == 0
}

/// The `uint32` held in the last four bytes of the word that starts at `start`.
pub open spec fn spec_word_value(data: Seq<u8>, start: int) -> u32 {
    spec_from_be_bytes(data[start + 28], data[start + 29], data[start + 30], data[start + 31])
}

/// What decoding `data` gives: the struct, or the reason why there is none.
pub open spec fn spec_abi_decode(data: Seq<u8>) -> Result<
    PublicValuesStruct,
    MalformedPublicValues,
> {
    if data.len() != 64 {
        Err(MalformedPublicValues::WrongLength)
    } else if !(spec_padding_is_zero(data, 0) && spec_padding_is_zero(data, 32)) {
        Err(MalformedPublicValues::NonZeroPadding)
    } else {
        Ok(
            PublicValuesStruct {
                n: spec_word_value(data, 0),
                n_squared: spec_word_value(data, 32),
            },
        )
    }
}

/// Reading back the big-endian bytes of a number gives the number.
pub proof fn lemma_be_bytes_value(value: u32)
    ensures
        spec_be_bytes(value).len() == 4,
        spec_from_be_bytes(
            spec_be_bytes(value)[0],
            spec_be_bytes(value)[1],
            spec_be_bytes(value)[2],
            spec_be_bytes(value)[3],
        ) == value,
{
    lemma_digits_give_value(value);
}

/// Writing out the number read from four bytes gives the four bytes.
pub proof fn lemma_value_be_bytes(b0: u8, b1: u8, b2: u8, b3: u8)
    ensures
        spec_be_bytes(spec_from_be_bytes(b0, b1, b2, b3)) == seq![b0, b1, b2, b3],
{
    lemma_value_gives_digits(b3, b2, b1, b0);
}

/// Every encoding is exactly 64 bytes long.
pub proof fn lemma_encoding_width(values: PublicValuesStruct)
    ensures
        spec_abi_encode(values).len() == 64,
{
}

/// Decoding an encoding gives back the struct that was encoded.
pub proof fn lemma_decode_encode(values: PublicValuesStruct)
    ensures
        spec_abi_decode(spec_abi_encode(values)) == Ok::<
            PublicValuesStruct,
            MalformedPublicValues,
        >(values),
{
    lemma_be_bytes_value(values.n);
    lemma_be_bytes_value(values.n_squared);
}

/// The round trip for what the guest commits: for every input `n`, decoding
/// the encoding of `(n, n * n mod 2^32)` gives `(n, n * n mod 2^32)`.
pub proof fn lemma_round_trip_of_square(n: u32)
    ensures
        spec_abi_decode(
            spec_abi_encode((PublicValuesStruct { n, n_squared: spec_squared(n) })),
        ) == Ok::<PublicValuesStruct, MalformedPublicValues>(
            (PublicValuesStruct { n, n_squared: spec_squared(n) }),
        ),
{
    lemma_decode_encode(PublicValuesStruct { n, n_squared: spec_squared(n) });
}

/// A blob that decodes is the encoding of what it decodes to.
pub proof fn lemma_encode_decode(data: Seq<u8>)
    requires
        spec_abi_decode(data) is Ok,
    ensures
        spec_abi_encode(spec_abi_decode(data)->Ok_0) == data,
{
    lemma_value_be_bytes(data[28], data[29], data[30], data[31]);
    lemma_value_be_bytes(data[60], data[61], data[62], data[63]);
}

impl PublicValuesStruct {
    /// The values are what the guest commits for some input: the second is
    /// the wrapping square of the first.
    pub open spec fn is_square_pair(self) -> bool {
        self.n_squared == spec_squared(self.n)
    }

    /// The public values for the input `n`.
    pub fn from_input(n: u32) -> (values: PublicValuesStruct)
        ensures
            values.n == n,
            values.n_squared == spec_squared(n),
            values.is_square_pair(),
    {
        PublicValuesStruct { n, n_squared: n.wrapping_mul(n) }
    }

    /// Tells whether the second value is the wrapping square of the first.
    pub fn check_square_pair(&self) -> (consistent: bool)
        ensures
            consistent == self.is_square_pair(),
    {
        self.n_squared == self.n.wrapping_mul(self.n)
    }

    /// Encodes the values as two ABI words.
    pub fn abi_encode(&self) -> (bytes: Vec<u8>)
        ensures
            bytes@ == spec_abi_encode(*self),
            bytes@.len() == 64,
    {
        let mut bytes: Vec<u8> = Vec::new();
        push_abi_word(&mut bytes, self.n);
        push_abi_word(&mut bytes, self.n_squared);
        bytes
    }

    /// Decodes a blob, accepting exactly the 64-byte blobs whose padding is
    /// zero.
    pub fn abi_decode(data: &[u8]) -> (decoded: Result<PublicValuesStruct, MalformedPublicValues>)
        ensures
            decoded == spec_abi_decode(data@),
            decoded is Ok <==> data@.len() == 64 && spec_padding_is_zero(data@, 0)
                && spec_padding_is_zero(data@, 32),
            decoded == Err::<PublicValuesStruct, MalformedPublicValues>(
                MalformedPublicValues::WrongLength,
            ) <==> data@.len() != 64,
            decoded == Err::<PublicValuesStruct, MalformedPublicValues>(
                MalformedPublicValues::NonZeroPadding,
            ) <==> data@.len() == 64 && !(spec_padding_is_zero(data@, 0) && spec_padding_is_zero(
                data@,
                32,
            )),
            decoded matches Ok(values) ==> spec_abi_encode(values) == data@,
    {
        if data.len() != PUBLIC_VALUES_LEN {
            return Err(MalformedPublicValues::WrongLength);
        }
        if !(padding_is_zero(data, 0) && padding_is_zero(data, WORD_LEN)) {
            return Err(MalformedPublicValues::NonZeroPadding);
        }
        let values = PublicValuesStruct {
            n: word_value(data, 0),
            n_squared: word_value(data, WORD_LEN),
        };
        proof {
            lemma_encode_decode(data@);
        }
        Ok(values)
    }
}

/// Appends the ABI word of `value` to `out`.
fn push_abi_word(out: &mut Vec<u8>, value: u32)
    ensures
        final(out)@ == old(out)@ + spec_abi_word(value),
{
    let ghost before = out@;
    let mut i: usize = 0;
    while i < WORD_LEN - UINT32_LEN
        invariant
            i <= 28,
            out@ == before + Seq::new(i as nat, |k: int| 0u8),
        decreases 28 - i,
    {
        out.push(0u8);
        i = i + 1;
    }
    out.push((value / 0x100_0000) as u8);
    out.push((value / 0x1_0000 % 0x100) as u8);
    out.push((value / 0x100 % 0x100) as u8);
    out.push((value % 0x100) as u8);
}

/// Tells whether the 28 padding bytes of the word at `start` are zero.
fn padding_is_zero(data: &[u8], start: usize) -> (zero: bool)
    requires
        start + 32 <= data@.len() <= usize::MAX,
    ensures
        zero == spec_padding_is_zero(data@, start as int),
{
    let mut i: usize = 0;
    while i < WORD_LEN - UINT32_LEN
        invariant
            i <= 28,
            start + 32 <= data@.len() <= usize::MAX,
            forall|k: int| start <= k < start + i ==> data@[k] == 0,
        decreases 28 - i,
    {
        if data[start + i] != 0 {
            return false;
        }
        i = i + 1;
    }
    true
}

/// Reads the `uint32` in the last four bytes of the word at `start`.
fn word_value(data: &[u8], start: usize) -> (value: u32)
    requires
        start + 32 <= data@.len() <= usize::MAX,
    ensures
        value == spec_word_value(data@, start as int),
{
    let b0 = data[start + 28] as u32;
    let b1 = data[start + 29] as u32;
    let b2 = data[start + 30] as u32;
    let b3 = data[start + 31] as u32;
    b0 * 0x100_0000 + b1 * 0x1_0000 + b2 * 0x100 + b3
}

} // verus!
