//! The encoding of messages as bytes.
//!
//! Numbers, lengths and texts are encoded by `bincode` in its standard configuration: numbers have
//! a variable length, in little endian order, and a text is the number of its UTF-8 bytes followed
//! by those bytes.

use vstd::prelude::*;
use vstd::utf8::{decode_utf8, encode_utf8, valid_utf8};
use bincode::config::Configuration;
use bincode::error::IntegerType as Outside;
use bincode::error::{DecodeError, EncodeError};

use crate::error::{Error, IntegerType, Malformation};

verus! {

/// The configuration of `bincode`.
#[verifier::external_type_specification]
#[verifier::external_body]
#[verifier::reject_recursive_types(E)]
#[verifier::reject_recursive_types(I)]
#[verifier::reject_recursive_types(L)]
pub struct ExConfiguration<E, I, L>(Configuration<E, I, L>);

/// The byte order of the standard configuration.
#[verifier::external_type_specification]
#[verifier::external_body]
pub struct ExLittleEndian(bincode::config::LittleEndian);

/// The encoding of numbers in the standard configuration.
#[verifier::external_type_specification]
#[verifier::external_body]
pub struct ExVarint(bincode::config::Varint);

/// The size limit, which the standard configuration does not have.
#[verifier::external_type_specification]
#[verifier::external_body]
pub struct ExNoLimit(bincode::config::NoLimit);

/// The `width` low bytes of `n`, least significant byte first.
pub open spec fn le_bytes(n: nat, width: nat) -> Seq<u8>
    decreases width,
{
    if width == 0 {
        Seq::empty()
    } else {
        seq![(n % 256) as u8] + le_bytes(n / 256, (width - 1) as nat)
    }
}

/// The number that `bytes` stand for, least significant byte first.
pub open spec fn le_value(bytes: Seq<u8>) -> nat
    decreases bytes.len(),
{
    if bytes.len() == 0 {
        0
    } else {
        bytes[0] as nat + 256 * le_value(bytes.drop_first())
    }
}

/// The variable length encoding of a number below `2^64`.
pub open spec fn varint(n: nat) -> Seq<u8> {
    if n < 251 {
        seq![n as u8]
    } else if n < 0x1_0000 {
        seq![251u8] + le_bytes(n, 2)
    } else if n < 0x1_0000_0000 {
        seq![252u8] + le_bytes(n, 4)
    } else {
        seq![253u8] + le_bytes(n, 8)
    }
}

/// The number that stands in the `width` bytes behind the first byte of `bytes`, and how many
/// bytes it takes up with that first byte.
pub open spec fn fixed_int(bytes: Seq<u8>, width: nat) -> Result<(nat, nat), Malformation> {
    if bytes.len() < 1 + width {
        Err(Malformation::UnexpectedEnd { additional: (1 + width - bytes.len()) as usize })
    } else {
        Ok((le_value(bytes.subrange(1, 1 + width as int)), 1 + width))
    }
}

/// The number of at most `width` bytes whose variable length encoding `bytes` starts with, and
/// how many bytes that encoding takes up. No number is narrower than two bytes.
pub open spec fn parse_varint(bytes: Seq<u8>, width: nat) -> Result<(nat, nat), Malformation> {
    if bytes.len() == 0 {
        Err(Malformation::UnexpectedEnd { additional: 1 })
    } else if bytes[0] < 251 {
        Ok((bytes[0] as nat, 1))
    } else if bytes[0] == 251 {
        fixed_int(bytes, 2)
    } else if bytes[0] == 252 {
        if width >= 4 {
            fixed_int(bytes, 4)
        } else {
            Err(Malformation::InvalidIntegerType(IntegerType::U32))
        }
    } else if bytes[0] == 253 {
        if width >= 8 {
            fixed_int(bytes, 8)
        } else {
            Err(Malformation::InvalidIntegerType(IntegerType::U64))
        }
    } else if bytes[0] == 254 {
        Err(Malformation::InvalidIntegerType(IntegerType::U128))
    } else {
        Err(Malformation::InvalidIntegerType(IntegerType::Reserved))
    }
}

/// The encoding of a text.
pub open spec fn text_encoding(text: Seq<char>) -> Seq<u8> {
    varint(encode_utf8(text).len()) + encode_utf8(text)
}

/// How many of the first `n` bytes are UTF-8 from the start on.
pub open spec fn valid_prefix(bytes: Seq<u8>, n: nat) -> nat
    decreases n,
{
    if n == 0 || valid_utf8(bytes.take(n as int)) {
        n
    } else {
        valid_prefix(bytes, (n - 1) as nat)
    }
}

/// The text whose encoding `bytes` starts with, and how many bytes that encoding takes up.
pub open spec fn parse_text(bytes: Seq<u8>) -> Result<(Seq<char>, nat), Malformation> {
    match parse_varint(bytes, 8) {
        Err(malformation) => Err(malformation),
        Ok((len, at)) => if len > usize::MAX {
            Err(Malformation::OutsideUsizeRange(len as u64))
        } else if at + len > bytes.len() {
            Err(Malformation::UnexpectedEnd { additional: (at + len - bytes.len()) as usize })
        } else {
            let utf8 = bytes.subrange(at as int, (at + len) as int);
            if valid_utf8(utf8) {
                Ok((decode_utf8(utf8), at + len))
            } else {
                Err(Malformation::Utf8 { valid_up_to: valid_prefix(utf8, len) as usize })
            }
        },
    }
}

/// The error of `bincode::decode_from_slice` for a `u32` on bytes that start with none.
pub uninterp spec fn number_error(bytes: Seq<u8>) -> DecodeError;

/// The error of `bincode::decode_from_slice` for a `u16` on bytes that start with none.
pub uninterp spec fn port_error(bytes: Seq<u8>) -> DecodeError;

/// The error of `bincode::decode_from_slice` for an array of `len` bytes on fewer bytes.
pub uninterp spec fn octets_error(bytes: Seq<u8>, len: nat) -> DecodeError;

/// The error of `bincode::borrow_decode_from_slice` for a text on bytes that start with none, where
/// an address has `usize_bits` bits.
pub uninterp spec fn text_error(bytes: Seq<u8>, usize_bits: nat) -> DecodeError;

/// `bincode::encode_to_vec` on a `u32`: never fails, and gives the variable length encoding of
/// the number.
#[verifier::external_body]
pub(crate) fn encode_number(number: u32, conf: Configuration) -> (out: Result<Vec<u8>, EncodeError>)
    ensures
        out is Ok,
        out->Ok_0@ == varint(number as nat),
{
    bincode::encode_to_vec(number, conf)
}

/// `bincode::encode_to_vec` on a text: never fails, and gives the length of the text's UTF-8 form
/// and that form.
#[verifier::external_body]
pub(crate) fn encode_text(text: &str, conf: Configuration) -> (out: Result<Vec<u8>, EncodeError>)
    ensures
        out is Ok,
        out->Ok_0@ == text_encoding(text@),
{
    bincode::encode_to_vec(text, conf)
}

/// `bincode::decode_from_slice` for a `u32`: reads one number of variable length from the front of
/// `bytes` and tells how many bytes it read, or fails if there is none or it is wider than 32 bits.
/// The kind of the failure is told, and the error is named by the bytes.
#[verifier::external_body]
pub(crate) fn decode_number(bytes: &[u8], conf: Configuration) -> (out: Result<
    (u32, usize),
    (Malformation, DecodeError),
>)
    ensures
        match parse_varint(bytes@, 4) {
            Ok((number, read)) => out matches Ok(found) && found.0 == number && found.1 == read,
            Err(malformation) => out matches Err(error) && error.0 == malformation && error.1
                == number_error(bytes@),
        },
{
    match bincode::decode_from_slice(bytes, conf) {
        Ok(found) => Ok(found),
        Err(error) => Err((match &error {
            DecodeError::UnexpectedEnd { additional: n } => Malformation::UnexpectedEnd { additional: *n },
            DecodeError::InvalidIntegerType { found: Outside::U64, .. } =>
                Malformation::InvalidIntegerType(IntegerType::U64),
            DecodeError::InvalidIntegerType { found: Outside::U128, .. } =>
                Malformation::InvalidIntegerType(IntegerType::U128),
            DecodeError::InvalidIntegerType { found: Outside::Reserved, .. } =>
                Malformation::InvalidIntegerType(IntegerType::Reserved),
            _ => Malformation::Other,
        }, error)),
    }
}

/// `bincode::borrow_decode_from_slice` for a text: reads a length and as many bytes of UTF-8 from
/// the front of `bytes` and tells how many bytes it read, or fails if there is no length, if
/// `bytes` is shorter than that, or if those bytes are not UTF-8. The text is read in place: a
/// length beyond the end of `bytes` is refused before anything is allocated for it. The kind of the
/// failure is told, with the number of UTF-8 bytes before the first that is not
/// (`Utf8Error::valid_up_to`), and the error is named by the bytes and the width of an address.
#[verifier::external_body]
pub(crate) fn decode_text(bytes: &[u8], conf: Configuration) -> (out: Result<
    (&str, usize),
    (Malformation, DecodeError),
>)
    ensures
        match parse_text(bytes@) {
            Ok((text, read)) => out matches Ok(found) && found.0@ == text && found.1 == read,
            Err(malformation) => out matches Err(error) && error.0 == malformation && error.1
                == text_error(bytes@, usize::BITS as nat),
        },
{
    match bincode::borrow_decode_from_slice(bytes, conf) {
        Ok(found) => Ok(found),
        Err(error) => Err((match &error {
            DecodeError::UnexpectedEnd { additional: n } => Malformation::UnexpectedEnd { additional: *n },
            DecodeError::InvalidIntegerType { found: Outside::U128, .. } =>
                Malformation::InvalidIntegerType(IntegerType::U128),
            DecodeError::InvalidIntegerType { found: Outside::Reserved, .. } =>
                Malformation::InvalidIntegerType(IntegerType::Reserved),
            DecodeError::OutsideUsizeRange(len) => Malformation::OutsideUsizeRange(*len),
            DecodeError::Utf8 { inner } => Malformation::Utf8 { valid_up_to: inner.valid_up_to() },
            _ => Malformation::Other,
        }, error)),
    }
}

/// `bincode::encode_to_vec` on a `u16`: never fails, and gives the variable length encoding of the
/// number.
#[verifier::external_body]
pub(crate) fn encode_port(port: u16, conf: Configuration) -> (out: Result<Vec<u8>, EncodeError>)
    ensures
        out is Ok,
        out->Ok_0@ == varint(port as nat),
{
    bincode::encode_to_vec(port, conf)
}

/// `bincode::decode_from_slice` for a `u16`: reads one number of variable length from the front of
/// `bytes` and tells how many bytes it read, or fails if there is none or it is wider than 16 bits.
/// The kind of the failure is told, and the error is named by the bytes.
#[verifier::external_body]
pub(crate) fn decode_port(bytes: &[u8], conf: Configuration) -> (out: Result<
    (u16, usize),
    (Malformation, DecodeError),
>)
    ensures
        match parse_varint(bytes@, 2) {
            Ok((port, read)) => out matches Ok(found) && found.0 == port && found.1 == read,
            Err(malformation) => out matches Err(error) && error.0 == malformation && error.1
                == port_error(bytes@),
        },
{
    match bincode::decode_from_slice(bytes, conf) {
        Ok(found) => Ok(found),
        Err(error) => Err((match &error {
            DecodeError::UnexpectedEnd { additional: n } => Malformation::UnexpectedEnd { additional: *n },
            DecodeError::InvalidIntegerType { found: Outside::U32, .. } =>
                Malformation::InvalidIntegerType(IntegerType::U32),
            DecodeError::InvalidIntegerType { found: Outside::U64, .. } =>
                Malformation::InvalidIntegerType(IntegerType::U64),
            DecodeError::InvalidIntegerType { found: Outside::U128, .. } =>
                Malformation::InvalidIntegerType(IntegerType::U128),
            DecodeError::InvalidIntegerType { found: Outside::Reserved, .. } =>
                Malformation::InvalidIntegerType(IntegerType::Reserved),
            _ => Malformation::Other,
        }, error)),
    }
}

/// `bincode::decode_from_slice` for an array of bytes: takes as many bytes as the array has from the
/// front of `bytes` and tells how many these are, or fails if `bytes` is shorter than that. The array
/// stands on the stack, so it has to be small. The error is named by the bytes and the length of the
/// array.
#[verifier::external_body]
pub(crate) fn decode_octets<const N: usize>(bytes: &[u8], conf: Configuration) -> (out: Result<
    ([u8; N], usize),
    (Malformation, DecodeError),
>)
    requires
        N <= 16,
    ensures
        if bytes@.len() < N {
            out matches Err(error) && error.0 == (Malformation::UnexpectedEnd {
                additional: (N - bytes@.len()) as usize,
            }) && error.1 == octets_error(bytes@, N as nat)
        } else {
            out matches Ok(found) && found.0@ == bytes@.take(N as int) && found.1 == N
        },
{
    match bincode::decode_from_slice(bytes, conf) {
        Ok(found) => Ok(found),
        Err(error) => Err((match &error {
            DecodeError::UnexpectedEnd { additional: n } => Malformation::UnexpectedEnd { additional: *n },
            _ => Malformation::Other,
        }, error)),
    }
}

/// A value that can be the body of a datagram.
pub trait WireFormat: Sized + View {
    /// The bytes that stand for a value, if it has an encoding.
    spec fn encoding(value: Self::V) -> Option<Seq<u8>>;

    /// The value whose encoding `bytes` starts with, and how many bytes that encoding takes up, or
    /// the error if there is none.
    spec fn decoding(bytes: Seq<u8>) -> Result<(Self::V, nat), Error>;

    /// Encodes the value.
    fn encode_to_vec(&self, conf: Configuration) -> (out: Result<Vec<u8>, Error>)
        ensures
            match Self::encoding(self@) {
                Some(bytes) => out matches Ok(written) && written@ == bytes,
                None => out matches Err(error) && error is Encode,
            },
    ;

    /// Decodes a value from the front of `bytes`, and tells how many bytes it took up.
    fn decode_from_slice(bytes: &[u8], conf: Configuration) -> (out: Result<(Self, usize), Error>)
        ensures
            match Self::decoding(bytes@) {
                Ok((value, read)) => out matches Ok(found) && found.0@ == value && found.1 == read
                    && read <= bytes@.len(),
                Err(error) => out == Err::<(Self, usize), Error>(error),
            },
    ;
}

/// A value of which nothing is lost in its encoding.
pub trait Lossless: WireFormat {
    /// An encoding is read back whatever follows it.
    proof fn round_trip(value: Self::V, rest: Seq<u8>)
        requires
            Self::encoding(value) is Some,
        ensures
            Self::decoding(Self::encoding(value)->0 + rest) == Ok::<_, Error>(
                (value, Self::encoding(value)->0.len()),
            ),
    ;
}

impl WireFormat for String {
    open spec fn encoding(value: Seq<char>) -> Option<Seq<u8>> {
        if encode_utf8(value).len() <= usize::MAX {
            Some(text_encoding(value))
        } else {
            None
        }
    }

    open spec fn decoding(bytes: Seq<u8>) -> Result<(Seq<char>, nat), Error> {
        match parse_text(bytes) {
            Ok(found) => Ok(found),
            Err(malformation) => Err(
                Error::Decode(malformation, text_error(bytes, usize::BITS as nat)),
            ),
        }
    }

    fn encode_to_vec(&self, conf: Configuration) -> (out: Result<Vec<u8>, Error>) {
        let utf8 = self.as_str().as_bytes();
        assert(utf8.len() == encode_utf8(self@).len());
        match encode_text(self.as_str(), conf) {
            Ok(bytes) => Ok(bytes),
            Err(error) => Err(Error::Encode(error)),
        }
    }

    fn decode_from_slice(bytes: &[u8], conf: Configuration) -> (out: Result<(String, usize), Error>) {
        match decode_text(bytes, conf) {
            Ok((text, read)) => Ok((text.to_owned(), read)),
            Err((malformation, error)) => Err(Error::Decode(malformation, error)),
        }
    }
}

impl Lossless for String {
    proof fn round_trip(value: Seq<char>, rest: Seq<u8>) {
        lemma_text_round_trip(value, rest);
    }
}

/// Reading back what `le_bytes` wrote gives the number.
proof fn lemma_le_round_trip(n: nat, width: nat)
    requires
        n < vstd::arithmetic::power::pow(256, width),
    ensures
        le_bytes(n, width).len() == width,
        le_value(le_bytes(n, width)) == n,
    decreases width,
{
    if width == 0 {
        vstd::arithmetic::power::lemma_pow0(256);
    } else {
        let rest = (width - 1) as nat;
        vstd::arithmetic::power::lemma_pow_adds(256, 1, rest);
        vstd::arithmetic::power::lemma_pow1(256);
        let p = vstd::arithmetic::power::pow(256, rest);
        assert(n / 256 < p) by (nonlinear_arith)
            requires
                (n as int) < 256 * p,
        ;
        lemma_le_round_trip(n / 256, rest);
        assert(le_bytes(n, width).drop_first() =~= le_bytes(n / 256, rest));
    }
}

/// A number's variable length encoding is read back whatever follows it.
pub proof fn lemma_varint_round_trip(n: nat, width: nat, rest: Seq<u8>)
    requires
        width == 2 && n <= u16::MAX || width == 4 && n <= u32::MAX || width == 8 && n <= u64::MAX,
    ensures
        parse_varint(varint(n) + rest, width) == Ok::<_, Malformation>((n, varint(n).len())),
{
    reveal_with_fuel(vstd::arithmetic::power::pow, 9);
    let k: nat = if n < 0x1_0000 {
        2
    } else if n < 0x1_0000_0000 {
        4
    } else {
        8
    };
    if n >= 251 {
        lemma_le_round_trip(n, k);
        assert((varint(n) + rest).subrange(1, 1 + k as int) =~= le_bytes(n, k));
    }
}

/// A text's encoding is read back whatever follows it.
pub proof fn lemma_text_round_trip(text: Seq<char>, rest: Seq<u8>)
    requires
        encode_utf8(text).len() <= usize::MAX,
    ensures
        parse_text(text_encoding(text) + rest) == Ok::<_, Malformation>(
            (text, text_encoding(text).len()),
        ),
{
    let utf8 = encode_utf8(text);
    let head = varint(utf8.len());
    let bytes = text_encoding(text) + rest;
    lemma_varint_round_trip(utf8.len(), 8, utf8 + rest);
    assert(bytes =~= head + (utf8 + rest));
    assert(bytes.subrange(head.len() as int, (head.len() + utf8.len()) as int) =~= utf8);
    vstd::utf8::encode_utf8_valid_utf8(text);
    vstd::utf8::encode_utf8_decode_utf8(text);
}

} // verus!
