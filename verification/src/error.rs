//! Errors of the codec.

use vstd::prelude::*;
use bincode::error::{DecodeError, EncodeError};

verus! {

/// The error of `bincode` when a value has no encoding.
#[verifier::external_type_specification]
#[verifier::external_body]
pub struct ExEncodeError(EncodeError);

/// The error of `bincode` when bytes decode to no value.
#[verifier::external_type_specification]
#[verifier::external_body]
pub struct ExDecodeError(DecodeError);

/// A kind of integer that the start of an encoding can announce.
#[derive(Clone, Copy, Debug, PartialEq, Eq, Structural)]
pub enum IntegerType {
    /// One of 32 bits.
    U32,
    /// One of 64 bits.
    U64,
    /// One of 128 bits.
    U128,
    /// None: the announcement has no meaning.
    Reserved,
}

/// What is wrong with bytes that are no encoding.
#[derive(Clone, Copy, Debug, PartialEq, Eq, Structural)]
pub enum Malformation {
    /// They end too early for what is to be read next.
    UnexpectedEnd {
        /// How many bytes are missing.
        additional: usize,
    },
    /// They announce an integer that is too wide for the one that is to be read.
    InvalidIntegerType(IntegerType),
    /// They announce more bytes than the machine can address.
    OutsideUsizeRange(u64),
    /// What should be a text is not UTF-8.
    Utf8 {
        /// How many bytes of it are.
        valid_up_to: usize,
    },
    /// Anything else.
    Other,
}

/// A type whose encoding starts with the number of a variant.
#[derive(Clone, Copy, Debug, PartialEq, Eq, Structural)]
pub enum Enumeration {
    /// `UdpPayload`.
    UdpPayload,
    /// `SocketAddr`.
    SocketAddr,
}

/// What can go wrong between a message and the bytes of a datagram.
#[derive(Debug)]
pub enum Error {
    /// The message has no encoding.
    Encode(EncodeError),
    /// The bytes are no encoding of a value of the wanted type: what is wrong with them, and the
    /// error in which `bincode` says so.
    Decode(Malformation, DecodeError),
    /// The bytes hold the number of a variant that the wanted type does not have.
    UnexpectedVariant {
        /// The wanted type.
        of: Enumeration,
        /// The lowest number of a variant of that type.
        min: u32,
        /// The highest one; every number in between has a variant, too.
        max: u32,
        /// The number that was found.
        found: u32,
    },
    /// The end of the input came with bytes left that make up no frame.
    BytesRemaining,
    /// The message could not be handed to the stream.
    StartSend,
}

impl Error {
    /// The text of an error of this library; the encoding has texts of its own.
    pub fn text(&self) -> (text: Option<&'static str>)
        ensures
            match self {
                Error::BytesRemaining => text is Some && text->0@ == "bytes remaining on stream"@,
                Error::StartSend => text is Some && text->0@ == "start send error"@,
                _ => text is None,
            },
    {
        match self {
            Error::BytesRemaining => Some("bytes remaining on stream"),
            Error::StartSend => Some("start send error"),
            _ => None,
        }
    }
}

} // verus!
