//! Datagrams, and the messages that they carry.

use vstd::prelude::*;
use bincode::config::Configuration;

use crate::addr::{addr_encoding, parse_addr, SocketAddr};
use crate::error::{Enumeration, Error};
use crate::wire::{
    decode_number, encode_number, lemma_varint_round_trip, number_error, parse_varint, varint,
    Lossless, WireFormat,
};

verus! {

/// A payload and the address that it came from or goes to.
pub struct UdpPacket<T> {
    /// The peer's address.
    pub addr: SocketAddr,
    /// What the packet carries.
    pub payload: T,
}

impl<T> UdpPacket<T> {
    /// A packet that carries `payload` from or to `addr`.
    pub fn new(addr: SocketAddr, payload: T) -> (packet: Self)
        ensures
            packet.addr == addr,
            packet.payload == payload,
    {
        UdpPacket { addr, payload }
    }
}

impl<T: Clone> Clone for UdpPacket<T> {
    fn clone(&self) -> (packet: Self)
        ensures
            packet.addr == self.addr,
            cloned(self.payload, packet.payload),
    {
        UdpPacket { addr: self.addr, payload: self.payload.clone() }
    }
}

impl<T: View> View for UdpPacket<T> {
    type V = UdpPacket<T::V>;

    open spec fn view(&self) -> UdpPacket<T::V> {
        UdpPacket { addr: self.addr, payload: self.payload@ }
    }
}

/// A message: a request to a server, or a server's response to one.
pub enum UdpPayload<Request, Response> {
    /// A request.
    Request(Request),
    /// A response.
    Response(Response),
}

impl<Request: Clone, Response: Clone> Clone for UdpPayload<Request, Response> {
    fn clone(&self) -> (message: Self)
        ensures
            match (*self, message) {
                (UdpPayload::Request(request), UdpPayload::Request(copy)) => cloned(request, copy),
                (UdpPayload::Response(response), UdpPayload::Response(copy)) => cloned(
                    response,
                    copy,
                ),
                _ => false,
            },
    {
        match self {
            UdpPayload::Request(request) => UdpPayload::Request(request.clone()),
            UdpPayload::Response(response) => UdpPayload::Response(response.clone()),
        }
    }
}

impl<Request: View, Response: View> View for UdpPayload<Request, Response> {
    type V = UdpPayload<Request::V, Response::V>;

    open spec fn view(&self) -> UdpPayload<Request::V, Response::V> {
        match self {
            UdpPayload::Request(request) => UdpPayload::Request(request@),
            UdpPayload::Response(response) => UdpPayload::Response(response@),
        }
    }
}

/// The number that a request's encoding starts with.
pub const REQUEST_VARIANT: u32 = 0;

/// The number that a response's encoding starts with.
pub const RESPONSE_VARIANT: u32 = 1;

/// The error for a message whose encoding starts with the number of no variant.
pub open spec fn unexpected_message(found: u32) -> Error {
    Error::UnexpectedVariant {
        of: Enumeration::UdpPayload,
        min: REQUEST_VARIANT,
        max: RESPONSE_VARIANT,
        found,
    }
}

/// `body` behind the number of its variant.
pub open spec fn tagged(variant: u32, body: Option<Seq<u8>>) -> Option<Seq<u8>> {
    match body {
        Some(bytes) => Some(varint(variant as nat) + bytes),
        None => None,
    }
}

/// Encodes the number of a variant and puts `body` behind it.
fn tag(variant: u32, body: Vec<u8>, conf: Configuration) -> (out: Result<Vec<u8>, Error>)
    ensures
        out matches Ok(bytes) && Some(bytes@) == tagged(variant, Some(body@)),
{
    let mut body = body;
    match encode_number(variant, conf) {
        Ok(mut bytes) => {
            bytes.append(&mut body);
            Ok(bytes)
        },
        Err(error) => Err(Error::Encode(error)),
    }
}

/// A message is encoded as the number of its variant, followed by the encoding of what it holds.
impl<Request: WireFormat, Response: WireFormat> WireFormat for UdpPayload<Request, Response> {
    open spec fn encoding(value: UdpPayload<Request::V, Response::V>) -> Option<Seq<u8>> {
        match value {
            UdpPayload::Request(request) => tagged(REQUEST_VARIANT, Request::encoding(request)),
            UdpPayload::Response(response) => tagged(
                RESPONSE_VARIANT,
                Response::encoding(response),
            ),
        }
    }

    open spec fn decoding(bytes: Seq<u8>) -> Result<
        (UdpPayload<Request::V, Response::V>, nat),
        Error,
    > {
        match parse_varint(bytes, 4) {
            Err(malformation) => Err(Error::Decode(malformation, number_error(bytes))),
            Ok((variant, at)) => if variant == REQUEST_VARIANT {
                match Request::decoding(bytes.skip(at as int)) {
                    Ok((request, read)) => Ok((UdpPayload::Request(request), at + read)),
                    Err(error) => Err(error),
                }
            } else if variant == RESPONSE_VARIANT {
                match Response::decoding(bytes.skip(at as int)) {
                    Ok((response, read)) => Ok((UdpPayload::Response(response), at + read)),
                    Err(error) => Err(error),
                }
            } else {
                Err(unexpected_message(variant as u32))
            },
        }
    }

    fn encode_to_vec(&self, conf: Configuration) -> (out: Result<Vec<u8>, Error>) {
        match self {
            UdpPayload::Request(request) => match request.encode_to_vec(conf) {
                Ok(body) => tag(REQUEST_VARIANT, body, conf),
                Err(error) => Err(error),
            },
            UdpPayload::Response(response) => match response.encode_to_vec(conf) {
                Ok(body) => tag(RESPONSE_VARIANT, body, conf),
                Err(error) => Err(error),
            },
        }
    }

    fn decode_from_slice(bytes: &[u8], conf: Configuration) -> (out: Result<(Self, usize), Error>) {
        let (variant, at) = match decode_number(bytes, conf) {
            Ok(found) => found,
            Err((malformation, error)) => return Err(Error::Decode(malformation, error)),
        };
        let rest = vstd::slice::slice_subrange(bytes, at, bytes.len());
        assert(rest@ =~= bytes@.skip(at as int));
        if variant == REQUEST_VARIANT {
            match Request::decode_from_slice(rest, conf) {
                Ok((request, read)) => Ok((UdpPayload::Request(request), at + read)),
                Err(error) => Err(error),
            }
        } else if variant == RESPONSE_VARIANT {
            match Response::decode_from_slice(rest, conf) {
                Ok((response, read)) => Ok((UdpPayload::Response(response), at + read)),
                Err(error) => Err(error),
            }
        } else {
            Err(
                Error::UnexpectedVariant {
                    of: Enumeration::UdpPayload,
                    min: REQUEST_VARIANT,
                    max: RESPONSE_VARIANT,
                    found: variant,
                },
            )
        }
    }
}

impl<Request: Lossless, Response: Lossless> Lossless for UdpPayload<Request, Response> {
    proof fn round_trip(value: UdpPayload<Request::V, Response::V>, rest: Seq<u8>) {
        let (variant, body) = match value {
            UdpPayload::Request(request) => (REQUEST_VARIANT, Request::encoding(request)->0),
            UdpPayload::Response(response) => (RESPONSE_VARIANT, Response::encoding(response)->0),
        };
        let head = varint(variant as nat);
        let bytes = head + body + rest;
        lemma_varint_round_trip(variant as nat, 4, body + rest);
        assert(bytes =~= head + (body + rest));
        assert(bytes.skip(head.len() as int) =~= body + rest);
        match value {
            UdpPayload::Request(request) => Request::round_trip(request, rest),
            UdpPayload::Response(response) => Response::round_trip(response, rest),
        }
    }
}

/// A packet is encoded as its address, followed by the encoding of what it carries.
impl<T: WireFormat> WireFormat for UdpPacket<T> {
    open spec fn encoding(value: UdpPacket<T::V>) -> Option<Seq<u8>> {
        match T::encoding(value.payload) {
            Some(body) => Some(addr_encoding(value.addr) + body),
            None => None,
        }
    }

    open spec fn decoding(bytes: Seq<u8>) -> Result<(UdpPacket<T::V>, nat), Error> {
        match parse_addr(bytes) {
            Err(error) => Err(error),
            Ok((addr, at)) => match T::decoding(bytes.skip(at as int)) {
                Ok((payload, read)) => Ok((UdpPacket { addr, payload }, at + read)),
                Err(error) => Err(error),
            },
        }
    }

    fn encode_to_vec(&self, conf: Configuration) -> (out: Result<Vec<u8>, Error>) {
        match (self.addr.encode_to_vec(conf), self.payload.encode_to_vec(conf)) {
            (Ok(mut bytes), Ok(mut body)) => {
                bytes.append(&mut body);
                Ok(bytes)
            },
            (Err(error), _) => Err(error),
            (_, Err(error)) => Err(error),
        }
    }

    fn decode_from_slice(bytes: &[u8], conf: Configuration) -> (out: Result<(Self, usize), Error>) {
        let (addr, at) = match SocketAddr::decode_from_slice(bytes, conf) {
            Ok(found) => found,
            Err(error) => return Err(error),
        };
        let rest = vstd::slice::slice_subrange(bytes, at, bytes.len());
        assert(rest@ =~= bytes@.skip(at as int));
        match T::decode_from_slice(rest, conf) {
            Ok((payload, read)) => Ok((UdpPacket::new(addr, payload), at + read)),
            Err(error) => Err(error),
        }
    }
}

} // verus!
