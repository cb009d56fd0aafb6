//! Messages to bytes and back, and a stream of messages on top of a stream of datagrams.

use vstd::prelude::*;
use bincode::config::Configuration;
use bytes::BytesMut;
use core::marker::PhantomData;

use crate::addr::SocketAddr;
use crate::buffer::{as_slice, contents, extend, has_room, put};
use crate::error::Error;
use crate::packet::UdpPacket;
use crate::poll::Poll;
use crate::wire::WireFormat;

verus! {

/// What `decode_eof` makes of the outcome of `decode`, given whether `decode` left no byte.
pub open spec fn at_eof<T>(decoded: Result<Option<T>, Error>, drained: bool) -> Result<
    Option<T>,
    Error,
> {
    if decoded == Ok::<Option<T>, Error>(None) && !drained {
        Err(Error::BytesRemaining)
    } else {
        decoded
    }
}

/// What `decode_eof` makes of the outcome of `decode` and of the buffer that `decode` left: bytes
/// that are left without a frame are an error, as no more bytes will come.
pub fn last_frame<T>(decoded: Result<Option<T>, Error>, buf: &BytesMut) -> (out: Result<
    Option<T>,
    Error,
>)
    ensures
        out == at_eof(decoded, contents(*buf).len() == 0),
{
    match decoded {
        Ok(None) => {
            if buf.is_empty() {
                Ok(None)
            } else {
                Err(Error::BytesRemaining)
            }
        },
        decoded => decoded,
    }
}

/// Takes frames out of a buffer.
pub trait Decoder: Sized {
    /// A frame.
    type Item;

    /// Why there is no frame to take.
    type Error;

    /// Whether `decode` may turn a decoder `before` and a buffer of `bytes` into a decoder `after`
    /// and a buffer of `left`, with the result `out`.
    spec fn decodes(
        before: Self,
        bytes: Seq<u8>,
        after: Self,
        left: Seq<u8>,
        out: Result<Option<Self::Item>, Self::Error>,
    ) -> bool;

    /// Whether `decode_eof` may turn a decoder `before` and a buffer of `bytes` into a decoder
    /// `after` and a buffer of `left`, with the result `out`.
    spec fn decodes_at_eof(
        before: Self,
        bytes: Seq<u8>,
        after: Self,
        left: Seq<u8>,
        out: Result<Option<Self::Item>, Self::Error>,
    ) -> bool;

    /// Takes a frame out of `buf`, if there is a whole one.
    fn decode(&mut self, buf: &mut BytesMut) -> (out: Result<Option<Self::Item>, Self::Error>)
        ensures
            Self::decodes(
                *old(self),
                contents(*old(buf)),
                *final(self),
                contents(*final(buf)),
                out,
            ),
    ;

    /// Takes the last frame out of `buf`, behind which no more bytes will come.
    fn decode_eof(&mut self, buf: &mut BytesMut) -> (out: Result<Option<Self::Item>, Self::Error>)
        ensures
            Self::decodes_at_eof(
                *old(self),
                contents(*old(buf)),
                *final(self),
                contents(*final(buf)),
                out,
            ),
    ;
}

/// Writes frames to a buffer.
pub trait Encoder<Item>: Sized {
    /// Why a frame cannot be written.
    type Error;

    /// Whether `item` can be written behind the bytes `held` by a buffer.
    spec fn can_encode(before: Self, item: Item, held: Seq<u8>) -> bool;

    /// Whether `encode` may turn an encoder `before` and a buffer of `held` into an encoder `after`
    /// and a buffer of `written`, with the result `out`.
    spec fn encodes(
        before: Self,
        item: Item,
        held: Seq<u8>,
        after: Self,
        written: Seq<u8>,
        out: Result<(), Self::Error>,
    ) -> bool;

    /// Writes `item` to `dst`.
    fn encode(&mut self, item: Item, dst: &mut BytesMut) -> (out: Result<(), Self::Error>)
        requires
            Self::can_encode(*old(self), item, contents(*old(dst))),
        ensures
            Self::encodes(
                *old(self),
                item,
                contents(*old(dst)),
                *final(self),
                contents(*final(dst)),
                out,
            ),
    ;
}

/// What `decode` does to a buffer of `bytes`: an empty buffer holds no message; a message at the
/// front of the buffer is taken, and whatever follows it is dropped; and a buffer that does not
/// start with a message is left alone and reported.
pub open spec fn decoded<T: WireFormat>(
    bytes: Seq<u8>,
    left: Seq<u8>,
    out: Result<Option<T>, Error>,
) -> bool {
    if bytes.len() == 0 {
        out == Ok::<Option<T>, Error>(None) && left == bytes
    } else {
        match T::decoding(bytes) {
            Ok((value, _)) => {
                &&& out is Ok && out->Ok_0 is Some
                &&& out->Ok_0->0@ == value
                &&& left == Seq::<u8>::empty()
            },
            Err(error) => out == Err::<Option<T>, Error>(error) && left == bytes,
        }
    }
}

/// What `encode` does to a buffer of `held`: the encoding of the message is put behind it; a
/// message without an encoding is reported by the error that the encoding of the message gave, and
/// the buffer is left alone.
pub open spec fn encoded<T: WireFormat>(
    conf: Configuration,
    item: T,
    held: Seq<u8>,
    written: Seq<u8>,
    out: Result<(), Error>,
) -> bool {
    match T::encoding(item@) {
        Some(bytes) => out is Ok && written == held + bytes,
        None => {
            &&& out is Err && out->Err_0 is Encode
            &&& call_ensures(T::encode_to_vec, (&item, conf), Err::<Vec<u8>, Error>(out->Err_0))
            &&& written == held
        },
    }
}

/// Whether a buffer of `held` has room for the encoding of a message.
pub open spec fn fits<T: WireFormat>(item: T, held: Seq<u8>) -> bool {
    T::encoding(item@) matches Some(bytes) ==> has_room(held.len(), bytes.len())
}

/// Takes the message that a datagram carries out of `buf`.
pub fn decode<T: WireFormat>(conf: Configuration, buf: &mut BytesMut) -> (out: Result<
    Option<T>,
    Error,
>)
    ensures
        decoded::<T>(
            contents(*old(buf)),
            contents(*final(buf)),
            out,
        ),
{
    if buf.is_empty() {
        return Ok(None);
    }
    match T::decode_from_slice(as_slice(buf), conf) {
        Ok((item, _)) => {
            buf.clear();
            Ok(Some(item))
        },
        Err(error) => Err(error),
    }
}

/// Puts the encoding of a message behind the bytes in `dst`.
pub fn encode<T: WireFormat>(conf: Configuration, item: T, dst: &mut BytesMut) -> (out: Result<
    (),
    Error,
>)
    requires
        fits(item, contents(*old(dst))),
    ensures
        encoded(
            conf,
            item,
            contents(*old(dst)),
            contents(*final(dst)),
            out,
        ),
{
    match item.encode_to_vec(conf) {
        Err(error) => Err(error),
        Ok(data) => {
            extend(dst, data);
            Ok(())
        },
    }
}

/// The codec of a stream of messages: one message in each datagram.
pub struct UdpPayloadEncoderDecoder<T> {
    /// The configuration of the encoding.
    pub conf: Configuration,
    /// The type of the messages.
    pub marker: PhantomData<T>,
}

impl<T> UdpPayloadEncoderDecoder<T> {
    /// A codec with the configuration `conf`.
    pub fn new(conf: Configuration) -> (codec: Self)
        ensures
            codec.conf == conf,
    {
        UdpPayloadEncoderDecoder { conf, marker: PhantomData }
    }
}

impl<T: WireFormat> Decoder for UdpPayloadEncoderDecoder<T> {
    type Item = T;

    type Error = Error;

    open spec fn decodes(
        before: Self,
        bytes: Seq<u8>,
        after: Self,
        left: Seq<u8>,
        out: Result<Option<T>, Error>,
    ) -> bool {
        after == before && decoded::<T>(bytes, left, out)
    }

    open spec fn decodes_at_eof(
        before: Self,
        bytes: Seq<u8>,
        after: Self,
        left: Seq<u8>,
        out: Result<Option<T>, Error>,
    ) -> bool {
        after == before && exists|found: Result<Option<T>, Error>| #[trigger]
            decoded::<T>(bytes, left, found) && out == at_eof(found, left.len() == 0)
    }

    fn decode(&mut self, buf: &mut BytesMut) -> (out: Result<Option<T>, Error>) {
        self::decode(self.conf, buf)
    }

    fn decode_eof(&mut self, buf: &mut BytesMut) -> (out: Result<Option<T>, Error>) {
        let found = self::decode(self.conf, buf);
        last_frame(found, buf)
    }
}

impl<T: WireFormat> Encoder<T> for UdpPayloadEncoderDecoder<T> {
    type Error = Error;

    open spec fn can_encode(before: Self, item: T, held: Seq<u8>) -> bool {
        fits(item, held)
    }

    open spec fn encodes(
        before: Self,
        item: T,
        held: Seq<u8>,
        after: Self,
        written: Seq<u8>,
        out: Result<(), Error>,
    ) -> bool {
        after == before && encoded(before.conf, item, held, written, out)
    }

    fn encode(&mut self, item: T, dst: &mut BytesMut) -> (out: Result<(), Error>) {
        self::encode(self.conf, item, dst)
    }
}

/// A stream of messages: a stream of datagrams, and the codec for what they carry.
pub struct CodecStream<C, S> {
    /// The codec.
    pub codec: C,
    /// The stream of datagrams.
    pub stream: S,
}

impl<C, S> CodecStream<C, S> {
    /// The messages that `codec` finds in the datagrams of `stream`.
    pub fn new(codec: C, stream: S) -> (messages: Self)
        ensures
            messages.codec == codec,
            messages.stream == stream,
    {
        CodecStream { codec, stream }
    }
}

/// What a stream of messages answers to a poll on which a datagram from `addr` came: the message
/// in it, or the end of the stream if the datagram does not hold one.
pub open spec fn frame_of<T, D, E>(
    addr: SocketAddr,
    decoded: Result<Option<T>, D>,
) -> Poll<Option<Result<UdpPacket<T>, E>>> {
    match decoded {
        Ok(Some(frame)) => Poll::Ready(Some(Ok(UdpPacket { addr, payload: frame }))),
        _ => Poll::Ready(None),
    }
}

impl<C: Decoder, S> CodecStream<C, S> {
    /// What a poll of this stream gives when the poll of its stream of datagrams gave `polled`.
    /// Each datagram is decoded as one whole message. Where no datagram came, nothing has come yet,
    /// even if the stream of datagrams has ended or failed.
    pub fn poll_next<E>(&mut self, polled: Poll<Option<Result<UdpPacket<Vec<u8>>, E>>>) -> (next:
        Poll<Option<Result<UdpPacket<C::Item>, E>>>)
        ensures
            final(self).stream == old(self).stream,
            match polled {
                Poll::Ready(Some(Ok(packet))) => exists|
                    left: Seq<u8>,
                    decoded: Result<Option<C::Item>, C::Error>,
                | #[trigger]
                    C::decodes_at_eof(
                        old(self).codec,
                        packet.payload@,
                        final(self).codec,
                        left,
                        decoded,
                    ) && next == frame_of::<C::Item, C::Error, E>(packet.addr, decoded),
                _ => final(self).codec == old(self).codec && next is Pending,
            },
    {
        if let Poll::Ready(Some(Ok(packet))) = polled {
            let mut buf = BytesMut::new();
            put(&mut buf, packet.payload.as_slice());
            assert(contents(buf) =~= packet.payload@);
            let decoded = self.codec.decode_eof(&mut buf);
            assert(C::decodes_at_eof(
                old(self).codec,
                packet.payload@,
                self.codec,
                contents(buf),
                decoded,
            ));
            if let Ok(Some(frame)) = decoded {
                Poll::Ready(Some(Ok(UdpPacket::new(packet.addr, frame))))
            } else {
                Poll::Ready(None)
            }
        } else {
            Poll::Pending
        }
    }
}

impl<C, S> CodecStream<C, S> {
    /// The datagram to hand to the stream of datagrams in order to send `item`, or an error if the
    /// message in it has no encoding.
    pub fn start_send<I>(&mut self, item: UdpPacket<I>) -> (sent: Result<UdpPacket<Vec<u8>>, Error>)
        where C: Encoder<I>
        requires
            C::can_encode(old(self).codec, item.payload, Seq::empty()),
        ensures
            final(self).stream == old(self).stream,
            exists|written: Seq<u8>, out: Result<(), C::Error>| #[trigger]
                C::encodes(
                    old(self).codec,
                    item.payload,
                    Seq::empty(),
                    final(self).codec,
                    written,
                    out,
                ) && match out {
                    Ok(_) => sent is Ok && sent->Ok_0.addr == item.addr && sent->Ok_0.payload@
                        == written,
                    Err(_) => sent == Err::<UdpPacket<Vec<u8>>, Error>(Error::StartSend),
                },
    {
        let mut buf = BytesMut::new();
        let out = self.codec.encode(item.payload, &mut buf);
        assert(C::encodes(
            old(self).codec,
            item.payload,
            Seq::empty(),
            self.codec,
            contents(buf),
            out,
        ));
        if let Ok(_) = out {
            Ok(UdpPacket::new(item.addr, vstd::slice::slice_to_vec(as_slice(&buf))))
        } else {
            Err(Error::StartSend)
        }
    }
}

} // verus!
