//! A plainer stream of datagrams: packets are pairs, tasks have no end, clients are never
//! forgotten, and a datagram that does not decode is no error of the codec.

use vstd::prelude::*;
use bincode::config::Configuration;
use bytes::BytesMut;
use core::marker::PhantomData;

use crate::addr::SocketAddr;
use crate::buffer::{as_slice, contents, put};
use crate::codec::{at_eof, encoded, fits, last_frame, Decoder, Encoder};
use crate::error::Error;
use crate::poll::Poll;
use crate::router::{ClientConnRouter, ClientConnsMsg};
use crate::stream::Received;
use crate::wire::WireFormat;

pub use crate::packet::UdpPayload;

verus! {

/// How many bytes a read takes at most.
pub const BUF_SIZE: usize = 1500;

/// A buffer for one read.
pub fn read_buffer() -> (buf: BytesMut)
    ensures
        contents(buf) == Seq::new(BUF_SIZE as nat, |i: int| 0u8),
{
    BytesMut::zeroed(BUF_SIZE)
}

/// A stream of datagrams: where the packets from the connections arrive, and where the packets for
/// them are queued.
pub struct DtlsConnStream<R, T> {
    /// The end of the queue at which packets arrive.
    pub rx1: R,
    /// The end of the queue to which packets are sent.
    pub tx2: T,
}

impl<R, T> DtlsConnStream<R, T> {
    /// A client's stream over one connection.
    pub fn new_client(rx1: R, tx2: T) -> (stream: Self)
        ensures
            stream.rx1 == rx1,
            stream.tx2 == tx2,
    {
        DtlsConnStream { rx1, tx2 }
    }

    /// A server's stream over the connections that it will accept, with the router of the packets
    /// that go out.
    pub fn new_server<V>(rx1: R, tx2: T) -> (stream: (Self, ClientConnRouter<V>))
        ensures
            stream.0.rx1 == rx1,
            stream.0.tx2 == tx2,
            stream.1.well_formed(),
            stream.1@ == Map::<SocketAddr, V>::empty(),
    {
        (DtlsConnStream { rx1, tx2 }, ClientConnRouter::new())
    }

    /// What a server tells its router about a connection that it has accepted from `addr`.
    pub fn accept<V, A>(addr: SocketAddr, queue: V) -> (msg: ClientConnsMsg<V, A>)
        ensures
            msg == ClientConnsMsg::<V, A>::Insert(addr, queue),
    {
        ClientConnsMsg::Insert(addr, queue)
    }

    /// What a server asks its router about a packet that goes out.
    pub fn lookup<V, A>(packet: &(Vec<u8>, SocketAddr), to: A) -> (msg: ClientConnsMsg<V, A>)
        ensures
            msg == ClientConnsMsg::<V, A>::Get(packet.1, to),
    {
        ClientConnsMsg::Get(packet.1, to)
    }

    /// The packet that a reading task hands to the stream for a read on the connection to `addr`.
    pub fn received(read: &Received, addr: SocketAddr) -> (packet: (Vec<u8>, SocketAddr))
        requires
            read.well_formed(),
        ensures
            packet.0@ == read@,
            packet.0@.len() == read.len,
            forall|i: int| 0 <= i < read.len ==> #[trigger] packet.0@[i] == contents(read.buf)[i],
            packet.1 == addr,
    {
        (read.to_vec(), addr)
    }

    /// The datagram that a writing task sends for what its queue gave: none if the queue has
    /// ended, in which case the task asks it again.
    pub fn datagram(queued: Option<(Vec<u8>, SocketAddr)>) -> (datagram: Option<Vec<u8>>)
        ensures
            datagram == match queued {
                Some(packet) => Some(packet.0),
                None => None,
            },
    {
        match queued {
            None => None,
            Some(packet) => Some(packet.0),
        }
    }

    /// What a poll of this stream gives when the poll of its queue gave `polled`: the same.
    pub fn poll_next<I>(&self, polled: Poll<Option<I>>) -> (next: Poll<Option<I>>)
        ensures
            next == polled,
    {
        match polled {
            Poll::Ready(None) => Poll::Ready(None),
            Poll::Ready(Some(packet)) => Poll::Ready(Some(packet)),
            Poll::Pending => Poll::Pending,
        }
    }

    /// The queue takes any number of packets, so the stream is always ready for one.
    pub fn poll_ready<E>(&self) -> (ready: Poll<Result<(), E>>)
        ensures
            ready == Poll::Ready(Ok::<(), E>(())),
    {
        Poll::Ready(Ok(()))
    }

    /// Nothing is held back, so there is nothing to flush.
    pub fn poll_flush<E>(&self) -> (flushed: Poll<Result<(), E>>)
        ensures
            flushed == Poll::Ready(Ok::<(), E>(())),
    {
        Poll::Ready(Ok(()))
    }

    /// There is nothing to do before the stream is dropped.
    pub fn poll_close<E>(&self) -> (ended: Poll<Result<(), E>>)
        ensures
            ended == Poll::Ready(Ok::<(), E>(())),
    {
        Poll::Ready(Ok(()))
    }
}

/// What `decode` does to a buffer of `bytes`: an empty buffer holds no message; a message at the
/// front of the buffer is taken, and whatever follows it is dropped; and a buffer that does not
/// start with a message is left alone.
pub open spec fn decoded<T: WireFormat>(
    bytes: Seq<u8>,
    left: Seq<u8>,
    out: Result<Option<T>, Error>,
) -> bool {
    match T::decoding(bytes) {
        Ok((value, _)) if bytes.len() > 0 => {
            &&& out is Ok && out->Ok_0 is Some
            &&& out->Ok_0->0@ == value
            &&& left == Seq::<u8>::empty()
        },
        _ => out == Ok::<Option<T>, Error>(None) && left == bytes,
    }
}

/// Takes the message that a datagram carries out of `buf`.
pub fn decode<T: WireFormat>(conf: Configuration, buf: &mut BytesMut) -> (out: Result<
    Option<T>,
    Error,
>)
    ensures
        decoded::<T>(
            contents(*old(buf)),
            contents(*final(buf)),
            out,
        ),
{
    if buf.is_empty() {
        return Ok(None);
    }
    let item = match T::decode_from_slice(as_slice(buf), conf) {
        Err(_) => None,
        Ok((item, _)) => {
            buf.clear();
            Some(item)
        },
    };
    Ok(item)
}

/// The error that the decoding of a datagram of `bytes` drops, if it drops one: a program may want
/// to show it.
pub fn dropped_error<T: WireFormat>(conf: Configuration, bytes: &[u8]) -> (dropped: Option<Error>)
    ensures
        dropped == match T::decoding(bytes@) {
            Err(error) if bytes@.len() > 0 => Some(error),
            _ => None,
        },
{
    if bytes.len() == 0 {
        return None;
    }
    match T::decode_from_slice(bytes, conf) {
        Err(error) => Some(error),
        Ok(_) => None,
    }
}

/// Puts the encoding of a message behind the bytes in `dst`.
pub fn encode<T: WireFormat>(conf: Configuration, item: T, dst: &mut BytesMut) -> (out: Result<
    (),
    Error,
>)
    requires
        fits(item, contents(*old(dst))),
    ensures
        encoded(
            conf,
            item,
            contents(*old(dst)),
            contents(*final(dst)),
            out,
        ),
{
    crate::codec::encode(conf, item, dst)
}

/// The codec of a stream of messages: one message in each datagram.
pub struct UdpPayloadEncoderDecoder<T> {
    /// The configuration of the encoding.
    pub conf: Configuration,
    /// The type of the messages.
    pub marker: PhantomData<T>,
}

impl<T> UdpPayloadEncoderDecoder<T> {
    /// A codec with the configuration `conf`.
    pub fn new(conf: Configuration) -> (codec: Self)
        ensures
            codec.conf == conf,
    {
        UdpPayloadEncoderDecoder { conf, marker: PhantomData }
    }
}

impl<T: WireFormat> Decoder for UdpPayloadEncoderDecoder<T> {
    type Item = T;

    type Error = Error;

    open spec fn decodes(
        before: Self,
        bytes: Seq<u8>,
        after: Self,
        left: Seq<u8>,
        out: Result<Option<T>, Error>,
    ) -> bool {
        after == before && decoded::<T>(bytes, left, out)
    }

    open spec fn decodes_at_eof(
        before: Self,
        bytes: Seq<u8>,
        after: Self,
        left: Seq<u8>,
        out: Result<Option<T>, Error>,
    ) -> bool {
        after == before && exists|found: Result<Option<T>, Error>| #[trigger]
            decoded::<T>(bytes, left, found) && out == at_eof(found, left.len() == 0)
    }

    fn decode(&mut self, buf: &mut BytesMut) -> (out: Result<Option<T>, Error>) {
        self::decode(self.conf, buf)
    }

    fn decode_eof(&mut self, buf: &mut BytesMut) -> (out: Result<Option<T>, Error>) {
        let found = self::decode(self.conf, buf);
        last_frame(found, buf)
    }
}

/// This codec is only asked to encode messages that have an encoding.
impl<T: WireFormat> Encoder<T> for UdpPayloadEncoderDecoder<T> {
    type Error = Error;

    open spec fn can_encode(before: Self, item: T, held: Seq<u8>) -> bool {
        T::encoding(item@) is Some && fits(item, held)
    }

    open spec fn encodes(
        before: Self,
        item: T,
        held: Seq<u8>,
        after: Self,
        written: Seq<u8>,
        out: Result<(), Error>,
    ) -> bool {
        after == before && out is Ok && written == held + T::encoding(item@)->0
    }

    fn encode(&mut self, item: T, dst: &mut BytesMut) -> (out: Result<(), Error>) {
        self::encode(self.conf, item, dst)
    }
}

/// A stream of messages: a stream of datagrams, and the codec for what they carry.
pub struct CodecStream<C, S> {
    /// The codec.
    pub codec: C,
    /// The stream of datagrams.
    pub stream: S,
}

impl<C, S> CodecStream<C, S> {
    /// The messages that `codec` finds in the datagrams of `stream`.
    pub fn new(codec: C, stream: S) -> (messages: Self)
        ensures
            messages.codec == codec,
            messages.stream == stream,
    {
        CodecStream { codec, stream }
    }
}

/// What a stream of messages answers to a poll on which a datagram from `addr` came: the message
/// in it, or the end of the stream if the datagram does not hold one.
pub open spec fn frame_of<T, D, E>(
    decoded: Result<Option<T>, D>,
    addr: SocketAddr,
) -> Poll<Option<Result<(T, SocketAddr), E>>> {
    match decoded {
        Ok(Some(frame)) => Poll::Ready(Some(Ok((frame, addr)))),
        _ => Poll::Ready(None),
    }
}

impl<C: Decoder, S> CodecStream<C, S> {
    /// What a poll of this stream gives when the poll of its stream of datagrams gave `polled`.
    /// Each datagram is decoded as one whole message. Where no datagram came, nothing has come yet,
    /// even if the stream of datagrams has ended or failed.
    pub fn poll_next<E>(&mut self, polled: Poll<Option<Result<(Vec<u8>, SocketAddr), E>>>) -> (next:
        Poll<Option<Result<(C::Item, SocketAddr), E>>>)
        ensures
            final(self).stream == old(self).stream,
            match polled {
                Poll::Ready(Some(Ok(packet))) => exists|
                    left: Seq<u8>,
                    decoded: Result<Option<C::Item>, C::Error>,
                | #[trigger]
                    C::decodes_at_eof(
                        old(self).codec,
                        packet.0@,
                        final(self).codec,
                        left,
                        decoded,
                    ) && next == frame_of::<C::Item, C::Error, E>(decoded, packet.1),
                _ => final(self).codec == old(self).codec && next is Pending,
            },
    {
        if let Poll::Ready(Some(Ok((datagram, addr)))) = polled {
            let mut buf = BytesMut::new();
            put(&mut buf, datagram.as_slice());
            assert(contents(buf) =~= datagram@);
            let decoded = self.codec.decode_eof(&mut buf);
            assert(C::decodes_at_eof(
                old(self).codec,
                datagram@,
                self.codec,
                contents(buf),
                decoded,
            ));
            if let Ok(Some(frame)) = decoded {
                Poll::Ready(Some(Ok((frame, addr))))
            } else {
                Poll::Ready(None)
            }
        } else {
            Poll::Pending
        }
    }
}

impl<C, S> CodecStream<C, S> {
    /// The datagram to hand to the stream of datagrams in order to send `item`, or an error if the
    /// message in it has no encoding.
    pub fn start_send<I>(&mut self, item: (I, SocketAddr)) -> (sent: Result<
        (Vec<u8>, SocketAddr),
        Error,
    >) where C: Encoder<I>
        requires
            C::can_encode(old(self).codec, item.0, Seq::empty()),
        ensures
            final(self).stream == old(self).stream,
            exists|written: Seq<u8>, out: Result<(), C::Error>| #[trigger]
                C::encodes(old(self).codec, item.0, Seq::empty(), final(self).codec, written, out)
                    && match out {
                    Ok(_) => sent is Ok && (sent->Ok_0).1 == item.1 && (sent->Ok_0).0@ == written,
                    Err(_) => sent == Err::<(Vec<u8>, SocketAddr), Error>(Error::StartSend),
                },
    {
        let mut buf = BytesMut::new();
        let out = self.codec.encode(item.0, &mut buf);
        assert(C::encodes(
            old(self).codec,
            item.0,
            Seq::empty(),
            self.codec,
            contents(buf),
            out,
        ));
        if let Ok(_) = out {
            Ok((vstd::slice::slice_to_vec(as_slice(&buf)), item.1))
        } else {
            Err(Error::StartSend)
        }
    }
}

} // verus!
