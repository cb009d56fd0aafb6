//! The client's side of a request.

use vstd::prelude::*;
use core::marker::PhantomData;

use crate::addr::SocketAddr;
use crate::packet::{UdpPacket, UdpPayload};
use crate::poll::Poll;

verus! {

/// Why a request got no response.
pub enum ClientError<E> {
    /// A request came where a response was due.
    ExpectedResponse,
    /// The stream failed.
    Stream(E),
}

impl<E> ClientError<E> {
    /// The text of an error of this library; the stream has texts of its own.
    pub fn text(&self) -> (text: Option<&'static str>)
        ensures
            match self {
                ClientError::ExpectedResponse => text is Some && text->0@ == "expected response"@,
                ClientError::Stream(_) => text is None,
            },
    {
        match self {
            ClientError::ExpectedResponse => Some("expected response"),
            ClientError::Stream(_) => None,
        }
    }
}

/// A client that sends requests on a stream of messages and waits for the responses.
pub struct DtlsClient<S, I, O> {
    /// The stream of messages.
    pub inner: S,
    /// The address that is put on the requests.
    pub addr: SocketAddr,
    /// The type of the requests.
    pub i: PhantomData<I>,
    /// The type of the responses.
    pub o: PhantomData<O>,
}

/// What waiting for a response gives when the poll of the stream gave `polled`: the first message
/// settles it, and the end of the stream does not.
pub open spec fn awaited<I, O, E>(
    polled: Poll<Option<Result<UdpPacket<UdpPayload<I, O>>, E>>>,
) -> Poll<Result<O, ClientError<E>>> {
    match polled {
        Poll::Ready(Some(Ok(packet))) => match packet.payload {
            UdpPayload::Request(_) => Poll::Ready(Err(ClientError::ExpectedResponse)),
            UdpPayload::Response(response) => Poll::Ready(Ok(response)),
        },
        Poll::Ready(Some(Err(error))) => Poll::Ready(Err(ClientError::Stream(error))),
        _ => Poll::Pending,
    }
}

impl<S, I, O> DtlsClient<S, I, O> {
    /// A client on `stream`.
    pub fn new(stream: S, addr: SocketAddr) -> (client: Self)
        ensures
            client.inner == stream,
            client.addr == addr,
    {
        DtlsClient { inner: stream, addr, i: PhantomData, o: PhantomData }
    }

    /// The packet that `send_recv` sends for a request.
    pub fn send_recv_packet(&self, req: I) -> (packet: UdpPacket<UdpPayload<I, O>>)
        ensures
            packet.addr == self.addr,
            packet.payload == UdpPayload::<I, O>::Request(req),
    {
        UdpPacket::new(self.addr, UdpPayload::Request(req))
    }

    /// What `send_recv`, once its request is sent, makes of a poll of the stream that gave
    /// `polled`.
    pub fn send_recv_poll<E>(
        &self,
        polled: Poll<Option<Result<UdpPacket<UdpPayload<I, O>>, E>>>,
    ) -> (outcome: Poll<Result<O, ClientError<E>>>)
        ensures
            outcome == awaited(polled),
    {
        match polled {
            Poll::Ready(arrived) => match arrived {
                None => Poll::Pending,
                Some(Ok(packet)) => match packet.payload {
                    UdpPayload::Request(_) => Poll::Ready(Err(ClientError::ExpectedResponse)),
                    UdpPayload::Response(response) => Poll::Ready(Ok(response)),
                },
                Some(Err(error)) => Poll::Ready(Err(ClientError::Stream(error))),
            },
            Poll::Pending => Poll::Pending,
        }
    }
}

} // verus!
