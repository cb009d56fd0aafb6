//! Requests in, responses out.

use vstd::prelude::*;
use core::marker::PhantomData;

use crate::addr::SocketAddr;
use crate::packet::{UdpPacket, UdpPayload};

verus! {

/// Why a packet gets no response.
pub enum ServiceError<E> {
    /// It holds a response, which a server does not handle.
    UnhandledResponse,
    /// The service failed on the request in it.
    Inner(E),
}

impl<E> ServiceError<E> {
    /// The text of an error of this library; the service has texts of its own.
    pub fn text(&self) -> (text: Option<&'static str>)
        ensures
            match self {
                ServiceError::UnhandledResponse => text is Some && text->0@
                    == "doesn't handle  UdpPayload::Response "@,
                ServiceError::Inner(_) => text is None,
            },
    {
        match self {
            ServiceError::UnhandledResponse => Some("doesn't handle  UdpPayload::Response "),
            ServiceError::Inner(_) => None,
        }
    }
}

/// A service for requests, as a service for packets with messages.
pub struct RequestHandlerService<S, IN, OUT> {
    /// The service for requests.
    pub inner: S,
    /// The type of the requests.
    pub req: PhantomData<IN>,
    /// The type of the responses.
    pub resp: PhantomData<OUT>,
}

/// The address to answer to and the request that a packet holds, or the error that it gets if it
/// holds a response.
pub open spec fn request_in<IN, OUT, E>(req: UdpPacket<UdpPayload<IN, OUT>>) -> Result<
    (SocketAddr, IN),
    ServiceError<E>,
> {
    match req.payload {
        UdpPayload::Request(inner_req) => Ok((req.addr, inner_req)),
        UdpPayload::Response(_) => Err(ServiceError::UnhandledResponse),
    }
}

/// What the client at `addr` gets when the service's outcome was `out`.
pub open spec fn response_to<IN, OUT, E>(addr: SocketAddr, out: Result<OUT, E>) -> Result<
    UdpPacket<UdpPayload<IN, OUT>>,
    ServiceError<E>,
> {
    match out {
        Ok(response) => Ok(UdpPacket { addr, payload: UdpPayload::Response(response) }),
        Err(error) => Err(ServiceError::Inner(error)),
    }
}

impl<S, IN, OUT> RequestHandlerService<S, IN, OUT> {
    /// Serves packets by `inner`.
    pub fn new(inner: S) -> (service: Self)
        ensures
            service.inner == inner,
    {
        RequestHandlerService { inner, req: PhantomData, resp: PhantomData }
    }

    /// The request in a packet and the address to answer to, or an error if the packet holds a
    /// response.
    pub fn request<E>(req: UdpPacket<UdpPayload<IN, OUT>>) -> (request: Result<
        (SocketAddr, IN),
        ServiceError<E>,
    >)
        ensures
            request == request_in::<IN, OUT, E>(req),
    {
        match req.payload {
            UdpPayload::Request(inner_req) => Ok((req.addr, inner_req)),
            UdpPayload::Response(_) => Err(ServiceError::UnhandledResponse),
        }
    }

    /// The packet for the client at `addr` when the service's outcome was `out`.
    pub fn respond<E>(addr: SocketAddr, out: Result<OUT, E>) -> (response: Result<
        UdpPacket<UdpPayload<IN, OUT>>,
        ServiceError<E>,
    >)
        ensures
            response == response_to::<IN, OUT, E>(addr, out),
    {
        match out {
            Ok(response) => Ok(UdpPacket::new(addr, UdpPayload::Response(response))),
            Err(error) => Err(ServiceError::Inner(error)),
        }
    }

    /// Answers a packet. `inner_call` is a call of the service for requests; it is made for a
    /// request, and for nothing else.
    pub fn call<F, E>(req: UdpPacket<UdpPayload<IN, OUT>>, inner_call: F) -> (response: Result<
        UdpPacket<UdpPayload<IN, OUT>>,
        ServiceError<E>,
    >) where F: FnOnce(IN) -> Result<OUT, E>
        requires
            req.payload matches UdpPayload::Request(inner_req) ==> inner_call.requires((inner_req,)),
        ensures
            match request_in::<IN, OUT, E>(req) {
                Ok((addr, inner_req)) => exists|out: Result<OUT, E>| #[trigger]
                    inner_call.ensures((inner_req,), out) && response == response_to::<IN, OUT, E>(
                        addr,
                        out,
                    ),
                Err(error) => response == Err::<UdpPacket<UdpPayload<IN, OUT>>, ServiceError<E>>(
                    error,
                ),
            },
    {
        match Self::request(req) {
            Ok((addr, inner_req)) => {
                let out = inner_call(inner_req);
                Self::respond(addr, out)
            },
            Err(error) => Err(error),
        }
    }
}

} // verus!
