//! The echo service.

use vstd::prelude::*;
use bincode::config::Configuration;
use core::marker::PhantomData;

use crate::error::Error;
use crate::text::echo_reply;
use crate::wire::{Lossless, WireFormat};

verus! {

/// A service, as it is seen through a layer that lets requests and responses pass.
pub struct CryptService<S, IN, OUT> {
    /// The service.
    pub inner: S,
    /// The type of the requests.
    pub req: PhantomData<IN>,
    /// The type of the responses.
    pub resp: PhantomData<OUT>,
}

impl<S: Clone, IN, OUT> Clone for CryptService<S, IN, OUT> {
    fn clone(&self) -> (service: Self)
        ensures
            cloned(self.inner, service.inner),
    {
        CryptService { inner: self.inner.clone(), req: PhantomData, resp: PhantomData }
    }
}

impl<S, IN, OUT> CryptService<S, IN, OUT> {
    /// Answers a request by `inner_call`, a call of the service.
    pub fn call<F, E>(req: IN, inner_call: F) -> (response: Result<OUT, E>) where
        F: FnOnce(IN) -> Result<OUT, E>,

        requires
            inner_call.requires((req,)),
        ensures
            inner_call.ensures((req,), response),
    {
        inner_call(req)
    }
}

/// A layer that lets requests and responses pass.
pub struct CryptLayer<IN, OUT> {
    /// The type of the requests.
    pub req: PhantomData<IN>,
    /// The type of the responses.
    pub resp: PhantomData<OUT>,
}

impl<IN, OUT> CryptLayer<IN, OUT> {
    /// The layer.
    pub fn new() -> (layer: Self)
        ensures
            layer == (CryptLayer::<IN, OUT> { req: PhantomData, resp: PhantomData }),
    {
        CryptLayer { req: PhantomData, resp: PhantomData }
    }

    /// The layer around a service.
    pub fn layer<S>(&self, inner: S) -> (service: CryptService<S, IN, OUT>)
        ensures
            service.inner == inner,
    {
        CryptService { inner, req: PhantomData, resp: PhantomData }
    }
}

/// A request to the echo service.
pub struct EchoRequest(pub String);

impl Clone for EchoRequest {
    fn clone(&self) -> (copy: Self)
        ensures
            copy@ == self@,
    {
        EchoRequest(self.0.clone())
    }
}

/// A response of the echo service.
pub struct EchoResponse(pub String);

impl Clone for EchoResponse {
    fn clone(&self) -> (copy: Self)
        ensures
            copy@ == self@,
    {
        EchoResponse(self.0.clone())
    }
}

impl View for EchoRequest {
    type V = Seq<char>;

    open spec fn view(&self) -> Seq<char> {
        self.0@
    }
}

impl View for EchoResponse {
    type V = Seq<char>;

    open spec fn view(&self) -> Seq<char> {
        self.0@
    }
}

/// A request is encoded as its text.
impl WireFormat for EchoRequest {
    open spec fn encoding(value: Seq<char>) -> Option<Seq<u8>> {
        String::encoding(value)
    }

    open spec fn decoding(bytes: Seq<u8>) -> Result<(Seq<char>, nat), Error> {
        String::decoding(bytes)
    }

    fn encode_to_vec(&self, conf: Configuration) -> (out: Result<Vec<u8>, Error>) {
        self.0.encode_to_vec(conf)
    }

    fn decode_from_slice(bytes: &[u8], conf: Configuration) -> (out: Result<(Self, usize), Error>) {
        match String::decode_from_slice(bytes, conf) {
            Ok((text, read)) => Ok((EchoRequest(text), read)),
            Err(error) => Err(error),
        }
    }
}

impl Lossless for EchoRequest {
    proof fn round_trip(value: Seq<char>, rest: Seq<u8>) {
        String::round_trip(value, rest);
    }
}

/// A response is encoded as its text.
impl WireFormat for EchoResponse {
    open spec fn encoding(value: Seq<char>) -> Option<Seq<u8>> {
        String::encoding(value)
    }

    open spec fn decoding(bytes: Seq<u8>) -> Result<(Seq<char>, nat), Error> {
        String::decoding(bytes)
    }

    fn encode_to_vec(&self, conf: Configuration) -> (out: Result<Vec<u8>, Error>) {
        self.0.encode_to_vec(conf)
    }

    fn decode_from_slice(bytes: &[u8], conf: Configuration) -> (out: Result<(Self, usize), Error>) {
        match String::decode_from_slice(bytes, conf) {
            Ok((text, read)) => Ok((EchoResponse(text), read)),
            Err(error) => Err(error),
        }
    }
}

impl Lossless for EchoResponse {
    proof fn round_trip(value: Seq<char>, rest: Seq<u8>) {
        String::round_trip(value, rest);
    }
}

/// A service that repeats what its clients say.
#[derive(Clone, Copy)]
pub struct EchoService;

impl EchoService {
    /// Answers a request.
    pub fn call(&self, req: EchoRequest) -> (response: EchoResponse)
        ensures
            response@ == "client says: "@ + req@,
    {
        EchoResponse(echo_reply(req.0.as_str()))
    }
}

} // verus!
