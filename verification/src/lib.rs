//! Request and response messages over DTLS datagrams.

pub mod addr;
pub mod buffer;
pub mod client;
pub mod codec;
pub mod echo;
pub mod error;
pub mod laws;
pub mod layout;
pub mod packet;
pub mod poll;
pub mod router;
pub mod service;
pub mod stream;
pub mod text;
pub mod udp;
pub mod wire;
