//! Addresses of datagram peers.

use vstd::prelude::*;
use vstd::arithmetic::power::pow;
use bincode::config::Configuration;

use crate::error::{Enumeration, Error, Malformation};
use crate::wire::{
    decode_number, decode_octets, decode_port, encode_number, encode_port, lemma_varint_round_trip,
    number_error, octets_error, parse_varint, port_error, varint, WireFormat,
};

verus! {

/// The address of a peer: its IP address as a number in network order, and what goes with it.
#[derive(Clone, Copy, Debug, PartialEq, Eq, Hash, Structural)]
pub enum SocketAddr {
    /// An IPv4 address and a port.
    V4 { ipv4: u32, port: u16 },
    /// An IPv6 address, a port, and the flow and scope that qualify it.
    V6 { ipv6: u128, port: u16, flowinfo: u32, scope_id: u32 },
}

impl View for SocketAddr {
    type V = SocketAddr;

    open spec fn view(&self) -> SocketAddr {
        *self
    }
}

impl SocketAddr {
    /// The address without a flow and a scope.
    pub open spec fn unqualified(self) -> SocketAddr {
        match self {
            SocketAddr::V4 { .. } => self,
            SocketAddr::V6 { ipv6, port, .. } => SocketAddr::V6 {
                ipv6,
                port,
                flowinfo: 0,
                scope_id: 0,
            },
        }
    }
}

/// The number that an IPv4 address's encoding starts with.
pub const V4_VARIANT: u32 = 0;

/// The number that an IPv6 address's encoding starts with.
pub const V6_VARIANT: u32 = 1;

/// The error for an address whose encoding starts with the number of no variant.
pub open spec fn unexpected_addr(found: u32) -> Error {
    Error::UnexpectedVariant {
        of: Enumeration::SocketAddr,
        min: V4_VARIANT,
        max: V6_VARIANT,
        found,
    }
}

/// The `width` low bytes of `n`, most significant byte first.
pub open spec fn be_bytes(n: nat, width: nat) -> Seq<u8>
    decreases width,
{
    if width == 0 {
        Seq::empty()
    } else {
        be_bytes(n / 256, (width - 1) as nat).push((n % 256) as u8)
    }
}

/// The number that `bytes` stand for, most significant byte first.
pub open spec fn be_value(bytes: Seq<u8>) -> nat
    decreases bytes.len(),
{
    if bytes.len() == 0 {
        0
    } else {
        256 * be_value(bytes.drop_last()) + bytes.last() as nat
    }
}

/// The encoding of an address: the number of its variant, the bytes of its IP address in network
/// order, and its port.
pub open spec fn addr_encoding(addr: SocketAddr) -> Seq<u8> {
    match addr {
        SocketAddr::V4 { ipv4, port } => varint(V4_VARIANT as nat) + be_bytes(ipv4 as nat, 4)
            + varint(port as nat),
        SocketAddr::V6 { ipv6, port, .. } => varint(V6_VARIANT as nat) + be_bytes(ipv6 as nat, 16)
            + varint(port as nat),
    }
}

/// The IP address of `width` bytes and the port behind it that `bytes` starts with, and how many
/// bytes these take up.
pub open spec fn parse_endpoint(bytes: Seq<u8>, width: nat) -> Result<
    (nat, nat, nat),
    Error,
> {
    if bytes.len() < width {
        Err(
            Error::Decode(
                Malformation::UnexpectedEnd { additional: (width - bytes.len()) as usize },
                octets_error(bytes, width),
            ),
        )
    } else {
        match parse_varint(bytes.skip(width as int), 2) {
            Ok((port, read)) => Ok((be_value(bytes.take(width as int)), port, width + read)),
            Err(malformation) => Err(
                Error::Decode(malformation, port_error(bytes.skip(width as int))),
            ),
        }
    }
}

/// The address whose encoding `bytes` starts with, and how many bytes that encoding takes up.
pub open spec fn parse_addr(bytes: Seq<u8>) -> Result<(SocketAddr, nat), Error> {
    match parse_varint(bytes, 4) {
        Err(malformation) => Err(Error::Decode(malformation, number_error(bytes))),
        Ok((variant, at)) => if variant == V4_VARIANT {
            match parse_endpoint(bytes.skip(at as int), 4) {
                Ok((ip, port, read)) => Ok(
                    (SocketAddr::V4 { ipv4: ip as u32, port: port as u16 }, at + read),
                ),
                Err(error) => Err(error),
            }
        } else if variant == V6_VARIANT {
            match parse_endpoint(bytes.skip(at as int), 16) {
                Ok((ip, port, read)) => Ok(
                    (
                        SocketAddr::V6 {
                            ipv6: ip as u128,
                            port: port as u16,
                            flowinfo: 0,
                            scope_id: 0,
                        },
                        at + read,
                    ),
                ),
                Err(error) => Err(error),
            }
        } else {
            Err(unexpected_addr(variant as u32))
        },
    }
}

/// The `width` low bytes of `ip`, most significant byte first.
fn octets(ip: u128, width: usize) -> (bytes: Vec<u8>)
    ensures
        bytes@ == be_bytes(ip as nat, width as nat),
    decreases width,
{
    if width == 0 {
        Vec::new()
    } else {
        let mut bytes = octets(ip / 256, width - 1);
        bytes.push((ip % 256) as u8);
        bytes
    }
}

/// The number that `bytes` stand for, most significant byte first.
fn number(bytes: &[u8]) -> (ip: u128)
    requires
        bytes@.len() <= 16,
    ensures
        ip == be_value(bytes@),
{
    let mut ip: u128 = 0;
    let mut i: usize = 0;
    while i < bytes.len()
        invariant
            i <= bytes@.len() <= 16,
            ip == be_value(bytes@.take(i as int)),
        decreases bytes@.len() - i,
    {
        let ghost read = bytes@.take(i + 1);
        assert(read.drop_last() =~= bytes@.take(i as int));
        proof {
            lemma_be_bound(read);
            vstd::arithmetic::power::lemma_pow_increases(256, read.len(), 16);
            lemma_powers();
        }
        ip = 256 * ip + bytes[i] as u128;
        i = i + 1;
    }
    assert(bytes@.take(i as int) =~= bytes@);
    ip
}

/// Encodes the number of a variant, an IP address of `width` bytes, and a port.
fn encode_endpoint(variant: u32, ip: u128, width: usize, port: u16, conf: Configuration) -> (out:
    Result<Vec<u8>, Error>)
    ensures
        out is Ok,
        out->Ok_0@ == varint(variant as nat) + be_bytes(ip as nat, width as nat) + varint(
            port as nat,
        ),
{
    match (encode_number(variant, conf), encode_port(port, conf)) {
        (Ok(mut bytes), Ok(mut behind)) => {
            let mut ip_bytes = octets(ip, width);
            bytes.append(&mut ip_bytes);
            bytes.append(&mut behind);
            Ok(bytes)
        },
        (Err(error), _) => Err(Error::Encode(error)),
        (_, Err(error)) => Err(Error::Encode(error)),
    }
}

/// Decodes an IP address of `N` bytes and a port, and tells how many bytes they took up.
fn decode_endpoint<const N: usize>(bytes: &[u8], conf: Configuration) -> (out: Result<
    (u128, u16, usize),
    Error,
>)
    requires
        N <= 16,
    ensures
        match parse_endpoint(bytes@, N as nat) {
            Ok((ip, port, read)) => out matches Ok(found) && found.0 == ip && found.1 == port
                && found.2 == read && read <= bytes@.len(),
            Err(error) => out == Err::<(u128, u16, usize), Error>(error),
        },
{
    let (ip_bytes, at) = match decode_octets::<N>(bytes, conf) {
        Ok(found) => found,
        Err((malformation, error)) => return Err(Error::Decode(malformation, error)),
    };
    let behind = vstd::slice::slice_subrange(bytes, at, bytes.len());
    assert(behind@ =~= bytes@.skip(N as int));
    match decode_port(behind, conf) {
        Ok((port, read)) => Ok((number(ip_bytes.as_slice()), port, at + read)),
        Err((malformation, error)) => Err(Error::Decode(malformation, error)),
    }
}

/// An address is encoded without its flow and its scope.
impl WireFormat for SocketAddr {
    open spec fn encoding(value: SocketAddr) -> Option<Seq<u8>> {
        Some(addr_encoding(value))
    }

    open spec fn decoding(bytes: Seq<u8>) -> Result<(SocketAddr, nat), Error> {
        parse_addr(bytes)
    }

    fn encode_to_vec(&self, conf: Configuration) -> (out: Result<Vec<u8>, Error>) {
        match *self {
            SocketAddr::V4 { ipv4, port } => encode_endpoint(
                V4_VARIANT,
                ipv4 as u128,
                4,
                port,
                conf,
            ),
            SocketAddr::V6 { ipv6, port, .. } => encode_endpoint(V6_VARIANT, ipv6, 16, port, conf),
        }
    }

    fn decode_from_slice(bytes: &[u8], conf: Configuration) -> (out: Result<(Self, usize), Error>) {
        let (variant, at) = match decode_number(bytes, conf) {
            Ok(found) => found,
            Err((malformation, error)) => return Err(Error::Decode(malformation, error)),
        };
        let rest = vstd::slice::slice_subrange(bytes, at, bytes.len());
        assert(rest@ =~= bytes@.skip(at as int));
        if variant == V4_VARIANT {
            match decode_endpoint::<4>(rest, conf) {
                Ok((ip, port, read)) => {
                    proof {
                        lemma_be_bound(rest@.take(4));
                        lemma_powers();
                    }
                    Ok((SocketAddr::V4 { ipv4: ip as u32, port }, at + read))
                },
                Err(error) => Err(error),
            }
        } else if variant == V6_VARIANT {
            match decode_endpoint::<16>(rest, conf) {
                Ok((ipv6, port, read)) => Ok(
                    (SocketAddr::V6 { ipv6, port, flowinfo: 0, scope_id: 0 }, at + read),
                ),
                Err(error) => Err(error),
            }
        } else {
            Err(
                Error::UnexpectedVariant {
                    of: Enumeration::SocketAddr,
                    min: V4_VARIANT,
                    max: V6_VARIANT,
                    found: variant,
                },
            )
        }
    }
}

proof fn lemma_powers()
    ensures
        pow(256, 4) == 0x1_0000_0000,
        pow(256, 16) == u128::MAX + 1,
{
    reveal_with_fuel(pow, 17);
}

/// As many bytes as there are stand for a number that fits in them.
proof fn lemma_be_bound(bytes: Seq<u8>)
    ensures
        be_value(bytes) < pow(256, bytes.len()),
    decreases bytes.len(),
{
    if bytes.len() == 0 {
        vstd::arithmetic::power::lemma_pow0(256);
    } else {
        let rest = (bytes.len() - 1) as nat;
        lemma_be_bound(bytes.drop_last());
        vstd::arithmetic::power::lemma_pow_adds(256, 1, rest);
        vstd::arithmetic::power::lemma_pow1(256);
    }
}

/// Reading back what `be_bytes` wrote gives the number.
proof fn lemma_be_round_trip(n: nat, width: nat)
    requires
        n < pow(256, width),
    ensures
        be_bytes(n, width).len() == width,
        be_value(be_bytes(n, width)) == n,
    decreases width,
{
    if width == 0 {
        vstd::arithmetic::power::lemma_pow0(256);
    } else {
        let rest = (width - 1) as nat;
        vstd::arithmetic::power::lemma_pow_adds(256, 1, rest);
        vstd::arithmetic::power::lemma_pow1(256);
        let p = pow(256, rest);
        assert(n / 256 < p) by (nonlinear_arith)
            requires
                (n as int) < 256 * p,
        ;
        lemma_be_round_trip(n / 256, rest);
        assert(be_bytes(n, width).drop_last() =~= be_bytes(n / 256, rest));
    }
}

/// An IP address and a port are read back whatever follows them.
proof fn lemma_endpoint_round_trip(ip: nat, width: nat, port: u16, rest: Seq<u8>)
    requires
        ip < pow(256, width),
    ensures
        parse_endpoint(be_bytes(ip, width) + varint(port as nat) + rest, width) == Ok::<
            _,
            Error,
        >((ip, port as nat, width + varint(port as nat).len())),
{
    let head = be_bytes(ip, width);
    let behind = varint(port as nat) + rest;
    let bytes = head + varint(port as nat) + rest;
    lemma_be_round_trip(ip, width);
    assert(bytes.take(width as int) =~= head);
    assert(bytes.skip(width as int) =~= behind);
    lemma_varint_round_trip(port as nat, 2, rest);
}

/// An address's encoding is read back whatever follows it, without the flow and the scope.
pub proof fn lemma_addr_round_trip(addr: SocketAddr, rest: Seq<u8>)
    ensures
        parse_addr(addr_encoding(addr) + rest) == Ok::<_, Error>(
            (addr.unqualified(), addr_encoding(addr).len()),
        ),
{
    lemma_powers();
    let (variant, ip, width, port) = match addr {
        SocketAddr::V4 { ipv4, port } => (V4_VARIANT, ipv4 as nat, 4nat, port),
        SocketAddr::V6 { ipv6, port, .. } => (V6_VARIANT, ipv6 as nat, 16nat, port),
    };
    let head = varint(variant as nat);
    let body = be_bytes(ip, width) + varint(port as nat);
    let bytes = addr_encoding(addr) + rest;
    assert(bytes =~= head + (body + rest));
    lemma_varint_round_trip(variant as nat, 4, body + rest);
    assert(bytes.skip(head.len() as int) =~= body + rest);
    lemma_endpoint_round_trip(ip, width, port, rest);
    lemma_be_round_trip(ip, width);
}

} // verus!
