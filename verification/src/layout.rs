//! What the bytes of a datagram are, and what they are taken for.

use vstd::prelude::*;
use vstd::arithmetic::power::pow;
use vstd::utf8::{decode_utf8, encode_utf8, valid_utf8};

use crate::addr::{addr_encoding, be_bytes, be_value, parse_addr, SocketAddr};
use crate::echo::{EchoRequest, EchoResponse};
use crate::error::{Enumeration, Error, IntegerType, Malformation};
use crate::packet::{UdpPacket, UdpPayload};
use crate::wire::{
    le_bytes, le_value, number_error, octets_error, parse_varint, port_error, text_error,
    valid_prefix, varint, WireFormat,
};

verus! {

/// Dividing by a power of 256 is dividing by 256 once, and by the power below it.
proof fn lemma_shift(n: nat, i: nat)
    requires
        i > 0,
    ensures
        n as int / pow(256, i) == (n / 256) as int / pow(256, (i - 1) as nat),
{
    vstd::arithmetic::power::lemma_pow_adds(256, 1, (i - 1) as nat);
    vstd::arithmetic::power::lemma_pow1(256);
    vstd::arithmetic::power::lemma_pow_positive(256, (i - 1) as nat);
    vstd::arithmetic::div_mod::lemma_div_denominator(n as int, 256, pow(256, (i - 1) as nat));
}

/// The bytes of a number in little endian order are its digits in base 256, lowest first.
pub proof fn little_endian_bytes_are_digits(n: nat, width: nat, i: nat)
    requires
        i < width,
    ensures
        le_bytes(n, width).len() == width,
        le_bytes(n, width)[i as int] == (n as int / pow(256, i)) % 256,
    decreases width,
{
    reveal_with_fuel(le_bytes, 2);
    let rest = (width - 1) as nat;
    if rest > 0 {
        little_endian_bytes_are_digits(n / 256, rest, if i == 0 { 0 } else { (i - 1) as nat });
    }
    if i == 0 {
        vstd::arithmetic::power::lemma_pow0(256);
    } else {
        lemma_shift(n, i);
    }
}

/// The digits in base 256 of the number that bytes stand for in little endian order are those
/// bytes, and it has no more digits.
pub proof fn little_endian_numbers_have_their_bytes(bytes: Seq<u8>)
    ensures
        le_value(bytes) < pow(256, bytes.len()),
        forall|i: int|
            0 <= i < bytes.len() ==> (le_value(bytes) as int / pow(256, i as nat)) % 256
                == #[trigger] bytes[i],
    decreases bytes.len(),
{
    vstd::arithmetic::power::lemma_pow0(256);
    if bytes.len() > 0 {
        let rest = bytes.drop_first();
        let n = le_value(bytes);
        little_endian_numbers_have_their_bytes(rest);
        vstd::arithmetic::power::lemma_pow_adds(256, 1, rest.len());
        vstd::arithmetic::power::lemma_pow1(256);
        assert(n / 256 == le_value(rest));
        assert forall|i: int| 0 <= i < bytes.len() implies (n as int / pow(256, i as nat)) % 256
            == #[trigger] bytes[i] by {
            if i > 0 {
                lemma_shift(n, i as nat);
                assert(rest[i - 1] == bytes[i]);
            }
        }
    }
}

/// The bytes of a number in network order are its digits in base 256, highest first.
pub proof fn network_bytes_are_digits(n: nat, width: nat, i: nat)
    requires
        i < width,
    ensures
        be_bytes(n, width).len() == width,
        be_bytes(n, width)[i as int] == (n as int / pow(256, (width - 1 - i) as nat)) % 256,
    decreases width,
{
    reveal_with_fuel(be_bytes, 2);
    let rest = (width - 1) as nat;
    if rest > 0 {
        network_bytes_are_digits(n / 256, rest, if i < rest { i } else { 0 });
    }
    if i == rest {
        vstd::arithmetic::power::lemma_pow0(256);
    } else {
        lemma_shift(n, (rest - i) as nat);
    }
}

/// The digits in base 256 of the number that bytes stand for in network order are those bytes, and
/// it has no more digits.
pub proof fn network_numbers_have_their_bytes(bytes: Seq<u8>)
    ensures
        be_value(bytes) < pow(256, bytes.len()),
        forall|i: int|
            0 <= i < bytes.len() ==> (be_value(bytes) as int / pow(
                256,
                (bytes.len() - 1 - i) as nat,
            )) % 256 == #[trigger] bytes[i],
    decreases bytes.len(),
{
    vstd::arithmetic::power::lemma_pow0(256);
    if bytes.len() > 0 {
        let rest = bytes.drop_last();
        let n = be_value(bytes);
        network_numbers_have_their_bytes(rest);
        vstd::arithmetic::power::lemma_pow_adds(256, 1, rest.len());
        vstd::arithmetic::power::lemma_pow1(256);
        assert(n / 256 == be_value(rest));
        assert forall|i: int| 0 <= i < bytes.len() implies (n as int / pow(
            256,
            (bytes.len() - 1 - i) as nat,
        )) % 256 == #[trigger] bytes[i] by {
            if i < bytes.len() - 1 {
                lemma_shift(n, (bytes.len() - 1 - i) as nat);
                assert(rest[i] == bytes[i]);
            }
        }
    }
}

/// A number below 251 is one byte. A greater one is a byte that tells its width, 251 for two bytes,
/// 252 for four and 253 for eight, and then its digits in base 256, lowest first, in the smallest of
/// these widths that holds it.
pub proof fn number_layout(n: nat)
    requires
        n <= u64::MAX,
    ensures
        n < 251 ==> varint(n) == seq![n as u8],
        251 <= n < 0x1_0000 ==> varint(n).len() == 3 && varint(n)[0] == 251,
        0x1_0000 <= n < 0x1_0000_0000 ==> varint(n).len() == 5 && varint(n)[0] == 252,
        0x1_0000_0000 <= n ==> varint(n).len() == 9 && varint(n)[0] == 253,
        forall|i: int|
            n >= 251 && 1 <= i < varint(n).len() ==> #[trigger] varint(n)[i] == (n as int / pow(
                256,
                (i - 1) as nat,
            )) % 256,
{
    if n >= 251 {
        let width: nat = if n < 0x1_0000 {
            2
        } else if n < 0x1_0000_0000 {
            4
        } else {
            8
        };
        little_endian_bytes_are_digits(n, width, 0);
        assert forall|i: int| 1 <= i < varint(n).len() implies #[trigger] varint(n)[i] == (n as int
            / pow(256, (i - 1) as nat)) % 256 by {
            little_endian_bytes_are_digits(n, width, (i - 1) as nat);
        }
    }
}

/// What bytes are taken for where a number of at most `width` bytes is due. A first byte below 251
/// is the number. One of 251, 252 or 253 is followed by the two, four or eight digits of the number
/// in base 256, lowest first; that is too wide if there are more than `width`, and too short if
/// bytes are missing. No other first byte starts a number.
pub proof fn number_parsing(bytes: Seq<u8>, width: nat)
    requires
        width == 2 || width == 4 || width == 8,
    ensures
        bytes.len() == 0 ==> parse_varint(bytes, width) == Err::<(nat, nat), Malformation>(
            Malformation::UnexpectedEnd { additional: 1 },
        ),
        bytes.len() > 0 && bytes[0] < 251 ==> parse_varint(bytes, width) == Ok::<
            (nat, nat),
            Malformation,
        >((bytes[0] as nat, 1)),
        bytes.len() > 0 && 251 <= bytes[0] <= 253 ==> ({
            let k: nat = if bytes[0] == 251 {
                2
            } else if bytes[0] == 252 {
                4
            } else {
                8
            };
            k <= width ==> match parse_varint(bytes, width) {
                Ok((n, read)) => {
                    &&& bytes.len() >= 1 + k
                    &&& read == 1 + k
                    &&& n < pow(256, k)
                    &&& forall|i: int|
                        0 <= i < k ==> (n as int / pow(256, i as nat)) % 256 == #[trigger] bytes[1
                            + i]
                },
                Err(malformation) => {
                    &&& bytes.len() < 1 + k
                    &&& malformation matches Malformation::UnexpectedEnd { additional }
                    &&& additional + bytes.len() == 1 + k
                },
            }
        }),
        bytes.len() > 0 && bytes[0] == 252 && width < 4 ==> parse_varint(bytes, width) == Err::<
            (nat, nat),
            Malformation,
        >(Malformation::InvalidIntegerType(IntegerType::U32)),
        bytes.len() > 0 && bytes[0] == 253 && width < 8 ==> parse_varint(bytes, width) == Err::<
            (nat, nat),
            Malformation,
        >(Malformation::InvalidIntegerType(IntegerType::U64)),
        bytes.len() > 0 && bytes[0] == 254 ==> parse_varint(bytes, width) == Err::<
            (nat, nat),
            Malformation,
        >(Malformation::InvalidIntegerType(IntegerType::U128)),
        bytes.len() > 0 && bytes[0] == 255 ==> parse_varint(bytes, width) == Err::<
            (nat, nat),
            Malformation,
        >(Malformation::InvalidIntegerType(IntegerType::Reserved)),
{
    if bytes.len() > 0 && 251 <= bytes[0] <= 253 {
        let k: nat = if bytes[0] == 251 {
            2
        } else if bytes[0] == 252 {
            4
        } else {
            8
        };
        if bytes.len() >= 1 + k {
            let digits = bytes.subrange(1, 1 + k as int);
            little_endian_numbers_have_their_bytes(digits);
            assert forall|i: int| 0 <= i < k implies (le_value(digits) as int / pow(256, i as nat))
                % 256 == #[trigger] bytes[1 + i] by {
                assert(digits[i] == bytes[1 + i]);
            }
        }
    }
}

/// A text is the number of its UTF-8 bytes, and then those bytes. So are an echo's request and
/// response.
pub proof fn text_layout(text: Seq<char>)
    requires
        encode_utf8(text).len() <= usize::MAX,
    ensures
        String::encoding(text) == Some(varint(encode_utf8(text).len()) + encode_utf8(text)),
        encode_utf8(text).len() < 251 ==> String::encoding(text) == Some(
            seq![encode_utf8(text).len() as u8] + encode_utf8(text),
        ),
        EchoRequest::encoding(text) == String::encoding(text),
        EchoResponse::encoding(text) == String::encoding(text),
{
}

/// The bytes before the first that is not UTF-8 are, and they cannot be extended.
proof fn lemma_valid_prefix(bytes: Seq<u8>, n: nat)
    requires
        n <= bytes.len(),
    ensures
        valid_prefix(bytes, n) <= n,
        valid_utf8(bytes.take(valid_prefix(bytes, n) as int)),
        forall|m: int| valid_prefix(bytes, n) < m <= n ==> !valid_utf8(#[trigger] bytes.take(m)),
    decreases n,
{
    if n == 0 {
        assert(bytes.take(0) =~= Seq::<u8>::empty());
        vstd::utf8::encode_utf8_valid_utf8(Seq::<char>::empty());
        assert(encode_utf8(Seq::<char>::empty()) =~= Seq::<u8>::empty());
    } else if !valid_utf8(bytes.take(n as int)) {
        lemma_valid_prefix(bytes, (n - 1) as nat);
    }
}

/// What bytes are taken for where a text is due. Behind the number of its bytes stand as many bytes
/// of UTF-8, and they are the text. It is an error if there is no number, if fewer bytes follow, or if
/// they are not UTF-8, and the error tells how many are missing, or how many are UTF-8 before the
/// first that is not. An echo's request and response are read alike.
pub proof fn text_parsing(bytes: Seq<u8>)
    ensures
        match parse_varint(bytes, 8) {
            Err(malformation) => String::decoding(bytes) == Err::<(Seq<char>, nat), Error>(
                Error::Decode(malformation, text_error(bytes, usize::BITS as nat)),
            ),
            Ok((len, at)) => match String::decoding(bytes) {
                Ok((text, read)) => {
                    &&& len <= usize::MAX
                    &&& read == at + len
                    &&& read <= bytes.len()
                    &&& valid_utf8(bytes.subrange(at as int, read as int))
                    &&& text == decode_utf8(bytes.subrange(at as int, read as int))
                },
                Err(Error::Decode(Malformation::OutsideUsizeRange(found), error)) => {
                    &&& len > usize::MAX
                    &&& found == len
                    &&& error == text_error(bytes, usize::BITS as nat)
                },
                Err(Error::Decode(Malformation::UnexpectedEnd { additional }, error)) => {
                    &&& len <= usize::MAX
                    &&& at + len > bytes.len()
                    &&& additional + bytes.len() == at + len
                    &&& error == text_error(bytes, usize::BITS as nat)
                },
                Err(Error::Decode(Malformation::Utf8 { valid_up_to }, error)) => {
                    &&& len <= usize::MAX
                    &&& at + len <= bytes.len()
                    &&& valid_up_to < len
                    &&& valid_utf8(bytes.subrange(at as int, at + valid_up_to))
                    &&& forall|m: int|
                        valid_up_to < m <= len ==> !valid_utf8(
                            #[trigger] bytes.subrange(at as int, at + m),
                        )
                    &&& error == text_error(bytes, usize::BITS as nat)
                },
                Err(_) => false,
            },
        },
        EchoRequest::decoding(bytes) == String::decoding(bytes),
        EchoResponse::decoding(bytes) == String::decoding(bytes),
{
    number_parsing(bytes, 8);
    if let Ok((len, at)) = parse_varint(bytes, 8) {
        lemma_wide(bytes);
        if len <= usize::MAX && at + len <= bytes.len() {
            let utf8 = bytes.subrange(at as int, (at + len) as int);
            lemma_valid_prefix(utf8, len);
            assert(utf8.take(len as int) =~= utf8);
            assert(utf8.take(valid_prefix(utf8, len) as int) =~= bytes.subrange(
                at as int,
                (at + valid_prefix(utf8, len)) as int,
            ));
            assert forall|m: int| valid_prefix(utf8, len) < m <= len implies !valid_utf8(
                #[trigger] bytes.subrange(at as int, at + m),
            ) by {
                assert(utf8.take(m) =~= bytes.subrange(at as int, at + m));
            }
        }
    }
}

/// A number of at most eight bytes is below `2^64`.
proof fn lemma_wide(bytes: Seq<u8>)
    ensures
        parse_varint(bytes, 8) matches Ok((n, at)) ==> n <= u64::MAX && at <= bytes.len(),
{
    if bytes.len() >= 3 {
        little_endian_numbers_have_their_bytes(bytes.subrange(1, 3));
    }
    if bytes.len() >= 5 {
        little_endian_numbers_have_their_bytes(bytes.subrange(1, 5));
    }
    if bytes.len() >= 9 {
        little_endian_numbers_have_their_bytes(bytes.subrange(1, 9));
    }
    reveal_with_fuel(pow, 9);
}

/// A request is the byte 0 and then what it holds; a response is the byte 1 and then what it holds.
pub proof fn message_layout<Q: WireFormat, R: WireFormat>(request: Q::V, response: R::V)
    ensures
        UdpPayload::<Q, R>::encoding(UdpPayload::Request(request)) == match Q::encoding(request) {
            Some(body) => Some(seq![0u8] + body),
            None => None,
        },
        UdpPayload::<Q, R>::encoding(UdpPayload::Response(response)) == match R::encoding(
            response,
        ) {
            Some(body) => Some(seq![1u8] + body),
            None => None,
        },
{
}

/// What bytes are taken for where a message is due. Behind the number 0 stands a request, behind the
/// number 1 a response, and any other number is an error that tells it.
pub proof fn message_parsing<Q: WireFormat, R: WireFormat>(bytes: Seq<u8>)
    ensures
        match parse_varint(bytes, 4) {
            Err(malformation) => UdpPayload::<Q, R>::decoding(bytes) == Err::<
                (UdpPayload<Q::V, R::V>, nat),
                Error,
            >(Error::Decode(malformation, number_error(bytes))),
            Ok((variant, at)) => {
                &&& variant == 0 ==> match Q::decoding(bytes.skip(at as int)) {
                    Ok((request, read)) => UdpPayload::<Q, R>::decoding(bytes) == Ok::<
                        (UdpPayload<Q::V, R::V>, nat),
                        Error,
                    >((UdpPayload::Request(request), at + read)),
                    Err(error) => UdpPayload::<Q, R>::decoding(bytes) == Err::<
                        (UdpPayload<Q::V, R::V>, nat),
                        Error,
                    >(error),
                }
                &&& variant == 1 ==> match R::decoding(bytes.skip(at as int)) {
                    Ok((response, read)) => UdpPayload::<Q, R>::decoding(bytes) == Ok::<
                        (UdpPayload<Q::V, R::V>, nat),
                        Error,
                    >((UdpPayload::Response(response), at + read)),
                    Err(error) => UdpPayload::<Q, R>::decoding(bytes) == Err::<
                        (UdpPayload<Q::V, R::V>, nat),
                        Error,
                    >(error),
                }
                &&& variant > 1 ==> variant <= u32::MAX && UdpPayload::<Q, R>::decoding(bytes)
                    == Err::<(UdpPayload<Q::V, R::V>, nat), Error>(
                    Error::UnexpectedVariant {
                        of: Enumeration::UdpPayload,
                        min: 0,
                        max: 1,
                        found: variant as u32,
                    },
                )
            },
        },
{
    lemma_narrow(bytes);
}

/// A number of at most four bytes is below `2^32`, and one of at most two bytes below `2^16`.
proof fn lemma_narrow(bytes: Seq<u8>)
    ensures
        parse_varint(bytes, 4) matches Ok((n, at)) ==> n <= u32::MAX && at <= bytes.len(),
        parse_varint(bytes, 2) matches Ok((n, at)) ==> n <= u16::MAX && at <= bytes.len(),
{
    if bytes.len() >= 3 {
        little_endian_numbers_have_their_bytes(bytes.subrange(1, 3));
    }
    if bytes.len() >= 5 {
        little_endian_numbers_have_their_bytes(bytes.subrange(1, 5));
    }
    reveal_with_fuel(pow, 5);
}

/// An IPv4 address is the byte 0, its four bytes in network order, and its port. An IPv6 address is
/// the byte 1, its sixteen bytes in network order, and its port.
pub proof fn address_layout(addr: SocketAddr)
    ensures
        match addr {
            SocketAddr::V4 { ipv4, port } => {
                let bytes = addr_encoding(addr);
                &&& bytes.len() == 5 + varint(port as nat).len()
                &&& bytes[0] == 0
                &&& forall|i: int|
                    1 <= i <= 4 ==> #[trigger] bytes[i] == (ipv4 as int / pow(256, (4 - i) as nat))
                        % 256
                &&& bytes.skip(5) == varint(port as nat)
            },
            SocketAddr::V6 { ipv6, port, .. } => {
                let bytes = addr_encoding(addr);
                &&& bytes.len() == 17 + varint(port as nat).len()
                &&& bytes[0] == 1
                &&& forall|i: int|
                    1 <= i <= 16 ==> #[trigger] bytes[i] == (ipv6 as int / pow(
                        256,
                        (16 - i) as nat,
                    )) % 256
                &&& bytes.skip(17) == varint(port as nat)
            },
        },
        SocketAddr::encoding(addr) == Some(addr_encoding(addr)),
{
    let bytes = addr_encoding(addr);
    match addr {
        SocketAddr::V4 { ipv4, port } => {
            network_bytes_are_digits(ipv4 as nat, 4, 0);
            assert forall|i: int| 1 <= i <= 4 implies #[trigger] bytes[i] == (ipv4 as int / pow(
                256,
                (4 - i) as nat,
            )) % 256 by {
                network_bytes_are_digits(ipv4 as nat, 4, (i - 1) as nat);
            }
            assert(bytes.skip(5) =~= varint(port as nat));
        },
        SocketAddr::V6 { ipv6, port, .. } => {
            network_bytes_are_digits(ipv6 as nat, 16, 0);
            assert forall|i: int| 1 <= i <= 16 implies #[trigger] bytes[i] == (ipv6 as int / pow(
                256,
                (16 - i) as nat,
            )) % 256 by {
                network_bytes_are_digits(ipv6 as nat, 16, (i - 1) as nat);
            }
            assert(bytes.skip(17) =~= varint(port as nat));
        },
    }
}

/// What bytes are taken for where an address is due: behind the number 0 the four bytes of an IPv4
/// address in network order and its port, behind the number 1 the sixteen bytes of an IPv6 address
/// and its port, without a flow and a scope. Any other number is an error that tells it, and so is
/// an end that comes too early.
pub proof fn address_parsing(bytes: Seq<u8>)
    ensures
        SocketAddr::decoding(bytes) == parse_addr(bytes),
        match parse_varint(bytes, 4) {
            Err(malformation) => parse_addr(bytes) == Err::<(SocketAddr, nat), Error>(
                Error::Decode(malformation, number_error(bytes)),
            ),
            Ok((variant, at)) => if variant > 1 {
                parse_addr(bytes) matches Err(Error::UnexpectedVariant { of, min, max, found }) && of
                    == Enumeration::SocketAddr && min == 0 && max == 1 && found == variant
            } else {
                let width: nat = if variant == 0 {
                    4
                } else {
                    16
                };
                let rest = bytes.skip(at as int);
                if rest.len() < width {
                    parse_addr(bytes) matches Err(
                        Error::Decode(Malformation::UnexpectedEnd { additional }, error),
                    ) && additional + rest.len() == width && error == octets_error(rest, width)
                } else {
                    match parse_varint(rest.skip(width as int), 2) {
                        Err(malformation) => parse_addr(bytes) == Err::<(SocketAddr, nat), Error>(
                            Error::Decode(malformation, port_error(rest.skip(width as int))),
                        ),
                        Ok((port, read)) => match parse_addr(bytes) {
                            Ok((SocketAddr::V4 { ipv4, port: found }, end)) => {
                                &&& variant == 0
                                &&& forall|i: int|
                                    0 <= i < 4 ==> (ipv4 as int / pow(256, (3 - i) as nat)) % 256
                                        == #[trigger] rest[i]
                                &&& found == port
                                &&& end == at + 4 + read
                            },
                            Ok((SocketAddr::V6 { ipv6, port: found, flowinfo, scope_id }, end)) => {
                                &&& variant == 1
                                &&& forall|i: int|
                                    0 <= i < 16 ==> (ipv6 as int / pow(256, (15 - i) as nat)) % 256
                                        == #[trigger] rest[i]
                                &&& found == port
                                &&& flowinfo == 0
                                &&& scope_id == 0
                                &&& end == at + 16 + read
                            },
                            Err(_) => false,
                        },
                    }
                }
            },
        },
{
    lemma_narrow(bytes);
    if let Ok((variant, at)) = parse_varint(bytes, 4) {
        let width: int = if variant == 0 {
            4
        } else {
            16
        };
        let rest = bytes.skip(at as int);
        if rest.len() >= width {
            lemma_narrow(rest.skip(width));
            let octets = rest.take(width);
            network_numbers_have_their_bytes(octets);
            assert forall|i: int| 0 <= i < width implies (be_value(octets) as int / pow(
                256,
                (width - 1 - i) as nat,
            )) % 256 == #[trigger] rest[i] by {
                assert(octets[i] == rest[i]);
            }
            reveal_with_fuel(pow, 17);
        }
    }
}

/// A packet is its address, and then what it carries; it is read in the same order.
pub proof fn packet_layout<T: WireFormat>(packet: UdpPacket<T::V>, bytes: Seq<u8>)
    ensures
        UdpPacket::<T>::encoding(packet) == match T::encoding(packet.payload) {
            Some(body) => Some(addr_encoding(packet.addr) + body),
            None => None,
        },
        match parse_addr(bytes) {
            Err(error) => UdpPacket::<T>::decoding(bytes) == Err::<(UdpPacket<T::V>, nat), Error>(
                error,
            ),
            Ok((addr, at)) => match T::decoding(bytes.skip(at as int)) {
                Err(error) => UdpPacket::<T>::decoding(bytes) == Err::<
                    (UdpPacket<T::V>, nat),
                    Error,
                >(error),
                Ok((payload, read)) => UdpPacket::<T>::decoding(bytes) == Ok::<
                    (UdpPacket<T::V>, nat),
                    Error,
                >((UdpPacket { addr, payload }, at + read)),
            },
        },
{
}

/// An address without a flow and a scope has the same IP address and port, and an IPv4 address has
/// neither.
pub proof fn unqualified_addresses(addr: SocketAddr)
    ensures
        addr is V4 ==> addr.unqualified() == addr,
        addr matches SocketAddr::V6 { ipv6, port, .. } ==> addr.unqualified() == (SocketAddr::V6 {
            ipv6,
            port,
            flowinfo: 0,
            scope_id: 0,
        }),
{
}

/// What the views of messages, packets and addresses show: everything, part by part.
pub proof fn views_show_every_part<Q: View, R: View>(
    message: UdpPayload<Q, R>,
    packet: UdpPacket<Q>,
    addr: SocketAddr,
    request: EchoRequest,
    response: EchoResponse,
)
    ensures
        message matches UdpPayload::Request(held) ==> message@ == UdpPayload::<Q::V, R::V>::Request(
            held@,
        ),
        message matches UdpPayload::Response(held) ==> message@ == UdpPayload::<
            Q::V,
            R::V,
        >::Response(held@),
        packet@.addr == packet.addr,
        packet@.payload == packet.payload@,
        addr@ == addr,
        request@ == request.0@,
        response@ == response.0@,
{
}

} // verus!
