use bytes::BytesMut;
use tower_dtls::addr::SocketAddr;
use tower_dtls::codec::{
    decode, encode, last_frame, CodecStream, Decoder, Encoder, UdpPayloadEncoderDecoder,
};
use tower_dtls::error::{Enumeration, Error, IntegerType, Malformation};
use tower_dtls::packet::{UdpPacket, UdpPayload};
use tower_dtls::poll::Poll;
use tower_dtls::wire::WireFormat;

type Message = UdpPayload<String, String>;

fn addr(port: u16) -> SocketAddr {
    SocketAddr::V4 { ipv4: 0x7f00_0001, port }
}

fn request(text: &str) -> Message {
    UdpPayload::Request(text.to_string())
}

fn response(text: &str) -> Message {
    UdpPayload::Response(text.to_string())
}

fn unexpected(of: Enumeration, found: u32) -> Error {
    Error::UnexpectedVariant { of, min: 0, max: 1, found }
}

fn stream() -> CodecStream<UdpPayloadEncoderDecoder<Message>, &'static str> {
    CodecStream::new(UdpPayloadEncoderDecoder::new(bincode::config::standard()), "datagrams")
}

fn poll(bytes: &[u8]) -> Poll<Option<Result<UdpPacket<Message>, String>>> {
    stream().poll_next(Poll::Ready(Some(Ok(UdpPacket::new(addr(7), bytes.to_vec())))))
}

#[test]
fn packet_keeps_its_parts() {
    let packet = UdpPacket::new(addr(9999), 7u8);
    assert_eq!(packet.addr, addr(9999));
    assert_eq!(packet.payload, 7);
    let copy = packet.clone();
    assert_eq!(copy.addr, addr(9999));
    assert_eq!(copy.payload, 7);
}

#[test]
fn message_clones_keep_their_variant() {
    assert!(matches!(request("a").clone(), UdpPayload::Request(text) if text == "a"));
    assert!(matches!(response("b").clone(), UdpPayload::Response(text) if text == "b"));
}

#[test]
fn text_is_its_length_and_its_bytes() {
    let conf = bincode::config::standard();
    assert_eq!("hi".to_string().encode_to_vec(conf).unwrap(), vec![2, b'h', b'i']);
    assert_eq!(String::new().encode_to_vec(conf).unwrap(), vec![0]);
    assert_eq!("é".to_string().encode_to_vec(conf).unwrap(), vec![2, 0xc3, 0xa9]);
}

#[test]
fn long_text_has_a_wide_length() {
    let conf = bincode::config::standard();
    let text = "x".repeat(250);
    assert_eq!(text.encode_to_vec(conf).unwrap()[..2], [250, b'x']);
    let text = "x".repeat(251);
    assert_eq!(text.encode_to_vec(conf).unwrap()[..4], [251, 251, 0, b'x']);
    let text = "x".repeat(0x1_0000);
    assert_eq!(text.encode_to_vec(conf).unwrap()[..6], [252, 0, 0, 1, 0, b'x']);
}

#[test]
fn text_decodes_from_the_front() {
    let conf = bincode::config::standard();
    let (text, read) = String::decode_from_slice(&[2, b'h', b'i', 9], conf).unwrap();
    assert_eq!(text, "hi");
    assert_eq!(read, 3);
    let (text, read) = String::decode_from_slice(&[251, 1, 0, b'h'], conf).unwrap();
    assert_eq!(text, "h");
    assert_eq!(read, 4);
}

#[test]
fn malformed_text_is_refused() {
    let conf = bincode::config::standard();
    for bytes in [
        &[][..],
        &[2, b'h'][..],
        &[251, 1][..],
        &[254][..],
        &[255][..],
        &[1, 0xff][..],
        &[253, 255, 255, 255, 255, 255, 255, 255, 255][..],
    ] {
        assert!(matches!(String::decode_from_slice(bytes, conf), Err(Error::Decode(..))));
    }
}

#[test]
fn message_is_its_variant_and_its_text() {
    let conf = bincode::config::standard();
    assert_eq!(request("hi").encode_to_vec(conf).unwrap(), vec![0, 2, b'h', b'i']);
    assert_eq!(response("hi").encode_to_vec(conf).unwrap(), vec![1, 2, b'h', b'i']);
}

#[test]
fn message_is_encoded_like_a_tuple_of_its_parts() {
    let conf = bincode::config::standard();
    let text = "howdy 12".to_string();
    assert_eq!(
        request("howdy 12").encode_to_vec(conf).unwrap(),
        bincode::encode_to_vec((0u32, text.clone()), conf).unwrap()
    );
    assert_eq!(
        response("howdy 12").encode_to_vec(conf).unwrap(),
        bincode::encode_to_vec((1u32, text), conf).unwrap()
    );
}

#[test]
fn unknown_variant_is_refused() {
    let conf = bincode::config::standard();
    assert!(matches!(
        Message::decode_from_slice(&[2, 1, b'h'], conf),
        Err(Error::UnexpectedVariant {
            of: Enumeration::UdpPayload,
            min: 0,
            max: 1,
            found: 2
        })
    ));
    assert!(matches!(
        Message::decode_from_slice(&[251, 44, 1, 1, b'h'], conf),
        Err(Error::UnexpectedVariant {
            of: Enumeration::UdpPayload,
            min: 0,
            max: 1,
            found: 300
        })
    ));
    assert!(matches!(
        Message::decode_from_slice(&[253, 0, 0, 0, 0, 0, 0, 0, 0], conf),
        Err(Error::Decode(..))
    ));
    assert!(matches!(Message::decode_from_slice(&[], conf), Err(Error::Decode(..))));
}

#[test]
fn empty_buffer_holds_no_message() {
    let mut buf = BytesMut::new();
    let out: Result<Option<Message>, Error> = decode(bincode::config::standard(), &mut buf);
    assert!(matches!(out, Ok(None)));
    assert!(buf.is_empty());
}

#[test]
fn decoding_empties_the_buffer() {
    let mut buf = BytesMut::from(&[1, 2, b'h', b'i', 4, 5, 6][..]);
    let out: Result<Option<Message>, Error> = decode(bincode::config::standard(), &mut buf);
    assert!(matches!(out, Ok(Some(UdpPayload::Response(text))) if text == "hi"));
    assert!(buf.is_empty());
}

#[test]
fn failed_decoding_leaves_the_buffer() {
    let mut buf = BytesMut::from(&[1, 2, b'h'][..]);
    let out: Result<Option<Message>, Error> = decode(bincode::config::standard(), &mut buf);
    assert!(matches!(out, Err(Error::Decode(..))));
    assert_eq!(&buf[..], &[1, 2, b'h']);
}

#[test]
fn encoding_goes_behind_what_is_there() {
    let mut dst = BytesMut::from(&[9][..]);
    assert!(encode(bincode::config::standard(), request("hi"), &mut dst).is_ok());
    assert_eq!(&dst[..], &[9, 0, 2, b'h', b'i']);
}

#[test]
fn decode_undoes_encode() {
    let mut codec = UdpPayloadEncoderDecoder::<Message>::new(bincode::config::standard());
    for text in ["", "hi", "a longer text with ümlauts", &"y".repeat(70_000)] {
        let mut buf = BytesMut::new();
        assert!(codec.encode(request(text), &mut buf).is_ok());
        let out = codec.decode(&mut buf);
        assert!(matches!(out, Ok(Some(UdpPayload::Request(found))) if found == text));
        assert!(buf.is_empty());
    }
}

#[test]
fn different_messages_have_different_encodings() {
    let conf = bincode::config::standard();
    let a = request("hi").encode_to_vec(conf).unwrap();
    let b = response("hi").encode_to_vec(conf).unwrap();
    let c = request("hi there").encode_to_vec(conf).unwrap();
    assert_ne!(a, b);
    assert!(!c.starts_with(&a));
}

#[test]
fn codec_errors_have_texts() {
    assert_eq!(Error::BytesRemaining.text(), Some("bytes remaining on stream"));
    assert_eq!(Error::StartSend.text(), Some("start send error"));
    assert_eq!(unexpected(Enumeration::UdpPayload, 3).text(), None);
}

#[test]
fn decoding_at_the_end_passes_on_what_was_decoded() {
    let mut codec = UdpPayloadEncoderDecoder::<Message>::new(bincode::config::standard());
    let mut buf = BytesMut::new();
    assert!(matches!(codec.decode_eof(&mut buf), Ok(None)));
    let mut buf = BytesMut::from(&[0, 1, b'h'][..]);
    let out = codec.decode_eof(&mut buf);
    assert!(matches!(out, Ok(Some(UdpPayload::Request(text))) if text == "h"));
    let mut buf = BytesMut::from(&[0, 9][..]);
    assert!(matches!(codec.decode_eof(&mut buf), Err(Error::Decode(..))));
    let mut buf = BytesMut::from(&[9][..]);
    assert!(matches!(codec.decode_eof(&mut buf), Err(Error::UnexpectedVariant {
            of: Enumeration::UdpPayload,
            min: 0,
            max: 1,
            found: 9
        })));
}

#[test]
fn sent_message_is_one_datagram() {
    let mut messages = stream();
    let sent = messages.start_send(UdpPacket::new(addr(5), request("hi"))).ok().unwrap();
    assert_eq!(sent.addr, addr(5));
    assert_eq!(sent.payload, vec![0, 2, b'h', b'i']);
    assert_eq!(messages.stream, "datagrams");
}

#[test]
fn sent_messages_arrive() {
    let sent = stream().start_send(UdpPacket::new(addr(5), response("hello"))).ok().unwrap();
    let next = poll(&sent.payload);
    match next {
        Poll::Ready(Some(Ok(packet))) => {
            assert_eq!(packet.addr, addr(7));
            assert!(matches!(packet.payload, UdpPayload::Response(text) if text == "hello"));
        }
        _ => panic!("no message"),
    }
}

#[test]
fn trailing_bytes_are_dropped() {
    let next = poll(&[0, 1, b'h', 1, 2, 3]);
    match next {
        Poll::Ready(Some(Ok(packet))) => {
            assert!(matches!(packet.payload, UdpPayload::Request(text) if text == "h"));
        }
        _ => panic!("no message"),
    }
}

#[test]
fn datagram_without_a_message_ends_the_stream() {
    assert!(matches!(poll(&[]), Poll::Ready(None)));
    assert!(matches!(poll(&[5]), Poll::Ready(None)));
    assert!(matches!(poll(&[0, 9, b'h']), Poll::Ready(None)));
    assert!(matches!(poll(&[0, 253, 255, 255, 255, 255, 255, 255, 255, 127]), Poll::Ready(None)));
}

#[test]
fn messages_are_pending_where_no_datagram_came() {
    let mut messages = stream();
    assert!(matches!(messages.poll_next::<String>(Poll::Pending), Poll::Pending));
    assert!(matches!(messages.poll_next::<String>(Poll::Ready(None)), Poll::Pending));
    let failed = Poll::Ready(Some(Err("broken".to_string())));
    assert!(matches!(messages.poll_next(failed), Poll::Pending));
}

fn v6(flowinfo: u32, scope_id: u32) -> SocketAddr {
    SocketAddr::V6 { ipv6: 0x0102_0304_0506_0708_090a_0b0c_0d0e_0f10, port: 250, flowinfo, scope_id }
}

#[test]
fn packet_is_its_address_and_its_payload() {
    let conf = bincode::config::standard();
    assert_eq!(
        UdpPacket::new(addr(9999), "hi".to_string()).encode_to_vec(conf).unwrap(),
        vec![0, 127, 0, 0, 1, 251, 0x0f, 0x27, 2, b'h', b'i']
    );
    assert_eq!(
        UdpPacket::new(v6(7, 8), request("hi")).encode_to_vec(conf).unwrap(),
        vec![1, 1, 2, 3, 4, 5, 6, 7, 8, 9, 10, 11, 12, 13, 14, 15, 16, 250, 0, 2, b'h', b'i']
    );
}

#[test]
fn packet_is_encoded_like_a_tuple_of_its_parts() {
    let conf = bincode::config::standard();
    let text = "howdy".to_string();
    assert_eq!(
        UdpPacket::new(addr(65535), text.clone()).encode_to_vec(conf).unwrap(),
        bincode::encode_to_vec((0u32, [127u8, 0, 0, 1], 65535u16, text), conf).unwrap()
    );
}

#[test]
fn packets_are_read_back() {
    let conf = bincode::config::standard();
    for (sent, arrived) in
        [(addr(0), addr(0)), (addr(251), addr(251)), (v6(0, 0), v6(0, 0)), (v6(7, 8), v6(0, 0))]
    {
        let mut bytes = UdpPacket::new(sent, "hi".to_string()).encode_to_vec(conf).unwrap();
        let len = bytes.len();
        bytes.push(9);
        let (packet, read) = UdpPacket::<String>::decode_from_slice(&bytes, conf).unwrap();
        assert_eq!(packet.addr, arrived);
        assert_eq!(packet.payload, "hi");
        assert_eq!(read, len);
    }
}

#[test]
fn malformed_packet_is_refused() {
    let conf = bincode::config::standard();
    for bytes in [
        &[][..],
        &[0, 127, 0, 0][..],
        &[0, 127, 0, 0, 1][..],
        &[0, 127, 0, 0, 1, 251, 1][..],
        &[0, 127, 0, 0, 1, 252, 1, 0, 0, 0, 0][..],
        &[0, 127, 0, 0, 1, 7][..],
        &[1, 127, 0, 0, 1, 7, 0][..],
    ] {
        assert!(matches!(
            UdpPacket::<String>::decode_from_slice(bytes, conf),
            Err(Error::Decode(..))
        ));
    }
    assert!(matches!(
        UdpPacket::<String>::decode_from_slice(&[2, 127, 0, 0, 1, 7, 0], conf),
        Err(Error::UnexpectedVariant {
            of: Enumeration::SocketAddr,
            min: 0,
            max: 1,
            found: 2
        })
    ));
}

fn malformation<T: WireFormat>(bytes: &[u8]) -> Malformation {
    match T::decode_from_slice(bytes, bincode::config::standard()) {
        Err(Error::Decode(malformation, _)) => malformation,
        _ => panic!("the bytes are well formed"),
    }
}

#[test]
fn early_end_tells_what_is_missing() {
    let missing = |additional: usize| Malformation::UnexpectedEnd { additional };
    assert_eq!(malformation::<String>(&[]), missing(1));
    assert_eq!(malformation::<String>(&[251, 1]), missing(1));
    assert_eq!(malformation::<String>(&[253, 1]), missing(7));
    assert_eq!(malformation::<String>(&[5, b'h', b'i']), missing(3));
    assert_eq!(malformation::<Message>(&[]), missing(1));
    assert_eq!(malformation::<Message>(&[252]), missing(4));
    assert_eq!(malformation::<Message>(&[0, 2, b'h']), missing(1));
    assert_eq!(malformation::<UdpPacket<String>>(&[0, 127]), missing(3));
    assert_eq!(malformation::<UdpPacket<String>>(&[1, 127, 0]), missing(14));
    assert_eq!(malformation::<UdpPacket<String>>(&[0, 127, 0, 0, 1]), missing(1));
    assert_eq!(malformation::<UdpPacket<String>>(&[0, 127, 0, 0, 1, 251]), missing(2));
}

#[test]
fn wide_integer_is_told() {
    let wide = |found: IntegerType| Malformation::InvalidIntegerType(found);
    for len in [0, 20] {
        let behind = vec![0; len];
        let with = |head: &[u8]| [head, behind.as_slice()].concat();
        assert_eq!(malformation::<String>(&with(&[254])), wide(IntegerType::U128));
        assert_eq!(malformation::<String>(&with(&[255])), wide(IntegerType::Reserved));
        assert_eq!(malformation::<Message>(&with(&[253])), wide(IntegerType::U64));
        assert_eq!(malformation::<Message>(&with(&[254])), wide(IntegerType::U128));
        assert_eq!(malformation::<Message>(&with(&[255])), wide(IntegerType::Reserved));
        for (byte, found) in [
            (252, IntegerType::U32),
            (253, IntegerType::U64),
            (254, IntegerType::U128),
            (255, IntegerType::Reserved),
        ] {
            let bytes = with(&[0, 127, 0, 0, 1, byte]);
            assert_eq!(malformation::<UdpPacket<String>>(&bytes), wide(found));
        }
    }
}

#[test]
fn text_that_is_not_utf8_tells_how_far_it_is() {
    let utf8 = |valid_up_to: usize| Malformation::Utf8 { valid_up_to };
    assert_eq!(malformation::<String>(&[1, 0xff]), utf8(0));
    assert_eq!(malformation::<String>(&[4, b'h', b'i', 0xff, b'!']), utf8(2));
    assert_eq!(malformation::<Message>(&[0, 4, b'h', 0xc3, 0xa9, 0xc3]), utf8(3));
}

#[test]
fn error_of_the_encoding_is_handed_on() {
    let conf = bincode::config::standard();
    let shown = |out: Result<Option<Message>, Error>| match out {
        Err(Error::Decode(_, error)) => format!("{:?}", error),
        _ => panic!("the bytes are well formed"),
    };
    for bytes in [
        &[][..],
        &[2, b'h'][..],
        &[251, 1][..],
        &[254][..],
        &[254, 0, 0, 0, 0, 0, 0, 0, 0, 0][..],
        &[255][..],
        &[3, b'h', 0xc3, 0xff][..],
        &[2, b'h', 0xc3][..],
    ] {
        let expected = bincode::decode_from_slice::<String, _>(bytes, conf).err().unwrap();
        let mut buf = BytesMut::from([&[0][..], bytes].concat().as_slice());
        assert_eq!(shown(decode(conf, &mut buf)), format!("{:?}", expected));
    }
    for bytes in [&[251, 7][..], &[253, 1][..], &[254, 0, 0, 0, 0][..]] {
        let expected = bincode::decode_from_slice::<u32, _>(bytes, conf).err().unwrap();
        let mut buf = BytesMut::from(bytes);
        assert_eq!(shown(decode(conf, &mut buf)), format!("{:?}", expected));
    }
    for bytes in [&[][..], &[127][..], &[127, 0, 0, 1][..], &[127, 0, 0, 1, 252, 0][..]] {
        let expected = bincode::decode_from_slice::<([u8; 4], u16), _>(bytes, conf).err().unwrap();
        let bytes = [&[0][..], bytes].concat();
        match UdpPacket::<String>::decode_from_slice(&bytes, conf) {
            Err(Error::Decode(_, error)) => {
                assert_eq!(format!("{:?}", error), format!("{:?}", expected));
            }
            _ => panic!("the bytes are well formed"),
        }
    }
}

#[test]
fn bytes_without_a_frame_are_an_error_at_the_end() {
    let held = BytesMut::from(&[7][..]);
    let none = BytesMut::new();
    assert!(matches!(last_frame::<u8>(Ok(None), &held), Err(Error::BytesRemaining)));
    assert!(matches!(last_frame::<u8>(Ok(None), &none), Ok(None)));
    assert!(matches!(last_frame(Ok(Some(1u8)), &held), Ok(Some(1))));
    assert!(matches!(last_frame::<u8>(Err(Error::StartSend), &held), Err(Error::StartSend)));
}
