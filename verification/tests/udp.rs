use bytes::BytesMut;
use tower_dtls::addr::SocketAddr;
use tower_dtls::codec::{Decoder, Encoder};
use tower_dtls::error::{Enumeration, Error};
use tower_dtls::poll::Poll;
use tower_dtls::router::ClientConnsMsg;
use tower_dtls::stream::Received;
use tower_dtls::udp::{
    decode, dropped_error, encode, read_buffer, CodecStream, DtlsConnStream, UdpPayload,
    UdpPayloadEncoderDecoder,
};

type Message = UdpPayload<String, String>;
type Stream = DtlsConnStream<(), ()>;

fn addr(port: u16) -> SocketAddr {
    SocketAddr::V4 { ipv4: 0x0a00_0001, port }
}

fn codec() -> UdpPayloadEncoderDecoder<Message> {
    UdpPayloadEncoderDecoder::new(bincode::config::standard())
}

#[test]
fn plain_buffer_is_smaller() {
    let buf = read_buffer();
    assert_eq!(buf.len(), 1500);
    assert!(buf.iter().all(|byte| *byte == 0));
}

#[test]
fn plain_packets_are_pairs() {
    let read = Received { buf: BytesMut::from(&[1, 2, 3][..]), len: 2 };
    assert_eq!(Stream::received(&read, addr(2)), (vec![1, 2], addr(2)));
    assert_eq!(Stream::datagram(Some((vec![4], addr(2)))), Some(vec![4]));
    assert_eq!(Stream::datagram(None), None);
}

#[test]
fn plain_server_routes_by_address() {
    let (stream, mut router) = DtlsConnStream::new_server::<u32>("rx", "tx");
    assert_eq!((stream.rx1, stream.tx2), ("rx", "tx"));
    assert!(router.handle(Stream::accept::<u32, u8>(addr(1), 11)).is_none());
    assert!(router.handle(Stream::accept::<u32, u8>(addr(2), 22)).is_none());
    let msg: ClientConnsMsg<u32, u8> = Stream::lookup(&(vec![], addr(2)), 5);
    assert_eq!(router.handle(msg), Some((5, 22)));
}

#[test]
fn plain_polls_of_the_queue_pass() {
    let stream = DtlsConnStream::new_client("rx", "tx");
    assert_eq!((stream.rx1, stream.tx2), ("rx", "tx"));
    assert_eq!(stream.poll_next(Poll::Ready(Some(3))), Poll::Ready(Some(3)));
    assert_eq!(stream.poll_next::<u8>(Poll::Ready(None)), Poll::Ready(None));
    assert_eq!(stream.poll_next::<u8>(Poll::Pending), Poll::Pending);
    assert_eq!(stream.poll_ready::<u8>(), Poll::Ready(Ok(())));
    assert_eq!(stream.poll_flush::<u8>(), Poll::Ready(Ok(())));
    assert_eq!(stream.poll_close::<u8>(), Poll::Ready(Ok(())));
}

#[test]
fn plain_decoding_reports_nothing() {
    let conf = bincode::config::standard();
    let mut buf = BytesMut::from(&[1, 2, b'h'][..]);
    let out: Result<Option<Message>, Error> = decode(conf, &mut buf);
    assert!(matches!(out, Ok(None)));
    assert_eq!(&buf[..], &[1, 2, b'h']);
    let mut buf = BytesMut::new();
    let out: Result<Option<Message>, Error> = decode(conf, &mut buf);
    assert!(matches!(out, Ok(None)));
}

#[test]
fn plain_decode_undoes_encode() {
    let conf = bincode::config::standard();
    let mut buf = BytesMut::from(&[][..]);
    assert!(encode(conf, Message::Request("hi".to_string()), &mut buf).is_ok());
    assert_eq!(&buf[..], &[0, 2, b'h', b'i']);
    let out: Result<Option<Message>, Error> = decode(conf, &mut buf);
    assert!(matches!(out, Ok(Some(UdpPayload::Request(text))) if text == "hi"));
    assert!(buf.is_empty());
    assert!(codec().encode(Message::Response("x".to_string()), &mut buf).is_ok());
    let out = codec().decode(&mut buf);
    assert!(matches!(out, Ok(Some(UdpPayload::Response(text))) if text == "x"));
}

#[test]
fn codecs_agree_on_datagrams() {
    for bytes in [&[0, 1, b'h'][..], &[1, 0][..], &[][..], &[3][..], &[0, 200][..]] {
        let mut strict = tower_dtls::codec::UdpPayloadEncoderDecoder::<Message>::new(
            bincode::config::standard(),
        );
        let mut buf = BytesMut::from(bytes);
        let mut plain_buf = BytesMut::from(bytes);
        let out = strict.decode_eof(&mut buf);
        let plain_out = codec().decode_eof(&mut plain_buf);
        assert_eq!(buf, plain_buf);
        assert_eq!(out.is_ok(), plain_out.is_ok());
        if let Err(error) = plain_out {
            assert!(matches!(error, Error::BytesRemaining));
        }
    }
}

#[test]
fn plain_messages_arrive() {
    let mut messages = CodecStream::new(codec(), "datagrams");
    let sent = messages.start_send((Message::Request("hi".to_string()), addr(3))).ok().unwrap();
    assert_eq!(sent, (vec![0, 2, b'h', b'i'], addr(3)));
    match messages.poll_next::<u8>(Poll::Ready(Some(Ok((sent.0, addr(4)))))) {
        Poll::Ready(Some(Ok((message, from)))) => {
            assert!(matches!(message, UdpPayload::Request(text) if text == "hi"));
            assert_eq!(from, addr(4));
        }
        _ => panic!("lost"),
    }
    assert_eq!(messages.stream, "datagrams");
}

#[test]
fn plain_stream_ends_on_what_is_no_message() {
    let mut messages = CodecStream::new(codec(), ());
    let polled = Poll::Ready(Some(Ok((vec![7u8], addr(4)))));
    assert!(matches!(messages.poll_next::<u8>(polled), Poll::Ready(None)));
    assert!(matches!(messages.poll_next::<u8>(Poll::Pending), Poll::Pending));
    assert!(matches!(messages.poll_next::<u8>(Poll::Ready(None)), Poll::Pending));
    assert!(matches!(messages.poll_next(Poll::Ready(Some(Err(1u8)))), Poll::Pending));
}

#[test]
fn plain_decoding_tells_what_it_drops() {
    let conf = bincode::config::standard();
    assert!(dropped_error::<Message>(conf, &[]).is_none());
    assert!(dropped_error::<Message>(conf, &[0, 1, b'h']).is_none());
    assert!(matches!(dropped_error::<Message>(conf, &[0, 9]), Some(Error::Decode(..))));
    assert!(matches!(
        dropped_error::<Message>(conf, &[105]),
        Some(Error::UnexpectedVariant { of: Enumeration::UdpPayload, min: 0, max: 1, found: 105 })
    ));
}
