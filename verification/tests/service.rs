use bytes::BytesMut;
use tower_dtls::addr::SocketAddr;
use tower_dtls::client::{ClientError, DtlsClient};
use tower_dtls::codec::{decode, encode, CodecStream, UdpPayloadEncoderDecoder};
use tower_dtls::echo::{CryptLayer, CryptService, EchoRequest, EchoResponse, EchoService};
use tower_dtls::packet::{UdpPacket, UdpPayload};
use tower_dtls::poll::Poll;
use tower_dtls::service::{RequestHandlerService, ServiceError};
use tower_dtls::text::{
    echo_greeting, greeting, next_round, reply, response_text, Mode, ECHO_ROUNDS, ROUNDS,
};

fn addr(port: u16) -> SocketAddr {
    SocketAddr::V4 { ipv4: 0x0a00_0001, port }
}

type Message = UdpPayload<String, String>;
type Service = RequestHandlerService<(), String, String>;
type Client = DtlsClient<(), String, String>;

#[test]
fn service_keeps_the_inner_service() {
    let service = RequestHandlerService::<_, u8, u8>::new(5);
    assert_eq!(service.inner, 5);
}

#[test]
fn request_is_answered_where_it_came_from() {
    let packet = UdpPacket::new(addr(4), UdpPayload::Request("hi".to_string()));
    let answer = Service::call::<_, u8>(packet, |text| Ok(reply(&text)));
    match answer {
        Ok(packet) => {
            assert_eq!(packet.addr, addr(4));
            assert!(matches!(packet.payload, UdpPayload::Response(text) if text == "resp: hi"));
        }
        Err(_) => panic!("refused"),
    }
}

#[test]
fn failure_of_the_service_is_passed_on() {
    let packet = UdpPacket::new(addr(4), UdpPayload::Request("hi".to_string()));
    let answer = Service::call(packet, |_| Err(17));
    match answer {
        Err(error) => {
            assert_eq!(error.text(), None);
            assert!(matches!(error, ServiceError::Inner(17)));
        }
        Ok(_) => panic!("answered"),
    }
}

#[test]
fn response_is_refused_and_not_handled() {
    let packet = UdpPacket::new(addr(4), UdpPayload::Response("hi".to_string()));
    let answer = Service::call::<_, u8>(packet, |_| panic!("called"));
    match answer {
        Err(error) => {
            assert_eq!(error.text(), Some("doesn't handle  UdpPayload::Response "));
            assert!(matches!(error, ServiceError::UnhandledResponse));
        }
        Ok(_) => panic!("answered"),
    }
}

#[test]
fn client_sends_requests() {
    let client = DtlsClient::<_, u8, u8>::new("stream", addr(6));
    assert_eq!(client.inner, "stream");
    let packet = client.send_recv_packet(9);
    assert_eq!(packet.addr, addr(6));
    assert!(matches!(packet.payload, UdpPayload::Request(9)));
}

#[test]
fn client_takes_the_first_message() {
    let client = Client::new((), addr(6));
    let arrived = |payload| Poll::Ready(Some(Ok::<_, u8>(UdpPacket::new(addr(1), payload))));
    let outcome = client.send_recv_poll(arrived(UdpPayload::Response("x".to_string())));
    assert!(matches!(outcome, Poll::Ready(Ok(text)) if text == "x"));
    match client.send_recv_poll(arrived(UdpPayload::Request("x".to_string()))) {
        Poll::Ready(Err(error)) => {
            assert_eq!(error.text(), Some("expected response"));
            assert!(matches!(error, ClientError::ExpectedResponse));
        }
        _ => panic!("taken"),
    }
    match client.send_recv_poll(Poll::Ready(Some(Err(3u8)))) {
        Poll::Ready(Err(error)) => {
            assert_eq!(error.text(), None);
            assert!(matches!(error, ClientError::Stream(3)));
        }
        _ => panic!("taken"),
    }
}

#[test]
fn client_waits_on_where_the_stream_has_ended() {
    let client = Client::new((), addr(6));
    assert!(matches!(client.send_recv_poll::<u8>(Poll::Ready(None)), Poll::Pending));
    assert!(matches!(client.send_recv_poll::<u8>(Poll::Pending), Poll::Pending));
}

#[test]
fn requests_are_answered() {
    let codec = || UdpPayloadEncoderDecoder::<Message>::new(bincode::config::standard());
    let mut client_stream = CodecStream::new(codec(), ());
    let mut server_stream = CodecStream::new(codec(), ());
    let client = Client::new((), addr(6));

    let sent = client_stream.start_send(client.send_recv_packet(greeting(12))).ok().unwrap();
    let at_server = UdpPacket::new(addr(50), sent.payload);
    let request = match server_stream.poll_next::<u8>(Poll::Ready(Some(Ok(at_server)))) {
        Poll::Ready(Some(Ok(packet))) => packet,
        _ => panic!("lost"),
    };
    let answer = Service::call::<_, u8>(request, |text| Ok(reply(&text))).ok().unwrap();
    assert_eq!(answer.addr, addr(50));
    let sent = server_stream.start_send(answer).ok().unwrap();
    assert_eq!(sent.addr, addr(50));
    let at_client = UdpPacket::new(addr(6), sent.payload);
    let arrived = client_stream.poll_next::<u8>(Poll::Ready(Some(Ok(at_client))));
    let outcome = client.send_recv_poll(arrived);
    assert!(matches!(outcome, Poll::Ready(Ok(text)) if text == "resp: howdy 12"));
}

#[test]
fn layer_lets_requests_pass() {
    let layer = CryptLayer::<u8, u8>::new();
    let service = layer.layer("echo");
    assert_eq!(service.inner, "echo");
    assert_eq!(service.clone().inner, "echo");
    assert_eq!(CryptService::<(), u8, u8>::call(4, |n| Ok::<u8, u8>(n + 1)), Ok(5));
    assert_eq!(CryptService::<(), u8, u8>::call(4, |n| Err::<u8, u8>(n)), Err(4));
}

#[test]
fn echo_repeats_its_client() {
    let response = EchoService.call(EchoRequest(echo_greeting(3)));
    assert_eq!(response.0, "client says: hey hey hey hey 3");
    assert_eq!(response.clone().0, "client says: hey hey hey hey 3");
}

#[test]
fn echo_messages_are_their_texts() {
    let conf = bincode::config::standard();
    let mut buf = BytesMut::new();
    let request: UdpPayload<EchoRequest, EchoResponse> =
        UdpPayload::Request(EchoRequest("hi".to_string()));
    assert!(encode(conf, request, &mut buf).is_ok());
    assert_eq!(&buf[..], &[0, 2, b'h', b'i']);
    let out: Option<UdpPayload<EchoRequest, EchoResponse>> = decode(conf, &mut buf).ok().unwrap();
    assert!(matches!(out, Some(UdpPayload::Request(request)) if request.0 == "hi"));
    let response: UdpPayload<EchoRequest, EchoResponse> =
        UdpPayload::Response(EchoResponse("hi".to_string()));
    assert!(encode(conf, response, &mut buf).is_ok());
    assert_eq!(&buf[..], &[1, 2, b'h', b'i']);
    let out: Option<UdpPayload<EchoRequest, EchoResponse>> = decode(conf, &mut buf).ok().unwrap();
    assert!(matches!(out, Some(UdpPayload::Response(response)) if response.0 == "hi"));
}

#[test]
fn greetings_are_numbered() {
    assert_eq!(greeting(0), "howdy 0");
    assert_eq!(greeting(9), "howdy 9");
    assert_eq!(greeting(10), "howdy 10");
    assert_eq!(greeting(999), "howdy 999");
    assert_eq!(greeting(u32::MAX), "howdy 4294967295");
    assert_eq!(greeting(1_234_567_890), "howdy 1234567890");
}

#[test]
fn texts_of_responses() {
    assert_eq!(reply("howdy 1"), "resp: howdy 1");
    assert_eq!(response_text(UdpPayload::Response("x".to_string())), "x");
    assert_eq!(response_text(UdpPayload::Request("x".to_string())), "");
}

#[test]
fn modes_have_names() {
    assert_eq!(Mode::from_name(&"client".to_string()), Some(Mode::Client));
    assert_eq!(Mode::from_name(&"server".to_string()), Some(Mode::Server));
    assert_eq!(Mode::from_name(&"Client".to_string()), None);
    assert_eq!(Mode::from_name(&"".to_string()), None);
}

#[test]
fn clients_make_all_their_rounds() {
    for rounds in [0, 1, 3, ROUNDS, ECHO_ROUNDS] {
        let mut made = Vec::new();
        let mut done = 0;
        while let Some(round) = next_round(done, rounds) {
            made.push(round);
            done += 1;
        }
        assert_eq!(made, (0..rounds).collect::<Vec<u32>>());
    }
    assert_eq!(ROUNDS, 1000);
    assert_eq!(ECHO_ROUNDS, 100);
    assert_eq!(next_round(7, 3), None);
}

#[test]
fn answers_belong_to_their_requests() {
    let packets = vec![
        UdpPacket::new(addr(1), UdpPayload::Request(10)),
        UdpPacket::new(addr(2), UdpPayload::Response(20)),
        UdpPacket::new(addr(3), UdpPayload::Request(30)),
        UdpPacket::new(addr(1), UdpPayload::Request(40)),
    ];
    let mut calls = Vec::new();
    let mut answers = Vec::new();
    for packet in packets {
        answers.push(RequestHandlerService::<(), u32, u32>::call(packet, |request| {
            calls.push(request);
            if request == 30 { Err("no") } else { Ok(request + 1) }
        }));
    }
    assert_eq!(calls, vec![10, 30, 40]);
    assert!(matches!(&answers[0], Ok(reply)
        if reply.addr == addr(1) && matches!(reply.payload, UdpPayload::Response(11))));
    assert!(matches!(&answers[1], Err(ServiceError::UnhandledResponse)));
    assert!(matches!(&answers[2], Err(ServiceError::Inner("no"))));
    assert!(matches!(&answers[3], Ok(reply)
        if reply.addr == addr(1) && matches!(reply.payload, UdpPayload::Response(41))));
}
