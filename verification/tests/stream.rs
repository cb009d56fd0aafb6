use bytes::BytesMut;
use tower_dtls::addr::SocketAddr;
use tower_dtls::packet::UdpPacket;
use tower_dtls::poll::Poll;
use tower_dtls::router::ClientConnsMsg;
use tower_dtls::stream::{
    read_buffer, DtlsConnStream, ReadAction, ReadEvent, ReadLoop, ReadPhase, Received, Role,
    WriteAction, WriteEvent, WriteLoop, WritePhase, BUF_SIZE, READ_TIMEOUT_MILLIS,
};

fn addr(port: u16) -> SocketAddr {
    SocketAddr::V4 { ipv4: 0x0a00_0001, port }
}

fn read(bytes: &[u8]) -> ReadEvent<Received> {
    let mut buf = read_buffer();
    buf[..bytes.len()].copy_from_slice(bytes);
    ReadEvent::Received(Received { buf, len: bytes.len() })
}

fn queued(bytes: &[u8]) -> WriteEvent<Vec<u8>> {
    WriteEvent::Queued(Some(UdpPacket::new(addr(1), bytes.to_vec())))
}

#[test]
fn buffer_for_a_read_is_zeroed() {
    let buf = read_buffer();
    assert_eq!(buf.len(), 65_536);
    assert_eq!(BUF_SIZE, 65_536);
    assert!(buf.iter().all(|byte| *byte == 0));
    assert_eq!(READ_TIMEOUT_MILLIS, 3_000);
}

#[test]
fn read_gives_the_front_of_its_buffer() {
    let received = Received { buf: BytesMut::from(&[1, 2, 3, 4][..]), len: 3 };
    assert_eq!(received.to_vec(), vec![1, 2, 3]);
    let received = Received { buf: BytesMut::from(&[1, 2][..]), len: 0 };
    assert!(received.to_vec().is_empty());
}

#[test]
fn reads_are_delivered() {
    for role in [Role::Client, Role::Server] {
        let mut task = ReadLoop::new(role, addr(3));
        for bytes in [&[1, 2, 3][..], &[][..], &[9][..]] {
            match task.step(read(bytes)) {
                ReadAction::Deliver(packet) => {
                    assert_eq!(packet.addr, addr(3));
                    assert_eq!(packet.payload, bytes);
                }
                _ => panic!("not delivered"),
            }
            assert!(matches!(task.phase, ReadPhase::Delivering));
            assert!(matches!(task.step(ReadEvent::Delivered), ReadAction::Read));
            assert!(matches!(task.phase, ReadPhase::Reading));
        }
    }
}

#[test]
fn client_reader_ends_on_a_failed_read() {
    let mut task = ReadLoop::new(Role::Client, addr(3));
    assert!(matches!(task.step(ReadEvent::Failed), ReadAction::Stop));
    assert!(matches!(task.phase, ReadPhase::Done));
}

#[test]
fn client_reader_ends_when_its_stream_is_gone() {
    let mut task = ReadLoop::new(Role::Client, addr(3));
    task.step(read(&[1]));
    assert!(matches!(task.step(ReadEvent::Undelivered), ReadAction::Stop));
    assert!(matches!(task.phase, ReadPhase::Done));
}

#[test]
fn server_reader_survives_failures() {
    let mut task = ReadLoop::new(Role::Server, addr(3));
    assert!(matches!(task.step(ReadEvent::Failed), ReadAction::Read));
    task.step(read(&[1]));
    assert!(matches!(task.step(ReadEvent::Undelivered), ReadAction::Read));
    assert!(matches!(task.phase, ReadPhase::Reading));
}

#[test]
fn server_reader_ends_when_its_client_is_silent() {
    let mut task = ReadLoop::new(Role::Server, addr(3));
    assert!(matches!(task.step(ReadEvent::TimedOut), ReadAction::Leave(left) if left == addr(3)));
    assert!(matches!(task.phase, ReadPhase::Done));
}

#[test]
fn queued_packets_are_sent() {
    for role in [Role::Client, Role::Server] {
        let mut task = WriteLoop::new(role);
        for bytes in [&[1, 2][..], &[3][..]] {
            match task.step(queued(bytes)) {
                WriteAction::Send(datagram) => assert_eq!(datagram, bytes),
                _ => panic!("not sent"),
            }
            assert!(matches!(task.phase, WritePhase::Sending));
            assert!(matches!(task.step(WriteEvent::Sent), WriteAction::Wait));
            assert!(matches!(task.phase, WritePhase::Waiting));
        }
    }
}

#[test]
fn writer_waits_on_where_its_queue_has_ended() {
    let mut task = WriteLoop::new(Role::Client);
    assert!(matches!(task.step(WriteEvent::Queued(None)), WriteAction::Wait));
    assert!(matches!(task.phase, WritePhase::Waiting));
}

#[test]
fn stopped_writer_ends() {
    for role in [Role::Client, Role::Server] {
        let mut task = WriteLoop::new(role);
        assert!(matches!(task.step(WriteEvent::Stopped), WriteAction::Exit));
        assert!(matches!(task.phase, WritePhase::Done));
    }
}

#[test]
fn client_writer_ends_on_a_failed_send() {
    let mut task = WriteLoop::new(Role::Client);
    task.step(queued(&[1]));
    assert!(matches!(task.step(WriteEvent::SendFailed), WriteAction::Exit));
    assert!(matches!(task.phase, WritePhase::Done));
}

#[test]
fn client_stream_has_two_tasks() {
    let (stream, writer, reader) = DtlsConnStream::new_client("rx", "tx", addr(8));
    assert_eq!(stream.rx1, "rx");
    assert_eq!(stream.tx2, "tx");
    assert!(matches!(writer.role, Role::Client));
    assert!(matches!(writer.phase, WritePhase::Waiting));
    assert!(matches!(reader.role, Role::Client));
    assert!(matches!(reader.phase, ReadPhase::Reading));
    assert_eq!(reader.addr, addr(8));
}

#[test]
fn accepted_client_is_routed_until_it_is_silent() {
    let (_, mut router) = DtlsConnStream::new_server::<u32>("rx", "tx");
    assert_eq!(router.len(), 0);
    let (mut reader, msg, writer) = DtlsConnStream::<(), ()>::accept::<u32, u8>(addr(8), 77);
    assert!(matches!(writer.role, Role::Server));
    assert!(router.handle(msg).is_none());
    assert_eq!(router.handle(ClientConnsMsg::Get(addr(8), 1u8)), Some((1, 77)));
    match reader.step(ReadEvent::TimedOut) {
        ReadAction::Leave(left) => {
            assert!(router.handle(ClientConnsMsg::<u32, u8>::Remove(left)).is_none())
        }
        _ => panic!("still there"),
    }
    assert!(!router.contains(addr(8)));
}

#[test]
fn polls_of_the_queue_pass() {
    let (stream, _, _) = DtlsConnStream::new_client((), (), addr(8));
    assert_eq!(stream.poll_next(Poll::Ready(Some(3))), Poll::Ready(Some(3)));
    assert_eq!(stream.poll_next::<u8>(Poll::Ready(None)), Poll::Ready(None));
    assert_eq!(stream.poll_next::<u8>(Poll::Pending), Poll::Pending);
    assert_eq!(stream.poll_ready::<u8>(), Poll::Ready(Ok(())));
    assert_eq!(stream.poll_flush::<u8>(), Poll::Ready(Ok(())));
    assert_eq!(stream.poll_close::<u8>(), Poll::Ready(Ok(())));
}

#[test]
fn tasks_start_by_reading_and_waiting() {
    assert!(matches!(ReadLoop::new(Role::Client, addr(1)).start(), ReadAction::Read));
    assert!(matches!(ReadLoop::new(Role::Server, addr(1)).start(), ReadAction::Read));
    assert!(matches!(WriteLoop::new(Role::Client).start(), WriteAction::Wait));
    assert!(matches!(WriteLoop::new(Role::Server).start(), WriteAction::Wait));
}
