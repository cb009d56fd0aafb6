//! What holds of the parts of the library together.

use vstd::prelude::*;
use vstd::arithmetic::power::pow;
use bincode::config::Configuration;

use crate::addr::{addr_encoding, lemma_addr_round_trip, SocketAddr};
use crate::buffer::contents;
use crate::client::{awaited, ClientError};
use crate::codec::{
    at_eof, decoded, encoded, frame_of, Decoder, Encoder, UdpPayloadEncoderDecoder,
};
use crate::error::Error;
use crate::packet::{UdpPacket, UdpPayload};
use crate::poll::Poll;
use crate::router::{routable, routes_after, ClientConnsMsg};
use crate::service::{request_in, response_to, ServiceError};
use crate::stream::{
    ReadAction, ReadEvent, ReadLoop, ReadPhase, Received, Role, WriteAction, WriteEvent, WriteLoop,
    WritePhase,
};
use crate::text::{decimal, round_after};
use crate::wire::{Lossless, WireFormat};

verus! {

/// No message has an empty encoding.
pub proof fn messages_are_not_empty<Q: WireFormat, R: WireFormat>(message: UdpPayload<Q::V, R::V>)
    ensures
        UdpPayload::<Q, R>::encoding(message) matches Some(bytes) ==> bytes.len() > 0,
{
}

/// Different values have different encodings, and neither is the start of the other.
pub proof fn encodings_are_prefix_free<T: Lossless>(a: T::V, b: T::V, rest: Seq<u8>)
    requires
        T::encoding(a) is Some,
        T::encoding(b) is Some,
        T::encoding(a)->0 + rest == T::encoding(b)->0,
    ensures
        a == b,
        rest.len() == 0,
{
    T::round_trip(a, rest);
    T::round_trip(b, Seq::empty());
    assert(T::encoding(b)->0 + Seq::<u8>::empty() =~= T::encoding(b)->0);
}

/// A packet is read back from its encoding whatever follows it, but for the flow and the scope of
/// its address, which are not encoded.
pub proof fn packets_are_read_back<T: Lossless>(packet: UdpPacket<T::V>, rest: Seq<u8>)
    requires
        UdpPacket::<T>::encoding(packet) is Some,
    ensures
        UdpPacket::<T>::decoding(UdpPacket::<T>::encoding(packet)->0 + rest) == Ok::<
            _,
            Error,
        >(
            (
                UdpPacket { addr: packet.addr.unqualified(), payload: packet.payload },
                UdpPacket::<T>::encoding(packet)->0.len(),
            ),
        ),
{
    let head = addr_encoding(packet.addr);
    let body = T::encoding(packet.payload)->0;
    let bytes = head + body + rest;
    lemma_addr_round_trip(packet.addr, body + rest);
    assert(bytes =~= head + (body + rest));
    assert(bytes.skip(head.len() as int) =~= body + rest);
    T::round_trip(packet.payload, rest);
}

/// What `encode` writes to an empty buffer, `decode` takes out of it again, and it leaves nothing
/// behind. This holds of every value whose encoding is not empty: an empty buffer holds no value.
pub proof fn decode_undoes_encode<T: Lossless>(
    conf: Configuration,
    item: T,
    written: Seq<u8>,
    encode_out: Result<(), Error>,
    left: Seq<u8>,
    decode_out: Result<Option<T>, Error>,
)
    requires
        encoded(conf, item, Seq::empty(), written, encode_out),
        encode_out is Ok,
        decoded::<T>(written, left, decode_out),
        written.len() > 0,
    ensures
        decode_out is Ok,
        decode_out->Ok_0 is Some,
        decode_out->Ok_0->0@ == item@,
        left.len() == 0,
{
    T::round_trip(item@, Seq::empty());
    assert(written =~= T::encoding(item@)->0 + Seq::<u8>::empty());
}

/// Bytes that follow a message in the same buffer do not change what is decoded, and are dropped
/// with it.
pub proof fn trailing_bytes_are_dropped<T: Lossless>(
    value: T::V,
    rest: Seq<u8>,
    left: Seq<u8>,
    out: Result<Option<T>, Error>,
)
    requires
        T::encoding(value) is Some,
        T::encoding(value)->0.len() > 0,
        decoded::<T>(T::encoding(value)->0 + rest, left, out),
    ensures
        out is Ok,
        out->Ok_0 is Some,
        out->Ok_0->0@ == value,
        left.len() == 0,
{
    T::round_trip(value, rest);
}

/// A message that a stream of messages sends arrives, with the address that the datagram came
/// from, at a stream of messages that gets the datagram.
pub proof fn sent_messages_arrive<Q: Lossless, R: Lossless, E>(
    sender: UdpPayloadEncoderDecoder<UdpPayload<Q, R>>,
    message: UdpPayload<Q, R>,
    sender_after: UdpPayloadEncoderDecoder<UdpPayload<Q, R>>,
    datagram: Seq<u8>,
    encode_out: Result<(), Error>,
    addr: SocketAddr,
    receiver: UdpPayloadEncoderDecoder<UdpPayload<Q, R>>,
    receiver_after: UdpPayloadEncoderDecoder<UdpPayload<Q, R>>,
    left: Seq<u8>,
    decode_out: Result<Option<UdpPayload<Q, R>>, Error>,
)
    requires
        UdpPayload::<Q, R>::encoding(message@) is Some,
        <UdpPayloadEncoderDecoder<UdpPayload<Q, R>> as Encoder<UdpPayload<Q, R>>>::encodes(
            sender,
            message,
            Seq::empty(),
            sender_after,
            datagram,
            encode_out,
        ),
        UdpPayloadEncoderDecoder::<UdpPayload<Q, R>>::decodes_at_eof(
            receiver,
            datagram,
            receiver_after,
            left,
            decode_out,
        ),
    ensures
        encode_out is Ok,
        frame_of::<UdpPayload<Q, R>, Error, E>(addr, decode_out) matches Poll::Ready(Some(Ok(packet)))
            && packet.addr == addr && packet.payload@ == message@,
{
    messages_are_not_empty::<Q, R>(message@);
    UdpPayload::<Q, R>::round_trip(message@, Seq::empty());
    assert(datagram =~= UdpPayload::<Q, R>::encoding(message@)->0 + Seq::<u8>::empty());
}

/// A message that the plainer stream of messages sends arrives, with the address that the datagram
/// came from, at a plainer stream of messages that gets the datagram.
pub proof fn plain_messages_arrive<Q: Lossless, R: Lossless, E>(
    sender: crate::udp::UdpPayloadEncoderDecoder<UdpPayload<Q, R>>,
    message: UdpPayload<Q, R>,
    sender_after: crate::udp::UdpPayloadEncoderDecoder<UdpPayload<Q, R>>,
    datagram: Seq<u8>,
    encode_out: Result<(), Error>,
    addr: SocketAddr,
    receiver: crate::udp::UdpPayloadEncoderDecoder<UdpPayload<Q, R>>,
    receiver_after: crate::udp::UdpPayloadEncoderDecoder<UdpPayload<Q, R>>,
    left: Seq<u8>,
    decode_out: Result<Option<UdpPayload<Q, R>>, Error>,
)
    requires
        UdpPayload::<Q, R>::encoding(message@) is Some,
        <crate::udp::UdpPayloadEncoderDecoder<UdpPayload<Q, R>> as Encoder<
            UdpPayload<Q, R>,
        >>::encodes(sender, message, Seq::empty(), sender_after, datagram, encode_out),
        crate::udp::UdpPayloadEncoderDecoder::<UdpPayload<Q, R>>::decodes_at_eof(
            receiver,
            datagram,
            receiver_after,
            left,
            decode_out,
        ),
    ensures
        encode_out is Ok,
        crate::udp::frame_of::<UdpPayload<Q, R>, Error, E>(decode_out, addr) matches Poll::Ready(
            Some(Ok(packet)),
        ) && packet.1 == addr && packet.0@ == message@,
{
    messages_are_not_empty::<Q, R>(message@);
    UdpPayload::<Q, R>::round_trip(message@, Seq::empty());
    assert(datagram =~= UdpPayload::<Q, R>::encoding(message@)->0 + Seq::<u8>::empty());
}

/// A datagram without a byte, like one that does not start with a message, ends a stream of
/// messages; a message ends it never.
pub proof fn streams_end_on_what_is_no_message<T: WireFormat, E>(
    codec: UdpPayloadEncoderDecoder<T>,
    datagram: Seq<u8>,
    codec_after: UdpPayloadEncoderDecoder<T>,
    left: Seq<u8>,
    decode_out: Result<Option<T>, Error>,
    addr: SocketAddr,
)
    requires
        UdpPayloadEncoderDecoder::<T>::decodes_at_eof(
            codec,
            datagram,
            codec_after,
            left,
            decode_out,
        ),
    ensures
        frame_of::<T, Error, E>(addr, decode_out) == Poll::Ready(None::<Result<UdpPacket<T>, E>>) <==> (
        datagram.len() == 0 || T::decoding(datagram) is Err),
{
}

/// The codec of the plainer stream finds the same messages in the same datagrams as the other one.
pub proof fn codecs_agree_on_datagrams<T: WireFormat>(
    codec: UdpPayloadEncoderDecoder<T>,
    plain: crate::udp::UdpPayloadEncoderDecoder<T>,
    datagram: Seq<u8>,
    codec_after: UdpPayloadEncoderDecoder<T>,
    plain_after: crate::udp::UdpPayloadEncoderDecoder<T>,
    left: Seq<u8>,
    plain_left: Seq<u8>,
    out: Result<Option<T>, Error>,
    plain_out: Result<Option<T>, Error>,
)
    requires
        UdpPayloadEncoderDecoder::<T>::decodes_at_eof(codec, datagram, codec_after, left, out),
        crate::udp::UdpPayloadEncoderDecoder::<T>::decodes_at_eof(
            plain,
            datagram,
            plain_after,
            plain_left,
            plain_out,
        ),
    ensures
        out is Ok == plain_out is Ok,
        out is Ok ==> out->Ok_0 is Some == plain_out->Ok_0 is Some,
        out is Ok && out->Ok_0 is Some ==> out->Ok_0->0@ == plain_out->Ok_0->0@,
        left == plain_left,
{
}

/// A client's request arrives at a server as that request, and what the server's service makes of
/// it arrives as the response that the client waits for. The server answers to the address that
/// the request came from.
pub proof fn requests_are_answered<Q: Lossless, R: Lossless, E, F>(
    codec: UdpPayloadEncoderDecoder<UdpPayload<Q, R>>,
    request: Q,
    request_datagram: Seq<u8>,
    request_sent: Result<(), Error>,
    peer: SocketAddr,
    request_left: Seq<u8>,
    request_out: Result<Option<UdpPayload<Q, R>>, Error>,
    response: R,
    response_datagram: Seq<u8>,
    response_sent: Result<(), Error>,
    server: SocketAddr,
    response_left: Seq<u8>,
    response_out: Result<Option<UdpPayload<Q, R>>, Error>,
)
    requires
        Q::encoding(request@) is Some,
        R::encoding(response@) is Some,
        <UdpPayloadEncoderDecoder<UdpPayload<Q, R>> as Encoder<UdpPayload<Q, R>>>::encodes(
            codec,
            UdpPayload::Request(request),
            Seq::empty(),
            codec,
            request_datagram,
            request_sent,
        ),
        UdpPayloadEncoderDecoder::<UdpPayload<Q, R>>::decodes_at_eof(
            codec,
            request_datagram,
            codec,
            request_left,
            request_out,
        ),
        <UdpPayloadEncoderDecoder<UdpPayload<Q, R>> as Encoder<UdpPayload<Q, R>>>::encodes(
            codec,
            response_to::<Q, R, E>(peer, Ok(response))->Ok_0.payload,
            Seq::empty(),
            codec,
            response_datagram,
            response_sent,
        ),
        UdpPayloadEncoderDecoder::<UdpPayload<Q, R>>::decodes_at_eof(
            codec,
            response_datagram,
            codec,
            response_left,
            response_out,
        ),
    ensures
        frame_of::<UdpPayload<Q, R>, Error, F>(peer, request_out) matches Poll::Ready(Some(Ok(packet)))
            && packet.addr == peer && packet.payload@ == UdpPayload::<Q::V, R::V>::Request(
            request@,
        ),
        response_to::<Q, R, E>(peer, Ok(response)) matches Ok(reply) && reply.addr == peer,
        awaited(frame_of::<UdpPayload<Q, R>, Error, F>(server, response_out)) matches Poll::Ready(
            Ok(arrived),
        ) && arrived@ == response@,
{
    let request_message: UdpPayload<Q, R> = UdpPayload::Request(request);
    let response_message: UdpPayload<Q, R> = UdpPayload::Response(response);
    sent_messages_arrive::<Q, R, F>(
        codec,
        request_message,
        codec,
        request_datagram,
        request_sent,
        peer,
        codec,
        codec,
        request_left,
        request_out,
    );
    sent_messages_arrive::<Q, R, F>(
        codec,
        response_message,
        codec,
        response_datagram,
        response_sent,
        server,
        codec,
        codec,
        response_left,
        response_out,
    );
}

/// Each end refuses what only the other end may send: a client takes no request for a response, and
/// a server's answer is never a request.
pub proof fn roles_do_not_mix<I, O, E, F>(
    packet: UdpPacket<UdpPayload<I, O>>,
    addr: SocketAddr,
    out: Result<O, E>,
)
    ensures
        packet.payload is Request ==> awaited::<I, O, F>(Poll::Ready(Some(Ok(packet))))
            == Poll::Ready(Err::<O, ClientError<F>>(ClientError::ExpectedResponse)),
        response_to::<I, O, E>(addr, out) matches Ok(reply) ==> reply.payload is Response,
{
}

/// The requests with which the service for requests is called, in order, when packets come in one
/// after the other. A call is made when its packet comes, whether or not anyone ever asks for the
/// answer: it depends on the packets alone.
pub open spec fn calls_made<IN, OUT, E>(packets: Seq<UdpPacket<UdpPayload<IN, OUT>>>) -> Seq<IN>
    decreases packets.len(),
{
    if packets.len() == 0 {
        Seq::empty()
    } else {
        let before = calls_made::<IN, OUT, E>(packets.drop_last());
        match request_in::<IN, OUT, E>(packets.last()) {
            Ok((_, inner_req)) => before.push(inner_req),
            Err(_) => before,
        }
    }
}

/// What the packet at `i` is answered, when `outcomes` are the outcomes of the calls that were made,
/// in the order of the calls.
pub open spec fn answer_to<IN, OUT, E>(
    packets: Seq<UdpPacket<UdpPayload<IN, OUT>>>,
    outcomes: Seq<Result<OUT, E>>,
    i: int,
) -> Result<UdpPacket<UdpPayload<IN, OUT>>, ServiceError<E>> {
    match request_in::<IN, OUT, E>(packets[i]) {
        Ok((addr, _)) => response_to(
            addr,
            outcomes[calls_made::<IN, OUT, E>(packets.take(i)).len() as int],
        ),
        Err(error) => Err(error),
    }
}

/// Of any sequence of packets, the service for requests is called for those that hold a request,
/// once for each, in their order, with that request, and for no other.
pub proof fn requests_are_handled_in_order<IN, OUT, E>(
    packets: Seq<UdpPacket<UdpPayload<IN, OUT>>>,
)
    ensures
        calls_made::<IN, OUT, E>(packets) == packets.filter(
            |packet: UdpPacket<UdpPayload<IN, OUT>>| packet.payload is Request,
        ).map_values(|packet: UdpPacket<UdpPayload<IN, OUT>>| packet.payload->Request_0),
    decreases packets.len(),
{
    reveal(Seq::filter);
    if packets.len() > 0 {
        requests_are_handled_in_order::<IN, OUT, E>(packets.drop_last());
    }
}

/// Every call is made with the request of the packet whose answer its outcome becomes.
proof fn lemma_call_of<IN, OUT, E>(packets: Seq<UdpPacket<UdpPayload<IN, OUT>>>, i: int)
    requires
        0 <= i < packets.len(),
        packets[i].payload is Request,
    ensures
        calls_made::<IN, OUT, E>(packets.take(i)).len() < calls_made::<IN, OUT, E>(packets).len(),
        calls_made::<IN, OUT, E>(packets)[calls_made::<IN, OUT, E>(packets.take(i)).len() as int]
            == packets[i].payload->Request_0,
    decreases packets.len(),
{
    let before = packets.drop_last();
    assert(before =~= packets.take(packets.len() - 1));
    if i < packets.len() - 1 {
        assert(before.take(i) =~= packets.take(i));
        lemma_call_of::<IN, OUT, E>(before, i);
    }
}

/// Of any sequence of packets, only those that hold a request can be answered without an error;
/// such an answer is a response, and it goes to the address that its own packet came from. It holds
/// the outcome of the call that was made with the request of that packet.
pub proof fn answers_belong_to_their_requests<IN, OUT, E>(
    packets: Seq<UdpPacket<UdpPayload<IN, OUT>>>,
    outcomes: Seq<Result<OUT, E>>,
    i: int,
)
    requires
        outcomes.len() == calls_made::<IN, OUT, E>(packets).len(),
        0 <= i < packets.len(),
    ensures
        packets[i].payload is Response ==> answer_to(packets, outcomes, i) == Err::<
            UdpPacket<UdpPayload<IN, OUT>>,
            ServiceError<E>,
        >(ServiceError::UnhandledResponse),
        packets[i].payload is Request ==> ({
            let k = calls_made::<IN, OUT, E>(packets.take(i)).len() as int;
            &&& k < outcomes.len()
            &&& calls_made::<IN, OUT, E>(packets)[k] == packets[i].payload->Request_0
            &&& answer_to(packets, outcomes, i) == response_to::<IN, OUT, E>(
                packets[i].addr,
                outcomes[k],
            )
        }),
        answer_to(packets, outcomes, i) matches Ok(reply) ==> packets[i].payload is Request
            && reply.payload is Response && reply.addr == packets[i].addr,
{
    if packets[i].payload is Request {
        lemma_call_of::<IN, OUT, E>(packets, i);
    }
}

/// The requests, by their numbers, that a client makes after `done` of `rounds` requests.
pub open spec fn rounds_from(done: u32, rounds: u32) -> Seq<u32>
    decreases rounds - done,
{
    match round_after(done, rounds) {
        Some(round) => seq![round] + rounds_from((done + 1) as u32, rounds),
        None => Seq::empty(),
    }
}

/// A client makes as many requests as it is to make, numbered from zero, in order.
pub proof fn rounds_are_made_in_order(done: u32, rounds: u32)
    requires
        done <= rounds,
    ensures
        rounds_from(done, rounds) == Seq::new((rounds - done) as nat, |i: int| (done + i) as u32),
    decreases rounds - done,
{
    if done < rounds {
        rounds_are_made_in_order((done + 1) as u32, rounds);
    }
}

/// Whether a message settles anew whether, and by which queue, the client at `addr` is reached.
pub open spec fn concerns<V, R>(msg: ClientConnsMsg<V, R>, addr: SocketAddr) -> bool {
    match msg {
        ClientConnsMsg::Insert(inserted, _) => inserted == addr,
        ClientConnsMsg::Get(_, _) => false,
        ClientConnsMsg::Remove(removed) => removed == addr,
    }
}

/// The table of a router that started empty and has dealt with `msgs`.
pub open spec fn routes<V, R>(msgs: Seq<ClientConnsMsg<V, R>>) -> Map<SocketAddr, V>
    decreases msgs.len(),
{
    if msgs.len() == 0 {
        Map::empty()
    } else {
        routes_after(routes(msgs.drop_last()), msgs.last())
    }
}

/// Whether the client at `addr` was told to the router with `queue` in the message at `i`, and no
/// later message concerns it.
pub open spec fn settled_at<V, R>(
    msgs: Seq<ClientConnsMsg<V, R>>,
    addr: SocketAddr,
    queue: V,
    i: int,
) -> bool {
    &&& 0 <= i < msgs.len()
    &&& msgs[i] == ClientConnsMsg::<V, R>::Insert(addr, queue)
    &&& forall|j: int| i < j < msgs.len() ==> !concerns(#[trigger] msgs[j], addr)
}

/// Packets for a client go to a queue if and only if that is the queue with which it connected
/// last, and it has not left since.
pub proof fn last_connection_counts<V, R>(
    msgs: Seq<ClientConnsMsg<V, R>>,
    addr: SocketAddr,
    queue: V,
)
    ensures
        (routes(msgs).dom().contains(addr) && routes(msgs)[addr] == queue) <==> exists|i: int|
            settled_at(msgs, addr, queue, i),
    decreases msgs.len(),
{
    if msgs.len() > 0 {
        let before = msgs.drop_last();
        let last = msgs.last();
        last_connection_counts(before, addr, queue);
        if concerns(last, addr) {
            assert forall|i: int| settled_at(msgs, addr, queue, i) implies i == msgs.len() - 1 by {
                if i < msgs.len() - 1 {
                    assert(!concerns(msgs[msgs.len() - 1], addr));
                }
            }
            if last == ClientConnsMsg::<V, R>::Insert(addr, queue) {
                assert(settled_at(msgs, addr, queue, msgs.len() - 1));
            }
        } else {
            if exists|i: int| settled_at(before, addr, queue, i) {
                let i = choose|i: int| settled_at(before, addr, queue, i);
                assert forall|j: int| i < j < msgs.len() implies !concerns(
                    #[trigger] msgs[j],
                    addr,
                ) by {
                    if j < before.len() {
                        assert(before[j] == msgs[j]);
                    }
                }
                assert(settled_at(msgs, addr, queue, i));
            }
            if exists|i: int| settled_at(msgs, addr, queue, i) {
                let i = choose|i: int| settled_at(msgs, addr, queue, i);
                assert(settled_at(before, addr, queue, i)) by {
                    assert forall|j: int| i < j < before.len() implies !concerns(
                        #[trigger] before[j],
                        addr,
                    ) by {
                        assert(before[j] == msgs[j]);
                    }
                }
            }
        }
    }
}

/// A client that has connected can be reached until it leaves.
pub proof fn connected_clients_are_reachable<V, R>(
    msgs: Seq<ClientConnsMsg<V, R>>,
    i: int,
    addr: SocketAddr,
    queue: V,
    to: R,
)
    requires
        0 <= i < msgs.len(),
        msgs[i] == ClientConnsMsg::<V, R>::Insert(addr, queue),
        forall|j: int|
            i < j < msgs.len() ==> #[trigger] msgs[j] != ClientConnsMsg::<V, R>::Remove(addr),
    ensures
        routable(routes(msgs), ClientConnsMsg::<V, R>::Get(addr, to)),
    decreases msgs.len(),
{
    let before = msgs.drop_last();
    if i < msgs.len() - 1 {
        assert forall|j: int| i < j < before.len() implies #[trigger] before[j]
            != ClientConnsMsg::<V, R>::Remove(addr) by {
            assert(before[j] == msgs[j]);
        }
        connected_clients_are_reachable(before, i, addr, queue, to);
        assert(msgs[msgs.len() - 1] != ClientConnsMsg::<V, R>::Remove(addr));
    }
}

/// A client that connects and leaves again leaves the table as it would be without it.
pub proof fn leaving_undoes_connecting<V, R>(
    before: Map<SocketAddr, V>,
    addr: SocketAddr,
    queue: V,
)
    ensures
        routes_after(
            routes_after(before, ClientConnsMsg::<V, R>::Insert(addr, queue)),
            ClientConnsMsg::<V, R>::Remove(addr),
        ) == before.remove(addr),
{
    assert(before.insert(addr, queue).remove(addr) =~= before.remove(addr));
}

/// What concerns one client changes nothing for another.
pub proof fn clients_do_not_interfere<V, R>(
    before: Map<SocketAddr, V>,
    msg: ClientConnsMsg<V, R>,
    other: SocketAddr,
)
    requires
        !concerns(msg, other),
    ensures
        routes_after(before, msg).dom().contains(other) == before.dom().contains(other),
        before.dom().contains(other) ==> routes_after(before, msg)[other] == before[other],
{
}

/// A reading task after a sequence of events.
pub open spec fn read_after(task: ReadLoop, events: Seq<ReadEvent<Seq<u8>>>) -> ReadLoop
    decreases events.len(),
{
    if events.len() == 0 {
        task
    } else {
        read_after(task, events.drop_last()).after(events.last())
    }
}

/// Whether a sequence of events can happen to a reading task.
pub open spec fn read_possible(task: ReadLoop, events: Seq<ReadEvent<Seq<u8>>>) -> bool
    decreases events.len(),
{
    events.len() > 0 ==> read_possible(task, events.drop_last()) && read_after(
        task,
        events.drop_last(),
    ).expects(events.last())
}

/// The packets that a reading task hands to its stream in the course of a sequence of events.
pub open spec fn deliveries(task: ReadLoop, events: Seq<ReadEvent<Seq<u8>>>) -> Seq<
    UdpPacket<Seq<u8>>,
>
    decreases events.len(),
{
    if events.len() == 0 {
        Seq::empty()
    } else {
        let before = deliveries(task, events.drop_last());
        match read_after(task, events.drop_last()).answer(events.last()) {
            ReadAction::Deliver(packet) => before.push(packet),
            _ => before,
        }
    }
}

/// The bytes that were read in the course of a sequence of events, each with the address `addr`.
pub open spec fn arrivals(addr: SocketAddr, events: Seq<ReadEvent<Seq<u8>>>) -> Seq<
    UdpPacket<Seq<u8>>,
>
    decreases events.len(),
{
    if events.len() == 0 {
        Seq::empty()
    } else {
        let before = arrivals(addr, events.drop_last());
        match events.last() {
            ReadEvent::Received(bytes) => before.push(UdpPacket { addr, payload: bytes }),
            _ => before,
        }
    }
}

/// A task serves the same end of the same connection all the time.
proof fn lemma_read_identity(task: ReadLoop, events: Seq<ReadEvent<Seq<u8>>>)
    ensures
        read_after(task, events).role == task.role,
        read_after(task, events).addr == task.addr,
    decreases events.len(),
{
    if events.len() > 0 {
        lemma_read_identity(task, events.drop_last());
    }
}

/// A stream gets what is read from a connection: every datagram, in order, unchanged, and with the
/// address of the connection.
pub proof fn reads_are_delivered(task: ReadLoop, events: Seq<ReadEvent<Seq<u8>>>)
    ensures
        deliveries(task, events) == arrivals(task.addr, events),
    decreases events.len(),
{
    if events.len() > 0 {
        reads_are_delivered(task, events.drop_last());
        lemma_read_identity(task, events.drop_last());
    }
}

/// A reading task ends on the first event that ends it, and on no other: a client's on a failure
/// to read or to deliver, a server's when its client falls silent. Nothing happens to it
/// afterwards.
pub proof fn reading_ends_when_it_must(task: ReadLoop, events: Seq<ReadEvent<Seq<u8>>>)
    requires
        task.phase != ReadPhase::Done,
        read_possible(task, events),
    ensures
        read_after(task, events).phase == ReadPhase::Done <==> events.len() > 0 && match task.role {
            Role::Client => events.last() is Failed || events.last() is Undelivered,
            Role::Server => events.last() is TimedOut,
        },
        forall|i: int|
            0 <= i < events.len() - 1 ==> match task.role {
                Role::Client => !(#[trigger] events[i] is Failed) && !(events[i] is Undelivered),
                Role::Server => !(events[i] is TimedOut),
            },
    decreases events.len(),
{
    if events.len() > 0 {
        let before = events.drop_last();
        reading_ends_when_it_must(task, before);
        lemma_read_identity(task, before);
        assert forall|i: int| 0 <= i < events.len() - 1 implies match task.role {
            Role::Client => !(#[trigger] events[i] is Failed) && !(events[i] is Undelivered),
            Role::Server => !(events[i] is TimedOut),
        } by {
            assert(before[i] == events[i]);
            if i == before.len() - 1 {
                assert(before.last() == events[i]);
            }
        }
    }
}

/// The last thing that a reading task does is to stop the writing task of its connection, and on a
/// server to take its client off the router first; it does neither before.
pub proof fn a_reader_that_ends_cleans_up(task: ReadLoop, event: ReadEvent<Seq<u8>>)
    requires
        task.expects(event),
    ensures
        task.after(event).phase == ReadPhase::Done <==> (task.answer(event) is Stop || task.answer(
            event,
        ) is Leave),
        task.answer(event) is Stop ==> task.role == Role::Client,
        task.answer(event) is Leave ==> task.role == Role::Server && task.answer(event)
            == ReadAction::<Seq<u8>>::Leave(task.addr),
{
}

/// A writing task after a sequence of events.
pub open spec fn write_after(task: WriteLoop, events: Seq<WriteEvent<Seq<u8>>>) -> WriteLoop
    decreases events.len(),
{
    if events.len() == 0 {
        task
    } else {
        write_after(task, events.drop_last()).after(events.last())
    }
}

/// Whether a sequence of events can happen to a writing task.
pub open spec fn write_possible(task: WriteLoop, events: Seq<WriteEvent<Seq<u8>>>) -> bool
    decreases events.len(),
{
    events.len() > 0 ==> write_possible(task, events.drop_last()) && write_after(
        task,
        events.drop_last(),
    ).expects(events.last())
}

/// The datagrams that a writing task sends in the course of a sequence of events.
pub open spec fn datagrams(task: WriteLoop, events: Seq<WriteEvent<Seq<u8>>>) -> Seq<Seq<u8>>
    decreases events.len(),
{
    if events.len() == 0 {
        Seq::empty()
    } else {
        let before = datagrams(task, events.drop_last());
        match write_after(task, events.drop_last()).answer(events.last()) {
            WriteAction::Send(datagram) => before.push(datagram),
            _ => before,
        }
    }
}

/// The payloads of the packets that the queue gave in the course of a sequence of events.
pub open spec fn payloads(events: Seq<WriteEvent<Seq<u8>>>) -> Seq<Seq<u8>>
    decreases events.len(),
{
    if events.len() == 0 {
        Seq::empty()
    } else {
        let before = payloads(events.drop_last());
        match events.last() {
            WriteEvent::Queued(Some(packet)) => before.push(packet.payload),
            _ => before,
        }
    }
}

/// What the queue of a connection gives goes out on it: the payload of every packet, in order, as
/// one datagram each, unchanged.
pub proof fn queued_packets_are_sent(task: WriteLoop, events: Seq<WriteEvent<Seq<u8>>>)
    ensures
        datagrams(task, events) == payloads(events),
    decreases events.len(),
{
    if events.len() > 0 {
        queued_packets_are_sent(task, events.drop_last());
    }
}

/// A writing task ends when it is stopped or a datagram cannot be sent, and on nothing else.
/// Nothing happens to it afterwards.
pub proof fn writing_ends_when_it_must(task: WriteLoop, events: Seq<WriteEvent<Seq<u8>>>)
    requires
        task.phase != WritePhase::Done,
        write_possible(task, events),
    ensures
        write_after(task, events).phase == WritePhase::Done <==> events.len() > 0 && (
        events.last() is Stopped || events.last() is SendFailed),
        forall|i: int|
            0 <= i < events.len() - 1 ==> !(#[trigger] events[i] is Stopped) && !(
            events[i] is SendFailed),
    decreases events.len(),
{
    if events.len() > 0 {
        let before = events.drop_last();
        writing_ends_when_it_must(task, before);
        assert forall|i: int| 0 <= i < events.len() - 1 implies !(#[trigger] events[i] is Stopped)
            && !(events[i] is SendFailed) by {
            assert(before[i] == events[i]);
            if i == before.len() - 1 {
                assert(before.last() == events[i]);
            }
        }
    }
}

/// A writing task that has not ended can be stopped, at once or as soon as the datagram that it is
/// sending has gone out.
pub proof fn writers_can_be_stopped(task: WriteLoop)
    requires
        task.phase != WritePhase::Done,
    ensures
        task.phase == WritePhase::Waiting ==> task.expects(WriteEvent::<Seq<u8>>::Stopped)
            && task.after(WriteEvent::<Seq<u8>>::Stopped).phase == WritePhase::Done,
        task.phase == WritePhase::Sending ==> task.expects(WriteEvent::<Seq<u8>>::Sent)
            && task.after(WriteEvent::<Seq<u8>>::Sent).phase == WritePhase::Waiting,
{
}

/// What every event does to a reading task, for every address. On a server the task ends, and its
/// client is taken off the router, when its client falls silent and at no other time. On a client
/// the task ends, and the writing task is stopped, on a failure to read or to deliver and at no other
/// time. What was read is delivered, whole and with the address of the connection; after a packet
/// is delivered, or after a failure that does not end the task, the next thing is to read.
pub proof fn what_ends_a_reader<B>(task: ReadLoop, event: ReadEvent<B>)
    ensures
        task.after(event).role == task.role,
        task.after(event).addr == task.addr,
        task.role == Role::Server ==> {
            &&& task.after(event).phase == ReadPhase::Done <==> event is TimedOut
            &&& task.answer(event) is Leave <==> event is TimedOut
            &&& event is TimedOut ==> task.answer(event) == ReadAction::<B>::Leave(task.addr)
            &&& !(task.answer(event) is Stop)
        },
        task.role == Role::Client ==> {
            &&& task.after(event).phase == ReadPhase::Done <==> event is Failed
                || event is Undelivered
            &&& task.answer(event) is Stop <==> event is Failed || event is Undelivered
            &&& !(task.answer(event) is Leave)
        },
        event matches ReadEvent::Received(bytes) ==> task.after(event).phase
            == ReadPhase::Delivering && task.answer(event) == ReadAction::Deliver(
            UdpPacket { addr: task.addr, payload: bytes },
        ),
        !(event is Received) ==> !(task.answer(event) is Deliver) && task.after(event).phase
            != ReadPhase::Delivering,
        event is Delivered ==> task.answer(event) == ReadAction::<B>::Read && task.after(event).phase
            == ReadPhase::Reading,
{
}

/// Which events a reading task is told of: what came of a read while it reads, and what became of
/// the packet while it delivers one. Only a server has a timer of its own.
pub proof fn what_a_reader_is_told<B>(task: ReadLoop, event: ReadEvent<B>)
    ensures
        task.phase == ReadPhase::Reading && (event is Received || event is Failed) ==> task.expects(
            event,
        ),
        task.phase == ReadPhase::Reading && task.role == Role::Server && event is TimedOut
            ==> task.expects(event),
        task.phase == ReadPhase::Delivering && (event is Delivered || event is Undelivered)
            ==> task.expects(event),
        task.phase == ReadPhase::Done ==> !task.expects(event),
{
}

/// What every event does to a writing task: a packet is sent as its payload, then the task waits
/// again; the end of the queue is waited out; and a stop or a datagram that cannot be sent ends it.
pub proof fn what_ends_a_writer<B>(task: WriteLoop, event: WriteEvent<B>)
    ensures
        task.after(event).role == task.role,
        task.after(event).phase == WritePhase::Done <==> event is Stopped || event is SendFailed,
        task.answer(event) is Exit <==> event is Stopped || event is SendFailed,
        event matches WriteEvent::Queued(Some(packet)) ==> task.after(event).phase
            == WritePhase::Sending && task.answer(event) == WriteAction::Send(packet.payload),
        event == WriteEvent::<B>::Queued(None) || event is Sent ==> task.after(event).phase
            == WritePhase::Waiting && task.answer(event) == WriteAction::<B>::Wait,
{
}

/// Which events a writing task is told of: a packet, the end of the queue or a stop while it waits,
/// and what became of a datagram while it sends one.
pub proof fn what_a_writer_is_told<B>(task: WriteLoop, event: WriteEvent<B>)
    ensures
        task.phase == WritePhase::Waiting && (event is Queued || event is Stopped) ==> task.expects(
            event,
        ),
        task.phase == WritePhase::Sending && event is Sent ==> task.expects(event),
        task.phase == WritePhase::Sending && task.role == Role::Client && event is SendFailed
            ==> task.expects(event),
        task.phase == WritePhase::Done ==> !task.expects(event),
{
}

/// What a read gave is as many bytes as were read, each as it stands in the buffer; and a read that
/// did not go beyond its buffer is well formed.
pub proof fn reads_are_whole(read: Received)
    requires
        read.len <= contents(read.buf).len(),
    ensures
        read.well_formed(),
        read@.len() == read.len,
        forall|i: int| 0 <= i < read.len ==> #[trigger] read@[i] == contents(read.buf)[i],
{
}

/// What the views of events and actions show: the same event or action, with the bytes in it.
pub proof fn events_show_their_bytes<B: View>(
    read: ReadEvent<B>,
    reads: ReadAction<B>,
    write: WriteEvent<B>,
    writes: WriteAction<B>,
)
    ensures
        read matches ReadEvent::Received(bytes) ==> read@ == ReadEvent::Received(bytes@),
        read is Failed <==> read@ is Failed,
        read is TimedOut <==> read@ is TimedOut,
        read is Delivered <==> read@ is Delivered,
        read is Undelivered <==> read@ is Undelivered,
        reads is Read <==> reads@ is Read,
        reads matches ReadAction::Deliver(packet) ==> reads@ == ReadAction::Deliver(
            UdpPacket { addr: packet.addr, payload: packet.payload@ },
        ),
        reads is Stop <==> reads@ is Stop,
        reads matches ReadAction::Leave(addr) ==> reads@ == ReadAction::<B::V>::Leave(addr),
        write matches WriteEvent::Queued(Some(packet)) ==> write@ == WriteEvent::Queued(
            Some(UdpPacket { addr: packet.addr, payload: packet.payload@ }),
        ),
        write == WriteEvent::<B>::Queued(None) ==> write@ == WriteEvent::<B::V>::Queued(None),
        write is Stopped <==> write@ is Stopped,
        write is Sent <==> write@ is Sent,
        write is SendFailed <==> write@ is SendFailed,
        writes is Wait <==> writes@ is Wait,
        writes matches WriteAction::Send(datagram) ==> writes@ == WriteAction::Send(datagram@),
        writes is Exit <==> writes@ is Exit,
{
}

/// A read of the stream takes up to 65536 bytes and gives up after 3000 milliseconds, and a read of
/// the plainer one takes up to 1500 bytes. The client asks 1000 times, and the echo client 100
/// times.
pub proof fn fixed_sizes()
    ensures
        crate::stream::BUF_SIZE == 65536,
        crate::stream::READ_TIMEOUT_MILLIS == 3000,
        crate::udp::BUF_SIZE == 1500,
        forall|done: u32| #[trigger]
            round_after(done, crate::text::ROUNDS) is Some <==> done < 1000,
        forall|done: u32| #[trigger]
            round_after(done, crate::text::ECHO_ROUNDS) is Some <==> done < 100,
{
}

/// What a codec takes out of a buffer of any bytes. From no byte it takes nothing. A message at the
/// front is taken and leaves nothing behind. Where there is none, the error of the decoding is handed
/// on and the bytes stay. The end of the input makes no difference to it.
pub proof fn codecs_take_messages<T: WireFormat>(
    before: UdpPayloadEncoderDecoder<T>,
    bytes: Seq<u8>,
    after: UdpPayloadEncoderDecoder<T>,
    left: Seq<u8>,
    out: Result<Option<T>, Error>,
)
    requires
        UdpPayloadEncoderDecoder::<T>::decodes(before, bytes, after, left, out)
            || UdpPayloadEncoderDecoder::<T>::decodes_at_eof(before, bytes, after, left, out),
    ensures
        after == before,
        bytes.len() == 0 ==> out == Ok::<Option<T>, Error>(None) && left.len() == 0,
        bytes.len() > 0 ==> match T::decoding(bytes) {
            Ok((value, _)) => {
                &&& out is Ok
                &&& out->Ok_0 is Some
                &&& out->Ok_0->0@ == value
                &&& left.len() == 0
            },
            Err(error) => out == Err::<Option<T>, Error>(error) && left == bytes,
        },
{
}

/// What the codec of the plainer stream takes out of a buffer of any bytes: the same messages. Where
/// there is none, it takes nothing and the bytes stay, which at the end of the input is an error.
pub proof fn plain_codecs_take_messages<T: WireFormat>(
    before: crate::udp::UdpPayloadEncoderDecoder<T>,
    bytes: Seq<u8>,
    after: crate::udp::UdpPayloadEncoderDecoder<T>,
    left: Seq<u8>,
    out: Result<Option<T>, Error>,
    at_end: bool,
)
    requires
        if at_end {
            crate::udp::UdpPayloadEncoderDecoder::<T>::decodes_at_eof(
                before,
                bytes,
                after,
                left,
                out,
            )
        } else {
            crate::udp::UdpPayloadEncoderDecoder::<T>::decodes(before, bytes, after, left, out)
        },
    ensures
        after == before,
        bytes.len() == 0 ==> out == Ok::<Option<T>, Error>(None) && left.len() == 0,
        bytes.len() > 0 ==> match T::decoding(bytes) {
            Ok((value, _)) => {
                &&& out is Ok
                &&& out->Ok_0 is Some
                &&& out->Ok_0->0@ == value
                &&& left.len() == 0
            },
            Err(_) => {
                &&& left == bytes
                &&& out == if at_end {
                    Err::<Option<T>, Error>(Error::BytesRemaining)
                } else {
                    Ok(None)
                }
            },
        },
{
}

/// What a codec writes to a buffer, it takes out of a buffer that starts with it, whatever follows,
/// and nothing is left behind: every request and every response, by `decode` and by `decode_eof`.
pub proof fn codecs_read_what_they_write<Q: Lossless, R: Lossless>(
    codec: UdpPayloadEncoderDecoder<UdpPayload<Q, R>>,
    message: UdpPayload<Q, R>,
    written: Seq<u8>,
    rest: Seq<u8>,
    after: UdpPayloadEncoderDecoder<UdpPayload<Q, R>>,
    left: Seq<u8>,
    out: Result<Option<UdpPayload<Q, R>>, Error>,
)
    requires
        <UdpPayloadEncoderDecoder<UdpPayload<Q, R>> as Encoder<UdpPayload<Q, R>>>::encodes(
            codec,
            message,
            Seq::empty(),
            codec,
            written,
            Ok(()),
        ),
        UdpPayloadEncoderDecoder::<UdpPayload<Q, R>>::decodes(
            codec,
            written + rest,
            after,
            left,
            out,
        ) || UdpPayloadEncoderDecoder::<UdpPayload<Q, R>>::decodes_at_eof(
            codec,
            written + rest,
            after,
            left,
            out,
        ),
    ensures
        out is Ok,
        out->Ok_0 is Some,
        out->Ok_0->0@ == message@,
        left.len() == 0,
{
    messages_are_not_empty::<Q, R>(message@);
    assert(written =~= UdpPayload::<Q, R>::encoding(message@)->0);
    UdpPayload::<Q, R>::round_trip(message@, rest);
}

/// The same of the codec of the plainer stream.
pub proof fn plain_codecs_read_what_they_write<Q: Lossless, R: Lossless>(
    codec: crate::udp::UdpPayloadEncoderDecoder<UdpPayload<Q, R>>,
    message: UdpPayload<Q, R>,
    written: Seq<u8>,
    rest: Seq<u8>,
    after: crate::udp::UdpPayloadEncoderDecoder<UdpPayload<Q, R>>,
    left: Seq<u8>,
    out: Result<Option<UdpPayload<Q, R>>, Error>,
)
    requires
        UdpPayload::<Q, R>::encoding(message@) is Some,
        <crate::udp::UdpPayloadEncoderDecoder<UdpPayload<Q, R>> as Encoder<
            UdpPayload<Q, R>,
        >>::encodes(codec, message, Seq::empty(), codec, written, Ok(())),
        crate::udp::UdpPayloadEncoderDecoder::<UdpPayload<Q, R>>::decodes(
            codec,
            written + rest,
            after,
            left,
            out,
        ) || crate::udp::UdpPayloadEncoderDecoder::<UdpPayload<Q, R>>::decodes_at_eof(
            codec,
            written + rest,
            after,
            left,
            out,
        ),
    ensures
        out is Ok,
        out->Ok_0 is Some,
        out->Ok_0->0@ == message@,
        left.len() == 0,
{
    messages_are_not_empty::<Q, R>(message@);
    assert(written =~= UdpPayload::<Q, R>::encoding(message@)->0);
    UdpPayload::<Q, R>::round_trip(message@, rest);
}

/// What a codec writes to a buffer: the encoding of the message, behind what is there, or nothing if
/// it has none. It can write to any buffer that has room for it, and an empty one always has.
pub proof fn codecs_write_messages<T: WireFormat>(
    before: UdpPayloadEncoderDecoder<T>,
    item: T,
    held: Seq<u8>,
    after: UdpPayloadEncoderDecoder<T>,
    written: Seq<u8>,
    out: Result<(), Error>,
)
    ensures
        T::encoding(item@) is None || held.len() == 0 || held.len() + T::encoding(item@)->0.len()
            <= isize::MAX ==> <UdpPayloadEncoderDecoder<T> as Encoder<T>>::can_encode(
            before,
            item,
            held,
        ),
        <UdpPayloadEncoderDecoder<T> as Encoder<T>>::encodes(
            before,
            item,
            held,
            after,
            written,
            out,
        ) ==> after == before && match T::encoding(item@) {
            Some(bytes) => out is Ok && written == held + bytes,
            None => {
                &&& out is Err && out->Err_0 is Encode
                &&& call_ensures(
                    T::encode_to_vec,
                    (&item, before.conf),
                    Err::<Vec<u8>, Error>(out->Err_0),
                )
                &&& written == held
            },
        },
{
}

/// The same of the codec of the plainer stream, for messages that have an encoding.
pub proof fn plain_codecs_write_messages<T: WireFormat>(
    before: crate::udp::UdpPayloadEncoderDecoder<T>,
    item: T,
    held: Seq<u8>,
    after: crate::udp::UdpPayloadEncoderDecoder<T>,
    written: Seq<u8>,
    out: Result<(), Error>,
)
    requires
        T::encoding(item@) is Some,
    ensures
        held.len() == 0 || held.len() + T::encoding(item@)->0.len() <= isize::MAX
            ==> <crate::udp::UdpPayloadEncoderDecoder<T> as Encoder<T>>::can_encode(
            before,
            item,
            held,
        ),
        <crate::udp::UdpPayloadEncoderDecoder<T> as Encoder<T>>::encodes(
            before,
            item,
            held,
            after,
            written,
            out,
        ) ==> after == before && out is Ok && written == held + T::encoding(item@)->0,
{
}

/// What the functions below the codecs do: they take, write and make room as the codecs do.
pub proof fn codecs_are_their_functions<T: WireFormat>(
    conf: Configuration,
    item: T,
    bytes: Seq<u8>,
    left: Seq<u8>,
    out: Result<Option<T>, Error>,
    written: Seq<u8>,
    sent: Result<(), Error>,
)
    ensures
        T::encoding(item@) is None || bytes.len() == 0 || bytes.len() + T::encoding(item@)->0.len()
            <= isize::MAX ==> crate::codec::fits(item, bytes),
        encoded(conf, item, bytes, written, sent) ==> match T::encoding(item@) {
            Some(data) => sent is Ok && written == bytes + data,
            None => {
                &&& sent is Err && sent->Err_0 is Encode
                &&& call_ensures(
                    T::encode_to_vec,
                    (&item, conf),
                    Err::<Vec<u8>, Error>(sent->Err_0),
                )
                &&& written == bytes
            },
        },
        decoded::<T>(bytes, left, out) || crate::udp::decoded::<T>(bytes, left, out) ==> {
            &&& bytes.len() == 0 ==> out == Ok::<Option<T>, Error>(None) && left.len() == 0
            &&& bytes.len() > 0 && T::decoding(bytes) is Ok ==> out is Ok && out->Ok_0 is Some
                && out->Ok_0->0@ == (T::decoding(bytes)->Ok_0).0 && left.len() == 0
            &&& bytes.len() > 0 && T::decoding(bytes) is Err ==> left == bytes
        },
        bytes.len() > 0 && T::decoding(bytes) is Err && decoded::<T>(bytes, left, out) ==> out
            == Err::<Option<T>, Error>(T::decoding(bytes)->Err_0),
        bytes.len() > 0 && T::decoding(bytes) is Err && crate::udp::decoded::<T>(bytes, left, out)
            ==> out == Ok::<Option<T>, Error>(None),
{
}

/// The end of the input makes an error of bytes that are left without a frame, and changes nothing
/// else.
pub proof fn the_end_of_the_input<T>(out: Result<Option<T>, Error>, drained: bool)
    ensures
        out is Err || out->Ok_0 is Some || drained ==> at_eof(out, drained) == out,
        out is Ok && out->Ok_0 is None && !drained ==> at_eof(out, drained) == Err::<
            Option<T>,
            Error,
        >(Error::BytesRemaining),
{
}

/// What both streams of messages make of what was found in a datagram: a message comes with the
/// address of the datagram, and anything else ends the stream.
pub proof fn frames_keep_their_address<T, D, E>(addr: SocketAddr, found: Result<Option<T>, D>)
    ensures
        found matches Ok(Some(message)) ==> frame_of::<T, D, E>(addr, found) == Poll::Ready(
            Some(Ok::<UdpPacket<T>, E>(UdpPacket { addr, payload: message })),
        ) && crate::udp::frame_of::<T, D, E>(found, addr) == Poll::Ready(
            Some(Ok::<(T, SocketAddr), E>((message, addr))),
        ),
        found is Err || found->Ok_0 is None ==> frame_of::<T, D, E>(addr, found) == Poll::Ready(
            None::<Result<UdpPacket<T>, E>>,
        ) && crate::udp::frame_of::<T, D, E>(found, addr) == Poll::Ready(
            None::<Result<(T, SocketAddr), E>>,
        ),
{
}

/// What a server makes of a packet and of the outcome of its service. A request is handled with the
/// address that it came from, and a response is refused; a response goes to that address as it came
/// from the service, and a failure is handed on.
pub proof fn what_a_server_answers<IN, OUT, E>(
    addr: SocketAddr,
    request: IN,
    response: OUT,
    failure: E,
)
    ensures
        request_in::<IN, OUT, E>(UdpPacket { addr, payload: UdpPayload::Request(request) }) == Ok::<
            _,
            ServiceError<E>,
        >((addr, request)),
        request_in::<IN, OUT, E>(UdpPacket { addr, payload: UdpPayload::Response(response) })
            == Err::<(SocketAddr, IN), _>(ServiceError::<E>::UnhandledResponse),
        response_to::<IN, OUT, E>(addr, Ok(response)) == Ok::<_, ServiceError<E>>(
            UdpPacket { addr, payload: UdpPayload::<IN, OUT>::Response(response) },
        ),
        response_to::<IN, OUT, E>(addr, Err(failure)) == Err::<
            UdpPacket<UdpPayload<IN, OUT>>,
            _,
        >(ServiceError::Inner(failure)),
{
}

/// What a client that waits for a response makes of a poll: a response is what it waits for, whatever
/// address is on it, a request and a failed stream are errors, and it waits on where nothing came or
/// the stream has ended.
pub proof fn what_a_client_waits_for<I, O, E>(
    addr: SocketAddr,
    request: I,
    response: O,
    failure: E,
)
    ensures
        awaited::<I, O, E>(
            Poll::Ready(Some(Ok(UdpPacket { addr, payload: UdpPayload::Response(response) }))),
        ) == Poll::Ready(Ok::<O, ClientError<E>>(response)),
        awaited::<I, O, E>(
            Poll::Ready(Some(Ok(UdpPacket { addr, payload: UdpPayload::Request(request) }))),
        ) == Poll::Ready(Err::<O, ClientError<E>>(ClientError::ExpectedResponse)),
        awaited::<I, O, E>(Poll::Ready(Some(Err(failure)))) == Poll::Ready(
            Err::<O, ClientError<E>>(ClientError::Stream(failure)),
        ),
        awaited::<I, O, E>(Poll::Ready(None)) is Pending,
        awaited::<I, O, E>(Poll::Pending) is Pending,
{
}

/// What each message does to the table of a router, client by client. A connection leads packets for
/// its client to its queue, a lookup changes nothing, and a client that leaves is not reached any
/// more; no other client is concerned. A client can be looked up and can leave if it is tracked, and
/// can always connect.
pub proof fn what_a_router_does<V, R>(
    before: Map<SocketAddr, V>,
    addr: SocketAddr,
    queue: V,
    to: R,
    other: SocketAddr,
)
    ensures
        ({
            let after = routes_after(before, ClientConnsMsg::<V, R>::Insert(addr, queue));
            &&& after.dom().contains(addr)
            &&& after[addr] == queue
            &&& other != addr ==> after.dom().contains(other) == before.dom().contains(other)
            &&& other != addr && before.dom().contains(other) ==> after[other] == before[other]
        }),
        routes_after(before, ClientConnsMsg::<V, R>::Get(addr, to)) == before,
        ({
            let after = routes_after(before, ClientConnsMsg::<V, R>::Remove(addr));
            &&& !after.dom().contains(addr)
            &&& other != addr ==> after.dom().contains(other) == before.dom().contains(other)
            &&& other != addr && before.dom().contains(other) ==> after[other] == before[other]
        }),
        routable(before, ClientConnsMsg::<V, R>::Insert(addr, queue)),
        routable(before, ClientConnsMsg::<V, R>::Get(addr, to)) == before.dom().contains(addr),
        routable(before, ClientConnsMsg::<V, R>::Remove(addr)) == before.dom().contains(addr),
{
}

/// After `done` requests a client makes the one with that number, if it is to make more than that.
pub proof fn the_next_round(done: u32, rounds: u32)
    ensures
        done < rounds ==> round_after(done, rounds) == Some(done),
        done >= rounds ==> round_after(done, rounds) is None,
{
}

/// The number that a text stands for, read digit by digit in base ten.
pub open spec fn in_base_ten(text: Seq<char>) -> int
    decreases text.len(),
{
    if text.len() == 0 {
        0
    } else {
        10 * in_base_ten(text.drop_last()) + (text.last() as int - '0' as int)
    }
}

/// A number in decimal notation consists of digits, stands for that number, and does not start with
/// a zero unless it is zero. Each of its characters is the digit that the number has at that power of
/// ten.
pub proof fn decimals_stand_for_their_numbers(n: nat)
    ensures
        decimal(n).len() > 0,
        forall|i: int|
            0 <= i < decimal(n).len() ==> '0' as int <= #[trigger] decimal(n)[i] as int <= '9' as int,
        in_base_ten(decimal(n)) == n,
        n > 0 ==> decimal(n)[0] != '0',
        n == 0 ==> decimal(n) == seq!['0'],
        forall|i: int|
            0 <= i < decimal(n).len() ==> #[trigger] decimal(n)[i] as int - '0' as int == (n as int
                / pow(10, (decimal(n).len() - 1 - i) as nat)) % 10,
        n < pow(10, decimal(n).len()),
    decreases n,
{
    vstd::arithmetic::power::lemma_pow0(10);
    vstd::arithmetic::power::lemma_pow1(10);
    let text = decimal(n);
    if n < 10 {
        reveal_with_fuel(in_base_ten, 2);
        assert(text.drop_last() =~= Seq::<char>::empty());
    } else {
        let rest = decimal(n / 10);
        decimals_stand_for_their_numbers(n / 10);
        assert(text.drop_last() =~= rest);
        vstd::arithmetic::power::lemma_pow_adds(10, 1, rest.len());
        assert forall|i: int| 0 <= i < text.len() implies #[trigger] text[i] as int - '0' as int == (
        n as int / pow(10, (text.len() - 1 - i) as nat)) % 10 by {
            if i < rest.len() {
                let above = (rest.len() - 1 - i) as nat;
                vstd::arithmetic::power::lemma_pow_adds(10, 1, above);
                vstd::arithmetic::power::lemma_pow_positive(10, above);
                vstd::arithmetic::div_mod::lemma_div_denominator(n as int, 10, pow(10, above));
                assert(rest[i] == text[i]);
            }
        }
    }
}

/// Different numbers have different decimal notations.
pub proof fn decimals_differ(a: nat, b: nat)
    requires
        a != b,
    ensures
        decimal(a) != decimal(b),
{
    decimals_stand_for_their_numbers(a);
    decimals_stand_for_their_numbers(b);
}

} // verus!
