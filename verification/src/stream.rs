//! A stream of datagrams over DTLS connections, as the decisions of the tasks that serve it.
//!
//! Each connection has a task that reads from it and a task that writes to it. A task performs an
//! action, and hands what came of it to its loop as an event; the loop answers with the next
//! action.

use vstd::prelude::*;
use bytes::BytesMut;

use crate::addr::SocketAddr;
use crate::buffer::{as_slice, contents};
use crate::packet::UdpPacket;
use crate::poll::Poll;
use crate::router::{ClientConnRouter, ClientConnsMsg};

verus! {

/// How many bytes a read takes at most.
pub const BUF_SIZE: usize = 64 * 1_024;

/// How long a connection may be silent before it counts as gone, in milliseconds.
pub const READ_TIMEOUT_MILLIS: u64 = 3_000;

/// Which end of a connection a task serves.
#[derive(Clone, Copy, Debug, PartialEq, Eq, Structural)]
pub enum Role {
    /// The end that connected.
    Client,
    /// The end that accepted the connection.
    Server,
}

/// A buffer for one read.
pub fn read_buffer() -> (buf: BytesMut)
    ensures
        contents(buf) == Seq::new(BUF_SIZE as nat, |i: int| 0u8),
{
    BytesMut::zeroed(BUF_SIZE)
}

/// What a read gave: the bytes at the front of a buffer.
pub struct Received {
    /// The buffer that was read into.
    pub buf: BytesMut,
    /// How many bytes were read.
    pub len: usize,
}

impl View for Received {
    type V = Seq<u8>;

    open spec fn view(&self) -> Seq<u8> {
        contents(self.buf).take(self.len as int)
    }
}

impl Received {
    /// The read did not go beyond its buffer.
    pub open spec fn well_formed(&self) -> bool {
        self.len <= contents(self.buf).len()
    }

    /// The bytes that were read.
    pub fn to_vec(&self) -> (bytes: Vec<u8>)
        requires
            self.well_formed(),
        ensures
            bytes@ == self@,
            bytes@.len() == self.len,
            forall|i: int| 0 <= i < self.len ==> #[trigger] bytes@[i] == contents(self.buf)[i],
    {
        vstd::slice::slice_to_vec(vstd::slice::slice_subrange(as_slice(&self.buf), 0, self.len))
    }
}

/// Where a reading task stands.
#[derive(Clone, Copy, Debug, PartialEq, Eq, Structural)]
pub enum ReadPhase {
    /// It waits for bytes from the connection.
    Reading,
    /// It has handed a packet to the stream.
    Delivering,
    /// It has ended.
    Done,
}

/// What can happen to a reading task. `B` is what a read gives.
pub enum ReadEvent<B> {
    /// A read gave bytes.
    Received(B),
    /// A read failed. On a client that waited too long for bytes, this is how it ends.
    Failed,
    /// No bytes came in time, on a server.
    TimedOut,
    /// The stream took the packet.
    Delivered,
    /// The stream is gone.
    Undelivered,
}

impl<B: View> View for ReadEvent<B> {
    type V = ReadEvent<B::V>;

    open spec fn view(&self) -> ReadEvent<B::V> {
        match self {
            ReadEvent::Received(bytes) => ReadEvent::Received(bytes@),
            ReadEvent::Failed => ReadEvent::Failed,
            ReadEvent::TimedOut => ReadEvent::TimedOut,
            ReadEvent::Delivered => ReadEvent::Delivered,
            ReadEvent::Undelivered => ReadEvent::Undelivered,
        }
    }
}

/// What a reading task does next. `B` is the payload of a packet.
pub enum ReadAction<B> {
    /// Read from the connection, into a fresh buffer.
    Read,
    /// Hand a packet to the stream.
    Deliver(UdpPacket<B>),
    /// Stop the writing task of the connection, and end.
    Stop,
    /// Take the client off the router, stop the writing task of the connection, and end.
    Leave(SocketAddr),
}

impl<B: View> View for ReadAction<B> {
    type V = ReadAction<B::V>;

    open spec fn view(&self) -> ReadAction<B::V> {
        match self {
            ReadAction::Read => ReadAction::Read,
            ReadAction::Deliver(packet) => ReadAction::Deliver(packet@),
            ReadAction::Stop => ReadAction::Stop,
            ReadAction::Leave(addr) => ReadAction::Leave(*addr),
        }
    }
}

/// The decisions of a task that reads from a connection.
pub struct ReadLoop {
    /// The end of the connection that the task serves.
    pub role: Role,
    /// The address that is put on the packets.
    pub addr: SocketAddr,
    /// Where the task stands.
    pub phase: ReadPhase,
}

impl ReadLoop {
    /// Whether `event` can happen now. Only a server has a timer of its own.
    pub open spec fn expects<B>(self, event: ReadEvent<B>) -> bool {
        match self.phase {
            ReadPhase::Reading => match event {
                ReadEvent::Received(_) => true,
                ReadEvent::Failed => true,
                ReadEvent::TimedOut => self.role == Role::Server,
                _ => false,
            },
            ReadPhase::Delivering => event is Delivered || event is Undelivered,
            ReadPhase::Done => false,
        }
    }

    /// Whether `event` ends the task: a client gives up on the first failure, a server only when
    /// its client has fallen silent.
    pub open spec fn ends_on<B>(self, event: ReadEvent<B>) -> bool {
        match self.role {
            Role::Client => event is Failed || event is Undelivered,
            Role::Server => event is TimedOut,
        }
    }

    /// The loop after `event`.
    pub open spec fn after<B>(self, event: ReadEvent<B>) -> ReadLoop {
        ReadLoop {
            phase: if self.ends_on(event) {
                ReadPhase::Done
            } else if event is Received {
                ReadPhase::Delivering
            } else {
                ReadPhase::Reading
            },
            ..self
        }
    }

    /// The action that `event` calls for.
    pub open spec fn answer<B>(self, event: ReadEvent<B>) -> ReadAction<B> {
        if self.ends_on(event) {
            match self.role {
                Role::Client => ReadAction::Stop,
                Role::Server => ReadAction::Leave(self.addr),
            }
        } else {
            match event {
                ReadEvent::Received(bytes) => ReadAction::Deliver(
                    UdpPacket { addr: self.addr, payload: bytes },
                ),
                _ => ReadAction::Read,
            }
        }
    }

    /// A task that is about to read for the first time.
    pub fn new(role: Role, addr: SocketAddr) -> (task: Self)
        ensures
            task == (ReadLoop { role, addr, phase: ReadPhase::Reading }),
    {
        ReadLoop { role, addr, phase: ReadPhase::Reading }
    }

    /// What a task that is about to read does: the action that its first event comes of.
    pub fn start(&self) -> (action: ReadAction<Vec<u8>>)
        requires
            self.phase == ReadPhase::Reading,
        ensures
            action == ReadAction::<Vec<u8>>::Read,
    {
        ReadAction::Read
    }

    /// What to do on `event`.
    pub fn step(&mut self, event: ReadEvent<Received>) -> (action: ReadAction<Vec<u8>>)
        requires
            old(self).expects(event@),
            event matches ReadEvent::Received(read) ==> read.well_formed(),
        ensures
            *final(self) == old(self).after(event@),
            action@ == old(self).answer(event@),
            final(self).role == old(self).role,
            final(self).addr == old(self).addr,
            match event {
                ReadEvent::Received(read) => {
                    &&& final(self).phase == ReadPhase::Delivering
                    &&& action matches ReadAction::Deliver(packet)
                    &&& packet.addr == old(self).addr
                    &&& packet.payload@.len() == read.len
                    &&& forall|i: int|
                        0 <= i < read.len ==> #[trigger] packet.payload@[i] == contents(
                            read.buf,
                        )[i]
                },
                ReadEvent::Delivered => final(self).phase == ReadPhase::Reading && action
                    == ReadAction::<Vec<u8>>::Read,
                ReadEvent::TimedOut => final(self).phase == ReadPhase::Done && action
                    == ReadAction::<Vec<u8>>::Leave(old(self).addr),
                ReadEvent::Failed | ReadEvent::Undelivered => match old(self).role {
                    Role::Client => final(self).phase == ReadPhase::Done && action
                        == ReadAction::<Vec<u8>>::Stop,
                    Role::Server => final(self).phase == ReadPhase::Reading && action
                        == ReadAction::<Vec<u8>>::Read,
                },
            },
    {
        match event {
            ReadEvent::Received(read) => {
                self.phase = ReadPhase::Delivering;
                ReadAction::Deliver(UdpPacket::new(self.addr, read.to_vec()))
            },
            ReadEvent::Failed | ReadEvent::Undelivered => match self.role {
                Role::Client => {
                    self.phase = ReadPhase::Done;
                    ReadAction::Stop
                },
                Role::Server => {
                    self.phase = ReadPhase::Reading;
                    ReadAction::Read
                },
            },
            ReadEvent::TimedOut => {
                self.phase = ReadPhase::Done;
                ReadAction::Leave(self.addr)
            },
            ReadEvent::Delivered => {
                self.phase = ReadPhase::Reading;
                ReadAction::Read
            },
        }
    }
}

/// Where a writing task stands.
#[derive(Clone, Copy, Debug, PartialEq, Eq, Structural)]
pub enum WritePhase {
    /// It waits for a packet, or to be stopped.
    Waiting,
    /// It sends a datagram.
    Sending,
    /// It has ended.
    Done,
}

/// What can happen to a writing task. `B` is the payload of a packet.
pub enum WriteEvent<B> {
    /// The queue gave a packet, or it has ended.
    Queued(Option<UdpPacket<B>>),
    /// The reading task of the connection has ended.
    Stopped,
    /// The datagram has gone out.
    Sent,
    /// The datagram could not be sent.
    SendFailed,
}

impl<B: View> View for WriteEvent<B> {
    type V = WriteEvent<B::V>;

    open spec fn view(&self) -> WriteEvent<B::V> {
        match self {
            WriteEvent::Queued(Some(packet)) => WriteEvent::Queued(Some(packet@)),
            WriteEvent::Queued(None) => WriteEvent::Queued(None),
            WriteEvent::Stopped => WriteEvent::Stopped,
            WriteEvent::Sent => WriteEvent::Sent,
            WriteEvent::SendFailed => WriteEvent::SendFailed,
        }
    }
}

/// What a writing task does next. `B` is a datagram.
pub enum WriteAction<B> {
    /// Wait for a packet, or to be stopped.
    Wait,
    /// Send a datagram on the connection.
    Send(B),
    /// End.
    Exit,
}

impl<B: View> View for WriteAction<B> {
    type V = WriteAction<B::V>;

    open spec fn view(&self) -> WriteAction<B::V> {
        match self {
            WriteAction::Wait => WriteAction::Wait,
            WriteAction::Send(datagram) => WriteAction::Send(datagram@),
            WriteAction::Exit => WriteAction::Exit,
        }
    }
}

/// The decisions of a task that writes to a connection.
pub struct WriteLoop {
    /// The end of the connection that the task serves.
    pub role: Role,
    /// Where the task stands.
    pub phase: WritePhase,
}

impl WriteLoop {
    /// Whether `event` can happen now. A server's task does not survive a datagram that cannot be
    /// sent, so it is never told of one.
    pub open spec fn expects<B>(self, event: WriteEvent<B>) -> bool {
        match self.phase {
            WritePhase::Waiting => event is Queued || event is Stopped,
            WritePhase::Sending => event is Sent || event is SendFailed && self.role
                == Role::Client,
            WritePhase::Done => false,
        }
    }

    /// The loop after `event`.
    pub open spec fn after<B>(self, event: WriteEvent<B>) -> WriteLoop {
        WriteLoop {
            phase: match event {
                WriteEvent::Queued(Some(_)) => WritePhase::Sending,
                WriteEvent::Queued(None) => WritePhase::Waiting,
                WriteEvent::Sent => WritePhase::Waiting,
                WriteEvent::Stopped => WritePhase::Done,
                WriteEvent::SendFailed => WritePhase::Done,
            },
            ..self
        }
    }

    /// The action that `event` calls for.
    pub open spec fn answer<B>(self, event: WriteEvent<B>) -> WriteAction<B> {
        match event {
            WriteEvent::Queued(Some(packet)) => WriteAction::Send(packet.payload),
            WriteEvent::Queued(None) => WriteAction::Wait,
            WriteEvent::Sent => WriteAction::Wait,
            WriteEvent::Stopped => WriteAction::Exit,
            WriteEvent::SendFailed => WriteAction::Exit,
        }
    }

    /// A task that is about to wait for the first time.
    pub fn new(role: Role) -> (task: Self)
        ensures
            task == (WriteLoop { role, phase: WritePhase::Waiting }),
    {
        WriteLoop { role, phase: WritePhase::Waiting }
    }

    /// What a task that is about to wait does: the action that its first event comes of.
    pub fn start(&self) -> (action: WriteAction<Vec<u8>>)
        requires
            self.phase == WritePhase::Waiting,
        ensures
            action == WriteAction::<Vec<u8>>::Wait,
    {
        WriteAction::Wait
    }

    /// What to do on `event`.
    pub fn step(&mut self, event: WriteEvent<Vec<u8>>) -> (action: WriteAction<Vec<u8>>)
        requires
            old(self).expects(event@),
        ensures
            *final(self) == old(self).after(event@),
            action@ == old(self).answer(event@),
            final(self).role == old(self).role,
            match event {
                WriteEvent::Queued(Some(packet)) => {
                    &&& final(self).phase == WritePhase::Sending
                    &&& action == WriteAction::Send(packet.payload)
                },
                WriteEvent::Queued(None) | WriteEvent::Sent => {
                    &&& final(self).phase == WritePhase::Waiting
                    &&& action == WriteAction::<Vec<u8>>::Wait
                },
                WriteEvent::Stopped | WriteEvent::SendFailed => {
                    &&& final(self).phase == WritePhase::Done
                    &&& action == WriteAction::<Vec<u8>>::Exit
                },
            },
    {
        match event {
            WriteEvent::Queued(Some(packet)) => {
                self.phase = WritePhase::Sending;
                WriteAction::Send(packet.payload)
            },
            WriteEvent::Queued(None) | WriteEvent::Sent => {
                self.phase = WritePhase::Waiting;
                WriteAction::Wait
            },
            WriteEvent::Stopped | WriteEvent::SendFailed => {
                self.phase = WritePhase::Done;
                WriteAction::Exit
            },
        }
    }
}

/// A stream of datagrams: where the packets from the connections arrive, and where the packets for
/// them are queued.
pub struct DtlsConnStream<R, T> {
    /// The end of the queue at which packets arrive.
    pub rx1: R,
    /// The end of the queue to which packets are sent.
    pub tx2: T,
}

impl<R, T> DtlsConnStream<R, T> {
    /// A client's stream over one connection, with the tasks that serve the connection. `l_addr`
    /// is put on the packets that arrive.
    pub fn new_client(rx1: R, tx2: T, l_addr: SocketAddr) -> (stream: (Self, WriteLoop, ReadLoop))
        ensures
            stream.0.rx1 == rx1,
            stream.0.tx2 == tx2,
            stream.1 == (WriteLoop { role: Role::Client, phase: WritePhase::Waiting }),
            stream.2 == (ReadLoop { role: Role::Client, addr: l_addr, phase: ReadPhase::Reading }),
    {
        (
            DtlsConnStream { rx1, tx2 },
            WriteLoop::new(Role::Client),
            ReadLoop::new(Role::Client, l_addr),
        )
    }

    /// A server's stream over the connections that it will accept, with the router of the packets
    /// that go out.
    pub fn new_server<V>(rx1: R, tx2: T) -> (stream: (Self, ClientConnRouter<V>))
        ensures
            stream.0.rx1 == rx1,
            stream.0.tx2 == tx2,
            stream.1.well_formed(),
            stream.1@ == Map::<SocketAddr, V>::empty(),
    {
        (DtlsConnStream { rx1, tx2 }, ClientConnRouter::new())
    }

    /// What a server does about a connection that it has accepted from `addr`: it starts a task
    /// that reads, tells the router of the queue of the packets for that client, and starts a task
    /// that writes.
    pub fn accept<V, A>(addr: SocketAddr, queue: V) -> (plan: (
        ReadLoop,
        ClientConnsMsg<V, A>,
        WriteLoop,
    ))
        ensures
            plan.0 == (ReadLoop { role: Role::Server, addr, phase: ReadPhase::Reading }),
            plan.1 == ClientConnsMsg::<V, A>::Insert(addr, queue),
            plan.2 == (WriteLoop { role: Role::Server, phase: WritePhase::Waiting }),
    {
        (
            ReadLoop::new(Role::Server, addr),
            ClientConnsMsg::Insert(addr, queue),
            WriteLoop::new(Role::Server),
        )
    }

    /// What a poll of this stream gives when the poll of its queue gave `polled`: the same.
    pub fn poll_next<I>(&self, polled: Poll<Option<I>>) -> (next: Poll<Option<I>>)
        ensures
            next == polled,
    {
        match polled {
            Poll::Ready(None) => Poll::Ready(None),
            Poll::Ready(Some(packet)) => Poll::Ready(Some(packet)),
            Poll::Pending => Poll::Pending,
        }
    }

    /// The queue takes any number of packets, so the stream is always ready for one.
    pub fn poll_ready<E>(&self) -> (ready: Poll<Result<(), E>>)
        ensures
            ready == Poll::Ready(Ok::<(), E>(())),
    {
        Poll::Ready(Ok(()))
    }

    /// Nothing is held back, so there is nothing to flush.
    pub fn poll_flush<E>(&self) -> (flushed: Poll<Result<(), E>>)
        ensures
            flushed == Poll::Ready(Ok::<(), E>(())),
    {
        Poll::Ready(Ok(()))
    }

    /// There is nothing to do before the stream is dropped.
    pub fn poll_close<E>(&self) -> (ended: Poll<Result<(), E>>)
        ensures
            ended == Poll::Ready(Ok::<(), E>(())),
    {
        Poll::Ready(Ok(()))
    }
}

} // verus!
