//! Which queue leads to which client.

use vstd::prelude::*;

use crate::addr::SocketAddr;
use crate::packet::UdpPacket;

verus! {

/// Whether `conns` has an entry for `addr`.
spec fn tracks<V>(conns: Seq<(SocketAddr, V)>, addr: SocketAddr) -> bool {
    exists|i: int| 0 <= i < conns.len() && (#[trigger] conns[i]).0 == addr
}

/// The table that a list of entries stands for.
spec fn table<V>(conns: Seq<(SocketAddr, V)>) -> Map<SocketAddr, V> {
    Map::new(
        |addr: SocketAddr| tracks(conns, addr),
        |addr: SocketAddr|
            conns[choose|i: int| 0 <= i < conns.len() && (#[trigger] conns[i]).0 == addr].1,
    )
}

/// Whether no address occurs twice in `conns`.
spec fn distinct<V>(conns: Seq<(SocketAddr, V)>) -> bool {
    forall|i: int, j: int|
        0 <= i < j < conns.len() ==> (#[trigger] conns[i]).0 != (#[trigger] conns[j]).0
}

/// What the router is asked to do. `V` is the queue of a client, and `R` is where an answer goes.
pub enum ClientConnsMsg<V, R> {
    /// A client has connected; its packets go to the queue.
    Insert(SocketAddr, V),
    /// Someone wants the queue of a client.
    Get(SocketAddr, R),
    /// A client has gone.
    Remove(SocketAddr),
}

/// What the router is asked about a packet that goes out: the queue of the client that the packet
/// is for. The answer goes to `to`.
pub fn lookup<V, R, T>(packet: &UdpPacket<T>, to: R) -> (msg: ClientConnsMsg<V, R>)
    ensures
        msg == ClientConnsMsg::<V, R>::Get(packet.addr, to),
{
    ClientConnsMsg::Get(packet.addr, to)
}

/// The table of the connected clients' queues.
pub struct ClientConnRouter<V> {
    conns: Vec<(SocketAddr, V)>,
}

impl<V> View for ClientConnRouter<V> {
    type V = Map<SocketAddr, V>;

    closed spec fn view(&self) -> Map<SocketAddr, V> {
        table(self.conns@)
    }
}

/// The table after a message has been dealt with.
pub open spec fn routes_after<V, R>(
    routes: Map<SocketAddr, V>,
    msg: ClientConnsMsg<V, R>,
) -> Map<SocketAddr, V> {
    match msg {
        ClientConnsMsg::Insert(addr, queue) => routes.insert(addr, queue),
        ClientConnsMsg::Get(_, _) => routes,
        ClientConnsMsg::Remove(addr) => routes.remove(addr),
    }
}

/// Whether a message can be dealt with: only a client that is tracked can be looked up or leave.
pub open spec fn routable<V, R>(
    routes: Map<SocketAddr, V>,
    msg: ClientConnsMsg<V, R>,
) -> bool {
    match msg {
        ClientConnsMsg::Insert(_, _) => true,
        ClientConnsMsg::Get(addr, _) => routes.dom().contains(addr),
        ClientConnsMsg::Remove(addr) => routes.dom().contains(addr),
    }
}

impl<V> ClientConnRouter<V> {
    /// Every address has at most one entry.
    pub closed spec fn well_formed(&self) -> bool {
        distinct(self.conns@)
    }

    /// A router that tracks no client.
    pub fn new() -> (router: Self)
        ensures
            router.well_formed(),
            router@ == Map::<SocketAddr, V>::empty(),
    {
        let router = ClientConnRouter { conns: Vec::new() };
        assert(router@ =~= Map::<SocketAddr, V>::empty());
        router
    }

    /// The place of the entry for `addr`.
    fn find(&self, addr: SocketAddr) -> (place: Option<usize>)
        requires
            self.well_formed(),
        ensures
            match place {
                Some(i) => i < self.conns@.len() && self.conns@[i as int].0 == addr
                    && self@.dom().contains(addr) && self@[addr] == self.conns@[i as int].1,
                None => !self@.dom().contains(addr),
            },
    {
        let mut i: usize = 0;
        while i < self.conns.len()
            invariant
                self.well_formed(),
                i <= self.conns@.len(),
                forall|j: int| 0 <= j < i ==> (#[trigger] self.conns@[j]).0 != addr,
            decreases self.conns@.len() - i,
        {
            if self.conns[i].0 == addr {
                return Some(i);
            }
            i = i + 1;
        }
        None
    }

    /// Whether the client at `addr` is tracked.
    pub fn contains(&self, addr: SocketAddr) -> (found: bool)
        requires
            self.well_formed(),
        ensures
            found == self@.dom().contains(addr),
    {
        self.find(addr).is_some()
    }

    /// How many clients are tracked.
    pub fn len(&self) -> (count: usize)
        requires
            self.well_formed(),
        ensures
            count == self@.dom().len(),
            self@.dom().finite(),
    {
        proof {
            lemma_count(self.conns@);
        }
        self.conns.len()
    }

    /// Lets packets for `addr` go to `queue` from now on.
    pub fn insert(&mut self, addr: SocketAddr, queue: V)
        requires
            old(self).well_formed(),
        ensures
            final(self).well_formed(),
            final(self)@ == old(self)@.insert(addr, queue),
    {
        match self.find(addr) {
            Some(i) => {
                self.conns[i] = (addr, queue);
                proof {
                    lemma_replaced(old(self).conns@, i as int, queue);
                }
            },
            None => {
                self.conns.push((addr, queue));
                proof {
                    lemma_pushed(old(self).conns@, addr, queue);
                }
            },
        }
    }

    /// The queue that packets for `addr` go to, if that client is tracked.
    pub fn get(&self, addr: SocketAddr) -> (queue: Option<&V>)
        requires
            self.well_formed(),
        ensures
            match queue {
                Some(found) => self@.dom().contains(addr) && *found == self@[addr],
                None => !self@.dom().contains(addr),
            },
    {
        match self.find(addr) {
            Some(i) => Some(&self.conns[i].1),
            None => None,
        }
    }

    /// Forgets the client at `addr`, and gives its queue if that client was tracked.
    pub fn remove(&mut self, addr: SocketAddr) -> (queue: Option<V>)
        requires
            old(self).well_formed(),
        ensures
            final(self).well_formed(),
            final(self)@ == old(self)@.remove(addr),
            match queue {
                Some(found) => old(self)@.dom().contains(addr) && found == old(self)@[addr],
                None => !old(self)@.dom().contains(addr),
            },
    {
        match self.find(addr) {
            Some(i) => {
                let entry = self.conns.remove(i);
                proof {
                    lemma_removed(old(self).conns@, i as int);
                }
                Some(entry.1)
            },
            None => {
                assert(self@.remove(addr) =~= self@);
                None
            },
        }
    }

    /// Deals with one message. The answer to a lookup is where it goes, with a clone of the
    /// client's queue.
    pub fn handle<R>(&mut self, msg: ClientConnsMsg<V, R>) -> (answer: Option<(R, V)>)
        where V: Clone
        requires
            old(self).well_formed(),
            routable(old(self)@, msg),
        ensures
            final(self).well_formed(),
            final(self)@ == routes_after(old(self)@, msg),
            match msg {
                ClientConnsMsg::Get(addr, to) => answer is Some && (answer->0).0 == to && cloned(
                    old(self)@[addr],
                    (answer->0).1,
                ),
                _ => answer is None,
            },
    {
        match msg {
            ClientConnsMsg::Insert(addr, queue) => {
                self.insert(addr, queue);
                None
            },
            ClientConnsMsg::Get(addr, to) => match self.get(addr) {
                Some(queue) => Some((to, queue.clone())),
                None => None,
            },
            ClientConnsMsg::Remove(addr) => {
                self.remove(addr);
                None
            },
        }
    }
}

/// An entry gives the table its value.
proof fn lemma_entry<V>(conns: Seq<(SocketAddr, V)>, i: int)
    requires
        distinct(conns),
        0 <= i < conns.len(),
    ensures
        table(conns).dom().contains(conns[i].0),
        table(conns)[conns[i].0] == conns[i].1,
{
    let addr = conns[i].0;
    let j = choose|j: int| 0 <= j < conns.len() && (#[trigger] conns[j]).0 == addr;
    assert(conns[j].0 == addr);
}

proof fn lemma_replaced<V>(conns: Seq<(SocketAddr, V)>, i: int, queue: V)
    requires
        distinct(conns),
        0 <= i < conns.len(),
    ensures
        distinct(conns.update(i, (conns[i].0, queue))),
        table(conns.update(i, (conns[i].0, queue))) == table(conns).insert(conns[i].0, queue),
{
    let addr = conns[i].0;
    let after = conns.update(i, (addr, queue));
    assert(distinct(after)) by {
        assert forall|a: int, b: int| 0 <= a < b < after.len() implies (#[trigger] after[a]).0 != (
        #[trigger] after[b]).0 by {
            assert(conns[a].0 != conns[b].0);
        }
    }
    assert forall|k: SocketAddr| #[trigger]
        table(after).dom().contains(k) == table(conns).insert(addr, queue).dom().contains(k) by {
        if tracks(after, k) {
            let j = choose|j: int| 0 <= j < after.len() && (#[trigger] after[j]).0 == k;
            assert(conns[j].0 == k);
        }
        if tracks(conns, k) {
            let j = choose|j: int| 0 <= j < conns.len() && (#[trigger] conns[j]).0 == k;
            assert(after[j].0 == k);
        }
        assert(after[i].0 == addr);
    }
    assert forall|k: SocketAddr| #[trigger] table(after).dom().contains(k) implies table(after)[k]
        == table(conns).insert(addr, queue)[k] by {
        let j = choose|j: int| 0 <= j < after.len() && (#[trigger] after[j]).0 == k;
        lemma_entry(after, j);
        lemma_entry(conns, j);
        if k == addr {
            lemma_entry(after, i);
        }
    }
    assert(table(after) =~= table(conns).insert(addr, queue));
}

proof fn lemma_pushed<V>(conns: Seq<(SocketAddr, V)>, addr: SocketAddr, queue: V)
    requires
        distinct(conns),
        !table(conns).dom().contains(addr),
    ensures
        distinct(conns.push((addr, queue))),
        table(conns.push((addr, queue))) == table(conns).insert(addr, queue),
{
    let after = conns.push((addr, queue));
    assert(distinct(after)) by {
        assert forall|a: int, b: int| 0 <= a < b < after.len() implies (#[trigger] after[a]).0 != (
        #[trigger] after[b]).0 by {
            if b < conns.len() {
                assert(conns[a].0 != conns[b].0);
            } else {
                assert(conns[a] == after[a]);
            }
        }
    }
    assert forall|k: SocketAddr| #[trigger]
        table(after).dom().contains(k) == table(conns).insert(addr, queue).dom().contains(k) by {
        if tracks(after, k) {
            let j = choose|j: int| 0 <= j < after.len() && (#[trigger] after[j]).0 == k;
            if j < conns.len() {
                assert(conns[j].0 == k);
            }
        }
        if tracks(conns, k) {
            let j = choose|j: int| 0 <= j < conns.len() && (#[trigger] conns[j]).0 == k;
            assert(after[j].0 == k);
        }
        assert(after[conns.len() as int].0 == addr);
    }
    assert forall|k: SocketAddr| #[trigger] table(after).dom().contains(k) implies table(after)[k]
        == table(conns).insert(addr, queue)[k] by {
        let j = choose|j: int| 0 <= j < after.len() && (#[trigger] after[j]).0 == k;
        lemma_entry(after, j);
        if j < conns.len() {
            lemma_entry(conns, j);
        }
    }
    assert(table(after) =~= table(conns).insert(addr, queue));
}

proof fn lemma_removed<V>(conns: Seq<(SocketAddr, V)>, i: int)
    requires
        distinct(conns),
        0 <= i < conns.len(),
    ensures
        distinct(conns.remove(i)),
        table(conns.remove(i)) == table(conns).remove(conns[i].0),
{
    let addr = conns[i].0;
    let after = conns.remove(i);
    let place = |j: int| if j < i { j } else { j + 1 };
    assert(forall|j: int| 0 <= j < after.len() ==> #[trigger] after[j] == conns[place(j)]);
    assert(distinct(after)) by {
        assert forall|a: int, b: int| 0 <= a < b < after.len() implies (#[trigger] after[a]).0 != (
        #[trigger] after[b]).0 by {
            assert(conns[place(a)].0 != conns[place(b)].0);
        }
    }
    assert forall|k: SocketAddr| #[trigger]
        table(after).dom().contains(k) == table(conns).remove(addr).dom().contains(k) by {
        if tracks(after, k) {
            let j = choose|j: int| 0 <= j < after.len() && (#[trigger] after[j]).0 == k;
            assert(conns[place(j)].0 == k);
        }
        if tracks(conns, k) && k != addr {
            let j = choose|j: int| 0 <= j < conns.len() && (#[trigger] conns[j]).0 == k;
            if j < i {
                assert(after[j].0 == k);
            } else {
                assert(after[j - 1].0 == k);
            }
        }
    }
    assert forall|k: SocketAddr| #[trigger] table(after).dom().contains(k) implies table(after)[k]
        == table(conns).remove(addr)[k] by {
        let j = choose|j: int| 0 <= j < after.len() && (#[trigger] after[j]).0 == k;
        lemma_entry(after, j);
        lemma_entry(conns, place(j));
    }
    assert(table(after) =~= table(conns).remove(addr));
}

/// There are as many tracked clients as entries.
proof fn lemma_count<V>(conns: Seq<(SocketAddr, V)>)
    requires
        distinct(conns),
    ensures
        table(conns).dom().finite(),
        table(conns).dom().len() == conns.len(),
    decreases conns.len(),
{
    if conns.len() == 0 {
        assert(table(conns).dom() =~= Set::empty());
    } else {
        let rest = conns.drop_last();
        let (addr, queue) = conns.last();
        assert(distinct(rest));
        lemma_count(rest);
        assert(!table(rest).dom().contains(addr)) by {
            if tracks(rest, addr) {
                let j = choose|j: int| 0 <= j < rest.len() && (#[trigger] rest[j]).0 == addr;
                assert(conns[j].0 != conns[conns.len() - 1].0);
            }
        }
        lemma_pushed(rest, addr, queue);
        assert(rest.push((addr, queue)) =~= conns);
        assert(table(conns).dom() =~= table(rest).dom().insert(addr));
    }
}

} // verus!
