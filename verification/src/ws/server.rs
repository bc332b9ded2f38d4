//! The browser clients of the WebSocket server.
use std::collections::HashMap;

use vstd::prelude::*;

verus! {

/// Identifies a client for as long as the server runs.
pub type ClientId = u64;

/// The connected clients, each with the sink `S` that messages to it are written to.
#[derive(Debug)]
pub struct ClientMap<S> {
    clients: HashMap<ClientId, S>,
    next_id: ClientId,
}

/// What a [`ClientMap`] stands for: the connected clients, and the number of clients that
/// have ever connected, which is the identifier of the next one.
pub struct ClientsView<S> {
    pub clients: Map<ClientId, S>,
    pub next_id: ClientId,
}

impl<S> View for ClientMap<S> {
    type V = ClientsView<S>;

    closed spec fn view(&self) -> ClientsView<S> {
        ClientsView { clients: self.clients@, next_id: self.next_id }
    }
}

impl<S> ClientsView<S> {
    /// Every connected client has been given its identifier already.
    pub open spec fn well_formed(self) -> bool {
        forall|id: ClientId| #[trigger] self.clients.contains_key(id) ==> id < self.next_id
    }

    /// The clients after another one has connected.
    pub open spec fn connected(self, sink: S) -> ClientsView<S> {
        ClientsView {
            clients: self.clients.insert(self.next_id, sink),
            next_id: (self.next_id + 1) as ClientId,
        }
    }

    /// The clients after one of them has left.
    pub open spec fn disconnected(self, id: ClientId) -> ClientsView<S> {
        ClientsView { clients: self.clients.remove(id), next_id: self.next_id }
    }

    /// The clients after those that could not be reached have been removed.
    pub open spec fn without(self, dead: Set<ClientId>) -> ClientsView<S> {
        ClientsView { clients: self.clients.remove_keys(dead), next_id: self.next_id }
    }
}

impl<S> ClientMap<S> {
    /// No clients yet.
    pub fn new() -> (map: ClientMap<S>)
        ensures
            map@.well_formed(),
            map@.clients == Map::<ClientId, S>::empty(),
            map@.next_id == 0,
    {
        ClientMap { clients: HashMap::new(), next_id: 0 }
    }

    /// Whether there are no identifiers left for new clients.
    pub fn is_exhausted(&self) -> (exhausted: bool)
        ensures
            exhausted == (self@.next_id == ClientId::MAX),
    {
        self.next_id == ClientId::MAX
    }

    /// Add a client that has connected.
    pub fn connect(&mut self, sink: S) -> (id: ClientId)
        requires
            old(self)@.well_formed(),
            old(self)@.next_id < ClientId::MAX,
        ensures
            id == old(self)@.next_id,
            !old(self)@.clients.contains_key(id),
            final(self)@ == old(self)@.connected(sink),
            final(self)@.well_formed(),
    {
        let id = self.next_id;
        self.next_id = id + 1;
        self.clients.insert(id, sink);
        id
    }

    /// Remove a client that has disconnected.
    pub fn disconnect(&mut self, id: ClientId) -> (sink: Option<S>)
        requires
            old(self)@.well_formed(),
        ensures
            final(self)@ == old(self)@.disconnected(id),
            final(self)@.well_formed(),
            match sink {
                Some(sink) => old(self)@.clients.contains_key(id) && old(self)@.clients[id] == sink,
                None => !old(self)@.clients.contains_key(id),
            },
    {
        let sink = self.clients.remove(&id);
        assert(self.clients@ =~= old(self).clients@.remove(id));
        assert forall|other: ClientId| #[trigger]
            self@.clients.contains_key(other) implies other < self@.next_id by {
            assert(old(self)@.clients.contains_key(other));
        }
        sink
    }

    /// Put the sink of a client back that was taken out to write to it.
    pub fn put_back(&mut self, id: ClientId, sink: S)
        requires
            old(self)@.well_formed(),
            id < old(self)@.next_id,
        ensures
            final(self)@.clients == old(self)@.clients.insert(id, sink),
            final(self)@.next_id == old(self)@.next_id,
            final(self)@.well_formed(),
    {
        self.clients.insert(id, sink);
        assert forall|other: ClientId| #[trigger]
            self@.clients.contains_key(other) implies other < self@.next_id by {
            assert(other == id || old(self)@.clients.contains_key(other));
        }
    }

    /// The clients that an event goes to: all that are connected, each once.
    pub fn client_ids(&self) -> (ids: Vec<ClientId>)
        ensures
            ids@.no_duplicates(),
            ids@.to_set() == self@.clients.dom(),
    {
        let mut ids: Vec<ClientId> = Vec::new();
        let keys = self.clients.keys();
        let ghost all = vstd::std_specs::iter::IteratorSpec::remaining(&keys);
        for id in iter: keys
            invariant
                iter.seq() == all,
                ids@.len() == iter.index(),
                forall|i: int| 0 <= i < ids@.len() ==> ids@[i] == *all[i],
        {
            ids.push(*id);
        }
        assert(ids@ =~= all.unref());
        ids
    }

    /// Remove the clients that an event could not be sent to.
    pub fn remove_dead(&mut self, dead: &Vec<ClientId>)
        requires
            old(self)@.well_formed(),
        ensures
            final(self)@ == old(self)@.without(dead@.to_set()),
            final(self)@.well_formed(),
    {
        let mut i: usize = 0;
        assert(self@.clients =~= old(self)@.clients.remove_keys(dead@.take(0).to_set()));
        while i < dead.len()
            invariant
                i <= dead@.len(),
                self@.next_id == old(self)@.next_id,
                self@.clients == old(self)@.clients.remove_keys(dead@.take(i as int).to_set()),
                self@.well_formed(),
            decreases dead@.len() - i,
        {
            self.disconnect(dead[i]);
            assert(dead@.take(i + 1) =~= dead@.take(i as int).push(dead@[i as int]));
            proof {
                dead@.take(i as int).lemma_push_to_set_commute(dead@[i as int]);
            }
            assert(self@.clients =~= old(self)@.clients.remove_keys(dead@.take(i + 1).to_set()));
            i = i + 1;
        }
        assert(dead@.take(i as int) =~= dead@);
    }
}

/// The clients that an event could not be sent to: those of `ids` whose sending, recorded at
/// the same position of `sent`, failed.
pub fn dead_clients(ids: &Vec<ClientId>, sent: &Vec<bool>) -> (dead: Vec<ClientId>)
    requires
        ids@.len() == sent@.len(),
        ids@.no_duplicates(),
    ensures
        dead@.no_duplicates(),
        forall|id: ClientId| #[trigger]
            dead@.contains(id) <==> exists|i: int|
                0 <= i < ids@.len() && #[trigger] ids@[i] == id && !sent@[i],
{
    let mut dead: Vec<ClientId> = Vec::new();
    let mut i: usize = 0;
    while i < ids.len()
        invariant
            i <= ids@.len(),
            ids@.len() == sent@.len(),
            ids@.no_duplicates(),
            dead@.no_duplicates(),
            forall|id: ClientId| #[trigger]
                dead@.contains(id) <==> exists|k: int|
                    0 <= k < i && #[trigger] ids@[k] == id && !sent@[k],
        decreases ids@.len() - i,
    {
        if !sent[i] {
            let ghost before = dead@;
            let id = ids[i];
            assert(!before.contains(id));
            dead.push(id);
            assert(dead@.last() == id);
            assert forall|other: ClientId| #[trigger]
                dead@.contains(other) <==> exists|k: int|
                    0 <= k < i + 1 && #[trigger] ids@[k] == other && !sent@[k] by {
                if dead@.contains(other) && other != id {
                    let m = choose|m: int| 0 <= m < dead@.len() && dead@[m] == other;
                    assert(before[m] == other);
                    assert(before.contains(other));
                }
                if before.contains(other) {
                    let m = choose|m: int| 0 <= m < before.len() && before[m] == other;
                    assert(dead@[m] == other);
                }
                if other == id {
                    assert(ids@[i as int] == other);
                }
            }
        }
        i = i + 1;
    }
    dead
}

/// What can come in from the channel of events.
#[derive(Debug, Clone, Copy, PartialEq, Eq, Structural)]
pub enum Received {
    Event,
    /// Events were lost because they came in faster than they could be sent.
    Lagged,
    /// There will be no more events.
    Closed,
}

/// Whether broadcasting goes on after what came in.
pub fn keeps_broadcasting(received: Received) -> (goes_on: bool)
    ensures
        goes_on <==> received != Received::Closed,
{
    match received {
        Received::Event | Received::Lagged => true,
        Received::Closed => false,
    }
}

/// What can come in from a client.
#[derive(Debug, Clone, Copy, PartialEq, Eq, Structural)]
pub enum Incoming {
    Close,
    Ping,
    Other,
    /// Receiving failed.
    Failed,
}

/// Whether a client stays connected after what came in. Pings are answered by the WebSocket
/// layer, other messages are ignored.
pub fn stays_connected(incoming: Incoming) -> (stays: bool)
    ensures
        stays <==> incoming == Incoming::Ping || incoming == Incoming::Other,
{
    match incoming {
        Incoming::Close | Incoming::Failed => false,
        Incoming::Ping | Incoming::Other => true,
    }
}

/// What changes the set of clients.
pub enum ClientEvent<S> {
    Connect(S),
    Disconnect(ClientId),
    SendFailed(Set<ClientId>),
}

impl<S> ClientsView<S> {
    /// The clients after an event.
    pub open spec fn after(self, event: ClientEvent<S>) -> ClientsView<S> {
        match event {
            ClientEvent::Connect(sink) => self.connected(sink),
            ClientEvent::Disconnect(id) => self.disconnected(id),
            ClientEvent::SendFailed(dead) => self.without(dead),
        }
    }
}

/// The clients after the given events.
pub open spec fn clients_after<S>(
    start: ClientsView<S>,
    events: Seq<ClientEvent<S>>,
) -> ClientsView<S>
    decreases events.len(),
{
    if events.len() == 0 {
        start
    } else {
        clients_after(start, events.drop_last()).after(events.last())
    }
}

/// Whether an event takes a client away.
pub open spec fn takes_away<S>(event: ClientEvent<S>, id: ClientId) -> bool {
    match event {
        ClientEvent::Connect(_) => false,
        ClientEvent::Disconnect(gone) => gone == id,
        ClientEvent::SendFailed(dead) => dead.contains(id),
    }
}

proof fn lemma_clients_step<S>(start: ClientsView<S>, events: Seq<ClientEvent<S>>, i: int)
    requires
        0 <= i < events.len(),
    ensures
        clients_after(start, events.take(i + 1)) == clients_after(start, events.take(i)).after(
            events[i],
        ),
{
    assert(events.take(i + 1).drop_last() =~= events.take(i));
}

proof fn lemma_ids_grow<S>(start: ClientsView<S>, events: Seq<ClientEvent<S>>, i: int, j: int)
    requires
        0 <= i <= j <= events.len(),
        start.next_id + events.len() <= ClientId::MAX,
    ensures
        start.next_id <= clients_after(start, events.take(i)).next_id <= start.next_id + i,
        clients_after(start, events.take(i)).next_id <= clients_after(
            start,
            events.take(j),
        ).next_id <= start.next_id + j,
    decreases i + j,
{
    if i < j {
        lemma_clients_step(start, events, j - 1);
        lemma_ids_grow(start, events, i, j - 1);
    } else if i > 0 {
        lemma_clients_step(start, events, i - 1);
        lemma_ids_grow(start, events, i - 1, i - 1);
    }
}

/// No identifier is given out twice: of two clients, the one that connects later has the
/// greater identifier, whatever happens in between.
pub proof fn law_ids_are_never_reused<S>(
    start: ClientsView<S>,
    events: Seq<ClientEvent<S>>,
    i: int,
    j: int,
)
    requires
        0 <= i < j < events.len(),
        start.next_id + events.len() <= ClientId::MAX,
        events[i] is Connect,
        events[j] is Connect,
    ensures
        clients_after(start, events.take(i)).next_id < clients_after(
            start,
            events.take(j),
        ).next_id,
{
    lemma_ids_grow(start, events, i, i);
    lemma_clients_step(start, events, i);
    lemma_ids_grow(start, events, i + 1, j);
}

/// A client that has connected stays connected, with the same sink, until it disconnects or
/// cannot be reached.
pub proof fn law_client_stays<S>(
    start: ClientsView<S>,
    events: Seq<ClientEvent<S>>,
    i: int,
    j: int,
)
    requires
        0 <= i < j <= events.len(),
        start.next_id + events.len() <= ClientId::MAX,
        events[i] is Connect,
        forall|k: int|
            i < k < j ==> !takes_away(
                #[trigger] events[k],
                clients_after(start, events.take(i)).next_id,
            ),
    ensures
        ({
            let id = clients_after(start, events.take(i)).next_id;
            &&& clients_after(start, events.take(j)).clients.contains_key(id)
            &&& clients_after(start, events.take(j)).clients[id] == events[i]->Connect_0
        }),
    decreases j,
{
    lemma_clients_step(start, events, j - 1);
    if j > i + 1 {
        law_client_stays(start, events, i, j - 1);
        if events[j - 1] is Connect {
            law_ids_are_never_reused(start, events, i, j - 1);
        }
    }
}

/// Taking the sink of a client out and putting one back leaves the same clients connected, all
/// others with the same sink; with the same sink put back, nothing has changed.
pub proof fn law_put_back_undoes_disconnect<S>(map: ClientsView<S>, id: ClientId, sink: S)
    requires
        map.clients.contains_key(id),
    ensures
        map.disconnected(id).clients.insert(id, sink) == map.clients.insert(id, sink),
        map.disconnected(id).clients.insert(id, sink).dom() == map.clients.dom(),
        sink == map.clients[id] ==> map.disconnected(id).clients.insert(id, sink) == map.clients,
{
    assert(map.disconnected(id).clients.insert(id, sink) =~= map.clients.insert(id, sink));
    assert(map.clients.insert(id, sink).dom() =~= map.clients.dom());
    assert(map.clients.insert(id, map.clients[id]) =~= map.clients);
}

/// The clients while an event is being sent: of the first `n` of `ids`, one after the other,
/// the sink has been taken out and put back as `sinks` has it.
pub open spec fn written_to<S>(
    map: ClientsView<S>,
    ids: Seq<ClientId>,
    sinks: Seq<S>,
    n: nat,
) -> ClientsView<S>
    decreases n,
{
    if n == 0 {
        map
    } else {
        let before = written_to(map, ids, sinks, (n - 1) as nat);
        ClientsView {
            clients: before.disconnected(ids[n - 1]).clients.insert(ids[n - 1], sinks[n - 1]),
            next_id: before.next_id,
        }
    }
}

proof fn lemma_written_to<S>(map: ClientsView<S>, ids: Seq<ClientId>, sinks: Seq<S>, n: nat)
    requires
        n <= ids.len() == sinks.len(),
        ids.no_duplicates(),
        forall|i: int| 0 <= i < ids.len() ==> map.clients.contains_key(#[trigger] ids[i]),
    ensures
        written_to(map, ids, sinks, n).next_id == map.next_id,
        written_to(map, ids, sinks, n).clients.dom() == map.clients.dom(),
        forall|i: int|
            0 <= i < n ==> written_to(map, ids, sinks, n).clients[#[trigger] ids[i]] == sinks[i],
    decreases n,
{
    if n > 0 {
        lemma_written_to(map, ids, sinks, (n - 1) as nat);
        assert(written_to(map, ids, sinks, n).clients.dom() =~= map.clients.dom());
    }
}

/// One broadcast: when an event has been sent to every connected client and those that it could
/// not be sent to have been removed, exactly the clients that were reached are connected, each
/// with the sink that was put back for it. A failure to reach one client costs no other its
/// place.
pub proof fn law_broadcast_keeps_exactly_the_reached<S>(
    map: ClientsView<S>,
    ids: Seq<ClientId>,
    sinks: Seq<S>,
    sent: Seq<bool>,
    dead: Seq<ClientId>,
)
    requires
        ids.no_duplicates(),
        ids.to_set() == map.clients.dom(),
        sinks.len() == ids.len(),
        sent.len() == ids.len(),
        forall|id: ClientId| #[trigger]
            dead.contains(id) <==> exists|i: int|
                0 <= i < ids.len() && #[trigger] ids[i] == id && !sent[i],
    ensures
        ({
            let after = written_to(map, ids, sinks, ids.len()).without(dead.to_set());
            &&& after.next_id == map.next_id
            &&& forall|i: int|
                0 <= i < ids.len() ==> (after.clients.contains_key(#[trigger] ids[i]) <==> sent[i])
            &&& forall|i: int|
                0 <= i < ids.len() && sent[i] ==> after.clients[#[trigger] ids[i]] == sinks[i]
            &&& forall|id: ClientId| #[trigger]
                after.clients.contains_key(id) ==> map.clients.contains_key(id)
        }),
{
    assert forall|i: int| 0 <= i < ids.len() implies map.clients.contains_key(
        #[trigger] ids[i],
    ) by {
        assert(ids.to_set().contains(ids[i]));
    }
    lemma_written_to(map, ids, sinks, ids.len());
    let after = written_to(map, ids, sinks, ids.len()).without(dead.to_set());
    assert forall|i: int| 0 <= i < ids.len() implies (after.clients.contains_key(
        #[trigger] ids[i],
    ) <==> sent[i]) by {
        if sent[i] && dead.contains(ids[i]) {
            let k = choose|k: int| 0 <= k < ids.len() && #[trigger] ids[k] == ids[i] && !sent[k];
            assert(k == i);
        }
        if !sent[i] {
            assert(dead.contains(ids[i]));
        }
    }
}

/// A client that has left never comes back under the same identifier.
pub proof fn law_gone_for_good<S>(
    start: ClientsView<S>,
    events: Seq<ClientEvent<S>>,
    id: ClientId,
    i: int,
    j: int,
)
    requires
        0 <= i <= j <= events.len(),
        start.next_id + events.len() <= ClientId::MAX,
        id < clients_after(start, events.take(i)).next_id,
        !clients_after(start, events.take(i)).clients.contains_key(id),
    ensures
        !clients_after(start, events.take(j)).clients.contains_key(id),
    decreases j,
{
    if i < j {
        lemma_clients_step(start, events, j - 1);
        law_gone_for_good(start, events, id, i, j - 1);
        lemma_ids_grow(start, events, i, j - 1);
    }
}

/// A client that connects gets the next identifier and its own sink, and costs no other client
/// anything.
pub proof fn law_connecting_adds_one<S>(map: ClientsView<S>, sink: S, other: ClientId)
    requires
        map.next_id < ClientId::MAX,
    ensures
        map.connected(sink).next_id == map.next_id + 1,
        map.connected(sink).clients.contains_key(map.next_id),
        map.connected(sink).clients[map.next_id] == sink,
        other != map.next_id ==> {
            &&& map.connected(sink).clients.contains_key(other) <==> map.clients.contains_key(other)
            &&& map.clients.contains_key(other) ==> map.connected(sink).clients[other]
                == map.clients[other]
        },
{
}

/// Clients that leave, or that cannot be reached, are gone; all others stay as they are, and no
/// identifier is given out or taken back.
pub proof fn law_only_the_gone_are_removed<S>(
    map: ClientsView<S>,
    gone: ClientId,
    dead: Set<ClientId>,
    other: ClientId,
)
    ensures
        !map.disconnected(gone).clients.contains_key(gone),
        other != gone ==> {
            &&& map.disconnected(gone).clients.contains_key(other) <==> map.clients.contains_key(
                other,
            )
            &&& map.clients.contains_key(other) ==> map.disconnected(gone).clients[other]
                == map.clients[other]
        },
        map.without(dead).clients.contains_key(other) <==> map.clients.contains_key(other)
            && !dead.contains(other),
        map.without(dead).clients.contains_key(other) ==> map.without(dead).clients[other]
            == map.clients[other],
        map.disconnected(gone).next_id == map.next_id,
        map.without(dead).next_id == map.next_id,
{
}

} // verus!
