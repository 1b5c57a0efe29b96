//! Where the messages that arrive are handed on to.
use crate::protocol::{
    ConnId, ConnecterAction, PortId, SinkAction, SourceAction, StreamAction,
    StreamId,
};
use color_eyre::eyre::Report;
use vstd::prelude::*;
use vstd::string::*;

verus! {

/// What a route is known by.
pub trait RouteKey: Copy + Sized {
    fn same(&self, other: &Self) -> (yes: bool)
        ensures
            yes == (*self == *other),
    ;
}

impl RouteKey for StreamId {
    fn same(&self, other: &Self) -> (yes: bool) {
        *self == *other
    }
}

impl RouteKey for PortId {
    fn same(&self, other: &Self) -> (yes: bool) {
        *self == *other
    }
}

/// The keys of some routes, none of them twice.
pub open spec fn distinct_keys<K, T>(entries: Seq<(K, T)>) -> bool {
    forall|i: int, j: int|
        #![trigger entries[i], entries[j]]
        0 <= i < j < entries.len() ==> entries[i].0 != entries[j].0
}

/// The routes that some entries stand for.
pub open spec fn routes<K, T>(entries: Seq<(K, T)>) -> Map<K, T>
    decreases entries.len(),
{
    if entries.len() == 0 {
        Map::empty()
    } else {
        routes(entries.drop_last()).insert(entries.last().0, entries.last().1)
    }
}

proof fn lemma_route_of_entry<K, T>(entries: Seq<(K, T)>, i: int)
    requires
        distinct_keys(entries),
        0 <= i < entries.len(),
    ensures
        routes(entries).contains_key(entries[i].0),
        routes(entries)[entries[i].0] == entries[i].1,
    decreases entries.len(),
{
    if i < entries.len() - 1 {
        let front = entries.drop_last();
        assert(distinct_keys(front)) by {
            assert forall|a: int, b: int|
                #![trigger front[a], front[b]]
                0 <= a < b < front.len() implies front[a].0 != front[b].0 by {
                assert(front[a] == entries[a] && front[b] == entries[b]);
            }
        }
        assert(front[i] == entries[i]);
        lemma_route_of_entry(front, i);
        assert(entries[i].0 != entries[entries.len() - 1].0);
    }
}

proof fn lemma_entry_of_route<K, T>(entries: Seq<(K, T)>, key: K) -> (i: int)
    requires
        routes(entries).contains_key(key),
    ensures
        0 <= i < entries.len(),
        entries[i].0 == key,
    decreases entries.len(),
{
    if entries.last().0 == key {
        entries.len() - 1
    } else {
        lemma_entry_of_route(entries.drop_last(), key)
    }
}

/// Some routes, each known by its key.
pub struct RouteTable<K, T> {
    entries: Vec<(K, T)>,
}

impl<K: RouteKey, T> View for RouteTable<K, T> {
    type V = Map<K, T>;

    closed spec fn view(&self) -> Map<K, T> {
        routes(self.entries@)
    }
}

impl<K: RouteKey, T> RouteTable<K, T> {
    /// No key stands twice.
    pub closed spec fn wf(&self) -> bool {
        distinct_keys(self.entries@)
    }

    pub fn new() -> (table: Self)
        ensures
            table.wf(),
            table@ == Map::<K, T>::empty(),
    {
        RouteTable { entries: Vec::new() }
    }

    /// Adds a route. There is none yet with the key.
    pub fn insert(&mut self, key: K, tx: T)
        requires
            old(self).wf(),
            !old(self)@.contains_key(key),
        ensures
            final(self).wf(),
            final(self)@ == old(self)@.insert(key, tx),
    {
        let ghost before: Seq<(K, T)> = self.entries@;
        self.entries.push((key, tx));
        proof {
            assert(self.entries@.drop_last() == before);
            assert forall|i: int, j: int|
                #![trigger self.entries@[i], self.entries@[j]]
                0 <= i < j < self.entries@.len() implies self.entries@[i].0
                != self.entries@[j].0 by {
                assert(self.entries@[i] == before[i]);
                if j == before.len() {
                    lemma_route_of_entry(before, i);
                } else {
                    assert(self.entries@[j] == before[j]);
                }
            }
        }
    }

    /// The place of a key among the entries.
    fn position(&self, key: K) -> (place: Option<usize>)
        requires
            self.wf(),
        ensures
            match place {
                Some(i) => i < self.entries@.len() && self.entries@[i as int].0 == key
                    && self@.contains_key(key) && self@[key] == self.entries@[i as int].1,
                None => !self@.contains_key(key),
            },
    {
        for i in 0..self.entries.len()
            invariant
                self.wf(),
                forall|j: int| 0 <= j < i ==> (#[trigger] self.entries@[j]).0 != key,
        {
            if self.entries[i].0.same(&key) {
                proof {
                    lemma_route_of_entry(self.entries@, i as int);
                }
                return Some(i);
            }
        }
        proof {
            if self@.contains_key(key) {
                let i = lemma_entry_of_route(self.entries@, key);
                assert(self.entries@[i].0 != key);
            }
        }
        None
    }

    /// Whether there is a route with this key.
    pub fn contains(&self, key: K) -> (yes: bool)
        requires
            self.wf(),
        ensures
            yes == self@.contains_key(key),
    {
        self.position(key).is_some()
    }

    /// The route with this key.
    pub fn get(&self, key: K) -> (tx: Option<&T>)
        requires
            self.wf(),
        ensures
            match tx {
                Some(tx) => self@.contains_key(key) && *tx == self@[key],
                None => !self@.contains_key(key),
            },
    {
        match self.position(key) {
            Some(i) => Some(&self.entries[i].1),
            None => None,
        }
    }

    /// Takes the route with this key out.
    pub fn remove(&mut self, key: K) -> (tx: Option<T>)
        requires
            old(self).wf(),
        ensures
            final(self).wf(),
            final(self)@ == old(self)@.remove(key),
            match tx {
                Some(tx) => old(self)@.contains_key(key) && tx == old(self)@[key],
                None => !old(self)@.contains_key(key),
            },
    {
        match self.position(key) {
            Some(i) => {
                let ghost before: Seq<(K, T)> = self.entries@;
                let (_, tx) = self.entries.remove(i);
                proof {
                    let after = self.entries@;
                    assert forall|a: int, b: int|
                        #![trigger after[a], after[b]]
                        0 <= a < b < after.len() implies after[a].0 != after[b].0 by {
                        let from_a = if a < i { a } else { a + 1 };
                        let from_b = if b < i { b } else { b + 1 };
                        assert(after[a] == before[from_a] && after[b] == before[from_b]);
                    }
                    assert forall|k: K| routes(after).contains_key(k) == routes(
                        before,
                    ).remove(key).contains_key(k) by {
                        if routes(after).contains_key(k) {
                            let a = lemma_entry_of_route(after, k);
                            let from_a = if a < i { a } else { a + 1 };
                            assert(after[a] == before[from_a]);
                            lemma_route_of_entry(before, from_a);
                            assert(before[from_a].0 != before[i as int].0);
                        }
                        if routes(before).remove(key).contains_key(k) {
                            let b = lemma_entry_of_route(before, k);
                            assert(b != i);
                            let to_b = if b < i { b } else { b - 1 };
                            assert(after[to_b] == before[b]);
                            lemma_route_of_entry(after, to_b);
                        }
                    }
                    assert forall|k: K| routes(after).contains_key(k) implies routes(after)[k]
                        == routes(before)[k] by {
                        let a = lemma_entry_of_route(after, k);
                        let from_a = if a < i { a } else { a + 1 };
                        assert(after[a] == before[from_a]);
                        lemma_route_of_entry(after, a);
                        lemma_route_of_entry(before, from_a);
                    }
                    assert(routes(after) =~= routes(before).remove(key));
                }
                Some(tx)
            },
            None => {
                assert(self@.remove(key) =~= self@);
                None
            },
        }
    }

    /// Takes all routes out.
    pub fn drain(&mut self) -> (entries: Vec<(K, T)>)
        requires
            old(self).wf(),
        ensures
            final(self).wf(),
            final(self)@ == Map::<K, T>::empty(),
            distinct_keys(entries@),
            routes(entries@) == old(self)@,
    {
        let mut entries: Vec<(K, T)> = Vec::new();
        std::mem::swap(&mut entries, &mut self.entries);
        entries
    }
}

/// Why a message cannot be handed on.
#[derive(Debug, Clone, Copy, PartialEq, Eq, Structural)]
pub enum RouteError {
    /// No sink has this stream.
    NoSink(StreamId),
    /// No source has this stream.
    NoSource(StreamId),
    /// Nobody waits for an answer for this connection through this port.
    NoListener(PortId, ConnId),
    /// Nobody connects for this port.
    NoConnecter(PortId),
}

impl RouteError {
    /// What the error tells the user.
    pub open spec fn text(self) -> Seq<char> {
        match self {
            RouteError::NoSink(id) => "sink_tx not found: "@ + id.text(),
            RouteError::NoSource(id) => "source_tx not found: "@ + id.text(),
            RouteError::NoListener(port, _) => "tx not found: "@ + port.text(),
            RouteError::NoConnecter(port) => "tx not found: "@ + port.text(),
        }
    }

    pub fn message(&self) -> (text: String)
        ensures
            text@ == self.text(),
            match self {
                RouteError::NoSink(id) => text@ == "sink_tx not found: "@ + id.text(),
                RouteError::NoSource(id) => text@ == "source_tx not found: "@ + id.text(),
                RouteError::NoListener(port, _) | RouteError::NoConnecter(port) => text@
                    == "tx not found: "@ + port.text(),
            },
    {
        match self {
            RouteError::NoSink(id) => {
                let mut text: String = "sink_tx not found: ".to_owned();
                text.append(id.debug_text().as_str());
                text
            },
            RouteError::NoSource(id) => {
                let mut text: String = "source_tx not found: ".to_owned();
                text.append(id.debug_text().as_str());
                text
            },
            RouteError::NoListener(port, _) | RouteError::NoConnecter(port) => {
                let mut text: String = "tx not found: ".to_owned();
                text.append(port.debug_text().as_str());
                text
            },
        }
    }
}

/// Where the messages for one end of a stream are handed on to.
pub enum StreamSender<K, S> {
    Sink(K),
    Source(S),
}

/// A message and where to hand it on to.
pub enum Delivery<'a, K, S> {
    ToSink(&'a K, SourceAction),
    ToSource(&'a S, SinkAction),
}

/// The error of a message that could not be handed on. An answer may come after its source has
/// closed, so it is no error that it finds none.
pub fn undelivered(to_source: bool, cause: Report) -> (err: Option<Report>)
    ensures
        err == if to_source {
            None
        } else {
            Some(cause)
        },
{
    if to_source {
        None
    } else {
        Some(cause)
    }
}

/// The routes of the messages that arrive on a connection: to the sinks and the sources of its
/// streams, to the listeners that wait for a connection to be made, and to those who make
/// connections for a port.
pub struct RecvRouter<K, S, L, C> {
    pub sinks: RouteTable<StreamId, K>,
    pub sources: RouteTable<StreamId, S>,
    pub listeners: RouteTable<StreamId, L>,
    pub connecters: RouteTable<PortId, C>,
}

impl<K, S, L, C> RecvRouter<K, S, L, C> {
    pub open spec fn wf(&self) -> bool {
        &&& self.sinks.wf()
        &&& self.sources.wf()
        &&& self.listeners.wf()
        &&& self.connecters.wf()
    }

    pub fn new() -> (router: Self)
        ensures
            router.wf(),
            router.sinks@ == Map::<StreamId, K>::empty(),
            router.sources@ == Map::<StreamId, S>::empty(),
            router.listeners@ == Map::<StreamId, L>::empty(),
            router.connecters@ == Map::<PortId, C>::empty(),
    {
        RecvRouter {
            sinks: RouteTable::new(),
            sources: RouteTable::new(),
            listeners: RouteTable::new(),
            connecters: RouteTable::new(),
        }
    }

    /// Adds the route to one end of a stream. There is none yet to that end.
    pub fn insert_tx(&mut self, id: StreamId, tx: StreamSender<K, S>)
        requires
            old(self).wf(),
            tx is Sink ==> !old(self).sinks@.contains_key(id),
            tx is Source ==> !old(self).sources@.contains_key(id),
        ensures
            final(self).wf(),
            final(self).sinks@ == match tx {
                StreamSender::Sink(tx) => old(self).sinks@.insert(id, tx),
                StreamSender::Source(_) => old(self).sinks@,
            },
            final(self).sources@ == match tx {
                StreamSender::Sink(_) => old(self).sources@,
                StreamSender::Source(tx) => old(self).sources@.insert(id, tx),
            },
            final(self).listeners == old(self).listeners,
            final(self).connecters == old(self).connecters,
    {
        match tx {
            StreamSender::Sink(tx) => self.sinks.insert(id, tx),
            StreamSender::Source(tx) => self.sources.insert(id, tx),
        }
    }

    /// Adds the route of the answer that a listener waits for.
    pub fn insert_listener_tx(&mut self, id: StreamId, tx: L)
        requires
            old(self).wf(),
            !old(self).listeners@.contains_key(id),
        ensures
            final(self).wf(),
            final(self).listeners@ == old(self).listeners@.insert(id, tx),
            final(self).sinks == old(self).sinks,
            final(self).sources == old(self).sources,
            final(self).connecters == old(self).connecters,
    {
        self.listeners.insert(id, tx)
    }

    /// Takes the route of an answer out, if it is there.
    pub fn remove_listener_tx(&mut self, id: StreamId)
        requires
            old(self).wf(),
        ensures
            final(self).wf(),
            final(self).listeners@ == old(self).listeners@.remove(id),
            final(self).sinks == old(self).sinks,
            final(self).sources == old(self).sources,
            final(self).connecters == old(self).connecters,
    {
        let _ = self.listeners.remove(id);
    }

    /// Adds the route to whoever makes the connections for a port.
    pub fn insert_connecter_tx(&mut self, port: PortId, tx: C)
        requires
            old(self).wf(),
            !old(self).connecters@.contains_key(port),
        ensures
            final(self).wf(),
            final(self).connecters@ == old(self).connecters@.insert(port, tx),
            final(self).sinks == old(self).sinks,
            final(self).sources == old(self).sources,
            final(self).listeners == old(self).listeners,
    {
        self.connecters.insert(port, tx)
    }

    /// Finds who has to get a message of a stream: what a source tells goes to the sink, and what
    /// a sink tells goes to the source.
    pub fn send_stream_action(&self, id: StreamId, action: StreamAction) -> (res: Result<
        Delivery<'_, K, S>,
        RouteError,
    >)
        requires
            self.wf(),
        ensures
            match action {
                StreamAction::SourceAction(action) => match res {
                    Ok(Delivery::ToSink(tx, delivered)) => self.sinks@.contains_key(id) && *tx
                        == self.sinks@[id] && delivered == action,
                    Ok(Delivery::ToSource(_, _)) => false,
                    Err(err) => !self.sinks@.contains_key(id) && err == RouteError::NoSink(id),
                },
                StreamAction::SinkAction(action) => match res {
                    Ok(Delivery::ToSource(tx, delivered)) => self.sources@.contains_key(id) && *tx
                        == self.sources@[id] && delivered == action,
                    Ok(Delivery::ToSink(_, _)) => false,
                    Err(err) => !self.sources@.contains_key(id) && err == RouteError::NoSource(id),
                },
            },
    {
        match action {
            StreamAction::SourceAction(action) => match self.sinks.get(id) {
                Some(tx) => Ok(Delivery::ToSink(tx, action)),
                None => Err(RouteError::NoSink(id)),
            },
            StreamAction::SinkAction(action) => match self.sources.get(id) {
                Some(tx) => Ok(Delivery::ToSource(tx, action)),
                None => Err(RouteError::NoSource(id)),
            },
        }
    }

    /// Finds who waits for the answer of the connecting side of a port.
    pub fn send_connecter_action(&self, port: PortId, action: &ConnecterAction) -> (res: Result<
        &L,
        RouteError,
    >)
        requires
            self.wf(),
        ensures
            ({
                let id = StreamId::Forward(port, action.conn());
                match res {
                    Ok(tx) => self.listeners@.contains_key(id) && *tx == self.listeners@[id],
                    Err(err) => !self.listeners@.contains_key(id) && err == RouteError::NoListener(
                        port,
                        action.conn(),
                    ),
                }
            }),
    {
        let conn: ConnId = match action {
            ConnecterAction::ConnectResponse(conn, _) => *conn,
        };
        let id: StreamId = StreamId::Forward(port, conn);
        match self.listeners.get(id) {
            Some(tx) => Ok(tx),
            None => Err(RouteError::NoListener(port, conn)),
        }
    }

    /// Finds who makes the connections for a port.
    pub fn send_listener_action(&self, port: PortId) -> (res: Result<&C, RouteError>)
        requires
            self.wf(),
        ensures
            match res {
                Ok(tx) => self.connecters@.contains_key(port) && *tx == self.connecters@[port],
                Err(err) => !self.connecters@.contains_key(port) && err == RouteError::NoConnecter(
                    port,
                ),
            },
    {
        match self.connecters.get(port) {
            Some(tx) => Ok(tx),
            None => Err(RouteError::NoConnecter(port)),
        }
    }

    /// Takes out the routes to all sinks and sources, which are then told to stop.
    pub fn shutdown(&mut self) -> (ends: (Vec<(StreamId, K)>, Vec<(StreamId, S)>))
        requires
            old(self).wf(),
        ensures
            final(self).wf(),
            final(self).sinks@ == Map::<StreamId, K>::empty(),
            final(self).sources@ == Map::<StreamId, S>::empty(),
            final(self).listeners == old(self).listeners,
            final(self).connecters == old(self).connecters,
            distinct_keys(ends.0@),
            routes(ends.0@) == old(self).sinks@,
            distinct_keys(ends.1@),
            routes(ends.1@) == old(self).sources@,
    {
        (self.sinks.drain(), self.sources.drain())
    }
}

impl ConnecterAction {
    /// The connection that it is about.
    pub open spec fn conn(self) -> ConnId {
        match self {
            ConnecterAction::ConnectResponse(conn, _) => conn,
        }
    }
}

/// An entry is handed out with the route that it was made with, and each route has an entry.
pub proof fn entries_are_the_routes<K, T>(entries: Seq<(K, T)>)
    requires
        distinct_keys(entries),
    ensures
        forall|key: K, tx: T|
            (routes(entries).contains_key(key) && routes(entries)[key] == tx) <==> entries.contains(
                (key, tx),
            ),
{
    assert forall|key: K, tx: T|
        (routes(entries).contains_key(key) && routes(entries)[key] == tx) <==> entries.contains(
            (key, tx),
        ) by {
        if routes(entries).contains_key(key) && routes(entries)[key] == tx {
            let i = lemma_entry_of_route(entries, key);
            lemma_route_of_entry(entries, i);
            assert(entries[i] == (key, tx));
        }
        if entries.contains((key, tx)) {
            let i = choose|i: int| 0 <= i < entries.len() && entries[i] == (key, tx);
            lemma_route_of_entry(entries, i);
        }
    }
}

/// An answer is about the connection that it names.
pub proof fn an_answer_is_about_its_connection(action: ConnecterAction)
    ensures
        action matches ConnecterAction::ConnectResponse(conn, _) ==> action.conn() == conn,
{
}

} // verus!
