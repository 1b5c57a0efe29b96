//! The listening side of a forwarded port.
use crate::error::{new_report, report_messages, wrap_report};
use crate::protocol::{
    received_messages, ConnId, ConnecterAction, ListenerAction, PortId, Response, StreamId,
};
use color_eyre::eyre::Report;
use vstd::prelude::*;
use vstd::string::*;

verus! {

/// What the listening side is doing.
#[derive(Debug, Clone, Copy, PartialEq, Eq, Structural)]
pub enum ListenerPhase {
    /// It waits for the next connection.
    Accepting,
    /// It waits for the other side to make the connection.
    Connecting,
    /// It tells the other side that it closes.
    Closing,
    /// It has nothing more to do.
    Finished,
}

/// What happened to the listening side.
pub enum ListenerEvent {
    /// A connection came in.
    Accepted,
    /// A connection failed to come in.
    AcceptFailed,
    /// The command has ended.
    TaskEnd,
    /// What was to be sent last could not be, for this reason.
    RequestFailed(Report),
    /// The other side answered, or is gone.
    Answered(Option<ConnecterAction>),
    /// The other side has been told that this one closes.
    Closed,
}

/// What the listening side has to do next.
pub enum ListenerStep {
    /// Wait for the next connection.
    Accept,
    /// Have the answer for this stream routed here, and send this request for the port.
    Connect(StreamId, PortId, ListenerAction),
    /// Take the route of the answer out, and start the streams of the connection.
    Start(StreamId),
    /// Take the route of the answer out, and drop the connection for this error.
    Drop(StreamId, Report),
    /// Send this for the port.
    Close(PortId, ListenerAction),
    Stop,
    /// Stop with an error.
    Fail(Report),
}

/// The listening side of a port.
pub struct Task {
    pub port_id: PortId,
    /// The connection that is waited for, or being made.
    pub conn_id: ConnId,
    pub phase: ListenerPhase,
}

impl Task {
    pub fn new(port_id: PortId) -> (task: Self)
        ensures
            task == (Task {
                port_id,
                conn_id: ConnId(0),
                phase: ListenerPhase::Accepting,
            }),
    {
        Task { port_id, conn_id: ConnId::new(0), phase: ListenerPhase::Accepting }
    }

    /// The stream of the connection that is waited for, or being made.
    pub open spec fn stream(&self) -> StreamId {
        StreamId::Forward(self.port_id, self.conn_id)
    }

    /// The events that can happen: those it waits for.
    pub open spec fn accepts(&self, event: ListenerEvent) -> bool {
        match self.phase {
            ListenerPhase::Accepting => event is Accepted || event is AcceptFailed
                || event is TaskEnd,
            ListenerPhase::Connecting => event is RequestFailed || event is Answered,
            ListenerPhase::Closing => event is RequestFailed || event is Closed,
            ListenerPhase::Finished => false,
        }
    }

    /// The listening side after an event. Each connection has a number of its own, whether it
    /// comes to anything or not.
    pub open spec fn after(self, event: ListenerEvent) -> Task {
        match event {
            ListenerEvent::Accepted => Task { phase: ListenerPhase::Connecting, ..self },
            ListenerEvent::TaskEnd => Task { phase: ListenerPhase::Closing, ..self },
            _ if self.phase is Closing => Task { phase: ListenerPhase::Finished, ..self },
            _ => Task {
                port_id: self.port_id,
                conn_id: ConnId((self.conn_id.0 + 1) as u32),
                phase: ListenerPhase::Accepting,
            },
        }
    }

    /// Whether an event can happen, and leaves a number for the next connection.
    pub open spec fn can_take(&self, event: ListenerEvent) -> bool {
        &&& self.accepts(event)
        &&& !(event is Accepted) && !(event is TaskEnd) && !(self.phase is Closing)
            ==> self.conn_id.0 < u32::MAX - 1
    }

    /// Goes on to the next connection.
    fn next_connection(&mut self)
        requires
            old(self).conn_id.0 < u32::MAX - 1,
        ensures
            *final(self) == (Task {
                port_id: old(self).port_id,
                conn_id: ConnId((old(self).conn_id.0 + 1) as u32),
                phase: ListenerPhase::Accepting,
            }),
    {
        self.conn_id = ConnId::new(self.conn_id.0 + 1);
        self.phase = ListenerPhase::Accepting;
    }

    /// Takes the listening side through an event.
    pub fn handle(&mut self, event: ListenerEvent) -> (step: ListenerStep)
        requires
            old(self).can_take(event),
        ensures
            *final(self) == old(self).after(event),
            final(self).port_id == old(self).port_id,
            final(self).conn_id.0 == old(self).conn_id.0 + if step is Accept || step is Start
                || step is Drop {
                1int
            } else {
                0
            },
            match step {
                ListenerStep::Accept | ListenerStep::Start(_) | ListenerStep::Drop(
                    _,
                    _,
                ) => final(self).phase is Accepting,
                ListenerStep::Connect(_, _, _) => final(self).phase is Connecting,
                ListenerStep::Close(_, _) => final(self).phase is Closing,
                ListenerStep::Stop | ListenerStep::Fail(_) => final(self).phase is Finished,
            },
            match event {
                ListenerEvent::Accepted => step == ListenerStep::Connect(
                    old(self).stream(),
                    old(self).port_id,
                    ListenerAction::Connect(old(self).conn_id),
                ),
                ListenerEvent::AcceptFailed => step == ListenerStep::Accept,
                ListenerEvent::TaskEnd => step == ListenerStep::Close(
                    old(self).port_id,
                    ListenerAction::ListenerClosed,
                ),
                ListenerEvent::RequestFailed(cause) => match step {
                    ListenerStep::Drop(id, err) => old(self).phase is Connecting && id == old(
                        self,
                    ).stream() && report_messages(err) == seq!["failed to send request"@]
                        + report_messages(cause),
                    ListenerStep::Fail(err) => old(self).phase is Closing && report_messages(err)
                        == seq!["failed to send request"@] + report_messages(cause),
                    _ => false,
                },
                ListenerEvent::Closed => step == ListenerStep::Stop,
                ListenerEvent::Answered(
                    Some(ConnecterAction::ConnectResponse(_, Response::Success)),
                ) => step == ListenerStep::Start(old(self).stream()),
                ListenerEvent::Answered(
                    Some(ConnecterAction::ConnectResponse(_, Response::Failure(serial))),
                ) => step matches ListenerStep::Drop(id, err) && id == old(self).stream()
                    && report_messages(err) == received_messages(serial@),
                ListenerEvent::Answered(None) => step matches ListenerStep::Drop(id, err) && id
                    == old(self).stream() && report_messages(err)
                    == seq!["failed to receive response"@],
            },
    {
        let id: StreamId = StreamId::Forward(self.port_id, self.conn_id);
        match event {
            ListenerEvent::Accepted => {
                self.phase = ListenerPhase::Connecting;
                ListenerStep::Connect(id, self.port_id, ListenerAction::Connect(self.conn_id))
            },
            ListenerEvent::AcceptFailed => {
                self.next_connection();
                ListenerStep::Accept
            },
            ListenerEvent::TaskEnd => {
                self.phase = ListenerPhase::Closing;
                ListenerStep::Close(self.port_id, ListenerAction::ListenerClosed)
            },
            ListenerEvent::RequestFailed(cause) => {
                let err: Report = wrap_report(cause, "failed to send request".to_owned());
                if self.phase == ListenerPhase::Closing {
                    self.phase = ListenerPhase::Finished;
                    ListenerStep::Fail(err)
                } else {
                    self.next_connection();
                    ListenerStep::Drop(id, err)
                }
            },
            ListenerEvent::Closed => {
                self.phase = ListenerPhase::Finished;
                ListenerStep::Stop
            },
            ListenerEvent::Answered(answer) => {
                self.next_connection();
                match connect_remote(answer) {
                    Ok(()) => ListenerStep::Start(id),
                    Err(err) => ListenerStep::Drop(id, err),
                }
            },
        }
    }
}

/// The listening side after some events, one after another.
pub open spec fn after_all(task: Task, events: Seq<ListenerEvent>) -> Task
    decreases events.len(),
{
    if events.len() == 0 {
        task
    } else {
        after_all(task, events.drop_last()).after(events.last())
    }
}

/// Whether each of some events can happen when its turn comes.
pub open spec fn can_take_all(task: Task, events: Seq<ListenerEvent>) -> bool {
    forall|i: int|
        0 <= i < events.len() ==> after_all(task, events.take(i)).can_take(#[trigger] events[i])
}

proof fn lemma_numbers_grow(task: Task, events: Seq<ListenerEvent>, i: int, j: int)
    requires
        can_take_all(task, events),
        0 <= i < j <= events.len(),
        events[i] is Accepted,
    ensures
        ({
            let earlier = after_all(task, events.take(i));
            let later = after_all(task, events.take(j));
            &&& later.port_id == earlier.port_id
            &&& later.conn_id.0 >= earlier.conn_id.0
            &&& later.phase == ListenerPhase::Accepting ==> later.conn_id.0 > earlier.conn_id.0
        }),
    decreases j,
{
    assert(events.take(j).drop_last() == events.take(j - 1));
    assert(events.take(j).last() == events[j - 1]);
    let before = after_all(task, events.take(j - 1));
    assert(before.can_take(events[j - 1]));
    if i < j - 1 {
        lemma_numbers_grow(task, events, i, j - 1);
    }
}

/// No two connections that come in through a port are the same stream.
pub proof fn connections_are_different_streams(
    task: Task,
    events: Seq<ListenerEvent>,
    i: int,
    j: int,
)
    requires
        can_take_all(task, events),
        0 <= i < j < events.len(),
        events[i] is Accepted,
        events[j] is Accepted,
    ensures
        after_all(task, events.take(i)).stream() != after_all(task, events.take(j)).stream(),
{
    lemma_numbers_grow(task, events, i, j);
    assert(after_all(task, events.take(j)).can_take(events[j]));
}

/// What the answer to a request for a connection tells.
pub fn connect_remote(answer: Option<ConnecterAction>) -> (res: Result<(), Report>)
    ensures
        match answer {
            Some(ConnecterAction::ConnectResponse(_, Response::Success)) => res is Ok,
            Some(ConnecterAction::ConnectResponse(_, Response::Failure(serial))) => res matches Err(
                err,
            ) && report_messages(err) == received_messages(serial@),
            None => res matches Err(err) && report_messages(err)
                == seq!["failed to receive response"@],
        },
{
    match answer {
        Some(ConnecterAction::ConnectResponse(_, response)) => {
            Result::<(), Report>::from(response)
        },
        None => Err(new_report("failed to receive response".to_owned())),
    }
}

/// While it waits for a connection, one can come in or fail to, and the command can end. While a
/// connection is being made an answer can come, of whatever kind, or the request can fail.
pub proof fn a_listener_takes_what_can_happen(
    task: Task,
    answer: Option<ConnecterAction>,
    cause: Report,
)
    ensures
        task.phase is Accepting <==> task.accepts(ListenerEvent::Accepted),
        task.phase is Accepting <==> task.accepts(ListenerEvent::AcceptFailed),
        task.phase is Accepting <==> task.accepts(ListenerEvent::TaskEnd),
        task.phase is Connecting <==> task.accepts(ListenerEvent::Answered(answer)),
        task.phase is Connecting || task.phase is Closing <==> task.accepts(
            ListenerEvent::RequestFailed(cause),
        ),
        task.phase is Closing <==> task.accepts(ListenerEvent::Closed),
        task.phase is Accepting ==> task.can_take(ListenerEvent::Accepted) && task.can_take(
            ListenerEvent::TaskEnd,
        ),
        task.phase is Closing ==> task.can_take(ListenerEvent::Closed) && task.can_take(
            ListenerEvent::RequestFailed(cause),
        ),
        task.conn_id.0 < u32::MAX - 1 ==> (task.accepts(ListenerEvent::Answered(answer))
            ==> task.can_take(ListenerEvent::Answered(answer))) && (task.accepts(
            ListenerEvent::RequestFailed(cause),
        ) ==> task.can_take(ListenerEvent::RequestFailed(cause))) && (task.accepts(
            ListenerEvent::AcceptFailed,
        ) ==> task.can_take(ListenerEvent::AcceptFailed)),
{
}

/// Whatever becomes of a connection, made or not, the listener then waits for the next one, which
/// has the next number; and so it does when none came in.
pub proof fn a_listener_takes_connection_after_connection(
    task: Task,
    answer: Option<ConnecterAction>,
    cause: Report,
)
    requires
        task.phase is Accepting,
        task.conn_id.0 < u32::MAX - 1,
    ensures
        ({
            let connecting = task.after(ListenerEvent::Accepted);
            let answered = connecting.after(ListenerEvent::Answered(answer));
            let unasked = connecting.after(ListenerEvent::RequestFailed(cause));
            let missed = task.after(ListenerEvent::AcceptFailed);
            &&& connecting.stream() == task.stream()
            &&& connecting.can_take(ListenerEvent::Answered(answer))
            &&& connecting.can_take(ListenerEvent::RequestFailed(cause))
            &&& answered.can_take(ListenerEvent::Accepted)
            &&& answered.can_take(ListenerEvent::TaskEnd)
            &&& answered.port_id == task.port_id
            &&& answered.conn_id.0 == task.conn_id.0 + 1
            &&& unasked == answered
            &&& missed == answered
        }),
{
}

/// A listener stops accepting exactly when the command ends, and has finished only after it has
/// tried to tell the other side that it closes.
pub proof fn a_listener_listens_until_the_command_ends(task: Task, events: Seq<ListenerEvent>)
    requires
        can_take_all(task, events),
        task.phase is Accepting,
    ensures
        ({
            let phase = after_all(task, events).phase;
            let ended = exists|i: int| 0 <= i < events.len() && #[trigger] events[i] is TaskEnd;
            &&& phase is Closing || phase is Finished <==> ended
            &&& phase is Finished ==> events.len() >= 2 && (events.last() is Closed
                || events.last() is RequestFailed) && events[events.len() - 2] is TaskEnd
        }),
    decreases events.len(),
{
    if events.len() > 0 {
        let front = events.drop_last();
        assert(events.take(events.len() - 1) == front);
        let before = after_all(task, front);
        assert(before.can_take(events[events.len() - 1]));
        assert forall|i: int| 0 <= i < front.len() implies after_all(task, front.take(i)).can_take(
            #[trigger] front[i],
        ) by {
            assert(front.take(i) == events.take(i));
            assert(front[i] == events[i]);
        }
        a_listener_listens_until_the_command_ends(task, front);
        assert(forall|i: int| #![trigger events[i]] 0 <= i < front.len() ==> front[i] == events[i]);
        if exists|i: int| 0 <= i < front.len() && #[trigger] front[i] is TaskEnd {
            let i = choose|i: int| 0 <= i < front.len() && #[trigger] front[i] is TaskEnd;
            assert(events[i] is TaskEnd);
            if before.phase is Closing {
                lemma_closing_is_fresh(task, front);
            }
        } else {
            assert(forall|i: int| 0 <= i < front.len() ==> !(#[trigger] front[i] is TaskEnd));
            if events.last() is TaskEnd {
                assert(events[events.len() - 1] is TaskEnd);
            }
        }
    }
}

proof fn lemma_closing_is_fresh(task: Task, events: Seq<ListenerEvent>)
    requires
        can_take_all(task, events),
        task.phase is Accepting,
        after_all(task, events).phase is Closing,
    ensures
        events.len() > 0,
        events.last() is TaskEnd,
{
    if events.len() > 0 {
        assert(events.take(events.len() - 1) == events.drop_last());
        assert(after_all(task, events.drop_last()).can_take(events[events.len() - 1]));
    }
}

} // verus!
