//! What the client does with what the server tells.
use crate::error::{new_report, report_messages, wrap_report};
use crate::protocol::{ConnecterAction, ExitStatus, PortId, ServerAction, StreamAction, StreamId};
use color_eyre::eyre::Report;
use vstd::prelude::*;
use vstd::string::*;

verus! {

/// What happened to the receiver.
pub enum ReceiverEvent {
    /// The server told this.
    Message(ServerAction),
    /// Nothing can be received any more, for this reason.
    RecvFailed(Report),
    /// The sender reports that nothing can be sent any more, for this reason.
    SendFailed(Report),
    /// What was to be handed on last has nowhere to go, for this reason.
    Undelivered(Report),
    /// Nobody waits any more to be told that the command ended so.
    ExitUndelivered(ExitStatus),
}

/// What the receiver has to do next.
pub enum ReceiverStep {
    /// Hand this on to an end of the stream.
    RouteStream(StreamId, StreamAction),
    /// Hand this on to the listener that waits for it.
    RouteConnecter(PortId, ConnecterAction),
    /// Tell how the command ended to whoever waits for it.
    ReportExit(ExitStatus),
    /// Stop.
    Finish,
    /// Stop all streams, tell whoever waits for the end of the command the error, if there is
    /// one, and stop.
    Shutdown(Option<Report>),
    /// Stop with an error, and leave the streams as they are.
    Fail(Report),
}

/// The receiver of the client.
pub struct Task {
    pub finished: bool,
    /// It has been told how the command ended.
    pub exit_reported: bool,
}

impl Task {
    pub fn new() -> (task: Self)
        ensures
            task == (Task { finished: false, exit_reported: false }),
    {
        Task { finished: false, exit_reported: false }
    }

    /// The receiver after an event.
    pub open spec fn after(self, event: ReceiverEvent) -> Task {
        Task {
            finished: match event {
                ReceiverEvent::Message(ServerAction::Finished) => true,
                ReceiverEvent::Message(ServerAction::Exit(_)) => self.exit_reported,
                ReceiverEvent::Message(_) => false,
                _ => true,
            },
            exit_reported: match event {
                ReceiverEvent::Message(ServerAction::Exit(_)) => true,
                _ => self.exit_reported,
            },
        }
    }

    /// The messages of the error for which the streams are stopped at an event.
    pub open spec fn failure(event: ReceiverEvent) -> Seq<Seq<char>> {
        seq!["connection disconnected unexpectedly"@] + match event {
            ReceiverEvent::RecvFailed(err) => seq!["failed to receive message from server"@]
                + report_messages(err),
            ReceiverEvent::SendFailed(err) => report_messages(err),
            _ => Seq::empty(),
        }
    }

    /// Whoever waits for the end of the command is told something at this event.
    pub open spec fn reports_outcome(self, event: ReceiverEvent) -> bool {
        !self.exit_reported && match event {
            ReceiverEvent::Message(ServerAction::Exit(_)) => true,
            ReceiverEvent::RecvFailed(_) | ReceiverEvent::SendFailed(_) => true,
            _ => false,
        }
    }

    /// Takes the receiver through an event.
    pub fn handle(&mut self, event: ReceiverEvent) -> (step: ReceiverStep)
        requires
            !old(self).finished,
        ensures
            *final(self) == old(self).after(event),
            final(self).finished == (step is Finish || step is Shutdown || step is Fail),
            final(self).exit_reported == (old(self).exit_reported || step is ReportExit),
            match (event, step) {
                (ReceiverEvent::RecvFailed(cause), ReceiverStep::Shutdown(Some(err))) => {
                    report_messages(err) == seq![
                        "connection disconnected unexpectedly"@,
                        "failed to receive message from server"@,
                    ] + report_messages(cause)
                },
                (ReceiverEvent::SendFailed(cause), ReceiverStep::Shutdown(Some(err))) => {
                    report_messages(err) == seq!["connection disconnected unexpectedly"@]
                        + report_messages(cause)
                },
                _ => true,
            },
            old(self).reports_outcome(event) <==> (step is ReportExit || (
            step matches ReceiverStep::Shutdown(report) && report is Some)),
            match event {
                ReceiverEvent::Message(ServerAction::StreamAction(id, action)) => step
                    == ReceiverStep::RouteStream(id, action),
                ReceiverEvent::Message(ServerAction::ConnecterAction(port, action)) => step
                    == ReceiverStep::RouteConnecter(port, action),
                ReceiverEvent::Message(ServerAction::Exit(status)) => if old(self).exit_reported {
                    step matches ReceiverStep::Fail(err) && report_messages(err) == seq![
                        "received exit status multiple times"@,
                    ]
                } else {
                    step == ReceiverStep::ReportExit(status)
                },
                ReceiverEvent::Message(ServerAction::Finished) => step == ReceiverStep::Finish,
                ReceiverEvent::RecvFailed(_) | ReceiverEvent::SendFailed(_) => {
                    step matches ReceiverStep::Shutdown(report) && match report {
                        Some(err) => !old(self).exit_reported && report_messages(err)
                            == Task::failure(event),
                        None => old(self).exit_reported,
                    }
                },
                ReceiverEvent::Undelivered(err) => step == ReceiverStep::Fail(err),
                ReceiverEvent::ExitUndelivered(status) => step matches ReceiverStep::Fail(err)
                    && report_messages(err) == seq![
                    "failed to send exit status: Ok("@ + status.text() + ")"@,
                ],
            },
    {
        match event {
            ReceiverEvent::Message(ServerAction::StreamAction(id, action)) => {
                ReceiverStep::RouteStream(id, action)
            },
            ReceiverEvent::Message(ServerAction::ConnecterAction(port, action)) => {
                ReceiverStep::RouteConnecter(port, action)
            },
            ReceiverEvent::Message(ServerAction::Exit(status)) => {
                if self.exit_reported {
                    self.finished = true;
                    ReceiverStep::Fail(new_report("received exit status multiple times".to_owned()))
                } else {
                    self.exit_reported = true;
                    ReceiverStep::ReportExit(status)
                }
            },
            ReceiverEvent::Message(ServerAction::Finished) => {
                self.finished = true;
                ReceiverStep::Finish
            },
            ReceiverEvent::RecvFailed(err) => {
                let err: Report = wrap_report(
                    err,
                    "failed to receive message from server".to_owned(),
                );
                self.disconnect(err)
            },
            ReceiverEvent::SendFailed(err) => self.disconnect(err),
            ReceiverEvent::Undelivered(err) => {
                self.finished = true;
                ReceiverStep::Fail(err)
            },
            ReceiverEvent::ExitUndelivered(status) => {
                self.finished = true;
                let mut message: String = "failed to send exit status: Ok(".to_owned();
                message.append(status.debug_text().as_str());
                message.append(")");
                ReceiverStep::Fail(new_report(message))
            },
        }
    }

    /// Stops for an error of the connection.
    fn disconnect(&mut self, err: Report) -> (step: ReceiverStep)
        ensures
            *final(self) == (Task { finished: true, exit_reported: old(self).exit_reported }),
            step matches ReceiverStep::Shutdown(report) && match report {
                Some(outer) => !old(self).exit_reported && report_messages(outer) == seq![
                    "connection disconnected unexpectedly"@,
                ] + report_messages(err),
                None => old(self).exit_reported,
            },
    {
        self.finished = true;
        if self.exit_reported {
            ReceiverStep::Shutdown(None)
        } else {
            ReceiverStep::Shutdown(
                Some(wrap_report(err, "connection disconnected unexpectedly".to_owned())),
            )
        }
    }
}

/// The receiver after some events, one after another.
pub open spec fn after_all(task: Task, events: Seq<ReceiverEvent>) -> Task
    decreases events.len(),
{
    if events.len() == 0 {
        task
    } else {
        after_all(task, events.drop_last()).after(events.last())
    }
}

/// Whether the receiver still runs at each of some events.
pub open spec fn runs_through(task: Task, events: Seq<ReceiverEvent>) -> bool {
    forall|i: int|
        0 <= i < events.len() ==> !(#[trigger] after_all(task, events.take(i))).finished
}

proof fn lemma_outcome_stays(task: Task, events: Seq<ReceiverEvent>, i: int, j: int)
    requires
        runs_through(task, events),
        0 <= i < j <= events.len(),
        after_all(task, events.take(i)).reports_outcome(events[i]),
    ensures
        after_all(task, events.take(j)).exit_reported || after_all(task, events.take(j)).finished,
    decreases j,
{
    assert(events.take(j).drop_last() == events.take(j - 1));
    assert(events.take(j).last() == events[j - 1]);
    if i < j - 1 {
        lemma_outcome_stays(task, events, i, j - 1);
        assert(!after_all(task, events.take(j - 1)).finished);
    }
}

/// Whoever waits for the end of the command is told of it, or of an error in its place, at most
/// once.
pub proof fn the_outcome_is_reported_once(task: Task, events: Seq<ReceiverEvent>, i: int, j: int)
    requires
        runs_through(task, events),
        0 <= i < j < events.len(),
        after_all(task, events.take(i)).reports_outcome(events[i]),
    ensures
        !after_all(task, events.take(j)).reports_outcome(events[j]),
{
    lemma_outcome_stays(task, events, i, j);
    assert(!after_all(task, events.take(j)).finished);
}

/// The receiver goes on after each message but the one that the server has finished, unless it
/// was told twice how the command ended. An error, of whatever kind, stops it.
pub proof fn the_receiver_runs_until_the_server_has_finished(task: Task, event: ReceiverEvent)
    requires
        !task.finished,
    ensures
        event matches ReceiverEvent::Message(message) ==> (task.after(event).finished <==> (
        message is Finished || (message is Exit && task.exit_reported))),
        !(event is Message) ==> task.after(event).finished,
        task.after(event).exit_reported <==> (task.exit_reported || (
        event matches ReceiverEvent::Message(message) && message is Exit)),
{
}

/// Whatever the server tells of streams and connections is received, however much it is, and so
/// is how the command ended after it: the receiver runs through all of it.
pub proof fn all_messages_are_received(task: Task, messages: Seq<ServerAction>)
    requires
        !task.finished,
        forall|i: int|
            0 <= i < messages.len() ==> #[trigger] messages[i] is StreamAction
                || messages[i] is ConnecterAction,
    ensures
        ({
            let events = Seq::new(messages.len(), |i: int| ReceiverEvent::Message(messages[i]));
            &&& runs_through(task, events)
            &&& after_all(task, events) == task
        }),
    decreases messages.len(),
{
    let events = Seq::new(messages.len(), |i: int| ReceiverEvent::Message(messages[i]));
    if messages.len() > 0 {
        let front = messages.drop_last();
        assert forall|i: int| 0 <= i < front.len() implies #[trigger] front[i] is StreamAction
            || front[i] is ConnecterAction by {
            assert(front[i] == messages[i]);
        }
        all_messages_are_received(task, front);
        let earlier = Seq::new(front.len(), |i: int| ReceiverEvent::Message(front[i]));
        assert(events.drop_last() == earlier);
        assert(messages[messages.len() - 1] is StreamAction
            || messages[messages.len() - 1] is ConnecterAction);
        assert forall|i: int| 0 <= i < events.len() implies !(#[trigger] after_all(
            task,
            events.take(i),
        )).finished by {
            if i < earlier.len() {
                assert(events.take(i) == earlier.take(i));
            } else {
                assert(events.take(i) == earlier);
            }
        }
    }
}

/// Whoever waits for the end of the command is told of it as soon as the server tells, and of the
/// error when the connection fails first; nothing else is told.
pub proof fn the_outcome_is_reported(task: Task, event: ReceiverEvent)
    ensures
        task.reports_outcome(event) <==> !task.exit_reported && (event is RecvFailed
            || event is SendFailed || (event matches ReceiverEvent::Message(message)
            && message is Exit)),
{
}

} // verus!
