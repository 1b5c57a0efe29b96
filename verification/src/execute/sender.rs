//! What the client tells the server.
use crate::error::{report_messages, wrap_report};
use crate::protocol::ClientAction;
use color_eyre::eyre::Report;
use vstd::prelude::*;
use vstd::string::*;

verus! {

/// What the sender is doing.
#[derive(Debug, Clone, Copy, PartialEq, Eq, Structural)]
pub enum SenderPhase {
    /// It waits for something to send.
    Idle,
    /// It sends.
    Sending,
    /// It sends its last message.
    Closing,
    Finished,
}

/// What happened to the sender.
pub enum SenderEvent {
    /// This is to be sent.
    Message(ClientAction),
    /// All streams are closed, and nothing more is to be sent.
    AllClosed,
    /// It has been sent.
    Sent,
    /// It could not be sent, for this reason.
    SendFailed(Report),
}

/// What the sender has to do next.
pub enum SenderStep {
    /// Wait for something to send.
    Receive,
    Send(ClientAction),
    /// Report this error, and go on as `reported` says.
    Report(Report),
    Stop,
}

/// The sender of the client. After an error it sends nothing more, and waits for all streams to
/// be closed.
pub struct Task {
    pub phase: SenderPhase,
    pub send_failed: bool,
}

/// Takes the outcome of an act that is left undone after a failure: the error to report, if it
/// is the first.
pub fn do_if_not_failed(is_failed: &mut bool, outcome: Result<(), Report>) -> (report: Option<
    Report,
>)
    ensures
        *final(is_failed) == (*old(is_failed) || outcome is Err),
        match report {
            Some(err) => !*old(is_failed) && outcome is Err && err == outcome->Err_0,
            None => *old(is_failed) || outcome is Ok,
        },
{
    if *is_failed {
        return None;
    }
    match outcome {
        Ok(()) => None,
        Err(err) => {
            *is_failed = true;
            Some(err)
        },
    }
}

impl Task {
    pub fn new() -> (task: Self)
        ensures
            task == (Task { phase: SenderPhase::Idle, send_failed: false }),
    {
        Task { phase: SenderPhase::Idle, send_failed: false }
    }

    /// Nothing is being sent after a failure.
    pub open spec fn wf(&self) -> bool {
        self.phase is Sending || self.phase is Closing ==> !self.send_failed
    }

    /// The events that can happen: those it waits for.
    pub open spec fn accepts(&self, event: SenderEvent) -> bool {
        match self.phase {
            SenderPhase::Idle => event is Message || event is AllClosed,
            SenderPhase::Sending | SenderPhase::Closing => event is Sent || event is SendFailed,
            SenderPhase::Finished => false,
        }
    }

    /// The sender after an event.
    pub open spec fn after(self, event: SenderEvent) -> Task {
        Task {
            phase: match event {
                SenderEvent::Message(_) => if self.send_failed {
                    SenderPhase::Idle
                } else {
                    SenderPhase::Sending
                },
                SenderEvent::AllClosed => if self.send_failed {
                    SenderPhase::Finished
                } else {
                    SenderPhase::Closing
                },
                SenderEvent::Sent | SenderEvent::SendFailed(_) => if self.phase is Closing {
                    SenderPhase::Finished
                } else {
                    SenderPhase::Idle
                },
            },
            send_failed: self.send_failed || event is SendFailed,
        }
    }

    /// What is to be sent after an event, if anything is.
    pub open spec fn sends(self, event: SenderEvent) -> Option<ClientAction> {
        if self.send_failed {
            None
        } else {
            match event {
                SenderEvent::Message(message) => Some(message),
                SenderEvent::AllClosed => Some(ClientAction::Finished),
                _ => None,
            }
        }
    }

    /// Takes the sender through an event.
    pub fn handle(&mut self, event: SenderEvent) -> (step: SenderStep)
        requires
            old(self).wf(),
            old(self).accepts(event),
        ensures
            final(self).wf(),
            *final(self) == old(self).after(event),
            final(self).send_failed == (old(self).send_failed || event is SendFailed),
            match event {
                SenderEvent::Message(message) => if old(self).send_failed {
                    step is Receive && final(self).phase is Idle
                } else {
                    step == SenderStep::Send(message) && final(self).phase is Sending
                },
                SenderEvent::AllClosed => if old(self).send_failed {
                    step is Stop && final(self).phase is Finished
                } else {
                    step == SenderStep::Send(ClientAction::Finished) && final(self).phase is Closing
                },
                SenderEvent::Sent => if old(self).phase is Closing {
                    step is Stop && final(self).phase is Finished
                } else {
                    step is Receive && final(self).phase is Idle
                },
                SenderEvent::SendFailed(_) => step is Report && if old(self).phase is Closing {
                    final(self).phase is Finished
                } else {
                    final(self).phase is Idle
                },
            },
            match old(self).sends(event) {
                Some(message) => step == SenderStep::Send(message),
                None => match event {
                    SenderEvent::SendFailed(err) => step matches SenderStep::Report(report)
                        && report_messages(report) == seq!["failed to send message to server"@]
                        + report_messages(err),
                    _ => step == if final(self).phase is Finished {
                        SenderStep::Stop
                    } else {
                        SenderStep::Receive
                    },
                },
            },
    {
        match event {
            SenderEvent::Message(message) => {
                if self.send_failed {
                    SenderStep::Receive
                } else {
                    self.phase = SenderPhase::Sending;
                    SenderStep::Send(message)
                }
            },
            SenderEvent::AllClosed => {
                if self.send_failed {
                    self.phase = SenderPhase::Finished;
                    SenderStep::Stop
                } else {
                    self.phase = SenderPhase::Closing;
                    SenderStep::Send(ClientAction::Finished)
                }
            },
            SenderEvent::Sent => self.end_of_sending(Ok(())),
            SenderEvent::SendFailed(err) => self.end_of_sending(
                Err(wrap_report(err, "failed to send message to server".to_owned())),
            ),
        }
    }

    /// Goes on after an error was reported.
    pub fn reported(&self) -> (step: SenderStep)
        ensures
            step == if self.phase is Finished {
                SenderStep::Stop
            } else {
                SenderStep::Receive
            },
    {
        match self.phase {
            SenderPhase::Finished => SenderStep::Stop,
            _ => SenderStep::Receive,
        }
    }

    /// Goes on after a message was sent or could not be.
    fn end_of_sending(&mut self, outcome: Result<(), Report>) -> (step: SenderStep)
        requires
            !old(self).send_failed,
        ensures
            final(self).phase == if old(self).phase is Closing {
                SenderPhase::Finished
            } else {
                SenderPhase::Idle
            },
            final(self).send_failed == (outcome is Err),
            match outcome {
                Ok(_) => step == if final(self).phase is Finished {
                    SenderStep::Stop
                } else {
                    SenderStep::Receive
                },
                Err(err) => step == SenderStep::Report(err),
            },
    {
        let closing: bool = self.phase == SenderPhase::Closing;
        self.phase = if closing {
            SenderPhase::Finished
        } else {
            SenderPhase::Idle
        };
        match do_if_not_failed(&mut self.send_failed, outcome) {
            Some(err) => SenderStep::Report(err),
            None => if closing {
                SenderStep::Stop
            } else {
                SenderStep::Receive
            },
        }
    }
}

/// The sender, with all that was to be sent, and all that was sent or is being sent.
pub struct Log {
    pub task: Task,
    pub queued: Seq<ClientAction>,
    pub sent: Seq<ClientAction>,
}

/// The log after an event. A message that could not be sent is not sent.
pub open spec fn logged(log: Log, event: SenderEvent) -> Log {
    Log {
        task: log.task.after(event),
        queued: match event {
            SenderEvent::Message(message) => log.queued.push(message),
            SenderEvent::AllClosed => log.queued.push(ClientAction::Finished),
            _ => log.queued,
        },
        sent: match log.task.sends(event) {
            Some(message) => log.sent.push(message),
            None => if event is SendFailed {
                log.sent.drop_last()
            } else {
                log.sent
            },
        },
    }
}

/// The log after some events, one after another.
pub open spec fn logged_all(events: Seq<SenderEvent>) -> Log
    decreases events.len(),
{
    if events.len() == 0 {
        Log {
            task: Task { phase: SenderPhase::Idle, send_failed: false },
            queued: Seq::empty(),
            sent: Seq::empty(),
        }
    } else {
        logged(logged_all(events.drop_last()), events.last())
    }
}

/// Whether each of some events can happen when its turn comes.
pub open spec fn all_accepted(events: Seq<SenderEvent>) -> bool
    decreases events.len(),
{
    events.len() > 0 ==> all_accepted(events.drop_last()) && logged_all(
        events.drop_last(),
    ).task.accepts(events.last())
}

/// The server is told the first of all that was to be sent, in order and nothing twice: all of
/// it, with `Finished` at the end, as long as nothing fails.
pub proof fn messages_are_sent_in_order(events: Seq<SenderEvent>)
    requires
        all_accepted(events),
    ensures
        ({
            let log = logged_all(events);
            &&& log.task.wf()
            &&& log.sent.is_prefix_of(log.queued)
            &&& !log.task.send_failed ==> log.sent == log.queued
            &&& log.task.phase is Sending || log.task.phase is Closing ==> log.sent.len() > 0
            &&& log.task.phase is Finished && !log.task.send_failed ==> log.sent.len() > 0
                && log.sent.last() == ClientAction::Finished
            &&& log.task.phase is Closing ==> log.sent.last() == ClientAction::Finished
        }),
    decreases events.len(),
{
    if events.len() > 0 {
        messages_are_sent_in_order(events.drop_last());
        let before = logged_all(events.drop_last());
        let log = logged_all(events);
        assert(before.sent == before.queued.take(before.sent.len() as int));
        assert(log.sent == log.queued.take(log.sent.len() as int));
    }
}

/// Something to send, or that there is nothing more, can come whenever the sender waits for it,
/// also after a failure; and a message that is being sent can be sent or not.
pub proof fn a_sender_takes_what_can_happen(task: Task, message: ClientAction, cause: Report)
    ensures
        task.accepts(SenderEvent::Message(message)) <==> task.phase is Idle,
        task.accepts(SenderEvent::AllClosed) <==> task.phase is Idle,
        task.accepts(SenderEvent::Sent) <==> task.phase is Sending || task.phase is Closing,
        task.accepts(SenderEvent::SendFailed(cause)) <==> task.phase is Sending
            || task.phase is Closing,
        task.phase is Idle || task.phase is Finished || !task.send_failed ==> task.wf(),
{
}

/// After a failure nothing more is sent, but whatever is still to be sent is taken, until all
/// streams are closed; before one each message is sent as it is.
pub proof fn nothing_is_sent_after_a_failure(task: Task, event: SenderEvent)
    requires
        task.wf(),
        task.accepts(event),
    ensures
        task.send_failed ==> task.sends(event) is None,
        !task.send_failed ==> match event {
            SenderEvent::Message(message) => task.sends(event) == Some(message),
            SenderEvent::AllClosed => task.sends(event) == Some(ClientAction::Finished),
            SenderEvent::Sent | SenderEvent::SendFailed(_) => task.sends(event) is None,
        },
        task.after(event).send_failed <==> task.send_failed || event is SendFailed,
{
}

/// The sender finishes only after all streams are closed, whatever failed before, and goes back
/// to wait for something to send after each message.
pub proof fn a_sender_finishes_only_after_all_streams(events: Seq<SenderEvent>)
    requires
        all_accepted(events),
    ensures
        ({
            let phase = logged_all(events).task.phase;
            let closed = exists|i: int| 0 <= i < events.len() && #[trigger] events[i] is AllClosed;
            &&& phase is Closing || phase is Finished <==> closed
            &&& phase is Sending ==> events.len() > 0 && events.last() is Message
            &&& phase is Closing ==> events.len() > 0 && events.last() is AllClosed
        }),
    decreases events.len(),
{
    if events.len() > 0 {
        let front = events.drop_last();
        a_sender_finishes_only_after_all_streams(front);
        messages_are_sent_in_order(front);
        assert(forall|i: int| #![trigger events[i]] 0 <= i < front.len() ==> front[i] == events[i]);
        if exists|i: int| 0 <= i < front.len() && #[trigger] front[i] is AllClosed {
            let i = choose|i: int| 0 <= i < front.len() && #[trigger] front[i] is AllClosed;
            assert(events[i] is AllClosed);
        } else if events.last() is AllClosed {
            assert(events[events.len() - 1] is AllClosed);
        } else {
            assert(forall|i: int| 0 <= i < front.len() ==> !(#[trigger] front[i] is AllClosed));
        }
    }
}

} // verus!
