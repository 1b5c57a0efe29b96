//! What the server tells the client.
use crate::error::{report_messages, wrap_report};
use crate::protocol::ServerAction;
use color_eyre::eyre::Report;
use vstd::prelude::*;
use vstd::string::*;

verus! {

/// What the sender is doing.
#[derive(Debug, Clone, Copy, PartialEq, Eq, Structural)]
pub enum SenderPhase {
    /// It waits for something to send.
    Idle,
    /// It sends.
    Sending,
    /// All streams are closed, and it waits for the receiver to finish.
    Waiting,
    /// It sends its last message.
    Closing,
    Finished,
}

/// What happened to the sender.
pub enum SenderEvent {
    /// This is to be sent.
    Message(ServerAction),
    /// All streams are closed, and nothing more is to be sent.
    AllClosed,
    /// The receiver has finished.
    ReceiverFinished,
    /// It has been sent.
    Sent,
    /// It could not be sent, for this reason.
    SendFailed(Report),
}

/// What the sender has to do next.
pub enum SenderStep {
    /// Wait for something to send.
    Receive,
    /// Wait for the receiver to finish.
    AwaitReceiver,
    Send(ServerAction),
    Stop,
    /// Stop with an error.
    Fail(Report),
}

/// The sender of the server.
pub struct Task {
    pub phase: SenderPhase,
}

impl Task {
    pub fn new() -> (task: Self)
        ensures
            task == (Task { phase: SenderPhase::Idle }),
    {
        Task { phase: SenderPhase::Idle }
    }

    /// The events that can happen: those it waits for.
    pub open spec fn accepts(&self, event: SenderEvent) -> bool {
        match self.phase {
            SenderPhase::Idle => event is Message || event is AllClosed,
            SenderPhase::Waiting => event is ReceiverFinished,
            SenderPhase::Sending | SenderPhase::Closing => event is Sent || event is SendFailed,
            SenderPhase::Finished => false,
        }
    }

    /// The sender after an event.
    pub open spec fn after(self, event: SenderEvent) -> Task {
        Task {
            phase: match event {
                SenderEvent::Message(_) => SenderPhase::Sending,
                SenderEvent::AllClosed => SenderPhase::Waiting,
                SenderEvent::ReceiverFinished => SenderPhase::Closing,
                SenderEvent::Sent => if self.phase is Closing {
                    SenderPhase::Finished
                } else {
                    SenderPhase::Idle
                },
                SenderEvent::SendFailed(_) => SenderPhase::Finished,
            },
        }
    }

    /// Takes the sender through an event.
    pub fn handle(&mut self, event: SenderEvent) -> (step: SenderStep)
        requires
            old(self).accepts(event),
        ensures
            *final(self) == old(self).after(event),
            match step {
                SenderStep::Receive => final(self).phase is Idle,
                SenderStep::AwaitReceiver => final(self).phase is Waiting,
                SenderStep::Send(_) => if event is Message {
                    final(self).phase is Sending
                } else {
                    final(self).phase is Closing
                },
                SenderStep::Stop | SenderStep::Fail(_) => final(self).phase is Finished,
            },
            match event {
                SenderEvent::Message(message) => step == SenderStep::Send(message),
                SenderEvent::AllClosed => step == SenderStep::AwaitReceiver,
                SenderEvent::ReceiverFinished => step == SenderStep::Send(ServerAction::Finished),
                SenderEvent::Sent => step == if old(self).phase is Closing {
                    SenderStep::Stop
                } else {
                    SenderStep::Receive
                },
                SenderEvent::SendFailed(cause) => step matches SenderStep::Fail(err)
                    && report_messages(err) == seq!["failed to send message"@] + report_messages(
                    cause,
                ),
            },
    {
        match event {
            SenderEvent::Message(message) => {
                self.phase = SenderPhase::Sending;
                SenderStep::Send(message)
            },
            SenderEvent::AllClosed => {
                self.phase = SenderPhase::Waiting;
                SenderStep::AwaitReceiver
            },
            SenderEvent::ReceiverFinished => {
                self.phase = SenderPhase::Closing;
                SenderStep::Send(ServerAction::Finished)
            },
            SenderEvent::Sent => {
                if self.phase == SenderPhase::Closing {
                    self.phase = SenderPhase::Finished;
                    SenderStep::Stop
                } else {
                    self.phase = SenderPhase::Idle;
                    SenderStep::Receive
                }
            },
            SenderEvent::SendFailed(cause) => {
                self.phase = SenderPhase::Finished;
                SenderStep::Fail(wrap_report(cause, "failed to send message".to_owned()))
            },
        }
    }
}

/// The sender, with all that it was told to send, and all that it sent or is sending.
pub struct Log {
    pub task: Task,
    pub queued: Seq<ServerAction>,
    pub sent: Seq<ServerAction>,
    pub receiver_finished: bool,
}

/// The log after an event. A message that could not be sent is not sent.
pub open spec fn logged(log: Log, event: SenderEvent) -> Log {
    Log {
        task: log.task.after(event),
        queued: match event {
            SenderEvent::Message(message) => log.queued.push(message),
            _ => log.queued,
        },
        sent: match event {
            SenderEvent::Message(message) => log.sent.push(message),
            SenderEvent::ReceiverFinished => log.sent.push(ServerAction::Finished),
            SenderEvent::SendFailed(_) => log.sent.drop_last(),
            _ => log.sent,
        },
        receiver_finished: log.receiver_finished || event is ReceiverFinished,
    }
}

/// The log after some events, one after another.
pub open spec fn logged_all(events: Seq<SenderEvent>) -> Log
    decreases events.len(),
{
    if events.len() == 0 {
        Log {
            task: Task { phase: SenderPhase::Idle },
            queued: Seq::empty(),
            sent: Seq::empty(),
            receiver_finished: false,
        }
    } else {
        logged(logged_all(events.drop_last()), events.last())
    }
}

/// Whether each of some events can happen when its turn comes.
pub open spec fn all_accepted(events: Seq<SenderEvent>) -> bool
    decreases events.len(),
{
    events.len() > 0 ==> all_accepted(events.drop_last()) && logged_all(
        events.drop_last(),
    ).task.accepts(events.last())
}

/// Whether everything that was to be sent so far could be.
pub open spec fn nothing_failed(events: Seq<SenderEvent>) -> bool {
    forall|i: int| 0 <= i < events.len() ==> !((#[trigger] events[i]) is SendFailed)
}

proof fn lemma_log(events: Seq<SenderEvent>)
    requires
        all_accepted(events),
    ensures
        ({
            let log = logged_all(events);
            let phase = log.task.phase;
            &&& phase is Idle || phase is Sending || phase is Waiting ==> log.sent == log.queued
                && !log.receiver_finished
            &&& phase is Sending ==> log.sent.len() > 0
            &&& phase is Closing ==> log.sent == log.queued.push(ServerAction::Finished)
                && log.receiver_finished
            &&& phase is Finished && nothing_failed(events) ==> log.sent == log.queued.push(
                ServerAction::Finished,
            ) && log.receiver_finished
            &&& !nothing_failed(events) ==> phase is Finished && log.sent.is_prefix_of(log.queued)
        }),
    decreases events.len(),
{
    if events.len() > 0 {
        lemma_log(events.drop_last());
        let before = logged_all(events.drop_last());
        let log = logged_all(events);
        assert(nothing_failed(events) <==> nothing_failed(events.drop_last()) && !(
        events.last() is SendFailed)) by {
            assert(forall|i: int|
                #![trigger events[i]]
                #![trigger events.drop_last()[i]]
                0 <= i < events.len() - 1 ==> events.drop_last()[i] == events[i]);
        }
        if events.last() is SendFailed {
            if before.task.phase is Closing {
                assert(log.sent == log.queued);
            } else {
                assert(log.sent == log.queued.drop_last());
            }
            assert(log.sent == log.queued.take(log.sent.len() as int));
        }
    }
}

/// The client is told the first of all that was to be sent, in order and nothing twice; and that
/// the server has finished only after all of it, once the receiver has finished too. A sender
/// that finishes has told all of this, unless something could not be sent: then it finishes at
/// once, and has told only the first of what was to be sent.
pub proof fn messages_are_sent_in_order(events: Seq<SenderEvent>)
    requires
        all_accepted(events),
    ensures
        ({
            let log = logged_all(events);
            ||| log.sent.is_prefix_of(log.queued)
            ||| log.sent == log.queued.push(ServerAction::Finished) && log.receiver_finished
        }),
        !(logged_all(events).task.phase is Finished) ==> logged_all(events).queued.is_prefix_of(
            logged_all(events).sent,
        ),
        nothing_failed(events) && logged_all(events).task.phase is Finished ==> ({
            let log = logged_all(events);
            log.sent == log.queued.push(ServerAction::Finished) && log.receiver_finished
        }),
        !nothing_failed(events) ==> logged_all(events).task.phase is Finished && logged_all(
            events,
        ).sent.is_prefix_of(logged_all(events).queued),
{
    lemma_log(events);
    let log = logged_all(events);
    assert(log.queued == log.queued.take(log.queued.len() as int));
    assert(log.queued.push(ServerAction::Finished).take(log.queued.len() as int) == log.queued);
}

/// Something to send, or that there is nothing more, can come whenever the sender waits for it;
/// a message that is being sent can be sent or not; and the receiver can finish while the sender
/// waits for that.
pub proof fn a_sender_takes_what_can_happen(task: Task, message: ServerAction, cause: Report)
    ensures
        task.accepts(SenderEvent::Message(message)) <==> task.phase is Idle,
        task.accepts(SenderEvent::AllClosed) <==> task.phase is Idle,
        task.accepts(SenderEvent::ReceiverFinished) <==> task.phase is Waiting,
        task.accepts(SenderEvent::Sent) <==> task.phase is Sending || task.phase is Closing,
        task.accepts(SenderEvent::SendFailed(cause)) <==> task.phase is Sending
            || task.phase is Closing,
{
}

/// After a message has been sent the sender takes the next one, of whatever kind, or that there
/// is none; then it waits for the receiver, and after that it can send its last message.
pub proof fn a_sender_sends_message_after_message(
    task: Task,
    first: ServerAction,
    second: ServerAction,
)
    requires
        task.phase is Idle,
    ensures
        ({
            let sending = task.after(SenderEvent::Message(first));
            let sent = sending.after(SenderEvent::Sent);
            let waiting = task.after(SenderEvent::AllClosed);
            let closing = waiting.after(SenderEvent::ReceiverFinished);
            &&& sending.accepts(SenderEvent::Sent)
            &&& sent.accepts(SenderEvent::Message(second))
            &&& sent.accepts(SenderEvent::AllClosed)
            &&& waiting.accepts(SenderEvent::ReceiverFinished)
            &&& closing.accepts(SenderEvent::Sent)
            &&& closing.after(SenderEvent::Sent).phase is Finished
        }),
{
}

} // verus!
