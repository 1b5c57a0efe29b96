//! The writing end of a stream: it writes what it is sent and answers each packet.
use crate::protocol::{SinkAction, SourceAction, SourceMessage};
use vstd::prelude::*;

verus! {

/// What a sink is doing.
#[derive(Debug, Clone, Copy, PartialEq, Eq, Structural)]
pub enum SinkPhase {
    /// It waits for the next message.
    Receiving,
    /// It writes a packet.
    Writing,
    /// It has acknowledged the packet and flushes the writer.
    Flushing,
    /// It has nothing more to do.
    Finished,
}

/// How a write or a flush ended.
#[derive(Debug, Clone, Copy, PartialEq, Eq, Structural)]
pub enum IoOutcome {
    Done,
    /// Nobody reads what is written.
    BrokenPipe,
    /// Any other error.
    OtherError,
}

/// What happened to a sink.
#[derive(Clone, PartialEq, Eq)]
pub enum SinkEvent {
    /// The other end sent this.
    Received(SourceAction),
    /// Nothing will come any more.
    SourceGone,
    Written(IoOutcome),
    Flushed(IoOutcome),
    /// The answer that the sink gave last could not be sent.
    ReplyFailed,
}

/// What a sink has to do next, after its answer, where there is one.
#[derive(Clone, PartialEq, Eq)]
pub enum SinkOperation {
    Receive,
    Write(Vec<u8>),
    Flush,
    /// Shut the writer down, whatever comes of it, and stop.
    Shutdown,
    /// Stop with the error of the writer, or of the sending.
    Fail,
}

/// The answer of a sink, and what it has to do next.
#[derive(Clone, PartialEq, Eq)]
pub struct SinkStep {
    pub reply: Option<SinkAction>,
    pub next: SinkOperation,
}

/// What happened to a sink.
pub enum SinkInput {
    Received(SourceMessage),
    SourceGone,
    Written(IoOutcome),
    Flushed(IoOutcome),
    ReplyFailed,
}

/// What a sink has to do next.
pub enum SinkNext {
    Receive,
    Write(Seq<u8>),
    Flush,
    Shutdown,
    Fail,
}

/// The answer of a sink, and what it has to do next.
pub struct SinkOutput {
    pub reply: Option<SinkAction>,
    pub next: SinkNext,
}

/// Where a sink stands.
pub struct SinkState {
    pub phase: SinkPhase,
    /// Nobody reads what it writes.
    pub is_closed: bool,
}

impl View for SinkEvent {
    type V = SinkInput;

    open spec fn view(&self) -> SinkInput {
        match self {
            SinkEvent::Received(action) => SinkInput::Received(action@),
            SinkEvent::SourceGone => SinkInput::SourceGone,
            SinkEvent::Written(outcome) => SinkInput::Written(*outcome),
            SinkEvent::Flushed(outcome) => SinkInput::Flushed(*outcome),
            SinkEvent::ReplyFailed => SinkInput::ReplyFailed,
        }
    }
}

impl View for SinkStep {
    type V = SinkOutput;

    open spec fn view(&self) -> SinkOutput {
        SinkOutput {
            reply: self.reply,
            next: match self.next {
                SinkOperation::Receive => SinkNext::Receive,
                SinkOperation::Write(bytes) => SinkNext::Write(bytes@),
                SinkOperation::Flush => SinkNext::Flush,
                SinkOperation::Shutdown => SinkNext::Shutdown,
                SinkOperation::Fail => SinkNext::Fail,
            },
        }
    }
}

/// A sink that is closed does not write or flush.
pub open spec fn sink_wf(state: SinkState) -> bool {
    state.phase is Writing || state.phase is Flushing ==> !state.is_closed
}

/// The events that can happen to a sink: those it waits for, and that an answer could not be
/// sent, which it gives before it flushes or receives.
pub open spec fn sink_accepts(state: SinkState, input: SinkInput) -> bool {
    match state.phase {
        SinkPhase::Receiving => input is Received || input is SourceGone || input is ReplyFailed,
        SinkPhase::Writing => input is Written,
        SinkPhase::Flushing => input is Flushed || input is ReplyFailed,
        SinkPhase::Finished => false,
    }
}

/// What an event makes of a sink, and what the sink then has to do.
///
/// A packet is acknowledged as soon as it is written. Once the pipe is broken the sink is closed,
/// writes nothing more, and tells so in answer to this packet and to each that follows.
pub open spec fn sink_step(state: SinkState, input: SinkInput) -> (SinkState, SinkOutput) {
    let stop = SinkState { phase: SinkPhase::Finished, is_closed: state.is_closed };
    let closed = (
        SinkState { phase: SinkPhase::Receiving, is_closed: true },
        SinkOutput { reply: Some(SinkAction::SinkClosed), next: SinkNext::Receive },
    );
    match input {
        SinkInput::Received(SourceMessage::Data(bytes)) => if state.is_closed {
            closed
        } else {
            (
                SinkState { phase: SinkPhase::Writing, is_closed: false },
                SinkOutput { reply: None, next: SinkNext::Write(bytes) },
            )
        },
        SinkInput::Received(SourceMessage::SourceClosed) | SinkInput::SourceGone => (
            stop,
            SinkOutput { reply: None, next: SinkNext::Shutdown },
        ),
        SinkInput::Written(IoOutcome::Done) => (
            SinkState { phase: SinkPhase::Flushing, is_closed: false },
            SinkOutput { reply: Some(SinkAction::Ack), next: SinkNext::Flush },
        ),
        SinkInput::Flushed(IoOutcome::Done) => (
            SinkState { phase: SinkPhase::Receiving, is_closed: false },
            SinkOutput { reply: None, next: SinkNext::Receive },
        ),
        SinkInput::Written(IoOutcome::BrokenPipe) | SinkInput::Flushed(IoOutcome::BrokenPipe) => {
            closed
        },
        SinkInput::Written(IoOutcome::OtherError)
        | SinkInput::Flushed(IoOutcome::OtherError)
        | SinkInput::ReplyFailed => (stop, SinkOutput { reply: None, next: SinkNext::Fail }),
    }
}

/// Takes the outcome of a write or a flush: a broken pipe closes the sink and is no error, any
/// other error is one. A sink that is closed already does neither, so no outcome changes it.
pub fn do_if_not_closed(is_closed: &mut bool, outcome: IoOutcome) -> (ok: bool)
    ensures
        *final(is_closed) == (*old(is_closed) || outcome is BrokenPipe),
        ok == (*old(is_closed) || !(outcome is OtherError)),
{
    if *is_closed {
        return true;
    }
    match outcome {
        IoOutcome::Done => true,
        IoOutcome::BrokenPipe => {
            *is_closed = true;
            true
        },
        IoOutcome::OtherError => false,
    }
}

/// The writing end of a stream.
pub struct Sink {
    pub phase: SinkPhase,
    pub is_closed: bool,
}

impl View for Sink {
    type V = SinkState;

    open spec fn view(&self) -> SinkState {
        SinkState { phase: self.phase, is_closed: self.is_closed }
    }
}

impl Sink {
    pub fn new() -> (sink: Self)
        ensures
            sink@ == (SinkState { phase: SinkPhase::Receiving, is_closed: false }),
            sink_wf(sink@),
    {
        Sink { phase: SinkPhase::Receiving, is_closed: false }
    }

    /// Takes the sink through an event.
    pub fn handle(&mut self, event: SinkEvent) -> (step: SinkStep)
        requires
            sink_wf(old(self)@),
            sink_accepts(old(self)@, event@),
        ensures
            sink_wf(final(self)@),
            (final(self)@, step@) == sink_step(old(self)@, event@),
            match event {
                SinkEvent::Received(SourceAction::Data(bytes)) => if old(self).is_closed {
                    step.reply == Some(SinkAction::SinkClosed) && step.next is Receive && final(self).phase is Receiving && final(self).is_closed
                } else {
                    step.reply is None && step.next is Write && step.next->Write_0@ == bytes@
                        && final(self).phase is Writing && !final(self).is_closed
                },
                SinkEvent::Received(SourceAction::SourceClosed) | SinkEvent::SourceGone => {
                    step.reply is None && step.next is Shutdown && final(self).phase is Finished
                        && final(self).is_closed == old(self).is_closed
                },
                SinkEvent::Written(IoOutcome::Done) => step.reply == Some(SinkAction::Ack)
                    && step.next is Flush && final(self).phase is Flushing && !final(self).is_closed,
                SinkEvent::Flushed(IoOutcome::Done) => step.reply is None && step.next is Receive
                    && final(self).phase is Receiving && !final(self).is_closed,
                SinkEvent::Written(IoOutcome::BrokenPipe)
                | SinkEvent::Flushed(IoOutcome::BrokenPipe) => step.reply == Some(
                    SinkAction::SinkClosed,
                ) && step.next is Receive && final(self).phase is Receiving && final(self).is_closed,
                SinkEvent::Written(IoOutcome::OtherError)
                | SinkEvent::Flushed(IoOutcome::OtherError)
                | SinkEvent::ReplyFailed => step.reply is None && step.next is Fail && final(self).phase is Finished && final(self).is_closed == old(self).is_closed,
            },
    {
        match event {
            SinkEvent::Received(SourceAction::Data(bytes)) => {
                if self.is_closed {
                    SinkStep { reply: Some(SinkAction::SinkClosed), next: SinkOperation::Receive }
                } else {
                    self.phase = SinkPhase::Writing;
                    SinkStep { reply: None, next: SinkOperation::Write(bytes) }
                }
            },
            SinkEvent::Received(SourceAction::SourceClosed) | SinkEvent::SourceGone => {
                self.phase = SinkPhase::Finished;
                SinkStep { reply: None, next: SinkOperation::Shutdown }
            },
            SinkEvent::Written(outcome) => {
                if !do_if_not_closed(&mut self.is_closed, outcome) {
                    self.phase = SinkPhase::Finished;
                    SinkStep { reply: None, next: SinkOperation::Fail }
                } else if self.is_closed {
                    self.phase = SinkPhase::Receiving;
                    SinkStep { reply: Some(SinkAction::SinkClosed), next: SinkOperation::Receive }
                } else {
                    self.phase = SinkPhase::Flushing;
                    SinkStep { reply: Some(SinkAction::Ack), next: SinkOperation::Flush }
                }
            },
            SinkEvent::Flushed(outcome) => {
                let ok: bool = do_if_not_closed(&mut self.is_closed, outcome);
                if !ok {
                    self.phase = SinkPhase::Finished;
                    SinkStep { reply: None, next: SinkOperation::Fail }
                } else {
                    self.phase = SinkPhase::Receiving;
                    let reply: Option<SinkAction> = if self.is_closed {
                        Some(SinkAction::SinkClosed)
                    } else {
                        None
                    };
                    SinkStep { reply, next: SinkOperation::Receive }
                }
            },
            SinkEvent::ReplyFailed => {
                self.phase = SinkPhase::Finished;
                SinkStep { reply: None, next: SinkOperation::Fail }
            },
        }
    }
}

/// A sink can take what comes of what it does: a message, or that none comes any more, while it
/// receives, and the end of a write or a flush, however it ends, while it writes or flushes. An
/// answer can be lost while it receives or flushes.
pub proof fn a_sink_takes_what_can_happen(
    state: SinkState,
    message: SourceMessage,
    outcome: IoOutcome,
)
    ensures
        sink_accepts(state, SinkInput::Received(message)) == (state.phase is Receiving),
        sink_accepts(state, SinkInput::SourceGone) == (state.phase is Receiving),
        sink_accepts(state, SinkInput::Written(outcome)) == (state.phase is Writing),
        sink_accepts(state, SinkInput::Flushed(outcome)) == (state.phase is Flushing),
        sink_accepts(state, SinkInput::ReplyFailed) == (state.phase is Receiving
            || state.phase is Flushing),
        !state.is_closed || state.phase is Receiving || state.phase is Finished ==> sink_wf(state),
{
}

/// A packet is acknowledged exactly when it has been written. That the sink is closed is told
/// when the pipe breaks, and in answer to each packet after that; and nothing else is told.
pub proof fn a_sink_answers_what_became_of_a_packet(state: SinkState, input: SinkInput)
    requires
        sink_wf(state),
        sink_accepts(state, input),
    ensures
        ({
            let (next, output) = sink_step(state, input);
            let breaks = input == SinkInput::Written(IoOutcome::BrokenPipe) || input
                == SinkInput::Flushed(IoOutcome::BrokenPipe);
            let packet = input matches SinkInput::Received(message) && message is Data;
            &&& output.reply == Some(SinkAction::Ack) <==> input == SinkInput::Written(
                IoOutcome::Done,
            )
            &&& output.reply == Some(SinkAction::SinkClosed) <==> (breaks || (packet
                && state.is_closed))
            &&& next.is_closed == (state.is_closed || breaks)
        }),
{
}

/// An open sink writes each packet as it came, flushes after each write, and receives after each
/// flush. A closed one writes nothing, and only receives.
pub proof fn a_sink_writes_each_packet_as_it_came(state: SinkState, input: SinkInput)
    requires
        sink_wf(state),
        sink_accepts(state, input),
    ensures
        ({
            let (next, output) = sink_step(state, input);
            &&& output.next matches SinkNext::Write(bytes) ==> input == SinkInput::Received(
                SourceMessage::Data(bytes),
            ) && !state.is_closed
            &&& input matches SinkInput::Received(SourceMessage::Data(bytes)) ==> (output.next
                == SinkNext::Write(bytes) <==> !state.is_closed)
            &&& output.next is Flush <==> input == SinkInput::Written(IoOutcome::Done)
            &&& next.is_closed && !(next.phase is Finished) ==> output.next is Receive
        }),
{
}

/// A sink goes on until the source is closed or gone, when it shuts the writer down, or until
/// the writer or the sending of an answer fails, when it stops with the error. What it does next
/// is what it then waits for.
pub proof fn a_sink_ends_only_for_a_reason(state: SinkState, input: SinkInput)
    requires
        sink_wf(state),
        sink_accepts(state, input),
    ensures
        ({
            let (next, output) = sink_step(state, input);
            &&& output.next is Shutdown <==> (input == SinkInput::Received(
                SourceMessage::SourceClosed,
            ) || input is SourceGone)
            &&& output.next is Fail <==> (input is ReplyFailed || input == SinkInput::Written(
                IoOutcome::OtherError,
            ) || input == SinkInput::Flushed(IoOutcome::OtherError))
            &&& next.phase is Finished <==> (output.next is Shutdown || output.next is Fail)
            &&& next.phase is Receiving <==> output.next is Receive
            &&& next.phase is Writing <==> output.next is Write
            &&& next.phase is Flushing <==> output.next is Flush
            &&& sink_wf(next)
        }),
{
}

/// An event stands for itself, with the bytes of a packet, and a step for its answer and what it
/// has the sink do.
pub proof fn events_and_steps_stand_for_themselves(event: SinkEvent, step: SinkStep)
    ensures
        event matches SinkEvent::Received(action) ==> event@ == SinkInput::Received(action@),
        event matches SinkEvent::Written(outcome) ==> event@ == SinkInput::Written(outcome),
        event matches SinkEvent::Flushed(outcome) ==> event@ == SinkInput::Flushed(outcome),
        event is SourceGone <==> event@ is SourceGone,
        event is ReplyFailed <==> event@ is ReplyFailed,
        step@.reply == step.reply,
        step.next matches SinkOperation::Write(bytes) ==> step@.next == SinkNext::Write(bytes@),
        step.next is Receive <==> step@.next is Receive,
        step.next is Flush <==> step@.next is Flush,
        step.next is Shutdown <==> step@.next is Shutdown,
        step.next is Fail <==> step@.next is Fail,
{
}

} // verus!
