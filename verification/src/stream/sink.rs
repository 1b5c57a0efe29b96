//! The writing end of a stream that is one of many on a connection.
use crate::protocol::{SinkAction, SourceAction, SourceMessage, StreamAction, StreamId};
use crate::sink::{
    sink_accepts, sink_step, sink_wf, IoOutcome, Sink, SinkEvent, SinkInput, SinkNext, SinkOperation,
    SinkOutput, SinkPhase, SinkState, SinkStep,
};
use vstd::prelude::*;

verus! {

/// The answer of the writing end of a stream, and what it has to do next.
#[derive(Clone, PartialEq, Eq)]
pub struct SinkTaskStep {
    pub reply: Option<(StreamId, StreamAction)>,
    pub next: SinkOperation,
}

/// A step of a sink as a step for a stream: its answer bears the stream's name.
pub open spec fn tagged(id: StreamId, step: SinkTaskStep, output: SinkOutput) -> bool {
    let reply = match step.reply {
        Some((stream, StreamAction::SinkAction(action))) => if stream == id {
            Some(action)
        } else {
            None
        },
        _ => None,
    };
    &&& step.reply is Some <==> output.reply is Some
    &&& (SinkStep { reply, next: step.next })@ == output
}

/// The writing end of a stream.
pub struct Task {
    pub id: StreamId,
    pub sink: Sink,
}

impl Task {
    pub fn new(id: StreamId) -> (task: Self)
        ensures
            task.id == id,
            task.sink@ == (SinkState { phase: SinkPhase::Receiving, is_closed: false }),
            sink_wf(task.sink@),
    {
        Task { id, sink: Sink::new() }
    }

    /// Takes the sink through an event.
    pub fn handle(&mut self, event: SinkEvent) -> (step: SinkTaskStep)
        requires
            sink_wf(old(self).sink@),
            sink_accepts(old(self).sink@, event@),
        ensures
            sink_wf(final(self).sink@),
            final(self).id == old(self).id,
            final(self).sink@ == sink_step(old(self).sink@, event@).0,
            tagged(old(self).id, step, sink_step(old(self).sink@, event@).1),
            match event {
                SinkEvent::Received(SourceAction::Data(bytes)) if !old(self).sink.is_closed => {
                    step.reply is None && step.next is Write && step.next->Write_0@ == bytes@
                },
                SinkEvent::Received(SourceAction::SourceClosed) | SinkEvent::SourceGone => {
                    step.reply is None && step.next is Shutdown
                },
                SinkEvent::Written(IoOutcome::Done) => step.reply == Some(
                    (old(self).id, StreamAction::SinkAction(SinkAction::Ack)),
                ) && step.next is Flush,
                SinkEvent::Flushed(IoOutcome::Done) => step.reply is None && step.next is Receive,
                SinkEvent::Received(_)
                | SinkEvent::Written(IoOutcome::BrokenPipe)
                | SinkEvent::Flushed(IoOutcome::BrokenPipe) => step.reply == Some(
                    (old(self).id, StreamAction::SinkAction(SinkAction::SinkClosed)),
                ) && step.next is Receive,
                _ => step.reply is None && step.next is Fail,
            },
    {
        let step: SinkStep = self.sink.handle(event);
        let reply: Option<(StreamId, StreamAction)> = match step.reply {
            Some(action) => Some((self.id, StreamAction::SinkAction(action))),
            None => None,
        };
        SinkTaskStep { reply, next: step.next }
    }
}

/// What makes a sink stop.
pub fn shutdown() -> (action: SourceAction)
    ensures
        action == SourceAction::SourceClosed,
{
    SourceAction::SourceClosed
}

/// What makes a sink stop does stop it, as soon as it comes to receive it.
pub proof fn shutdown_stops_a_sink(state: SinkState)
    requires
        state.phase == SinkPhase::Receiving,
    ensures
        sink_step(state, SinkInput::Received(SourceMessage::SourceClosed)).0.phase
            == SinkPhase::Finished,
        sink_step(state, SinkInput::Received(SourceMessage::SourceClosed)).1 == (SinkOutput {
            reply: None::<SinkAction>,
            next: SinkNext::Shutdown,
        }),
{
}

/// What a sink answers is answered for its own stream, as it is, and as a message of a sink; and
/// it goes on as it would alone.
pub proof fn a_sink_speaks_for_its_stream(id: StreamId, step: SinkTaskStep, output: SinkOutput)
    requires
        tagged(id, step, output),
    ensures
        output.reply matches Some(action) ==> step.reply == Some(
            (id, StreamAction::SinkAction(action)),
        ),
        output.reply is None ==> step.reply is None,
        output.next matches SinkNext::Write(bytes) ==> step.next is Write && step.next->Write_0@
            == bytes,
        output.next is Receive <==> step.next is Receive,
        output.next is Flush <==> step.next is Flush,
        output.next is Shutdown <==> step.next is Shutdown,
        output.next is Fail <==> step.next is Fail,
{
}

} // verus!
