//! The reading end of a stream that is one of many on a connection.
use crate::protocol::{SinkAction, SourceMessage, StreamAction, StreamId, MAX_STREAM_PACKET_SIZE};
use crate::source::{
    advance, packet_buffer, source_accepts, source_step, ReadFailure, SourceError, SourceEvent,
    SourceOutput, SourcePhase, SourceStep,
};
use vstd::prelude::*;

verus! {

/// What the reading end of a stream has to do next.
#[derive(Clone, PartialEq, Eq)]
pub enum SourceTaskStep {
    /// Send this for the stream.
    Send(StreamId, StreamAction),
    /// Nothing but to go on.
    Wait,
    /// Stop with an error.
    Fail(SourceError),
}

/// A step of a source as a step for a stream: its messages bear the stream's name.
pub open spec fn tagged(id: StreamId, step: SourceTaskStep, output: SourceOutput) -> bool {
    match (step, output) {
        (
            SourceTaskStep::Send(stream, StreamAction::SourceAction(action)),
            SourceOutput::Send(message),
        ) => stream == id && action@ == message,
        (SourceTaskStep::Wait, SourceOutput::Wait) => true,
        (SourceTaskStep::Fail(err), SourceOutput::Fail(expected)) => err == expected,
        _ => false,
    }
}

/// The reading end of a stream. When its reader fails it closes the stream.
pub struct Task {
    pub id: StreamId,
    pub phase: SourcePhase,
    /// What the reader reads into.
    pub buf: Vec<u8>,
}

impl Task {
    pub fn new(id: StreamId) -> (task: Self)
        ensures
            task.id == id,
            task.phase == SourcePhase::Idle,
            task.buf@.len() == MAX_STREAM_PACKET_SIZE,
            task.buf@.len() == 4096,
    {
        Task { id, phase: SourcePhase::Idle, buf: packet_buffer() }
    }

    /// Takes the source through an event.
    pub fn handle(&mut self, event: SourceEvent) -> (step: SourceTaskStep)
        requires
            event.fits(old(self).buf@),
            source_accepts(old(self).phase, event.input(old(self).buf@)),
        ensures
            final(self).id == old(self).id,
            final(self).buf == old(self).buf,
            ({
                let (phase, output) = source_step(
                    ReadFailure::Closes,
                    old(self).phase,
                    event.input(old(self).buf@),
                );
                final(self).phase == phase && tagged(old(self).id, step, output)
            }),
            step matches SourceTaskStep::Send(id, action) ==> id == old(self).id
                && action is SourceAction,
            match event {
                SourceEvent::Read(size) => if size == 0 {
                    step is Send && step->1->SourceAction_0 is SourceClosed && final(self).phase is Finished
                } else {
                    step is Send && step->1->SourceAction_0 is Data
                        && step->1->SourceAction_0->Data_0@ == old(self).buf@.take(size as int)
                        && final(self).phase is Awaiting
                },
                SourceEvent::Reply(SinkAction::Ack) => step is Wait && final(self).phase is Idle,
                SourceEvent::Reply(SinkAction::SinkClosed) | SourceEvent::ReadFailed => step is Send
                    && step->1->SourceAction_0 is SourceClosed && final(self).phase is Finished,
                SourceEvent::NoReply => step == SourceTaskStep::Fail(SourceError::NoReply) && final(self).phase is Finished,
                SourceEvent::SendFailed => step == SourceTaskStep::Fail(SourceError::SendFailed)
                    && final(self).phase is Finished,
            },
    {
        match advance(ReadFailure::Closes, &mut self.phase, &self.buf, event) {
            SourceStep::Send(action) => SourceTaskStep::Send(
                self.id,
                StreamAction::SourceAction(action),
            ),
            SourceStep::Wait => SourceTaskStep::Wait,
            SourceStep::Fail(err) => SourceTaskStep::Fail(err),
        }
    }
}

/// What makes a source stop.
pub fn shutdown() -> (action: SinkAction)
    ensures
        action == SinkAction::SinkClosed,
{
    SinkAction::SinkClosed
}

/// What makes a source stop does stop it, whatever it is doing, and it says so to the other end.
pub proof fn shutdown_stops_a_source(on_failure: ReadFailure, phase: SourcePhase)
    requires
        phase != SourcePhase::Finished,
    ensures
        source_accepts(phase, crate::source::SourceInput::Reply(SinkAction::SinkClosed)),
        source_step(
            on_failure,
            phase,
            crate::source::SourceInput::Reply(SinkAction::SinkClosed),
        ) == (SourcePhase::Finished, SourceOutput::Send(SourceMessage::SourceClosed)),
{
}

/// What a source sends is sent for its own stream, as it is, and as a message of a source; it
/// waits and fails as it would alone.
pub proof fn a_source_speaks_for_its_stream(id: StreamId, step: SourceTaskStep, output: SourceOutput)
    requires
        tagged(id, step, output),
    ensures
        output matches SourceOutput::Send(message) ==> {
            &&& step is Send
            &&& step->Send_0 == id
            &&& step->Send_1 is SourceAction
            &&& step->Send_1->SourceAction_0@ == message
        },
        output is Wait <==> step is Wait,
        output matches SourceOutput::Fail(err) ==> step == SourceTaskStep::Fail(err),
{
}

} // verus!
