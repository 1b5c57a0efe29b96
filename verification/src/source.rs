//! The reading end of a stream: it sends what it reads, one packet at a time, and waits for the
//! other end to take each packet before it reads the next.
use crate::error::{new_report, report_messages, wrap_report};
use crate::protocol::{SinkAction, SourceAction, SourceMessage, MAX_STREAM_PACKET_SIZE};
use color_eyre::eyre::Report;
use vstd::prelude::*;
use vstd::string::*;

verus! {

/// What a source is doing.
#[derive(Debug, Clone, Copy, PartialEq, Eq, Structural)]
pub enum SourcePhase {
    /// It reads, and listens for the other end to close.
    Idle,
    /// It has sent a packet and waits for the answer.
    Awaiting,
    /// It has nothing more to do.
    Finished,
}

/// What a source does when its reader fails.
#[derive(Debug, Clone, Copy, PartialEq, Eq, Structural)]
pub enum ReadFailure {
    /// It fails with the reader.
    Fails,
    /// It closes the stream, as at the end of the input.
    Closes,
}

/// What happened to a source.
#[derive(Debug, Clone, Copy, PartialEq, Eq)]
pub enum SourceEvent {
    /// A read brought this many bytes into the buffer; at the end of the input it brings none.
    Read(usize),
    /// A read failed.
    ReadFailed,
    /// The other end answered.
    Reply(SinkAction),
    /// No answer will come any more.
    NoReply,
    /// What the source had to send last could not be sent.
    SendFailed,
}

/// What a source has to do next.
#[derive(Clone, PartialEq, Eq)]
pub enum SourceStep {
    /// Send this. It is the last message if the source is finished then.
    Send(SourceAction),
    /// Nothing but to go on.
    Wait,
    /// Stop with an error.
    Fail(SourceError),
}

/// Why a source stops.
#[derive(Debug, Clone, Copy, PartialEq, Eq, Structural)]
pub enum SourceError {
    /// The reader failed.
    ReadFailed,
    /// No answer can come from the other end.
    NoReply,
    /// A message could not be sent.
    SendFailed,
}

impl SourceError {
    /// What the error tells the user.
    pub open spec fn text(&self) -> Seq<char> {
        match self {
            SourceError::ReadFailed | SourceError::NoReply => "failed to receive message"@,
            SourceError::SendFailed => "failed to send message"@,
        }
    }

    /// What the error tells the user.
    pub fn message(&self) -> (text: String)
        ensures
            text@ == self.text(),
    {
        match self {
            SourceError::ReadFailed | SourceError::NoReply => {
                "failed to receive message".to_owned()
            },
            SourceError::SendFailed => "failed to send message".to_owned(),
        }
    }

    /// The error as a report, in front of the failure that it comes of, where there is one: that
    /// of the reader, or of the sending.
    pub fn report(&self, cause: Option<Report>) -> (err: Report)
        ensures
            report_messages(err) == seq![self.text()] + match cause {
                Some(cause) => report_messages(cause),
                None => Seq::empty(),
            },
    {
        match cause {
            Some(cause) => wrap_report(cause, self.message()),
            None => {
                let err: Report = new_report(self.message());
                assert(report_messages(err) == seq![self.text()] + Seq::empty());
                err
            },
        }
    }
}

/// What happened to a source, with the bytes that a read brought.
pub enum SourceInput {
    Read(Seq<u8>),
    ReadFailed,
    Reply(SinkAction),
    NoReply,
    SendFailed,
}

/// What a source has to do next.
pub enum SourceOutput {
    Send(SourceMessage),
    Wait,
    Fail(SourceError),
}

impl SourceEvent {
    /// The event with the bytes that it brought into the buffer.
    pub open spec fn input(self, buf: Seq<u8>) -> SourceInput {
        match self {
            SourceEvent::Read(size) => SourceInput::Read(buf.take(size as int)),
            SourceEvent::ReadFailed => SourceInput::ReadFailed,
            SourceEvent::Reply(action) => SourceInput::Reply(action),
            SourceEvent::NoReply => SourceInput::NoReply,
            SourceEvent::SendFailed => SourceInput::SendFailed,
        }
    }

    /// A read cannot bring more than the buffer holds.
    pub open spec fn fits(self, buf: Seq<u8>) -> bool {
        self matches SourceEvent::Read(size) ==> size <= buf.len()
    }
}

impl View for SourceStep {
    type V = SourceOutput;

    open spec fn view(&self) -> SourceOutput {
        match self {
            SourceStep::Send(action) => SourceOutput::Send(action@),
            SourceStep::Wait => SourceOutput::Wait,
            SourceStep::Fail(err) => SourceOutput::Fail(*err),
        }
    }
}

/// The events that can happen to a source. It reads only while it is idle, and no packet is
/// acknowledged then, for none is on its way. It sends before it waits for an answer, and before
/// it is finished.
pub open spec fn source_accepts(phase: SourcePhase, input: SourceInput) -> bool {
    match phase {
        SourcePhase::Idle => input != SourceInput::Reply(SinkAction::Ack) && !(
        input is SendFailed),
        SourcePhase::Awaiting => input is Reply || input is NoReply || input is SendFailed,
        SourcePhase::Finished => input is SendFailed,
    }
}

/// What an event makes of a source, and what the source then has to do.
pub open spec fn source_step(
    on_failure: ReadFailure,
    phase: SourcePhase,
    input: SourceInput,
) -> (SourcePhase, SourceOutput) {
    let close = (SourcePhase::Finished, SourceOutput::Send(SourceMessage::SourceClosed));
    match input {
        SourceInput::Read(bytes) => if bytes.len() == 0 {
            close
        } else {
            (SourcePhase::Awaiting, SourceOutput::Send(SourceMessage::Data(bytes)))
        },
        SourceInput::ReadFailed => match on_failure {
            ReadFailure::Fails => (
                SourcePhase::Finished,
                SourceOutput::Fail(SourceError::ReadFailed),
            ),
            ReadFailure::Closes => close,
        },
        SourceInput::Reply(SinkAction::Ack) => (SourcePhase::Idle, SourceOutput::Wait),
        SourceInput::Reply(SinkAction::SinkClosed) => close,
        SourceInput::NoReply => (SourcePhase::Finished, SourceOutput::Fail(SourceError::NoReply)),
        SourceInput::SendFailed => (
            SourcePhase::Finished,
            SourceOutput::Fail(SourceError::SendFailed),
        ),
    }
}

/// Copies the first bytes of a buffer.
fn first_bytes(buf: &Vec<u8>, size: usize) -> (bytes: Vec<u8>)
    requires
        size <= buf@.len(),
    ensures
        bytes@ == buf@.take(size as int),
{
    let mut bytes: Vec<u8> = Vec::new();
    for i in 0..size
        invariant
            size <= buf@.len(),
            bytes@ == buf@.take(i as int),
    {
        bytes.push(buf[i]);
        assert(bytes@ == buf@.take(i + 1));
    }
    bytes
}

/// Takes a source through an event.
pub(crate) fn advance(
    on_failure: ReadFailure,
    phase: &mut SourcePhase,
    buf: &Vec<u8>,
    event: SourceEvent,
) -> (step: SourceStep)
    requires
        event.fits(buf@),
        source_accepts(*old(phase), event.input(buf@)),
    ensures
        (*final(phase), step@) == source_step(on_failure, *old(phase), event.input(buf@)),
{
    match event {
        SourceEvent::Read(size) => {
            if size == 0 {
                *phase = SourcePhase::Finished;
                SourceStep::Send(SourceAction::SourceClosed)
            } else {
                *phase = SourcePhase::Awaiting;
                SourceStep::Send(SourceAction::Data(first_bytes(buf, size)))
            }
        },
        SourceEvent::ReadFailed => {
            *phase = SourcePhase::Finished;
            match on_failure {
                ReadFailure::Fails => SourceStep::Fail(SourceError::ReadFailed),
                ReadFailure::Closes => SourceStep::Send(SourceAction::SourceClosed),
            }
        },
        SourceEvent::Reply(SinkAction::Ack) => {
            *phase = SourcePhase::Idle;
            SourceStep::Wait
        },
        SourceEvent::Reply(SinkAction::SinkClosed) => {
            *phase = SourcePhase::Finished;
            SourceStep::Send(SourceAction::SourceClosed)
        },
        SourceEvent::NoReply => {
            *phase = SourcePhase::Finished;
            SourceStep::Fail(SourceError::NoReply)
        },
        SourceEvent::SendFailed => {
            *phase = SourcePhase::Finished;
            SourceStep::Fail(SourceError::SendFailed)
        },
    }
}

/// A buffer for one packet.
pub(crate) fn packet_buffer() -> (buf: Vec<u8>)
    ensures
        buf@.len() == MAX_STREAM_PACKET_SIZE,
        buf@.len() == 4096,
{
    vec![0; MAX_STREAM_PACKET_SIZE]
}

/// A source that fails when its reader does, and that relies on the other end to answer as long
/// as it runs.
pub struct Source {
    pub phase: SourcePhase,
    /// What the reader reads into.
    pub buf: Vec<u8>,
}

impl Source {
    pub fn new() -> (source: Self)
        ensures
            source.phase == SourcePhase::Idle,
            source.buf@.len() == MAX_STREAM_PACKET_SIZE,
            source.buf@.len() == 4096,
    {
        Source { phase: SourcePhase::Idle, buf: packet_buffer() }
    }

    /// Takes the source through an event.
    pub fn handle(&mut self, event: SourceEvent) -> (step: SourceStep)
        requires
            event.fits(old(self).buf@),
            source_accepts(old(self).phase, event.input(old(self).buf@)),
            !(event is NoReply),
        ensures
            (final(self).phase, step@) == source_step(
                ReadFailure::Fails,
                old(self).phase,
                event.input(old(self).buf@),
            ),
            final(self).buf == old(self).buf,
            match event {
                SourceEvent::Read(size) => if size == 0 {
                    step is Send && step->Send_0 is SourceClosed && final(self).phase is Finished
                } else {
                    step is Send && step->Send_0 is Data && step->Send_0->Data_0@ == old(
                        self,
                    ).buf@.take(size as int) && final(self).phase is Awaiting
                },
                SourceEvent::Reply(SinkAction::Ack) => step is Wait && final(self).phase is Idle,
                SourceEvent::Reply(SinkAction::SinkClosed) => step is Send
                    && step->Send_0 is SourceClosed && final(self).phase is Finished,
                SourceEvent::ReadFailed => step == SourceStep::Fail(SourceError::ReadFailed)
                    && final(self).phase is Finished,
                SourceEvent::NoReply => step == SourceStep::Fail(SourceError::NoReply) && final(self).phase is Finished,
                SourceEvent::SendFailed => step == SourceStep::Fail(SourceError::SendFailed)
                    && final(self).phase is Finished,
            },
    {
        advance(ReadFailure::Fails, &mut self.phase, &self.buf, event)
    }
}

/// Whether an answer that finds its source gone is an error. `SinkClosed` may be sent after the
/// source closed, so it is not.
pub fn undelivered_is_error(action: SinkAction) -> (yes: bool)
    ensures
        yes == (action is Ack),
{
    match action {
        SinkAction::Ack => true,
        SinkAction::SinkClosed => false,
    }
}

/// What a read brings is the first bytes of the buffer, as many as were read and all of them.
pub proof fn a_read_brings_the_first_bytes(buf: Seq<u8>, size: usize)
    requires
        size <= buf.len(),
    ensures
        SourceEvent::Read(size).fits(buf),
        SourceEvent::Read(size).input(buf) matches SourceInput::Read(bytes) && bytes.len() == size
            && forall|i: int| 0 <= i < size ==> bytes[i] == buf[i],
{
}

/// A source can take a read, failed or not, whenever it is idle, and the other end can close or
/// be gone then. While it waits the other end can answer in either way, or be gone.
pub proof fn a_source_takes_what_can_happen(bytes: Seq<u8>)
    ensures
        source_accepts(SourcePhase::Idle, SourceInput::Read(bytes)),
        source_accepts(SourcePhase::Idle, SourceInput::ReadFailed),
        forall|phase: SourcePhase| #[trigger]
            source_accepts(phase, SourceInput::Reply(SinkAction::SinkClosed)) == (phase
                != SourcePhase::Finished),
        forall|phase: SourcePhase| #[trigger]
            source_accepts(phase, SourceInput::NoReply) == (phase != SourcePhase::Finished),
        forall|phase: SourcePhase| #[trigger]
            source_accepts(phase, SourceInput::Reply(SinkAction::Ack)) == (phase
                == SourcePhase::Awaiting),
        forall|phase: SourcePhase| #[trigger]
            source_accepts(phase, SourceInput::SendFailed) == (phase != SourcePhase::Idle),
{
}

/// All bytes of a read that brings some are sent, as one packet, and the source then waits for
/// the answer to it. Of an acknowledgement nothing comes but that it reads on.
pub proof fn a_source_sends_each_read_and_reads_on(
    on_failure: ReadFailure,
    bytes: Seq<u8>,
    more: Seq<u8>,
)
    requires
        bytes.len() > 0,
    ensures
        ({
            let (waiting, sent) = source_step(
                on_failure,
                SourcePhase::Idle,
                SourceInput::Read(bytes),
            );
            let (next, answer) = source_step(
                on_failure,
                waiting,
                SourceInput::Reply(SinkAction::Ack),
            );
            &&& sent == SourceOutput::Send(SourceMessage::Data(bytes))
            &&& source_accepts(waiting, SourceInput::Reply(SinkAction::Ack))
            &&& !source_accepts(waiting, SourceInput::Read(more))
            &&& answer is Wait
            &&& next != SourcePhase::Finished
            &&& source_accepts(next, SourceInput::Read(more))
        }),
{
}

/// A source ends only at the end of its input, when a read fails, when the other end closes, and
/// when an answer or a message is lost; and it does end then. It says to the other end that it
/// is closed exactly where it ends without an error.
pub proof fn a_source_ends_only_for_a_reason(
    on_failure: ReadFailure,
    phase: SourcePhase,
    input: SourceInput,
)
    requires
        source_accepts(phase, input),
    ensures
        ({
            let (next, output) = source_step(on_failure, phase, input);
            let input_ends = input matches SourceInput::Read(bytes) && bytes.len() == 0;
            let told_to = input == SourceInput::Reply(SinkAction::SinkClosed);
            &&& next == SourcePhase::Finished <==> (input_ends || told_to || input is ReadFailed
                || input is NoReply || input is SendFailed)
            &&& output == SourceOutput::Send(SourceMessage::SourceClosed) <==> (input_ends
                || told_to || (input is ReadFailed && on_failure == ReadFailure::Closes))
            &&& output is Fail <==> ((input is ReadFailed && on_failure == ReadFailure::Fails)
                || input is NoReply || input is SendFailed)
            &&& output matches SourceOutput::Fail(err) ==> match err {
                SourceError::ReadFailed => input is ReadFailed,
                SourceError::NoReply => input is NoReply,
                SourceError::SendFailed => input is SendFailed,
            }
            &&& output matches SourceOutput::Send(SourceMessage::Data(bytes)) ==> input
                == SourceInput::Read(bytes)
        }),
{
}

/// An event other than a read stands for itself, whatever is in the buffer, and a step for what
/// it has the source do.
pub proof fn events_and_steps_stand_for_themselves(
    event: SourceEvent,
    buf: Seq<u8>,
    step: SourceStep,
)
    ensures
        !(event is Read) ==> event.fits(buf),
        event matches SourceEvent::Reply(action) ==> event.input(buf) == SourceInput::Reply(action),
        event is ReadFailed <==> event.input(buf) is ReadFailed,
        event is NoReply <==> event.input(buf) is NoReply,
        event is SendFailed <==> event.input(buf) is SendFailed,
        step matches SourceStep::Send(action) ==> step@ == SourceOutput::Send(action@),
        step matches SourceStep::Fail(err) ==> step@ == SourceOutput::Fail(err),
        step is Wait <==> step@ is Wait,
{
}

} // verus!
