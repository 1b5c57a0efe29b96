//! The two ends of a stream together, with the messages that are on their way between them.
use crate::protocol::{SinkAction, SourceMessage};
use crate::sink::{
    sink_accepts, sink_step, sink_wf, IoOutcome, SinkInput, SinkNext, SinkPhase, SinkState,
};
use crate::source::{
    source_accepts, source_step, ReadFailure, SourceInput, SourceOutput, SourcePhase,
};
use vstd::prelude::*;

verus! {

/// A stream: its source, its sink, and what is on its way from each to the other, first the next
/// to arrive.
pub struct Link {
    pub on_failure: ReadFailure,
    pub source: SourcePhase,
    pub to_sink: Seq<SourceMessage>,
    pub sink: SinkState,
    pub to_source: Seq<SinkAction>,
    /// All bytes that the source has read.
    pub read: Seq<u8>,
    /// Those of them that it could not send.
    pub unsent: Seq<u8>,
    /// The packet that the sink is writing.
    pub writing: Seq<u8>,
    /// All bytes that the sink has written.
    pub written: Seq<u8>,
    /// Somebody else has told the sink that the source is closed, or nothing comes to the sink
    /// any more.
    pub stopped: bool,
    /// The sink has stopped for an error.
    pub failed: bool,
}

/// What can happen to a stream.
pub enum LinkEvent {
    /// The source reads some bytes, none at the end of the input.
    Read(Seq<u8>),
    ReadFailed,
    /// The next answer arrives at the source.
    Reply,
    /// The next message arrives at the sink.
    Message,
    /// The write or the flush of the sink ends.
    Io(IoOutcome),
    /// Somebody else tells the source that the sink is closed.
    StopSource,
    /// Somebody else tells the sink that the source is closed.
    StopSink,
    /// The last message to the sink could not be sent after all.
    SendFailed,
    /// The last answer to the source could not be sent after all.
    ReplyFailed,
    /// No answer comes to the source any more.
    SinkGone,
    /// Nothing comes to the sink any more, whatever is still on its way.
    SourceGone,
}

/// A stream before anything has happened.
pub open spec fn new_link(on_failure: ReadFailure) -> Link {
    Link {
        on_failure,
        source: SourcePhase::Idle,
        to_sink: Seq::empty(),
        sink: SinkState { phase: SinkPhase::Receiving, is_closed: false },
        to_source: Seq::empty(),
        read: Seq::empty(),
        unsent: Seq::empty(),
        writing: Seq::empty(),
        written: Seq::empty(),
        stopped: false,
        failed: false,
    }
}

/// Whether an event can happen now. That an end is able to take it is not part of this. A source
/// that fails with its reader relies on the sink to answer, so the sink is never gone for it.
pub open spec fn possible(link: Link, event: LinkEvent) -> bool {
    match event {
        LinkEvent::Read(_) | LinkEvent::ReadFailed => link.source == SourcePhase::Idle,
        LinkEvent::Reply => link.to_source.len() > 0,
        LinkEvent::Message => link.to_sink.len() > 0 && link.sink.phase == SinkPhase::Receiving,
        LinkEvent::Io(_) => link.sink.phase == SinkPhase::Writing || link.sink.phase
            == SinkPhase::Flushing,
        LinkEvent::StopSource | LinkEvent::StopSink => true,
        LinkEvent::SendFailed => link.source != SourcePhase::Idle && link.to_sink.len() > 0,
        LinkEvent::ReplyFailed => link.to_source.len() > 0 && (link.sink.phase
            == SinkPhase::Receiving || link.sink.phase == SinkPhase::Flushing),
        LinkEvent::SinkGone => link.on_failure == ReadFailure::Closes && link.source
            != SourcePhase::Finished,
        LinkEvent::SourceGone => link.sink.phase == SinkPhase::Receiving,
    }
}

/// What the source gets of an event, if it gets anything. An answer to a source that is finished
/// is dropped.
pub open spec fn source_input(link: Link, event: LinkEvent) -> Option<SourceInput> {
    match event {
        LinkEvent::Read(bytes) => Some(SourceInput::Read(bytes)),
        LinkEvent::ReadFailed => Some(SourceInput::ReadFailed),
        LinkEvent::Reply => if link.source == SourcePhase::Finished {
            None
        } else {
            Some(SourceInput::Reply(link.to_source[0]))
        },
        LinkEvent::SendFailed => Some(SourceInput::SendFailed),
        LinkEvent::SinkGone => Some(SourceInput::NoReply),
        _ => None,
    }
}

/// What the sink gets of an event, if it gets anything.
pub open spec fn sink_input(link: Link, event: LinkEvent) -> Option<SinkInput> {
    match event {
        LinkEvent::Message => Some(SinkInput::Received(link.to_sink[0])),
        LinkEvent::Io(outcome) => if link.sink.phase == SinkPhase::Writing {
            Some(SinkInput::Written(outcome))
        } else {
            Some(SinkInput::Flushed(outcome))
        },
        LinkEvent::ReplyFailed => Some(SinkInput::ReplyFailed),
        LinkEvent::SourceGone => Some(SinkInput::SourceGone),
        _ => None,
    }
}

/// The stream after its source took an event.
pub open spec fn after_source(link: Link, input: SourceInput) -> Link {
    let (source, output) = source_step(link.on_failure, link.source, input);
    Link {
        source,
        to_sink: match output {
            SourceOutput::Send(message) => link.to_sink.push(message),
            _ => if input is SendFailed {
                link.to_sink.drop_last()
            } else {
                link.to_sink
            },
        },
        unsent: match link.to_sink.last() {
            SourceMessage::Data(bytes) if input is SendFailed => bytes + link.unsent,
            _ => link.unsent,
        },
        to_source: match input {
            SourceInput::Reply(_) => link.to_source.drop_first(),
            _ => link.to_source,
        },
        read: match input {
            SourceInput::Read(bytes) => link.read + bytes,
            _ => link.read,
        },
        ..link
    }
}

/// The stream after its sink took an event.
pub open spec fn after_sink(link: Link, input: SinkInput) -> Link {
    let (sink, output) = sink_step(link.sink, input);
    Link {
        sink,
        to_sink: match input {
            SinkInput::Received(_) => link.to_sink.drop_first(),
            _ => link.to_sink,
        },
        to_source: match output.reply {
            Some(action) => link.to_source.push(action),
            None => if input is ReplyFailed {
                link.to_source.drop_last()
            } else {
                link.to_source
            },
        },
        writing: match output.next {
            SinkNext::Write(bytes) => bytes,
            _ => Seq::empty(),
        },
        written: match input {
            SinkInput::Written(IoOutcome::Done) => link.written + link.writing,
            _ => link.written,
        },
        stopped: link.stopped || input is SourceGone,
        failed: link.failed || output.next is Fail,
        ..link
    }
}

/// The stream after an event.
pub open spec fn after(link: Link, event: LinkEvent) -> Link {
    match (source_input(link, event), sink_input(link, event)) {
        (Some(input), _) => after_source(link, input),
        (None, Some(input)) => after_sink(link, input),
        (None, None) => match event {
            LinkEvent::Reply => Link { to_source: link.to_source.drop_first(), ..link },
            LinkEvent::StopSource => Link {
                to_source: link.to_source.push(SinkAction::SinkClosed),
                ..link
            },
            _ => Link {
                to_sink: link.to_sink.push(SourceMessage::SourceClosed),
                stopped: true,
                ..link
            },
        },
    }
}

/// How many packets are among some messages.
pub open spec fn packets(messages: Seq<SourceMessage>) -> nat
    decreases messages.len(),
{
    if messages.len() == 0 {
        0
    } else {
        packets(messages.drop_first()) + if messages[0] is Data {
            1nat
        } else {
            0nat
        }
    }
}

/// The bytes of all packets among some messages.
pub open spec fn packet_bytes(messages: Seq<SourceMessage>) -> Seq<u8>
    decreases messages.len(),
{
    if messages.len() == 0 {
        Seq::empty()
    } else {
        match messages[0] {
            SourceMessage::Data(bytes) => bytes + packet_bytes(messages.drop_first()),
            SourceMessage::SourceClosed => packet_bytes(messages.drop_first()),
        }
    }
}

/// How many acknowledgements are among some answers.
pub open spec fn acks(actions: Seq<SinkAction>) -> nat
    decreases actions.len(),
{
    if actions.len() == 0 {
        0
    } else {
        acks(actions.drop_first()) + if actions[0] is Ack {
            1nat
        } else {
            0nat
        }
    }
}

/// The packets that have been sent and of which the source has not heard: on their way, being
/// written, or with the acknowledgement on its way.
pub open spec fn unanswered(link: Link) -> nat {
    packets(link.to_sink) + acks(link.to_source) + if link.sink.phase == SinkPhase::Writing {
        1nat
    } else {
        0nat
    }
}

/// What holds of a stream at all times.
pub open spec fn link_wf(link: Link) -> bool {
    &&& sink_wf(link.sink)
    // A source has at most one packet unanswered, and none while it is idle.
    &&& unanswered(link) <= 1
    &&& link.source == SourcePhase::Idle ==> unanswered(link) == 0
    // A source that waits has an answer coming.
    &&& link.source == SourcePhase::Awaiting ==> unanswered(link) == 1
        || link.to_source.contains(SinkAction::SinkClosed) || link.sink.phase
        == SinkPhase::Finished
    // What is read is written, in order, until the sink is closed or finished.
    &&& link.sink.phase != SinkPhase::Writing ==> link.writing.len() == 0
    &&& if link.sink.is_closed || link.sink.phase == SinkPhase::Finished {
        link.written.is_prefix_of(link.read)
    } else {
        link.read == link.written + link.writing + packet_bytes(link.to_sink) + link.unsent
    }
    // A source that could not send something sends nothing more.
    &&& link.unsent.len() > 0 ==> link.source == SourcePhase::Finished
    // Unless somebody else stops the sink, the source closes the stream, after its last packet,
    // and the sink has written all packets when it stops.
    &&& !link.stopped ==> closes_last(link.to_sink, link.source, link.unsent)
    &&& !link.stopped && !link.failed && !link.sink.is_closed && link.sink.phase
        == SinkPhase::Finished ==> link.source == SourcePhase::Finished && link.written == link.read
}

/// A source sends nothing after it has closed the stream, and closes it only after it has sent
/// all that it read.
pub open spec fn closes_last(
    to_sink: Seq<SourceMessage>,
    source: SourcePhase,
    unsent: Seq<u8>,
) -> bool {
    forall|i: int|
        0 <= i < to_sink.len() && (#[trigger] to_sink[i]) is SourceClosed ==> i == to_sink.len() - 1
            && source == SourcePhase::Finished && unsent.len() == 0
}

proof fn lemma_messages_push(messages: Seq<SourceMessage>, message: SourceMessage)
    ensures
        packets(messages.push(message)) == packets(messages) + if message is Data {
            1nat
        } else {
            0nat
        },
        packet_bytes(messages.push(message)) == match message {
            SourceMessage::Data(bytes) => packet_bytes(messages) + bytes,
            SourceMessage::SourceClosed => packet_bytes(messages),
        },
    decreases messages.len(),
{
    let all = messages.push(message);
    if messages.len() > 0 {
        lemma_messages_push(messages.drop_first(), message);
        assert(all.drop_first() == messages.drop_first().push(message));
    } else {
        assert(all.drop_first() == messages);
    }
}

proof fn lemma_acks_push(actions: Seq<SinkAction>, action: SinkAction)
    ensures
        acks(actions.push(action)) == acks(actions) + if action is Ack {
            1nat
        } else {
            0nat
        },
    decreases actions.len(),
{
    let all = actions.push(action);
    if actions.len() > 0 {
        lemma_acks_push(actions.drop_first(), action);
        assert(all.drop_first() == actions.drop_first().push(action));
    } else {
        assert(all.drop_first() == actions);
    }
}

proof fn lemma_kept_closed(actions: Seq<SinkAction>, action: SinkAction)
    requires
        actions.contains(SinkAction::SinkClosed) || action == SinkAction::SinkClosed,
    ensures
        actions.push(action).contains(SinkAction::SinkClosed),
{
    let all = actions.push(action);
    if action == SinkAction::SinkClosed {
        assert(all[actions.len() as int] == SinkAction::SinkClosed);
    } else {
        let i = choose|i: int| 0 <= i < actions.len() && actions[i] == SinkAction::SinkClosed;
        assert(all[i] == SinkAction::SinkClosed);
    }
}

/// A new stream is as a stream has to be.
pub proof fn new_link_is_wf(on_failure: ReadFailure)
    ensures
        link_wf(new_link(on_failure)),
{
}

/// Both ends can take whatever comes to them. In particular no acknowledgement ever comes to a
/// source that is idle.
pub proof fn both_ends_take_what_comes(link: Link, event: LinkEvent)
    requires
        link_wf(link),
        possible(link, event),
    ensures
        source_input(link, event) matches Some(input) ==> source_accepts(link.source, input),
        sink_input(link, event) matches Some(input) ==> sink_accepts(link.sink, input),
{
    if event is Reply && link.source == SourcePhase::Idle {
        assert(acks(link.to_source) == 0);
    }
}

proof fn lemma_source_step_keeps_wf(link: Link, event: LinkEvent)
    requires
        link_wf(link),
        possible(link, event),
        source_input(link, event) is Some,
    ensures
        link_wf(after(link, event)),
{
    let input = source_input(link, event)->0;
    let next = after(link, event);
    let output = source_step(link.on_failure, link.source, input).1;
    both_ends_take_what_comes(link, event);
    match output {
        SourceOutput::Send(message) => lemma_messages_push(link.to_sink, message),
        _ => {},
    }
    match input {
        SourceInput::SendFailed => {
            let last = link.to_sink.last();
            lemma_messages_push(next.to_sink, last);
            assert(next.to_sink.push(last) == link.to_sink);
            if !link.stopped {
                assert forall|i: int|
                    0 <= i < next.to_sink.len() implies !((
                #[trigger] next.to_sink[i]) is SourceClosed) by {
                    assert(next.to_sink[i] == link.to_sink[i]);
                }
            }
            if !(link.sink.is_closed || link.sink.phase == SinkPhase::Finished) {
                assert(next.read == next.written + next.writing + packet_bytes(next.to_sink)
                    + next.unsent);
            }
        },
        SourceInput::Read(bytes) => {
            if link.sink.is_closed || link.sink.phase == SinkPhase::Finished {
                assert(link.written.is_prefix_of(next.read)) by {
                    assert(next.read.take(link.written.len() as int) == link.read.take(
                        link.written.len() as int,
                    ));
                    assert(link.written == link.read.take(link.written.len() as int));
                }
            } else {
                assert(next.read == next.written + next.writing + packet_bytes(next.to_sink)
                    + next.unsent);
            }
        },
        _ => {},
    }
}

proof fn lemma_sink_step_keeps_wf(link: Link, event: LinkEvent)
    requires
        link_wf(link),
        possible(link, event),
        sink_input(link, event) is Some,
    ensures
        link_wf(after(link, event)),
{
    let input = sink_input(link, event)->0;
    let next = after(link, event);
    let output = sink_step(link.sink, input).1;
    match output.reply {
        Some(action) => {
            lemma_acks_push(link.to_source, action);
            if link.to_source.contains(SinkAction::SinkClosed) || action == SinkAction::SinkClosed {
                lemma_kept_closed(link.to_source, action);
            }
        },
        None => {},
    }
    if input is ReplyFailed {
        lemma_acks_push(next.to_source, link.to_source.last());
        assert(next.to_source.push(link.to_source.last()) == link.to_source);
    }
    if input is Received && !link.stopped {
        assert(closes_last(next.to_sink, next.source, next.unsent)) by {
            assert forall|i: int|
                0 <= i < next.to_sink.len() && (#[trigger] next.to_sink[i]) is SourceClosed implies i
                == next.to_sink.len() - 1 && next.source == SourcePhase::Finished
                && next.unsent.len() == 0 by {
                assert(next.to_sink[i] == link.to_sink[i + 1]);
            }
        }
        if link.to_sink[0] is SourceClosed && !link.sink.is_closed {
            assert(link.to_sink.drop_first().len() == 0);
            assert(link.read == link.written);
        }
    }
    if link.sink.is_closed {
    } else if next.sink.is_closed || next.sink.phase == SinkPhase::Finished {
        assert(link.read == link.written + (link.writing + packet_bytes(link.to_sink)
            + link.unsent));
        assert(next.written.is_prefix_of(next.read));
    } else {
        assert(next.read == next.written + next.writing + packet_bytes(next.to_sink)
            + next.unsent);
    }
}

/// Whatever happens, a stream stays as it has to be.
pub proof fn every_event_keeps_wf(link: Link, event: LinkEvent)
    requires
        link_wf(link),
        possible(link, event),
    ensures
        link_wf(after(link, event)),
{
    if source_input(link, event) is Some {
        lemma_source_step_keeps_wf(link, event);
    } else if sink_input(link, event) is Some {
        lemma_sink_step_keeps_wf(link, event);
    } else {
        match event {
            LinkEvent::StopSource => {
                lemma_acks_push(link.to_source, SinkAction::SinkClosed);
                lemma_kept_closed(link.to_source, SinkAction::SinkClosed);
            },
            LinkEvent::StopSink => {
                lemma_messages_push(link.to_sink, SourceMessage::SourceClosed);
            },
            _ => {},
        }
    }
}

/// The stream after some events, one after another.
pub open spec fn after_all(link: Link, events: Seq<LinkEvent>) -> Link
    decreases events.len(),
{
    if events.len() == 0 {
        link
    } else {
        after_all(after(link, events[0]), events.drop_first())
    }
}

/// Whether each of some events can happen when its turn comes.
pub open spec fn all_possible(link: Link, events: Seq<LinkEvent>) -> bool
    decreases events.len(),
{
    events.len() > 0 ==> possible(link, events[0]) && all_possible(
        after(link, events[0]),
        events.drop_first(),
    )
}

proof fn lemma_all_events_keep_wf(link: Link, events: Seq<LinkEvent>)
    requires
        link_wf(link),
        all_possible(link, events),
    ensures
        link_wf(after_all(link, events)),
    decreases events.len(),
{
    if events.len() > 0 {
        every_event_keeps_wf(link, events[0]);
        lemma_all_events_keep_wf(after(link, events[0]), events.drop_first());
    }
}

/// Whatever happens to a stream from its start on, the sink has written the first bytes of what
/// the source has read, in order and none of them twice.
pub proof fn written_is_what_was_read_first(on_failure: ReadFailure, events: Seq<LinkEvent>)
    requires
        all_possible(new_link(on_failure), events),
    ensures
        ({
            let link = after_all(new_link(on_failure), events);
            link.written.is_prefix_of(link.read)
        }),
{
    new_link_is_wf(on_failure);
    lemma_all_events_keep_wf(new_link(on_failure), events);
    let link = after_all(new_link(on_failure), events);
    if !(link.sink.is_closed || link.sink.phase == SinkPhase::Finished) {
        assert(link.read == link.written + (link.writing + packet_bytes(link.to_sink)
            + link.unsent));
    }
}

/// Once no packet is on its way or being written, and the sink has neither closed nor finished,
/// all that was read is written, but for what the source could not send.
pub proof fn all_is_written_at_rest(on_failure: ReadFailure, events: Seq<LinkEvent>)
    requires
        all_possible(new_link(on_failure), events),
        ({
            let link = after_all(new_link(on_failure), events);
            &&& !link.sink.is_closed
            &&& link.sink.phase != SinkPhase::Finished
            &&& link.sink.phase != SinkPhase::Writing
            &&& packets(link.to_sink) == 0
        }),
    ensures
        ({
            let link = after_all(new_link(on_failure), events);
            link.read == link.written + link.unsent
        }),
{
    new_link_is_wf(on_failure);
    lemma_all_events_keep_wf(new_link(on_failure), events);
    let link = after_all(new_link(on_failure), events);
    lemma_no_packets_no_bytes(link.to_sink);
    assert(link.written + link.writing + packet_bytes(link.to_sink) == link.written);
}

proof fn lemma_no_packets_no_bytes(messages: Seq<SourceMessage>)
    requires
        packets(messages) == 0,
    ensures
        packet_bytes(messages).len() == 0,
    decreases messages.len(),
{
    if messages.len() > 0 {
        lemma_no_packets_no_bytes(messages.drop_first());
    }
}

/// A stream that nobody else stops or cuts off is written whole: once the sink has stopped,
/// without an error and while somebody read what it wrote, it has written all that the source
/// ever read.
pub proof fn a_stream_is_written_whole(on_failure: ReadFailure, events: Seq<LinkEvent>)
    requires
        all_possible(new_link(on_failure), events),
        ({
            let link = after_all(new_link(on_failure), events);
            &&& link.sink.phase == SinkPhase::Finished
            &&& !link.sink.is_closed
            &&& !link.stopped
            &&& !link.failed
        }),
    ensures
        ({
            let link = after_all(new_link(on_failure), events);
            link.source == SourcePhase::Finished && link.written == link.read
        }),
{
    new_link_is_wf(on_failure);
    lemma_all_events_keep_wf(new_link(on_failure), events);
}

/// From its start on, a source never has more than one packet of which it has not heard, never
/// gets an acknowledgement while it is idle, and never waits for an answer that cannot come
/// while the sink runs.
pub proof fn a_source_sends_one_packet_at_a_time(on_failure: ReadFailure, events: Seq<LinkEvent>)
    requires
        all_possible(new_link(on_failure), events),
    ensures
        ({
            let link = after_all(new_link(on_failure), events);
            &&& unanswered(link) <= 1
            &&& link.source == SourcePhase::Idle ==> packets(link.to_sink) == 0 && acks(
                link.to_source,
            ) == 0
            &&& link.source == SourcePhase::Awaiting && link.sink.phase != SinkPhase::Finished
                ==> unanswered(link) == 1 || link.to_source.contains(SinkAction::SinkClosed)
        }),
{
    new_link_is_wf(on_failure);
    lemma_all_events_keep_wf(new_link(on_failure), events);
}

/// Whether an event is one of those for which a source ends: the end of its input or a failed
/// read, that the sink is closed or gone, and that a message could not be sent.
pub open spec fn ends_the_source(link: Link, event: LinkEvent) -> bool {
    match event {
        LinkEvent::Read(bytes) => bytes.len() == 0,
        LinkEvent::ReadFailed | LinkEvent::SendFailed | LinkEvent::SinkGone => true,
        LinkEvent::Reply => link.to_source[0] == SinkAction::SinkClosed,
        _ => false,
    }
}

/// Whether none of some events ends the source when its turn comes.
pub open spec fn none_ends_the_source(link: Link, events: Seq<LinkEvent>) -> bool
    decreases events.len(),
{
    events.len() > 0 ==> !ends_the_source(link, events[0]) && none_ends_the_source(
        after(link, events[0]),
        events.drop_first(),
    )
}

/// A source does not finish before its input ends, unless something goes wrong or somebody
/// closes the stream: as long as nothing of that happens it reads or waits for an answer.
pub proof fn a_source_runs_until_something_ends_it(link: Link, events: Seq<LinkEvent>)
    requires
        link_wf(link),
        link.source != SourcePhase::Finished,
        all_possible(link, events),
        none_ends_the_source(link, events),
    ensures
        after_all(link, events).source != SourcePhase::Finished,
    decreases events.len(),
{
    if events.len() > 0 {
        every_event_keeps_wf(link, events[0]);
        both_ends_take_what_comes(link, events[0]);
        a_source_runs_until_something_ends_it(after(link, events[0]), events.drop_first());
    }
}

/// What happens to one packet where nothing goes wrong.
pub open spec fn round(bytes: Seq<u8>) -> Seq<LinkEvent> {
    seq![
        LinkEvent::Read(bytes),
        LinkEvent::Message,
        LinkEvent::Io(IoOutcome::Done),
        LinkEvent::Io(IoOutcome::Done),
        LinkEvent::Reply,
    ]
}

/// What happens to some packets, one after another, and to the end of the input after them,
/// where nothing goes wrong.
pub open spec fn rounds(packets: Seq<Seq<u8>>) -> Seq<LinkEvent>
    decreases packets.len(),
{
    if packets.len() == 0 {
        seq![LinkEvent::Read(Seq::empty()), LinkEvent::Message]
    } else {
        round(packets[0]) + rounds(packets.drop_first())
    }
}

/// A stream between two packets.
pub open spec fn at_rest(link: Link) -> bool {
    &&& link.source == SourcePhase::Idle
    &&& link.to_sink.len() == 0
    &&& link.to_source.len() == 0
    &&& link.sink.phase == SinkPhase::Receiving
    &&& !link.sink.is_closed
}

proof fn lemma_after_all_cons(link: Link, events: Seq<LinkEvent>, rest: Seq<LinkEvent>)
    ensures
        after_all(link, events + rest) == after_all(after_all(link, events), rest),
        all_possible(link, events + rest) == (all_possible(link, events) && all_possible(
            after_all(link, events),
            rest,
        )),
    decreases events.len(),
{
    let all = events + rest;
    if events.len() == 0 {
        assert(all == rest);
    } else {
        assert(all[0] == events[0]);
        assert(all.drop_first() == events.drop_first() + rest);
        lemma_after_all_cons(after(link, events[0]), events.drop_first(), rest);
    }
}

/// A packet that nothing goes wrong with is written, acknowledged, and followed by the next: the
/// stream is then as it was, with the packet read and written.
pub proof fn a_packet_makes_its_way(link: Link, bytes: Seq<u8>)
    requires
        at_rest(link),
        bytes.len() > 0,
    ensures
        all_possible(link, round(bytes)),
        ({
            let next = after_all(link, round(bytes));
            &&& at_rest(next)
            &&& next.read == link.read + bytes
            &&& next.written == link.written + bytes
            &&& next.on_failure == link.on_failure
            &&& next.stopped == link.stopped
            &&& next.failed == link.failed
            &&& next.unsent == link.unsent
        }),
{
    let e = round(bytes);
    let a = after(link, e[0]);
    let b = after(a, e[1]);
    let c = after(b, e[2]);
    let d = after(c, e[3]);
    let z = after(d, e[4]);
    assert(a.to_sink == seq![SourceMessage::Data(bytes)]);
    assert(b.to_sink.len() == 0 && b.writing == bytes);
    assert(c.to_source == seq![SinkAction::Ack]);
    assert(z.to_source.len() == 0);
    let e1 = e.drop_first();
    let e2 = e1.drop_first();
    let e3 = e2.drop_first();
    let e4 = e3.drop_first();
    let e5 = e4.drop_first();
    assert(e1[0] == e[1] && e2[0] == e[2] && e3[0] == e[3] && e4[0] == e[4] && e5.len() == 0);
    assert(after_all(z, e5) == z);
    assert(after_all(d, e4) == z);
    assert(after_all(c, e3) == z);
    assert(after_all(b, e2) == z);
    assert(after_all(a, e1) == z);
    assert(after_all(link, e) == z);
    assert(all_possible(z, e5));
    assert(all_possible(d, e4));
    assert(all_possible(c, e3));
    assert(all_possible(b, e2));
    assert(all_possible(a, e1));
}

/// Some packets as one sequence of bytes.
pub open spec fn whole(packets: Seq<Seq<u8>>) -> Seq<u8>
    decreases packets.len(),
{
    if packets.len() == 0 {
        Seq::empty()
    } else {
        packets[0] + whole(packets.drop_first())
    }
}

/// An input of any number of packets is carried to its end: where nothing goes wrong all of it is
/// written, in order, and then both ends have finished.
pub proof fn an_input_is_carried_to_its_end(link: Link, packets: Seq<Seq<u8>>)
    requires
        at_rest(link),
        forall|i: int| 0 <= i < packets.len() ==> (#[trigger] packets[i]).len() > 0,
    ensures
        all_possible(link, rounds(packets)),
        ({
            let end = after_all(link, rounds(packets));
            &&& end.written == link.written + whole(packets)
            &&& end.source == SourcePhase::Finished
            &&& end.sink.phase == SinkPhase::Finished
            &&& !end.sink.is_closed
            &&& end.failed == link.failed
        }),
    decreases packets.len(),
{
    if packets.len() == 0 {
        let e = rounds(packets);
        let a = after(link, e[0]);
        let z = after(a, e[1]);
        assert(a.to_sink == seq![SourceMessage::SourceClosed]);
        let e1 = e.drop_first();
        let e2 = e1.drop_first();
        assert(e1[0] == e[1] && e2.len() == 0);
        assert(after_all(z, e2) == z);
        assert(after_all(a, e1) == z);
        assert(all_possible(z, e2));
        assert(all_possible(a, e1));
        assert(link.written + whole(packets) == link.written);
    } else {
        let tail = packets.drop_first();
        a_packet_makes_its_way(link, packets[0]);
        let next = after_all(link, round(packets[0]));
        assert forall|i: int| 0 <= i < tail.len() implies (#[trigger] tail[i]).len() > 0 by {
            assert(tail[i] == packets[i + 1]);
        }
        an_input_is_carried_to_its_end(next, tail);
        lemma_after_all_cons(link, round(packets[0]), rounds(tail));
        assert(next.written + whole(tail) == link.written + whole(packets));
    }
}

} // verus!
