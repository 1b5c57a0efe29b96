use color_eyre::eyre::Report;
use rlirsh::protocol::{
    ConnId, ConnecterAction, ListenerAction, PortId, Response, SinkAction, SourceAction,
    StreamAction, StreamId, MAX_STREAM_PACKET_SIZE,
};
use rlirsh::sink::{do_if_not_closed, IoOutcome, Sink, SinkEvent, SinkOperation, SinkPhase};
use rlirsh::source::{
    undelivered_is_error, Source, SourceError, SourceEvent, SourcePhase, SourceStep,
};
use rlirsh::stream::connecter::{self, ConnecterStep};
use rlirsh::stream::listener::{self, ListenerEvent, ListenerPhase, ListenerStep};
use rlirsh::stream::recv_router::{
    undelivered, Delivery, RecvRouter, RouteError, RouteTable, StreamSender,
};
use rlirsh::stream::{sink, source};

const FORWARD: StreamId = StreamId::Forward(PortId(3), ConnId(4));

type Router = RecvRouter<&'static str, &'static str, &'static str, &'static str>;

fn lines(report: &Report) -> Vec<String> {
    report.chain().map(|cause| cause.to_string()).collect()
}

#[test]
fn a_source_sends_what_it_reads() {
    let mut source = Source::new();
    assert_eq!(source.buf.len(), MAX_STREAM_PACKET_SIZE);
    source.buf[..3].copy_from_slice(b"abc");
    assert!(
        source.handle(SourceEvent::Read(3)) == SourceStep::Send(SourceAction::Data(b"abc".to_vec()))
    );
    assert_eq!(source.phase, SourcePhase::Awaiting);
    assert!(source.handle(SourceEvent::Reply(SinkAction::Ack)) == SourceStep::Wait);
    assert_eq!(source.phase, SourcePhase::Idle);
    assert!(
        source.handle(SourceEvent::Read(0)) == SourceStep::Send(SourceAction::SourceClosed)
    );
    assert_eq!(source.phase, SourcePhase::Finished);
}

#[test]
fn a_source_closes_with_its_sink() {
    let mut source = Source::new();
    assert!(
        source.handle(SourceEvent::Reply(SinkAction::SinkClosed))
            == SourceStep::Send(SourceAction::SourceClosed)
    );
    let mut source = Source::new();
    source.handle(SourceEvent::Read(1));
    assert!(
        source.handle(SourceEvent::Reply(SinkAction::SinkClosed))
            == SourceStep::Send(SourceAction::SourceClosed)
    );
    assert_eq!(source.phase, SourcePhase::Finished);
}

#[test]
fn a_source_fails_with_its_reader() {
    let mut source = Source::new();
    assert!(
        source.handle(SourceEvent::ReadFailed) == SourceStep::Fail(SourceError::ReadFailed)
    );
    assert_eq!(SourceError::ReadFailed.message(), "failed to receive message");
}

#[test]
fn the_source_of_a_stream_closes_with_its_reader() {
    let mut task = source::Task::new(FORWARD);
    assert!(
        task.handle(SourceEvent::ReadFailed)
            == source::SourceTaskStep::Send(
                FORWARD,
                StreamAction::SourceAction(SourceAction::SourceClosed)
            )
    );
    assert_eq!(task.phase, SourcePhase::Finished);
}

#[test]
fn the_source_of_a_stream_fails_without_an_answer() {
    let mut task = source::Task::new(FORWARD);
    task.buf[0] = 9;
    assert!(
        task.handle(SourceEvent::Read(1))
            == source::SourceTaskStep::Send(
                FORWARD,
                StreamAction::SourceAction(SourceAction::Data(vec![9]))
            )
    );
    assert!(
        task.handle(SourceEvent::NoReply) == source::SourceTaskStep::Fail(SourceError::NoReply)
    );
    assert_eq!(SourceError::NoReply.message(), "failed to receive message");
}

#[test]
fn a_source_fails_when_it_cannot_send() {
    let mut source = Source::new();
    source.handle(SourceEvent::Read(1));
    assert!(source.handle(SourceEvent::SendFailed) == SourceStep::Fail(SourceError::SendFailed));
    assert_eq!(source.phase, SourcePhase::Finished);
    let mut task = source::Task::new(FORWARD);
    task.handle(SourceEvent::Read(0));
    assert!(
        task.handle(SourceEvent::SendFailed)
            == source::SourceTaskStep::Fail(SourceError::SendFailed)
    );
    assert_eq!(
        lines(&SourceError::SendFailed.report(Some(Report::msg("closed")))),
        vec!["failed to send message", "closed"]
    );
    assert_eq!(
        lines(&SourceError::ReadFailed.report(Some(Report::msg("io")))),
        vec!["failed to receive message", "io"]
    );
    assert_eq!(lines(&SourceError::NoReply.report(None)), vec!["failed to receive message"]);
}

#[test]
fn a_sink_fails_when_it_cannot_answer() {
    let mut sink = Sink::new();
    sink.handle(SinkEvent::Received(SourceAction::Data(vec![1])));
    sink.handle(SinkEvent::Written(IoOutcome::Done));
    let step = sink.handle(SinkEvent::ReplyFailed);
    assert!(step.reply.is_none() && step.next == SinkOperation::Fail);
    assert_eq!(sink.phase, SinkPhase::Finished);
}

#[test]
fn a_late_close_is_no_error() {
    assert!(undelivered_is_error(SinkAction::Ack));
    assert!(!undelivered_is_error(SinkAction::SinkClosed));
}

#[test]
fn a_sink_acknowledges_what_it_has_written() {
    let mut sink = Sink::new();
    let step = sink.handle(SinkEvent::Received(SourceAction::Data(vec![1, 2])));
    assert!(step.reply.is_none() && step.next == SinkOperation::Write(vec![1, 2]));
    let step = sink.handle(SinkEvent::Written(IoOutcome::Done));
    assert!(step.reply == Some(SinkAction::Ack) && step.next == SinkOperation::Flush);
    let step = sink.handle(SinkEvent::Flushed(IoOutcome::Done));
    assert!(step.reply.is_none() && step.next == SinkOperation::Receive);
    let step = sink.handle(SinkEvent::Received(SourceAction::SourceClosed));
    assert!(step.reply.is_none() && step.next == SinkOperation::Shutdown);
    assert_eq!(sink.phase, SinkPhase::Finished);
}

#[test]
fn a_closed_sink_answers_each_packet_with_that() {
    let mut sink = Sink::new();
    sink.handle(SinkEvent::Received(SourceAction::Data(vec![1])));
    let step = sink.handle(SinkEvent::Written(IoOutcome::BrokenPipe));
    assert!(step.reply == Some(SinkAction::SinkClosed) && step.next == SinkOperation::Receive);
    for _ in 0..2 {
        let step = sink.handle(SinkEvent::Received(SourceAction::Data(vec![2])));
        assert!(step.reply == Some(SinkAction::SinkClosed) && step.next == SinkOperation::Receive);
    }
    let step = sink.handle(SinkEvent::SourceGone);
    assert!(step.next == SinkOperation::Shutdown);
}

#[test]
fn a_pipe_that_breaks_at_the_flush_is_told_after_the_acknowledgement() {
    let mut sink = Sink::new();
    sink.handle(SinkEvent::Received(SourceAction::Data(vec![1])));
    assert!(sink.handle(SinkEvent::Written(IoOutcome::Done)).reply == Some(SinkAction::Ack));
    let step = sink.handle(SinkEvent::Flushed(IoOutcome::BrokenPipe));
    assert!(step.reply == Some(SinkAction::SinkClosed) && step.next == SinkOperation::Receive);
}

#[test]
fn a_sink_fails_with_its_writer() {
    let mut sink = Sink::new();
    sink.handle(SinkEvent::Received(SourceAction::Data(vec![1])));
    let step = sink.handle(SinkEvent::Written(IoOutcome::OtherError));
    assert!(step.reply.is_none() && step.next == SinkOperation::Fail);
    let mut sink = Sink::new();
    sink.handle(SinkEvent::Received(SourceAction::Data(vec![1])));
    sink.handle(SinkEvent::Written(IoOutcome::Done));
    assert!(sink.handle(SinkEvent::Flushed(IoOutcome::OtherError)).next == SinkOperation::Fail);
}

#[test]
fn a_broken_pipe_closes_and_is_no_error() {
    let mut closed = false;
    assert!(do_if_not_closed(&mut closed, IoOutcome::Done) && !closed);
    assert!(!do_if_not_closed(&mut closed, IoOutcome::OtherError) && !closed);
    assert!(do_if_not_closed(&mut closed, IoOutcome::BrokenPipe) && closed);
    assert!(do_if_not_closed(&mut closed, IoOutcome::OtherError) && closed);
}

#[test]
fn the_sink_of_a_stream_names_it() {
    let mut task = sink::Task::new(FORWARD);
    task.handle(SinkEvent::Received(SourceAction::Data(vec![1])));
    let step = task.handle(SinkEvent::Written(IoOutcome::Done));
    assert!(step.reply == Some((FORWARD, StreamAction::SinkAction(SinkAction::Ack))));
    assert!(step.next == SinkOperation::Flush);
}

#[test]
fn what_stops_an_end_stops_it() {
    let mut task = source::Task::new(StreamId::Stdin);
    task.handle(SourceEvent::Reply(source::shutdown()));
    assert_eq!(task.phase, SourcePhase::Finished);
    let mut task = sink::Task::new(StreamId::Stdout);
    task.handle(SinkEvent::Received(sink::shutdown()));
    assert_eq!(task.sink.phase, SinkPhase::Finished);
}

#[test]
fn a_stream_is_written_as_it_was_read() {
    let input = b"the quick brown fox";
    let mut source = Source::new();
    let mut sink = Sink::new();
    let mut written: Vec<u8> = vec![];
    for chunk in input.chunks(5) {
        source.buf[..chunk.len()].copy_from_slice(chunk);
        let action = match source.handle(SourceEvent::Read(chunk.len())) {
            SourceStep::Send(action) => action,
            _ => panic!("nothing sent"),
        };
        match sink.handle(SinkEvent::Received(action)).next {
            SinkOperation::Write(bytes) => written.extend(bytes),
            _ => panic!("nothing written"),
        }
        let reply = sink.handle(SinkEvent::Written(IoOutcome::Done)).reply.unwrap();
        sink.handle(SinkEvent::Flushed(IoOutcome::Done));
        source.handle(SourceEvent::Reply(reply));
    }
    if let SourceStep::Send(action) = source.handle(SourceEvent::Read(0)) {
        sink.handle(SinkEvent::Received(action));
    }
    assert_eq!(written, input);
    assert_eq!(sink.phase, SinkPhase::Finished);
}

#[test]
fn routes_are_found_until_they_are_removed() {
    let mut table: RouteTable<StreamId, u8> = RouteTable::new();
    table.insert(StreamId::Stdin, 1);
    table.insert(FORWARD, 2);
    table.insert(StreamId::Forward(PortId(4), ConnId(3)), 3);
    assert_eq!(table.get(FORWARD), Some(&2));
    assert!(table.contains(StreamId::Stdin));
    assert_eq!(table.remove(FORWARD), Some(2));
    assert_eq!(table.remove(FORWARD), None);
    assert_eq!(table.get(FORWARD), None);
    assert_eq!(table.get(StreamId::Forward(PortId(4), ConnId(3))), Some(&3));
    assert_eq!(table.drain().len(), 2);
    assert!(!table.contains(StreamId::Stdin));
}

#[test]
fn stream_actions_go_to_the_other_end() {
    let mut router = Router::new();
    router.insert_tx(FORWARD, StreamSender::Sink("sink"));
    router.insert_tx(FORWARD, StreamSender::Source("source"));
    let to_sink = StreamAction::SourceAction(SourceAction::SourceClosed);
    let to_source = StreamAction::SinkAction(SinkAction::Ack);
    match router.send_stream_action(FORWARD, to_sink.clone()) {
        Ok(Delivery::ToSink(tx, SourceAction::SourceClosed)) => assert_eq!(*tx, "sink"),
        _ => panic!("not to the sink"),
    }
    match router.send_stream_action(FORWARD, to_source.clone()) {
        Ok(Delivery::ToSource(tx, SinkAction::Ack)) => assert_eq!(*tx, "source"),
        _ => panic!("not to the source"),
    }
    match router.send_stream_action(StreamId::Stdin, to_sink) {
        Err(err) => {
            assert_eq!(err, RouteError::NoSink(StreamId::Stdin));
            assert_eq!(err.message(), "sink_tx not found: Stdin");
        }
        Ok(_) => panic!("found"),
    }
    match router.send_stream_action(StreamId::Stderr, to_source) {
        Err(err) => assert_eq!(err.message(), "source_tx not found: Stderr"),
        Ok(_) => panic!("found"),
    }
}

#[test]
fn answers_go_to_the_listener_that_waits() {
    let mut router = Router::new();
    router.insert_listener_tx(FORWARD, "listener");
    let answer = |conn| ConnecterAction::ConnectResponse(conn, Response::Success);
    assert_eq!(router.send_connecter_action(PortId(3), &answer(ConnId(4))), Ok(&"listener"));
    let err = router.send_connecter_action(PortId(3), &answer(ConnId(5))).unwrap_err();
    assert_eq!(err, RouteError::NoListener(PortId(3), ConnId(5)));
    assert_eq!(err.message(), "tx not found: PortId(3)");
    router.remove_listener_tx(FORWARD);
    assert!(router.send_connecter_action(PortId(3), &answer(ConnId(4))).is_err());
}

#[test]
fn requests_go_to_the_connecter_of_the_port() {
    let mut router = Router::new();
    router.insert_connecter_tx(PortId(1), "connecter");
    assert_eq!(router.send_listener_action(PortId(1)), Ok(&"connecter"));
    let err = router.send_listener_action(PortId(2)).unwrap_err();
    assert_eq!(err.message(), "tx not found: PortId(2)");
}

#[test]
fn a_shutdown_takes_all_ends_of_streams() {
    let mut router = Router::new();
    router.insert_tx(StreamId::Stdin, StreamSender::Source("source"));
    router.insert_tx(StreamId::Stdout, StreamSender::Sink("sink"));
    router.insert_connecter_tx(PortId(0), "connecter");
    let (sinks, sources) = router.shutdown();
    assert_eq!(sinks, vec![(StreamId::Stdout, "sink")]);
    assert_eq!(sources, vec![(StreamId::Stdin, "source")]);
    assert!(!router.sinks.contains(StreamId::Stdout));
    assert!(router.send_listener_action(PortId(0)).is_ok());
}

#[test]
fn a_connecter_connects_until_the_listener_closes() {
    let task = connecter::Task::new(PortId(3));
    assert_eq!(
        task.handle(Some(ListenerAction::Connect(ConnId(4)))),
        ConnecterStep::Connect(FORWARD, ConnId(4))
    );
    assert_eq!(task.handle(Some(ListenerAction::ListenerClosed)), ConnecterStep::Stop);
    assert_eq!(task.handle(None), ConnecterStep::Stop);
}

#[test]
fn a_connecter_answers() {
    let task = connecter::Task::new(PortId(3));
    let answer = task.connect(ConnId(4), &Ok::<(), Report>(()));
    assert!(answer.start_streams);
    assert_eq!(answer.port, PortId(3));
    assert_eq!(answer.action, ConnecterAction::ConnectResponse(ConnId(4), Response::Success));
    let answer = task.connect(ConnId(4), &Err::<(), Report>(Report::msg("refused")));
    assert!(!answer.start_streams);
    let res = listener::connect_remote(Some(answer.action));
    assert_eq!(lines(&res.unwrap_err()), vec!["refused"]);
}

#[test]
fn a_listener_has_each_connection_made() {
    let mut task = listener::Task::new(PortId(3));
    for conn in 0..3 {
        let id = StreamId::Forward(PortId(3), ConnId(conn));
        match task.handle(ListenerEvent::Accepted) {
            ListenerStep::Connect(stream, port, action) => {
                assert_eq!((stream, port), (id, PortId(3)));
                assert_eq!(action, ListenerAction::Connect(ConnId(conn)));
            }
            _ => panic!("no connection made"),
        }
        let answer = ConnecterAction::ConnectResponse(ConnId(conn), Response::Success);
        match task.handle(ListenerEvent::Answered(Some(answer))) {
            ListenerStep::Start(stream) => assert_eq!(stream, id),
            _ => panic!("not started"),
        }
    }
    match task.handle(ListenerEvent::TaskEnd) {
        ListenerStep::Close(port, action) => {
            assert_eq!((port, action), (PortId(3), ListenerAction::ListenerClosed))
        }
        _ => panic!("not closed"),
    }
    assert_eq!(task.phase, ListenerPhase::Closing);
    assert!(matches!(task.handle(ListenerEvent::Closed), ListenerStep::Stop));
    assert_eq!(task.phase, ListenerPhase::Finished);
}

#[test]
fn a_listener_fails_when_it_cannot_tell_that_it_closes() {
    let mut task = listener::Task::new(PortId(0));
    task.handle(ListenerEvent::TaskEnd);
    match task.handle(ListenerEvent::RequestFailed(Report::msg("closed"))) {
        ListenerStep::Fail(err) => {
            assert_eq!(lines(&err), vec!["failed to send request", "closed"])
        }
        _ => panic!("stopped without an error"),
    }
    assert_eq!(task.phase, ListenerPhase::Finished);
}

#[test]
fn no_streams_start_for_an_answer_that_nobody_gets() {
    assert_eq!(connecter::answered(Ok(()), Ok(5)).unwrap(), 5);
    let unsent = connecter::answered(Err(Report::msg("closed")), Ok(5));
    assert_eq!(lines(&unsent.unwrap_err()), vec!["closed"]);
    let refused = connecter::answered(Ok(()), Err::<u8, Report>(Report::msg("refused")));
    assert_eq!(lines(&refused.unwrap_err()), vec!["refused"]);
}

#[test]
fn only_an_answer_may_find_its_stream_gone() {
    assert!(undelivered(true, Report::msg("closed")).is_none());
    let err = undelivered(false, Report::msg("closed")).unwrap();
    assert_eq!(lines(&err), vec!["closed"]);
}

#[test]
fn a_listener_drops_what_cannot_be_connected() {
    let mut task = listener::Task::new(PortId(0));
    assert!(matches!(task.handle(ListenerEvent::AcceptFailed), ListenerStep::Accept));
    assert_eq!(task.conn_id, ConnId(1));
    task.handle(ListenerEvent::Accepted);
    match task.handle(ListenerEvent::Answered(None)) {
        ListenerStep::Drop(StreamId::Forward(PortId(0), ConnId(1)), err) => {
            assert_eq!(lines(&err), vec!["failed to receive response"])
        }
        _ => panic!("not dropped"),
    }
    task.handle(ListenerEvent::Accepted);
    match task.handle(ListenerEvent::RequestFailed(Report::msg("closed"))) {
        ListenerStep::Drop(StreamId::Forward(PortId(0), ConnId(2)), err) => {
            assert_eq!(lines(&err), vec!["failed to send request", "closed"])
        }
        _ => panic!("not dropped"),
    }
    assert_eq!(task.phase, ListenerPhase::Accepting);
}
