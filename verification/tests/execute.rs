use color_eyre::eyre::Report;
use rlirsh::execute::receiver::{self, ReceiverEvent, ReceiverStep};
use rlirsh::execute::sender::{self, do_if_not_failed, SenderEvent, SenderPhase, SenderStep};
use rlirsh::execute::window_change::{self, WindowChangeEvent, WindowChangeStep};
use rlirsh::execute::{
    create_request, exit_code, finish, process_exit_code, serve, Args, ConnectStep, Handler,
    LocalTerminal, PtyDecision, PtyMode, ServeParam,
};
use rlirsh::net::SocketAddr;
use rlirsh::protocol::{
    ClientAction, ConnId, ConnecterAction, ExecuteCommand, ExitStatus, PortId, PtyParam, Response,
    ServerAction, SinkAction, StreamAction, StreamId, WindowSize,
};

fn args(command: &[&str]) -> Args {
    Args {
        disable_pty: false,
        force_enable_pty: 0,
        host: SocketAddr::V4 { ip: [10, 0, 0, 1], port: 4000 },
        command: command.iter().map(|s| s.to_string()).collect(),
        connect_addrs: vec!["db:5432".into()],
    }
}

fn terminal(has_tty: bool) -> LocalTerminal {
    LocalTerminal {
        has_tty,
        window_size: Some(WindowSize { width: 132, height: 43 }),
        term: Some("xterm".into()),
    }
}

fn texts(report: &Report) -> Vec<String> {
    report.chain().map(|cause| cause.to_string()).collect()
}

#[test]
fn a_login_shell_runs_on_a_pty() {
    let (host, req) = create_request(args(&[]), terminal(true));
    assert_eq!(host, SocketAddr::V4 { ip: [10, 0, 0, 1], port: 4000 });
    assert_eq!(req.command, ExecuteCommand::LoginShell);
    assert_eq!(
        req.pty_param,
        Some(PtyParam { window_size: WindowSize { width: 132, height: 43 } })
    );
    assert_eq!(req.envs, vec![("TERM".to_string(), "xterm".to_string())]);
    assert_eq!(req.connect_addrs, vec!["db:5432"]);
}

#[test]
fn a_command_runs_without_a_pty() {
    let (_, req) = create_request(args(&["ls", "-l"]), terminal(true));
    assert_eq!(
        req.command,
        ExecuteCommand::Program { command: vec!["ls".into(), "-l".into()] }
    );
    assert_eq!(req.pty_param, None);
    assert_eq!(req.envs, vec![]);
}

#[test]
fn a_window_of_unknown_size_has_a_default() {
    let local = LocalTerminal { has_tty: true, window_size: None, term: None };
    let (_, req) = create_request(args(&[]), local);
    assert_eq!(
        req.pty_param,
        Some(PtyParam { window_size: WindowSize { width: 80, height: 60 } })
    );
    assert_eq!(req.envs, vec![]);
}

#[test]
fn the_user_decides_on_a_pty() {
    let decide = |disable_pty, force_enable_pty, command: &[&str], has_tty| {
        Args { disable_pty, force_enable_pty, ..args(command) }.pty_decision(has_tty)
    };
    assert_eq!(decide(false, 0, &[], true), PtyDecision::Allocate);
    assert_eq!(decide(false, 0, &[], false), PtyDecision::NoTerminal);
    assert_eq!(decide(false, 0, &["ls"], true), PtyDecision::NotWanted);
    assert_eq!(decide(true, 0, &[], true), PtyDecision::NotWanted);
    assert_eq!(decide(false, 1, &["ls"], true), PtyDecision::Allocate);
    assert_eq!(decide(false, 1, &["ls"], false), PtyDecision::NoTerminal);
    assert_eq!(decide(false, 2, &["ls"], false), PtyDecision::Allocate);
    assert_eq!(Args { disable_pty: true, ..args(&[]) }.pty_mode(), PtyMode::Disable);
    assert_eq!(args(&[]).pty_mode(), PtyMode::Auto);
    assert_eq!(Args { force_enable_pty: 3, ..args(&[]) }.pty_mode(), PtyMode::Enable);
}

#[test]
fn the_client_handles_the_standard_streams() {
    let (_, req) = create_request(args(&[]), terminal(true));
    assert_eq!(
        serve(&ServeParam::new(&req)),
        vec![
            Handler::Source(StreamId::Stdin),
            Handler::Sink(StreamId::Stdout),
            Handler::Sink(StreamId::Stderr),
            Handler::WindowChange,
        ]
    );
    let (_, req) = create_request(args(&["ls"]), terminal(true));
    assert_eq!(serve(&ServeParam::new(&req)).len(), 3);
}

#[test]
fn exit_codes_tell_how_the_command_ended() {
    assert_eq!(exit_code(ExitStatus::Code(3)), 3);
    assert_eq!(exit_code(ExitStatus::Signal(9)), 137);
    assert_eq!(finish(Ok(ExitStatus::Signal(15))).unwrap(), 143);
    let err = finish(Err(Report::msg("gone"))).unwrap_err();
    assert_eq!(texts(&err), vec!["internal error", "gone"]);
    assert_eq!(process_exit_code(&Ok(7)), 7);
    assert_eq!(process_exit_code(&Err(err)), 255);
}

#[test]
fn the_client_follows_the_window() {
    let size = WindowSize { width: 100, height: 50 };
    match window_change::handle(WindowChangeEvent::Signal(Some(size))) {
        WindowChangeStep::Send(message) => {
            assert!(message == ClientAction::WindowSizeChange(size))
        }
        _ => panic!("not sent"),
    }
    assert!(matches!(
        window_change::handle(WindowChangeEvent::Signal(None)),
        WindowChangeStep::Wait
    ));
    assert!(matches!(window_change::handle(WindowChangeEvent::Exit), WindowChangeStep::Stop));
    match window_change::handle(WindowChangeEvent::SendFailed(Report::msg("closed"))) {
        WindowChangeStep::Fail(err) => assert_eq!(texts(&err), vec!["closed"]),
        _ => panic!("went on"),
    }
}

#[test]
fn the_client_hands_on_what_the_server_tells() {
    let mut task = receiver::Task::new();
    let action = StreamAction::SinkAction(SinkAction::Ack);
    match task.handle(ReceiverEvent::Message(ServerAction::StreamAction(
        StreamId::Stdin,
        action.clone(),
    ))) {
        ReceiverStep::RouteStream(StreamId::Stdin, routed) => assert!(routed == action),
        _ => panic!("not routed"),
    }
    let answer = ConnecterAction::ConnectResponse(ConnId(1), Response::Success);
    match task.handle(ReceiverEvent::Message(ServerAction::ConnecterAction(
        PortId(2),
        answer.clone(),
    ))) {
        ReceiverStep::RouteConnecter(PortId(2), routed) => assert_eq!(routed, answer),
        _ => panic!("not routed"),
    }
    assert!(matches!(
        task.handle(ReceiverEvent::Message(ServerAction::Finished)),
        ReceiverStep::Finish
    ));
    assert!(task.finished);
}

#[test]
fn the_exit_status_is_reported_once() {
    let mut task = receiver::Task::new();
    let exit = || ReceiverEvent::Message(ServerAction::Exit(ExitStatus::Code(1)));
    assert!(matches!(task.handle(exit()), ReceiverStep::ReportExit(ExitStatus::Code(1))));
    match task.handle(exit()) {
        ReceiverStep::Fail(err) => {
            assert_eq!(texts(&err), vec!["received exit status multiple times"])
        }
        _ => panic!("reported twice"),
    }
}

#[test]
fn the_client_stops_for_what_it_cannot_hand_on() {
    let mut task = receiver::Task::new();
    match task.handle(ReceiverEvent::Undelivered(Report::msg("sink_tx not found: Stdin"))) {
        ReceiverStep::Fail(err) => assert_eq!(texts(&err), vec!["sink_tx not found: Stdin"]),
        _ => panic!("went on"),
    }
    assert!(task.finished);
    let mut task = receiver::Task::new();
    let status = ExitStatus::Code(-3);
    task.handle(ReceiverEvent::Message(ServerAction::Exit(status)));
    match task.handle(ReceiverEvent::ExitUndelivered(status)) {
        ReceiverStep::Fail(err) => {
            assert_eq!(texts(&err), vec!["failed to send exit status: Ok(Code(-3))"])
        }
        _ => panic!("went on"),
    }
    assert!(task.finished);
}

#[test]
fn failures_of_the_client_have_their_context() {
    let context = |err: Report| texts(&err)[0].clone();
    let cause = || Report::msg("x");
    assert_eq!(
        texts(&ConnectStep::Connect.failed(cause())),
        vec!["failed to connect to the server", "x"]
    );
    assert_eq!(context(ConnectStep::SendRequest.failed(cause())), "failed to send request");
    assert_eq!(
        context(ConnectStep::ReceiveResponse.failed(cause())),
        "failed to receive response"
    );
    assert_eq!(context(Handler::Source(StreamId::Stdin).failed(cause())), "failed to open stdin");
    assert_eq!(context(Handler::Sink(StreamId::Stdout).failed(cause())), "failed to open stdout");
    assert_eq!(context(Handler::Sink(StreamId::Stderr).failed(cause())), "failed to open stderr");
    assert_eq!(
        texts(&Handler::WindowChange.failed(cause())),
        vec!["failed to set signal handler", "x"]
    );
}

#[test]
fn a_lost_connection_is_reported_in_place_of_the_exit_status() {
    let mut task = receiver::Task::new();
    match task.handle(ReceiverEvent::RecvFailed(Report::msg("reset"))) {
        ReceiverStep::Shutdown(Some(err)) => assert_eq!(
            texts(&err),
            vec![
                "connection disconnected unexpectedly",
                "failed to receive message from server",
                "reset"
            ]
        ),
        _ => panic!("not reported"),
    }
    let mut task = receiver::Task::new();
    match task.handle(ReceiverEvent::SendFailed(Report::msg("reset"))) {
        ReceiverStep::Shutdown(Some(err)) => {
            assert_eq!(texts(&err), vec!["connection disconnected unexpectedly", "reset"])
        }
        _ => panic!("not reported"),
    }
    let mut task = receiver::Task::new();
    task.handle(ReceiverEvent::Message(ServerAction::Exit(ExitStatus::Code(0))));
    assert!(matches!(
        task.handle(ReceiverEvent::RecvFailed(Report::msg("reset"))),
        ReceiverStep::Shutdown(None)
    ));
}

fn size_change(width: u16) -> ClientAction {
    ClientAction::WindowSizeChange(WindowSize { width, height: 1 })
}

#[test]
fn the_client_sends_all_and_then_finished() {
    let mut task = sender::Task::new();
    match task.handle(SenderEvent::Message(size_change(1))) {
        SenderStep::Send(message) => assert!(message == size_change(1)),
        _ => panic!("not sent"),
    }
    assert!(matches!(task.handle(SenderEvent::Sent), SenderStep::Receive));
    assert!(matches!(
        task.handle(SenderEvent::AllClosed),
        SenderStep::Send(ClientAction::Finished)
    ));
    assert!(matches!(task.handle(SenderEvent::Sent), SenderStep::Stop));
    assert_eq!(task.phase, SenderPhase::Finished);
}

#[test]
fn the_client_sends_nothing_after_a_failure() {
    let mut task = sender::Task::new();
    task.handle(SenderEvent::Message(size_change(1)));
    match task.handle(SenderEvent::SendFailed(Report::msg("reset"))) {
        SenderStep::Report(err) => {
            assert_eq!(texts(&err), vec!["failed to send message to server", "reset"])
        }
        _ => panic!("not reported"),
    }
    assert!(matches!(task.reported(), SenderStep::Receive));
    assert!(matches!(
        task.handle(SenderEvent::Message(size_change(2))),
        SenderStep::Receive
    ));
    assert!(matches!(task.handle(SenderEvent::AllClosed), SenderStep::Stop));
}

#[test]
fn the_client_stops_when_its_last_message_cannot_be_sent() {
    let mut task = sender::Task::new();
    task.handle(SenderEvent::AllClosed);
    assert!(matches!(
        task.handle(SenderEvent::SendFailed(Report::msg("reset"))),
        SenderStep::Report(_)
    ));
    assert!(matches!(task.reported(), SenderStep::Stop));
}

#[test]
fn only_the_first_failure_is_reported() {
    let mut failed = false;
    assert!(do_if_not_failed(&mut failed, Ok(())).is_none());
    assert!(!failed);
    assert!(do_if_not_failed(&mut failed, Err(Report::msg("first"))).is_some());
    assert!(failed);
    assert!(do_if_not_failed(&mut failed, Err(Report::msg("second"))).is_none());
    assert!(do_if_not_failed(&mut failed, Ok(())).is_none());
    assert!(failed);
}
