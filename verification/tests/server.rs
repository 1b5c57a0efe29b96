use color_eyre::eyre::Report;
use rlirsh::execute::exit_code;
use rlirsh::net::{SocketAddr, SocketAddrs};
use rlirsh::protocol::{
    ClientAction, ConnId, ExecuteCommand, ExecuteRequest, ExitStatus, ListenerAction, PortId,
    PtyParam, ServerAction, SinkAction, SourceAction, StreamAction, StreamId, WindowSize,
};
use rlirsh::server::execute::receiver::{self, ReceiverEvent, ReceiverStep};
use rlirsh::server::execute::sender::{self, SenderEvent, SenderPhase, SenderStep};
use rlirsh::server::execute::{
    bind_stdio, end_failed, end_service, exit_status, handle_request, login_shell,
    prepare_local_forwarding, serve, spawn_process, Exchange, RequestEvent, RequestStep, ServeEnd,
    ServeEvent, ServeStart, Stage, Stdio, StdioEnd,
};

fn causes(report: &Report) -> Vec<String> {
    report.chain().map(|cause| cause.to_string()).collect()
}

fn request(command: ExecuteCommand) -> ExecuteRequest {
    ExecuteRequest {
        command,
        envs: vec![("TERM".into(), "vt100".into())],
        pty_param: Some(PtyParam { window_size: WindowSize { width: 80, height: 24 } }),
        connect_addrs: vec![],
    }
}

fn addrs(name: &str) -> SocketAddrs {
    let addr = SocketAddr::V4 { ip: [127, 0, 0, 1], port: 80 };
    SocketAddrs::new(name.into(), Ok(vec![addr])).unwrap()
}

fn stages(pty: bool) -> Vec<Stage> {
    let mut list = vec![Stage::Forwarding];
    while let RequestStep::Do(next) =
        handle_request(list[list.len() - 1], pty, RequestEvent::Done)
    {
        list.push(next);
    }
    list
}

#[test]
fn a_request_is_handled_stage_by_stage() {
    assert_eq!(stages(false), vec![Stage::Forwarding, Stage::Shell, Stage::Spawn]);
    assert_eq!(
        stages(true),
        vec![
            Stage::Forwarding,
            Stage::Shell,
            Stage::OpenPty,
            Stage::Spawn,
            Stage::SetWindowSize,
            Stage::DuplicatePty
        ]
    );
}

#[test]
fn a_failed_stage_ends_the_request() {
    let failed = |stage| match handle_request(stage, true, RequestEvent::Failed(Report::msg("x"))) {
        RequestStep::Fail(err) => causes(&err),
        _ => panic!("went on"),
    };
    assert_eq!(
        failed(Stage::Forwarding),
        vec!["failed to prepare for local port forwarding", "x"]
    );
    assert_eq!(failed(Stage::Shell), vec!["failed to start process", "x"]);
    assert_eq!(
        failed(Stage::OpenPty),
        vec!["failed to start process", "failed to open pty master", "x"]
    );
    assert_eq!(
        failed(Stage::Spawn),
        vec!["failed to start process", "failed to spawn process", "x"]
    );
    assert_eq!(
        failed(Stage::SetWindowSize),
        vec!["failed to start process", "failed to set window size", "x"]
    );
    assert_eq!(
        failed(Stage::DuplicatePty),
        vec!["failed to start process", "failed to duplicate PTY master fd", "x"]
    );
}

#[test]
fn all_forwarded_addresses_are_needed() {
    let found = prepare_local_forwarding(vec![Ok(addrs("a")), Ok(addrs("b"))]).unwrap();
    assert_eq!(found, vec![addrs("a"), addrs("b")]);
    let err = prepare_local_forwarding(vec![
        Ok(addrs("a")),
        Err(Report::msg("first")),
        Err(Report::msg("second")),
    ])
    .unwrap_err();
    assert_eq!(causes(&err), vec!["first"]);
}

#[test]
fn the_shell_is_that_of_the_password_file() {
    let env = || Some(b"/bin/env-shell".to_vec());
    assert_eq!(login_shell(Some(Ok("/bin/zsh".into())), env()).unwrap(), b"/bin/zsh");
    assert_eq!(
        causes(&login_shell(Some(Err(Report::msg("not text"))), env()).unwrap_err()),
        vec!["not text"]
    );
    assert_eq!(login_shell(None, env()).unwrap(), b"/bin/env-shell");
    assert_eq!(
        causes(&login_shell(None, None).unwrap_err()),
        vec!["cannot get login shell for the user"]
    );
}

#[test]
fn a_login_shell_is_spawned_without_arguments() {
    let plan = spawn_process(request(ExecuteCommand::LoginShell), b"/bin/sh".to_vec());
    assert_eq!(plan.program, b"/bin/sh");
    assert_eq!(plan.arg0, b"-/bin/sh");
    assert_eq!(plan.args, Vec::<String>::new());
    assert_eq!(plan.envs, vec![("TERM".to_string(), "vt100".to_string())]);
    assert!(!plan.inherits_envs);
    assert!(plan.kill_on_drop);
    assert_eq!(plan.pty, request(ExecuteCommand::LoginShell).pty_param);
}

#[test]
fn a_command_is_given_to_the_shell() {
    let command = ExecuteCommand::Program { command: vec!["echo".into(), "a b".into()] };
    let plan = spawn_process(request(command), b"/bin/sh".to_vec());
    assert_eq!(plan.args, vec!["-c", "echo a b"]);
}

#[test]
fn a_pty_has_no_error_output() {
    assert_eq!(
        bind_stdio(true, false, false, true),
        Stdio { stdin: Some(StdioEnd::Pty), stdout: Some(StdioEnd::Pty), stderr: None }
    );
    assert_eq!(
        bind_stdio(false, true, false, true),
        Stdio { stdin: Some(StdioEnd::Pipe), stdout: None, stderr: Some(StdioEnd::Pipe) }
    );
}

#[test]
fn missing_streams_are_closed_at_once() {
    let list = serve(bind_stdio(true, true, true, true), vec![addrs("a"), addrs("b")]);
    assert_eq!(list.len(), 5);
    assert!(matches!(list[0], ServeStart::Sink(StreamId::Stdin)));
    assert!(matches!(list[1], ServeStart::Source(StreamId::Stdout)));
    match &list[2] {
        ServeStart::Send(action) => assert!(
            *action
                == ServerAction::StreamAction(
                    StreamId::Stderr,
                    StreamAction::SourceAction(SourceAction::SourceClosed)
                )
        ),
        _ => panic!("not closed"),
    }
    match (&list[3], &list[4]) {
        (ServeStart::Connecter(PortId(0), a), ServeStart::Connecter(PortId(1), b)) => {
            assert_eq!((a, b), (&addrs("a"), &addrs("b")))
        }
        _ => panic!("no connecters"),
    }
    let list = serve(Stdio { stdin: None, stdout: None, stderr: None }, vec![]);
    match &list[0] {
        ServeStart::Send(action) => assert!(
            *action
                == ServerAction::StreamAction(
                    StreamId::Stdin,
                    StreamAction::SinkAction(SinkAction::SinkClosed)
                )
        ),
        _ => panic!("not closed"),
    }
}

#[test]
fn the_client_is_told_how_the_process_ended() {
    assert_eq!(exit_status(Some(2), None), ExitStatus::Code(2));
    assert_eq!(exit_status(None, Some(9)), ExitStatus::Signal(9));
    assert_eq!(exit_code(exit_status(Some(2), None)), 2);
    assert_eq!(exit_code(exit_status(None, Some(9))), 137);
    match end_service(ServeEvent::ChildEnded(None, Some(9))) {
        ServeEnd::Send(actions) => assert!(
            actions
                == vec![
                    ServerAction::StreamAction(
                        StreamId::Stdin,
                        StreamAction::SinkAction(SinkAction::SinkClosed)
                    ),
                    ServerAction::Exit(ExitStatus::Signal(9)),
                ]
        ),
        ServeEnd::Kill => panic!("killed"),
    }
    assert!(end_service(ServeEvent::Disconnected) == ServeEnd::Kill);
}

#[test]
fn the_server_hands_on_what_the_client_tells() {
    let mut task = receiver::Task::new(true);
    let size = WindowSize { width: 3, height: 4 };
    assert!(matches!(
        task.handle(ReceiverEvent::Message(ClientAction::WindowSizeChange(size))),
        ReceiverStep::SetWindowSize(WindowSize { width: 3, height: 4 })
    ));
    assert!(matches!(
        receiver::Task::new(false)
            .handle(ReceiverEvent::Message(ClientAction::WindowSizeChange(size))),
        ReceiverStep::WarnNoPty
    ));
    assert!(matches!(
        task.handle(ReceiverEvent::Message(ClientAction::ListenerAction(
            PortId(1),
            ListenerAction::Connect(ConnId(2))
        ))),
        ReceiverStep::RouteListener(PortId(1), ListenerAction::Connect(ConnId(2)))
    ));
    assert!(matches!(
        task.handle(ReceiverEvent::Message(ClientAction::StreamAction(
            StreamId::Stdin,
            StreamAction::SourceAction(SourceAction::SourceClosed)
        ))),
        ReceiverStep::RouteStream(
            StreamId::Stdin,
            StreamAction::SourceAction(SourceAction::SourceClosed)
        )
    ));
    assert!(!task.finished);
    assert!(matches!(
        task.handle(ReceiverEvent::Message(ClientAction::Finished)),
        ReceiverStep::Finish
    ));
    assert!(task.finished);
}

#[test]
fn the_server_shuts_down_without_a_client() {
    let mut task = receiver::Task::new(false);
    match task.handle(ReceiverEvent::Failed(Report::msg("reset"))) {
        ReceiverStep::Shutdown(err) => {
            assert_eq!(causes(&err), vec!["connection disconnected unexpectedly", "reset"])
        }
        _ => panic!("went on"),
    }
    assert!(task.finished);
}

#[test]
fn the_server_stops_for_what_it_cannot_hand_on() {
    let mut task = receiver::Task::new(false);
    match task.handle(ReceiverEvent::Undelivered(Report::msg("tx not found: PortId(1)"))) {
        ReceiverStep::Fail(err) => assert_eq!(causes(&err), vec!["tx not found: PortId(1)"]),
        _ => panic!("went on"),
    }
    assert!(task.finished);
}

#[test]
fn failures_of_the_server_have_their_context() {
    assert_eq!(
        causes(&Exchange::ReceiveRequest.failed(Report::msg("x"))),
        vec!["failed to receive request", "x"]
    );
    assert_eq!(
        causes(&Exchange::SendResponse.failed(Report::msg("x"))),
        vec!["failed to send response", "x"]
    );
    assert_eq!(causes(&end_failed(0, Report::msg("x"))), vec!["failed to send message", "x"]);
    assert_eq!(causes(&end_failed(1, Report::msg("x"))), vec!["x"]);
}

#[test]
fn the_server_finishes_after_its_receiver() {
    let mut task = sender::Task::new();
    let exit = ServerAction::Exit(ExitStatus::Code(0));
    match task.handle(SenderEvent::Message(exit.clone())) {
        SenderStep::Send(message) => assert!(message == exit),
        _ => panic!("not sent"),
    }
    assert!(matches!(task.handle(SenderEvent::Sent), SenderStep::Receive));
    assert!(matches!(task.handle(SenderEvent::AllClosed), SenderStep::AwaitReceiver));
    assert!(matches!(
        task.handle(SenderEvent::ReceiverFinished),
        SenderStep::Send(ServerAction::Finished)
    ));
    assert!(matches!(task.handle(SenderEvent::Sent), SenderStep::Stop));
    assert_eq!(task.phase, SenderPhase::Finished);
}

#[test]
fn the_server_stops_when_it_cannot_send() {
    let mut task = sender::Task::new();
    task.handle(SenderEvent::Message(ServerAction::Exit(ExitStatus::Code(0))));
    match task.handle(SenderEvent::SendFailed(Report::msg("reset"))) {
        SenderStep::Fail(err) => assert_eq!(causes(&err), vec!["failed to send message", "reset"]),
        _ => panic!("went on"),
    }
    assert_eq!(task.phase, SenderPhase::Finished);
}
