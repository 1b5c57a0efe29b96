//! The server's side of a command: it runs the command, and connects it with the client.
pub mod receiver;
pub mod sender;

use crate::error::{new_report, report_messages, texts, wrap_report};
use crate::execute::{exit_code_of, handlers, Handler, ServeParam, SIGNAL_BASE};
use crate::net::SocketAddrs;
use crate::protocol::{
    port_ids, ExecuteCommand, ExecuteRequest, ExitStatus, PortId, PtyParam, ServerAction,
    SinkAction, SourceAction, StreamAction, StreamId,
};
use crate::text::{join, joined};
use color_eyre::eyre::Report;
use vstd::prelude::*;
use vstd::string::*;

verus! {

/// What has to be done for a request, one after another.
#[derive(Debug, Clone, Copy, PartialEq, Eq, Structural)]
pub enum Stage {
    /// Look up the addresses to connect to for the forwarded ports.
    Forwarding,
    /// Find the shell.
    Shell,
    OpenPty,
    Spawn,
    SetWindowSize,
    /// Get a second handle on the pseudo-terminal, for the standard streams.
    DuplicatePty,
}

impl Stage {
    /// What comes next, with or without a pseudo-terminal.
    pub open spec fn following(self, pty: bool) -> Option<Stage> {
        match self {
            Stage::Forwarding => Some(Stage::Shell),
            Stage::Shell => Some(
                if pty {
                    Stage::OpenPty
                } else {
                    Stage::Spawn
                },
            ),
            Stage::OpenPty => Some(Stage::Spawn),
            Stage::Spawn => if pty {
                Some(Stage::SetWindowSize)
            } else {
                None
            },
            Stage::SetWindowSize => Some(Stage::DuplicatePty),
            Stage::DuplicatePty => None,
        }
    }

    /// What is said of a failure, in front of its cause.
    pub open spec fn context(self) -> Seq<Seq<char>> {
        match self {
            Stage::Forwarding => seq!["failed to prepare for local port forwarding"@],
            Stage::Shell => seq!["failed to start process"@],
            Stage::OpenPty => seq!["failed to start process"@, "failed to open pty master"@],
            Stage::Spawn => seq!["failed to start process"@, "failed to spawn process"@],
            Stage::SetWindowSize => seq!["failed to start process"@, "failed to set window size"@],
            Stage::DuplicatePty => seq![
                "failed to start process"@,
                "failed to duplicate PTY master fd"@,
            ],
        }
    }

    /// What comes next, with or without a pseudo-terminal.
    pub fn next(self, pty: bool) -> (stage: Option<Stage>)
        ensures
            stage == self.following(pty),
            stage matches Some(next) && (next is OpenPty || next is SetWindowSize) ==> pty,
            stage == Some(Stage::DuplicatePty) <==> self is SetWindowSize,
    {
        match self {
            Stage::Forwarding => Some(Stage::Shell),
            Stage::Shell => if pty {
                Some(Stage::OpenPty)
            } else {
                Some(Stage::Spawn)
            },
            Stage::OpenPty => Some(Stage::Spawn),
            Stage::Spawn => if pty {
                Some(Stage::SetWindowSize)
            } else {
                None
            },
            Stage::SetWindowSize => Some(Stage::DuplicatePty),
            Stage::DuplicatePty => None,
        }
    }
}

/// What happened to a request.
pub enum RequestEvent {
    Done,
    Failed(Report),
}

/// What has to be done next for a request.
pub enum RequestStep {
    Do(Stage),
    /// The command runs.
    Started,
    /// The request failed. The client is told why.
    Fail(Report),
}

/// Goes on with a request after a stage of it. Nothing is done after a failure.
pub fn handle_request(stage: Stage, pty: bool, event: RequestEvent) -> (step: RequestStep)
    ensures
        match event {
            RequestEvent::Done => match stage.following(pty) {
                Some(next) => step == RequestStep::Do(next),
                None => step == RequestStep::Started,
            },
            RequestEvent::Failed(cause) => step matches RequestStep::Fail(err) && report_messages(
                err,
            ) == stage.context() + report_messages(cause),
        },
{
    match event {
        RequestEvent::Done => match stage.next(pty) {
            Some(next) => RequestStep::Do(next),
            None => RequestStep::Started,
        },
        RequestEvent::Failed(cause) => {
            let inner: Report = match stage {
                Stage::Forwarding | Stage::Shell => cause,
                Stage::OpenPty => wrap_report(cause, "failed to open pty master".to_owned()),
                Stage::Spawn => wrap_report(cause, "failed to spawn process".to_owned()),
                Stage::SetWindowSize => wrap_report(cause, "failed to set window size".to_owned()),
                Stage::DuplicatePty => wrap_report(
                    cause,
                    "failed to duplicate PTY master fd".to_owned(),
                ),
            };
            let err: Report = match stage {
                Stage::Forwarding => wrap_report(
                    inner,
                    "failed to prepare for local port forwarding".to_owned(),
                ),
                _ => wrap_report(inner, "failed to start process".to_owned()),
            };
            assert(report_messages(err) == stage.context() + report_messages(cause));
            RequestStep::Fail(err)
        },
    }
}

/// How many stages are left before the command runs.
pub open spec fn stages_left(stage: Stage, pty: bool) -> nat
    decreases
            match stage {
                Stage::Forwarding => 6int,
                Stage::Shell => 5,
                Stage::OpenPty => 4,
                Stage::Spawn => 3,
                Stage::SetWindowSize => 2,
                Stage::DuplicatePty => 1,
            },
{
    match stage.following(pty) {
        Some(next) => 1 + stages_left(next, pty),
        None => 1,
    }
}

/// A request comes to an end, and a command gets its pseudo-terminal before it runs if and only
/// if it asks for one.
pub proof fn a_request_comes_to_an_end(pty: bool)
    ensures
        stages_left(Stage::Forwarding, pty) == if pty {
            6int
        } else {
            3
        },
        forall|stage: Stage| #[trigger]
            stage.following(pty) matches Some(next) ==> (next is OpenPty ==> pty),
        Stage::Shell.following(true) == Some(Stage::OpenPty),
        Stage::OpenPty.following(true) == Some(Stage::Spawn),
{
    reveal_with_fuel(stages_left, 7);
}

/// The addresses that were looked up, unless one could not be.
pub fn prepare_local_forwarding(looked_up: Vec<Result<SocketAddrs, Report>>) -> (res: Result<
    Vec<SocketAddrs>,
    Report,
>)
    ensures
        match res {
            Ok(addrs) => looked_up@ == Seq::new(
                addrs@.len(),
                |i: int| Ok::<SocketAddrs, Report>(addrs@[i]),
            ),
            Err(err) => exists|i: int|
                0 <= i < looked_up@.len() && #[trigger] looked_up@[i] == Err::<SocketAddrs, Report>(
                    err,
                ) && forall|j: int| 0 <= j < i ==> (#[trigger] looked_up@[j]) is Ok,
        },
{
    let ghost all: Seq<Result<SocketAddrs, Report>> = looked_up@;
    let mut rest: Vec<Result<SocketAddrs, Report>> = looked_up;
    let mut addrs: Vec<SocketAddrs> = Vec::new();
    while rest.len() > 0
        invariant
            all == looked_up@,
            addrs@.len() + rest@.len() == all.len(),
            rest@ == all.skip(addrs@.len() as int),
            forall|i: int|
                0 <= i < addrs@.len() ==> #[trigger] all[i] == Ok::<SocketAddrs, Report>(addrs@[i]),
        decreases rest@.len(),
    {
        let ghost i: int = addrs@.len() as int;
        match rest.remove(0) {
            Ok(addr) => {
                assert(all[i] == Ok::<SocketAddrs, Report>(addr));
                addrs.push(addr);
                assert(rest@ == all.skip(addrs@.len() as int));
            },
            Err(err) => {
                assert(looked_up@[i] == Err::<SocketAddrs, Report>(err));
                return Err(err);
            },
        }
    }
    assert(all == Seq::new(addrs@.len(), |i: int| Ok::<SocketAddrs, Report>(addrs@[i])));
    Ok(addrs)
}

/// The shell of the user: what the password file says, where it has the user, and what the
/// environment says otherwise.
pub fn login_shell(
    passwd: Option<Result<String, Report>>,
    environment: Option<Vec<u8>>,
) -> (res: Result<Vec<u8>, Report>)
    ensures
        match (passwd, environment) {
            (Some(Ok(shell)), _) => res matches Ok(path) && path@ == vstd::utf8::encode_utf8(
                shell@,
            ),
            (Some(Err(err)), _) => res == Err::<Vec<u8>, Report>(err),
            (None, Some(shell)) => res == Ok::<Vec<u8>, Report>(shell),
            (None, None) => res matches Err(err) && report_messages(err) == seq![
                "cannot get login shell for the user"@,
            ],
        },
{
    match passwd {
        Some(Ok(shell)) => Ok(shell.as_str().as_bytes_vec()),
        Some(Err(err)) => Err(err),
        None => match environment {
            Some(shell) => Ok(shell),
            None => Err(new_report("cannot get login shell for the user".to_owned())),
        },
    }
}

/// The process to run.
#[derive(Debug, Clone, PartialEq, Eq)]
pub struct ProcessPlan {
    pub program: Vec<u8>,
    /// The name that the program is told to have.
    pub arg0: Vec<u8>,
    pub args: Vec<String>,
    pub envs: Vec<(String, String)>,
    /// It gets the environment of the server too.
    pub inherits_envs: bool,
    /// It is killed when the connection ends before it does.
    pub kill_on_drop: bool,
    /// The pseudo-terminal that its standard streams are connected to, in place of pipes.
    pub pty: Option<PtyParam>,
}

/// The first character of the name of a login shell.
pub const LOGIN_MARK: u8 = 45;

/// The arguments that make a shell run a command; none for the shell alone.
pub open spec fn shell_args(command: ExecuteCommand) -> Seq<Seq<char>> {
    match command {
        ExecuteCommand::LoginShell => Seq::empty(),
        ExecuteCommand::Program { command } => seq!["-c"@, joined(texts(command@), " "@)],
    }
}

/// The process that a request asks for, by means of the shell: as a login shell, which runs the
/// command if there is one. It gets no environment but that of the request, and does not outlive
/// the connection.
pub fn spawn_process(req: ExecuteRequest, shell: Vec<u8>) -> (plan: ProcessPlan)
    ensures
        plan.program == shell,
        plan.arg0@ == seq![LOGIN_MARK] + shell@,
        texts(plan.args@) == shell_args(req.command),
        match req.command {
            ExecuteCommand::LoginShell => plan.args@.len() == 0,
            ExecuteCommand::Program { command } => plan.args@.len() == 2 && plan.args@[0]@ == "-c"@
                && plan.args@[1]@ == joined(texts(command@), " "@),
        },
        plan.envs == req.envs,
        !plan.inherits_envs,
        plan.kill_on_drop,
        plan.pty == req.pty_param,
{
    let mut arg0: Vec<u8> = Vec::new();
    arg0.push(LOGIN_MARK);
    arg0.extend_from_slice(shell.as_slice());
    assert(arg0@ == seq![LOGIN_MARK] + shell@);
    let mut args: Vec<String> = Vec::new();
    match &req.command {
        ExecuteCommand::LoginShell => {},
        ExecuteCommand::Program { command } => {
            args.push("-c".to_owned());
            args.push(join(command, " "));
        },
    }
    assert(texts(args@) == shell_args(req.command));
    assert(texts(args@).len() == args@.len());
    assert(forall|i: int| 0 <= i < args@.len() ==> texts(args@)[i] == #[trigger] args@[i]@);
    ProcessPlan {
        program: shell,
        arg0,
        args,
        envs: req.envs,
        inherits_envs: false,
        kill_on_drop: true,
        pty: req.pty_param,
    }
}

/// What a standard stream of the process is connected to.
#[derive(Debug, Clone, Copy, PartialEq, Eq, Structural)]
pub enum StdioEnd {
    Pty,
    Pipe,
}

/// What the standard input, output and error of a process are connected to, if to anything.
#[derive(Debug, Clone, Copy, PartialEq, Eq, Structural)]
pub struct Stdio {
    pub stdin: Option<StdioEnd>,
    pub stdout: Option<StdioEnd>,
    pub stderr: Option<StdioEnd>,
}

/// A pipe, if there is one.
pub open spec fn pipe_if(yes: bool) -> Option<StdioEnd> {
    if yes {
        Some(StdioEnd::Pipe)
    } else {
        None
    }
}

/// What the standard streams are connected to: on a pseudo-terminal the error output is not
/// apart from the output; otherwise to those pipes of the process that there are.
pub fn bind_stdio(pty: bool, stdin: bool, stdout: bool, stderr: bool) -> (stdio: Stdio)
    ensures
        stdio == if pty {
            Stdio { stdin: Some(StdioEnd::Pty), stdout: Some(StdioEnd::Pty), stderr: None }
        } else {
            Stdio { stdin: pipe_if(stdin), stdout: pipe_if(stdout), stderr: pipe_if(stderr) }
        },
        stdio.stdin is Some <==> pty || stdin,
        stdio.stdout is Some <==> pty || stdout,
        stdio.stderr is Some <==> !pty && stderr,
        stdio.stdin matches Some(end) ==> (end is Pty <==> pty),
        stdio.stdout matches Some(end) ==> (end is Pty <==> pty),
        stdio.stderr matches Some(end) ==> end is Pipe,
{
    if pty {
        Stdio { stdin: Some(StdioEnd::Pty), stdout: Some(StdioEnd::Pty), stderr: None }
    } else {
        Stdio {
            stdin: if stdin {
                Some(StdioEnd::Pipe)
            } else {
                None
            },
            stdout: if stdout {
                Some(StdioEnd::Pipe)
            } else {
                None
            },
            stderr: if stderr {
                Some(StdioEnd::Pipe)
            } else {
                None
            },
        }
    }
}

/// What to do when a command has started, beside running the receiver and the sender.
pub enum ServeStart {
    /// Run the writing end of this stream.
    Sink(StreamId),
    /// Run the reading end of this stream.
    Source(StreamId),
    /// Send this.
    Send(ServerAction),
    /// Run the connecting side of this port.
    Connecter(PortId, SocketAddrs),
}

/// What to do for the standard input of the process: the client is told at once if it has none.
pub open spec fn start_of_sink(id: StreamId, end: Option<StdioEnd>) -> ServeStart {
    match end {
        Some(_) => ServeStart::Sink(id),
        None => ServeStart::Send(
            ServerAction::StreamAction(id, StreamAction::SinkAction(SinkAction::SinkClosed)),
        ),
    }
}

/// What to do for an output of the process: the client is told at once if it has none.
pub open spec fn start_of_source(id: StreamId, end: Option<StdioEnd>) -> ServeStart {
    match end {
        Some(_) => ServeStart::Source(id),
        None => ServeStart::Send(
            ServerAction::StreamAction(id, StreamAction::SourceAction(SourceAction::SourceClosed)),
        ),
    }
}

/// All that is to be done when a command has started, in order.
pub open spec fn starts(stdio: Stdio, connect_addrs: Seq<SocketAddrs>) -> Seq<ServeStart> {
    seq![
        start_of_sink(StreamId::Stdin, stdio.stdin),
        start_of_source(StreamId::Stdout, stdio.stdout),
        start_of_source(StreamId::Stderr, stdio.stderr),
    ] + Seq::new(
        connect_addrs.len(),
        |i: int| ServeStart::Connecter(PortId(i as u32), connect_addrs[i]),
    )
}

/// Starts the writing end of a stream.
fn start_sink(id: StreamId, end: Option<StdioEnd>) -> (start: ServeStart)
    ensures
        start == start_of_sink(id, end),
{
    if end.is_some() {
        ServeStart::Sink(id)
    } else {
        ServeStart::Send(
            ServerAction::StreamAction(id, StreamAction::SinkAction(SinkAction::SinkClosed)),
        )
    }
}

/// Starts the reading end of a stream.
fn start_source(id: StreamId, end: Option<StdioEnd>) -> (start: ServeStart)
    ensures
        start == start_of_source(id, end),
{
    if end.is_some() {
        ServeStart::Source(id)
    } else {
        ServeStart::Send(
            ServerAction::StreamAction(id, StreamAction::SourceAction(SourceAction::SourceClosed)),
        )
    }
}

/// What to do when a command has started.
pub fn serve(stdio: Stdio, connect_addrs: Vec<SocketAddrs>) -> (list: Vec<ServeStart>)
    requires
        connect_addrs@.len() < u32::MAX,
    ensures
        list@ == starts(stdio, connect_addrs@),
        list@.len() == 3 + connect_addrs@.len(),
        list@[0] == if stdio.stdin is Some {
            ServeStart::Sink(StreamId::Stdin)
        } else {
            ServeStart::Send(
                ServerAction::StreamAction(
                    StreamId::Stdin,
                    StreamAction::SinkAction(SinkAction::SinkClosed),
                ),
            )
        },
        list@[1] == if stdio.stdout is Some {
            ServeStart::Source(StreamId::Stdout)
        } else {
            ServeStart::Send(
                ServerAction::StreamAction(
                    StreamId::Stdout,
                    StreamAction::SourceAction(SourceAction::SourceClosed),
                ),
            )
        },
        list@[2] == if stdio.stderr is Some {
            ServeStart::Source(StreamId::Stderr)
        } else {
            ServeStart::Send(
                ServerAction::StreamAction(
                    StreamId::Stderr,
                    StreamAction::SourceAction(SourceAction::SourceClosed),
                ),
            )
        },
        forall|i: int|
            0 <= i < connect_addrs@.len() ==> #[trigger] list@[3 + i] == ServeStart::Connecter(
                PortId(i as u32),
                connect_addrs@[i],
            ),
{
    let ghost all: Seq<SocketAddrs> = connect_addrs@;
    let mut list: Vec<ServeStart> = Vec::new();
    list.push(start_sink(StreamId::Stdin, stdio.stdin));
    list.push(start_source(StreamId::Stdout, stdio.stdout));
    list.push(start_source(StreamId::Stderr, stdio.stderr));
    let ports: Vec<PortId> = port_ids(connect_addrs.len());
    let mut rest: Vec<SocketAddrs> = connect_addrs;
    let mut i: usize = 0;
    assert(starts(stdio, all).take(3) == list@);
    while i < ports.len()
        invariant
            all.len() < u32::MAX,
            ports@ == Seq::new(all.len(), |i: int| PortId(i as u32)),
            i <= all.len(),
            rest@ == all.skip(i as int),
            list@ == starts(stdio, all).take(3 + i),
        decreases all.len() - i,
    {
        let addrs: SocketAddrs = rest.remove(0);
        list.push(ServeStart::Connecter(ports[i], addrs));
        proof {
            assert(starts(stdio, all).take(3 + i + 1) == starts(stdio, all).take(3 + i).push(
                starts(stdio, all)[3 + i],
            ));
            assert(starts(stdio, all)[3 + i] == ServeStart::Connecter(
                PortId(i as u32),
                all[i as int],
            ));
        }
        i = i + 1;
        assert(rest@ == all.skip(i as int));
    }
    assert(starts(stdio, all).take(3 + all.len() as int) == starts(stdio, all));
    list
}

/// Each standard stream that the client handles has its other end on the server, or the client
/// is told that it has none.
pub proof fn every_stream_has_two_ends(
    param: ServeParam,
    stdio: Stdio,
    connect_addrs: Seq<SocketAddrs>,
    i: int,
)
    requires
        0 <= i < handlers(param).len(),
    ensures
        match handlers(param)[i] {
            Handler::Source(id) => starts(stdio, connect_addrs).contains(ServeStart::Sink(id))
                || starts(stdio, connect_addrs).contains(
                ServeStart::Send(
                    ServerAction::StreamAction(
                        id,
                        StreamAction::SinkAction(SinkAction::SinkClosed),
                    ),
                ),
            ),
            Handler::Sink(id) => starts(stdio, connect_addrs).contains(ServeStart::Source(id))
                || starts(stdio, connect_addrs).contains(
                ServeStart::Send(
                    ServerAction::StreamAction(
                        id,
                        StreamAction::SourceAction(SourceAction::SourceClosed),
                    ),
                ),
            ),
            Handler::WindowChange => true,
        },
{
    let all = starts(stdio, connect_addrs);
    assert(all[0] == start_of_sink(StreamId::Stdin, stdio.stdin));
    assert(all[1] == start_of_source(StreamId::Stdout, stdio.stdout));
    assert(all[2] == start_of_source(StreamId::Stderr, stdio.stderr));
    assert(all.contains(all[0]) && all.contains(all[1]) && all.contains(all[2]));
}

/// How a process ended: with a code, or by a signal.
pub open spec fn status_of(code: Option<i32>, signal: Option<i32>) -> ExitStatus {
    match code {
        Some(code) => ExitStatus::Code(code),
        None => ExitStatus::Signal(signal->0),
    }
}

/// How a process ended: with a code, or by a signal.
pub fn exit_status(code: Option<i32>, signal: Option<i32>) -> (status: ExitStatus)
    requires
        code is Some || signal is Some,
    ensures
        status == status_of(code, signal),
        match code {
            Some(code) => status == ExitStatus::Code(code),
            None => status == ExitStatus::Signal(signal->0),
        },
{
    match code {
        Some(code) => ExitStatus::Code(code),
        None => ExitStatus::Signal(signal.unwrap()),
    }
}

/// What ends the service.
#[derive(Debug, Clone, Copy, PartialEq, Eq)]
pub enum ServeEvent {
    /// The process ended, with this code or by this signal.
    ChildEnded(Option<i32>, Option<i32>),
    /// The client is out of reach.
    Disconnected,
}

/// What to do then.
#[derive(Clone, PartialEq, Eq)]
pub enum ServeEnd {
    /// Send these, one after another.
    Send(Vec<ServerAction>),
    /// Kill the process.
    Kill,
}

/// Ends the service. The client is told that the standard input of the process is closed, and
/// then how the process ended; without a client the process is killed.
pub fn end_service(event: ServeEvent) -> (end: ServeEnd)
    requires
        event matches ServeEvent::ChildEnded(code, signal) ==> code is Some || signal is Some,
    ensures
        match event {
            ServeEvent::ChildEnded(code, signal) => end matches ServeEnd::Send(actions) && actions@
                == seq![
                ServerAction::StreamAction(
                    StreamId::Stdin,
                    StreamAction::SinkAction(SinkAction::SinkClosed),
                ),
                ServerAction::Exit(status_of(code, signal)),
            ],
            ServeEvent::Disconnected => end == ServeEnd::Kill,
        },
        event matches ServeEvent::ChildEnded(code, signal) ==> end matches ServeEnd::Send(actions)
            && actions@.len() == 2 && actions@[1] == ServerAction::Exit(
            match code {
                Some(code) => ExitStatus::Code(code),
                None => ExitStatus::Signal(signal->0),
            },
        ),
{
    match event {
        ServeEvent::ChildEnded(code, signal) => {
            let mut actions: Vec<ServerAction> = Vec::new();
            actions.push(
                ServerAction::StreamAction(
                    StreamId::Stdin,
                    StreamAction::SinkAction(SinkAction::SinkClosed),
                ),
            );
            actions.push(ServerAction::Exit(exit_status(code, signal)));
            assert(actions@ == seq![
                ServerAction::StreamAction(
                    StreamId::Stdin,
                    StreamAction::SinkAction(SinkAction::SinkClosed),
                ),
                ServerAction::Exit(status_of(code, signal)),
            ]);
            ServeEnd::Send(actions)
        },
        ServeEvent::Disconnected => ServeEnd::Kill,
    }
}

/// The error when one of the messages that end the service could not be sent, after so many were.
pub fn end_failed(sent: usize, cause: Report) -> (err: Report)
    ensures
        report_messages(err) == if sent == 0 {
            seq!["failed to send message"@] + report_messages(cause)
        } else {
            report_messages(cause)
        },
{
    if sent == 0 {
        wrap_report(cause, "failed to send message".to_owned())
    } else {
        cause
    }
}

/// What the server does for a request before and after it is handled.
#[derive(Debug, Clone, Copy, PartialEq, Eq, Structural)]
pub enum Exchange {
    ReceiveRequest,
    SendResponse,
}

impl Exchange {
    /// The error when this failed.
    pub fn failed(self, cause: Report) -> (err: Report)
        ensures
            report_messages(err) == seq![
                match self {
                    Exchange::ReceiveRequest => "failed to receive request"@,
                    Exchange::SendResponse => "failed to send response"@,
                },
            ] + report_messages(cause),
    {
        match self {
            Exchange::ReceiveRequest => wrap_report(cause, "failed to receive request".to_owned()),
            Exchange::SendResponse => wrap_report(cause, "failed to send response".to_owned()),
        }
    }
}

/// The client ends with the code that the process ended with on the server, or with one that
/// tells the signal.
pub proof fn the_client_ends_as_the_process(code: Option<i32>, signal: Option<i32>)
    requires
        code is Some || signal is Some,
    ensures
        exit_code_of(status_of(code, signal)) == match code {
            Some(code) => code as int,
            None => SIGNAL_BASE + signal->0,
        },
{
}

/// An end of a stream is run for each standard stream of the process that is connected to
/// anything, a pipe or a pseudo-terminal; and the client is told that a stream is closed exactly
/// where it is connected to nothing. Nothing else is sent, and the ports are served in the order
/// of the request, each for its own address.
pub proof fn every_connected_stream_is_run(stdio: Stdio, connect_addrs: Seq<SocketAddrs>)
    requires
        connect_addrs.len() < u32::MAX,
    ensures
        ({
            let all = starts(stdio, connect_addrs);
            &&& stdio.stdin is Some <==> all.contains(ServeStart::Sink(StreamId::Stdin))
            &&& stdio.stdout is Some <==> all.contains(ServeStart::Source(StreamId::Stdout))
            &&& stdio.stderr is Some <==> all.contains(ServeStart::Source(StreamId::Stderr))
            &&& stdio.stdin is None <==> all.contains(
                ServeStart::Send(
                    ServerAction::StreamAction(
                        StreamId::Stdin,
                        StreamAction::SinkAction(SinkAction::SinkClosed),
                    ),
                ),
            )
            &&& stdio.stdout is None <==> all.contains(
                ServeStart::Send(
                    ServerAction::StreamAction(
                        StreamId::Stdout,
                        StreamAction::SourceAction(SourceAction::SourceClosed),
                    ),
                ),
            )
            &&& stdio.stderr is None <==> all.contains(
                ServeStart::Send(
                    ServerAction::StreamAction(
                        StreamId::Stderr,
                        StreamAction::SourceAction(SourceAction::SourceClosed),
                    ),
                ),
            )
            &&& all.len() == 3 + connect_addrs.len()
            &&& forall|i: int|
                0 <= i < connect_addrs.len() ==> (#[trigger] all[3 + i]) == ServeStart::Connecter(
                    PortId(i as u32),
                    connect_addrs[i],
                )
            &&& forall|i: int| 0 <= i < 3 ==> !((#[trigger] all[i]) is Connecter)
        }),
{
    let all = starts(stdio, connect_addrs);
    assert(all.len() == 3 + connect_addrs.len());
    assert(all[0] == start_of_sink(StreamId::Stdin, stdio.stdin));
    assert(all[1] == start_of_source(StreamId::Stdout, stdio.stdout));
    assert(all[2] == start_of_source(StreamId::Stderr, stdio.stderr));
    assert(all.contains(all[0]) && all.contains(all[1]) && all.contains(all[2]));
    assert forall|i: int| 3 <= i < all.len() implies (#[trigger] all[i]) is Connecter by {}
}

/// A process ends for the client as it ended on the server: by its code where it has one, and by
/// the signal only where it has none. Different ends stay different.
pub proof fn the_status_tells_how_the_process_ended(
    code: Option<i32>,
    signal: Option<i32>,
    other: i32,
)
    ensures
        code matches Some(c) ==> status_of(code, signal) == ExitStatus::Code(c),
        code is None && signal is Some ==> status_of(code, signal) == ExitStatus::Signal(
            signal->0,
        ),
        exit_code_of(ExitStatus::Code(other)) == other,
        exit_code_of(ExitStatus::Signal(other)) - exit_code_of(ExitStatus::Code(other)) == 128,
{
}

/// The stages of a request from one on, one after another.
pub open spec fn stages_from(stage: Stage, pty: bool) -> Seq<Stage>
    decreases stages_left(stage, pty),
{
    match stage.following(pty) {
        Some(next) => seq![stage] + stages_from(next, pty),
        None => seq![stage],
    }
}

/// The addresses are looked up and the shell is found before anything else is done; without a
/// pseudo-terminal the process is spawned then, and with one it is opened first, and given its
/// size and its second handle after that.
pub proof fn the_stages_come_in_order(pty: bool)
    ensures
        stages_from(Stage::Forwarding, pty) == seq![Stage::Forwarding, Stage::Shell] + if pty {
            seq![Stage::OpenPty, Stage::Spawn, Stage::SetWindowSize, Stage::DuplicatePty]
        } else {
            seq![Stage::Spawn]
        },
{
    reveal_with_fuel(stages_left, 8);
    reveal_with_fuel(stages_from, 8);
    assert(stages_from(Stage::Forwarding, pty) == seq![Stage::Forwarding, Stage::Shell] + if pty {
        seq![Stage::OpenPty, Stage::Spawn, Stage::SetWindowSize, Stage::DuplicatePty]
    } else {
        seq![Stage::Spawn]
    });
}

/// Any command is given to the shell as one argument, of one word or of many: a word alone is
/// that word, and a word more stands after a space. Only the shell alone gets no arguments.
pub proof fn the_shell_is_given_the_whole_command(command: Vec<String>, longer: Vec<String>)
    requires
        longer@.len() == command@.len() + 1,
        longer@.take(command@.len() as int) == command@,
    ensures
        ({
            let args = shell_args(ExecuteCommand::Program { command });
            let more = shell_args(ExecuteCommand::Program { command: longer });
            let word = longer@.last()@;
            &&& shell_args(ExecuteCommand::LoginShell).len() == 0
            &&& args.len() == 2
            &&& more.len() == 2
            &&& args[0] == "-c"@
            &&& more[0] == "-c"@
            &&& more[1] == if command@.len() == 0 {
                word
            } else {
                args[1] + " "@ + word
            }
            &&& command@.len() == 0 ==> args[1].len() == 0
        }),
{
    assert(texts(longer@).drop_last() == texts(command@)) by {
        assert forall|i: int| 0 <= i < command@.len() implies texts(longer@).drop_last()[i]
            == #[trigger] texts(command@)[i] by {
            assert(longer@.take(command@.len() as int)[i] == longer@[i]);
        }
    }
    assert(texts(longer@).last() == longer@.last()@);
}

/// Each standard stream of a process is connected to the pseudo-terminal or to its pipe, if there
/// is one; only on a pseudo-terminal is the error output connected to nothing of its own.
pub proof fn a_pipe_is_connected_where_there_is_one(yes: bool)
    ensures
        pipe_if(yes) is Some <==> yes,
        pipe_if(yes) matches Some(end) ==> end is Pipe,
{
}

} // verus!
