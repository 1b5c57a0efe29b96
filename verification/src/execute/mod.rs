//! The client: it has a command run by a server, and stands in for its terminal.
pub mod receiver;
pub mod sender;
pub mod window_change;

use crate::error::{report_messages, wrap_err, wrap_report};
use crate::net::SocketAddr;
use crate::protocol::{
    received_messages, ExecuteCommand, ExecuteRequest, ExitStatus, PtyParam, Response, StreamId,
    WindowSize,
};
use color_eyre::eyre::Report;
use vstd::prelude::*;
use vstd::string::*;

verus! {

/// What the user asks for.
#[derive(Debug, Clone, PartialEq, Eq)]
pub struct Args {
    /// Disable pseudo-terminal allocation.
    pub disable_pty: bool,
    /// Force pseudo-terminal allocation: how many times the user asked for it. Asked for more
    /// than once, it is forced even without a local terminal.
    pub force_enable_pty: u32,
    /// The server.
    pub host: SocketAddr,
    /// The command, with its arguments; empty for a login shell.
    pub command: Vec<String>,
    /// The addresses that the server connects to for the forwarded ports.
    pub connect_addrs: Vec<String>,
}

/// The first address that came of looking one up.
pub fn parse_addr(looked_up: Result<Vec<SocketAddr>, String>) -> (res: Result<SocketAddr, String>)
    ensures
        match looked_up {
            Ok(addrs) => if addrs@.len() > 0 {
                res == Ok::<SocketAddr, String>(addrs@[0])
            } else {
                res matches Err(message) && message@ == "failed to lookup address information"@
            },
            Err(message) => res == Err::<SocketAddr, String>(message),
        },
{
    match looked_up {
        Ok(addrs) => {
            if addrs.len() > 0 {
                Ok(addrs[0])
            } else {
                Err("failed to lookup address information".to_owned())
            }
        },
        Err(message) => Err(message),
    }
}

/// Whether to run the command on a pseudo-terminal.
#[derive(Debug, Clone, Copy, PartialEq, Eq, Structural)]
pub enum PtyMode {
    /// A login shell is, another command is not.
    Auto,
    Disable,
    Enable,
}

/// What is known of the terminal that the client runs on.
#[derive(Debug, Clone, PartialEq, Eq)]
pub struct LocalTerminal {
    /// The standard input is a terminal.
    pub has_tty: bool,
    /// The size of its window, where it could be got.
    pub window_size: Option<WindowSize>,
    /// What the environment says of its kind.
    pub term: Option<String>,
}

/// The size of a window of which the size could not be got.
pub const DEFAULT_WIDTH: u16 = 80;

pub const DEFAULT_HEIGHT: u16 = 60;

impl Args {
    /// The user does not ask for both.
    pub open spec fn wf(&self) -> bool {
        self.disable_pty ==> self.force_enable_pty == 0
    }

    pub open spec fn mode(&self) -> PtyMode {
        if self.disable_pty {
            PtyMode::Disable
        } else if self.force_enable_pty > 0 {
            PtyMode::Enable
        } else {
            PtyMode::Auto
        }
    }

    /// The user asks for a pseudo-terminal, or the command needs one.
    pub open spec fn wants_pty(&self) -> bool {
        match self.mode() {
            PtyMode::Auto => self.command@.len() == 0,
            PtyMode::Disable => false,
            PtyMode::Enable => true,
        }
    }

    /// There will be a pseudo-terminal.
    pub open spec fn gets_pty(&self, has_tty: bool) -> bool {
        self.wants_pty() && (self.force_enable_pty >= 2 || has_tty)
    }

    pub fn pty_mode(&self) -> (mode: PtyMode)
        requires
            self.wf(),
        ensures
            mode == self.mode(),
            mode is Disable <==> self.disable_pty,
            mode is Enable <==> self.force_enable_pty > 0,
    {
        if self.disable_pty {
            PtyMode::Disable
        } else if self.force_enable_pty > 0 {
            PtyMode::Enable
        } else {
            PtyMode::Auto
        }
    }

    /// Decides on the pseudo-terminal. The size and the kind of the local terminal are needed
    /// only where there will be one.
    pub fn pty_decision(&self, has_tty: bool) -> (decision: PtyDecision)
        requires
            self.wf(),
        ensures
            decision == if self.gets_pty(has_tty) {
                PtyDecision::Allocate
            } else if self.wants_pty() {
                PtyDecision::NoTerminal
            } else {
                PtyDecision::NotWanted
            },
            decision is NotWanted <==> self.disable_pty || (self.force_enable_pty == 0
                && self.command@.len() > 0),
            decision is NoTerminal ==> !has_tty && self.force_enable_pty < 2,
            decision is Allocate ==> has_tty || self.force_enable_pty >= 2,
    {
        let wanted: bool = match self.pty_mode() {
            PtyMode::Auto => self.command.is_empty(),
            PtyMode::Disable => false,
            PtyMode::Enable => true,
        };
        if !wanted {
            PtyDecision::NotWanted
        } else if self.force_enable_pty < 2 && !has_tty {
            PtyDecision::NoTerminal
        } else {
            PtyDecision::Allocate
        }
    }
}

/// What is decided on the pseudo-terminal.
#[derive(Debug, Clone, Copy, PartialEq, Eq, Structural)]
pub enum PtyDecision {
    Allocate,
    /// The user is warned that there will be none, because the standard input is not a terminal.
    NoTerminal,
    NotWanted,
}

/// The request to the server for what the user asks for.
pub fn create_request(args: Args, terminal: LocalTerminal) -> (res: (SocketAddr, ExecuteRequest))
    requires
        args.wf(),
    ensures
        res.0 == args.host,
        res.1.command == if args.command@.len() == 0 {
            ExecuteCommand::LoginShell
        } else {
            ExecuteCommand::Program { command: args.command }
        },
        res.1.pty_param == if args.gets_pty(terminal.has_tty) {
            Some(
                PtyParam {
                    window_size: match terminal.window_size {
                        Some(size) => size,
                        None => WindowSize { width: DEFAULT_WIDTH, height: DEFAULT_HEIGHT },
                    },
                },
            )
        } else {
            None
        },
        match terminal.term {
            Some(term) if args.gets_pty(terminal.has_tty) => res.1.envs@.len() == 1
                && res.1.envs@[0].0@ == "TERM"@ && res.1.envs@[0].1 == term,
            _ => res.1.envs@.len() == 0,
        },
        res.1.connect_addrs == args.connect_addrs,
{
    let decision: PtyDecision = args.pty_decision(terminal.has_tty);
    let command: ExecuteCommand = if args.command.is_empty() {
        ExecuteCommand::LoginShell
    } else {
        ExecuteCommand::Program { command: args.command }
    };
    let mut envs: Vec<(String, String)> = Vec::new();
    let pty_param: Option<PtyParam> = match decision {
        PtyDecision::Allocate => {
            let window_size: WindowSize = match terminal.window_size {
                Some(size) => size,
                None => WindowSize { width: DEFAULT_WIDTH, height: DEFAULT_HEIGHT },
            };
            if let Some(term) = terminal.term {
                envs.push(("TERM".to_owned(), term));
            }
            Some(PtyParam { window_size })
        },
        PtyDecision::NoTerminal | PtyDecision::NotWanted => None,
    };
    (
        args.host,
        ExecuteRequest { command, envs, pty_param, connect_addrs: args.connect_addrs },
    )
}

/// A pseudo-terminal that the user disabled is never asked for, and one that the user forced
/// twice always is. None is asked for otherwise without a local terminal.
pub proof fn the_user_decides_on_the_pty(args: Args, has_tty: bool)
    requires
        args.wf(),
    ensures
        args.disable_pty ==> !args.gets_pty(has_tty),
        args.force_enable_pty >= 2 ==> args.gets_pty(has_tty),
        args.force_enable_pty < 2 && !has_tty ==> !args.gets_pty(has_tty),
        args.force_enable_pty == 1 && has_tty ==> args.gets_pty(has_tty),
        args.force_enable_pty == 0 && !args.disable_pty && has_tty ==> args.gets_pty(has_tty) == (
        args.command@.len() == 0),
{
}

/// What the client does to have a request answered, one after another.
#[derive(Debug, Clone, Copy, PartialEq, Eq, Structural)]
pub enum ConnectStep {
    Connect,
    SendRequest,
    ReceiveResponse,
}

impl ConnectStep {
    /// What is said of its failure.
    pub open spec fn context(self) -> Seq<char> {
        match self {
            ConnectStep::Connect => "failed to connect to the server"@,
            ConnectStep::SendRequest => "failed to send request"@,
            ConnectStep::ReceiveResponse => "failed to receive response"@,
        }
    }

    /// The error when this failed.
    pub fn failed(self, cause: Report) -> (err: Report)
        ensures
            report_messages(err) == seq![self.context()] + report_messages(cause),
    {
        let context: &str = match self {
            ConnectStep::Connect => "failed to connect to the server",
            ConnectStep::SendRequest => "failed to send request",
            ConnectStep::ReceiveResponse => "failed to receive response",
        };
        wrap_report(cause, context.to_owned())
    }
}

/// What the answer of the server to the request tells.
pub fn connect(response: Response) -> (res: Result<(), Report>)
    ensures
        match response {
            Response::Success => res is Ok,
            Response::Failure(serial) => res matches Err(err) && report_messages(err) == seq![
                "failed to execute the program"@,
            ] + received_messages(serial@),
        },
{
    wrap_err(Result::<(), Report>::from(response), "failed to execute the program")
}

/// What the client takes care of while a command runs.
#[derive(Debug, Clone, Copy, PartialEq, Eq, Structural)]
pub struct ServeParam {
    pub allocate_pty: bool,
    pub handle_stdin: bool,
    pub handle_stdout: bool,
    pub handle_stderr: bool,
}

impl ServeParam {
    /// What a request makes the client take care of: the standard streams, and the size of the
    /// window where there is a pseudo-terminal.
    pub fn new(req: &ExecuteRequest) -> (param: Self)
        ensures
            param == (ServeParam {
                allocate_pty: req.pty_param is Some,
                handle_stdin: true,
                handle_stdout: true,
                handle_stderr: true,
            }),
    {
        ServeParam {
            allocate_pty: req.pty_param.is_some(),
            handle_stdin: true,
            handle_stdout: true,
            handle_stderr: true,
        }
    }
}

/// Something that the client runs beside the receiver and the sender.
#[derive(Debug, Clone, Copy, PartialEq, Eq, Structural)]
pub enum Handler {
    Source(StreamId),
    Sink(StreamId),
    WindowChange,
}

impl Handler {
    /// What is said when it cannot be started.
    pub open spec fn context(self) -> Seq<char> {
        match self {
            Handler::WindowChange => "failed to set signal handler"@,
            Handler::Source(StreamId::Stdout) | Handler::Sink(StreamId::Stdout) => {
                "failed to open stdout"@
            },
            Handler::Source(StreamId::Stderr) | Handler::Sink(StreamId::Stderr) => {
                "failed to open stderr"@
            },
            _ => "failed to open stdin"@,
        }
    }

    /// The error when it cannot be started.
    pub fn failed(self, cause: Report) -> (err: Report)
        requires
            !(self matches Handler::Source(id) && id is Forward),
            !(self matches Handler::Sink(id) && id is Forward),
        ensures
            report_messages(err) == seq![self.context()] + report_messages(cause),
    {
        let context: &str = match self {
            Handler::WindowChange => "failed to set signal handler",
            Handler::Source(StreamId::Stdout) | Handler::Sink(StreamId::Stdout) => {
                "failed to open stdout"
            },
            Handler::Source(StreamId::Stderr) | Handler::Sink(StreamId::Stderr) => {
                "failed to open stderr"
            },
            _ => "failed to open stdin",
        };
        wrap_report(cause, context.to_owned())
    }
}

/// A handler, if there is to be one.
pub open spec fn handler_if(yes: bool, handler: Handler) -> Seq<Handler> {
    if yes {
        seq![handler]
    } else {
        Seq::empty()
    }
}

/// All that the client runs beside the receiver and the sender, in the order of their start.
pub open spec fn handlers(param: ServeParam) -> Seq<Handler> {
    handler_if(param.handle_stdin, Handler::Source(StreamId::Stdin)) + handler_if(
        param.handle_stdout,
        Handler::Sink(StreamId::Stdout),
    ) + handler_if(param.handle_stderr, Handler::Sink(StreamId::Stderr)) + handler_if(
        param.allocate_pty,
        Handler::WindowChange,
    )
}

/// What to run while a command runs.
pub fn serve(param: &ServeParam) -> (list: Vec<Handler>)
    ensures
        list@ == handlers(*param),
        list@.contains(Handler::Source(StreamId::Stdin)) <==> param.handle_stdin,
        list@.contains(Handler::Sink(StreamId::Stdout)) <==> param.handle_stdout,
        list@.contains(Handler::Sink(StreamId::Stderr)) <==> param.handle_stderr,
        list@.contains(Handler::WindowChange) <==> param.allocate_pty,
{
    let mut list: Vec<Handler> = Vec::new();
    if param.handle_stdin {
        list.push(Handler::Source(StreamId::Stdin));
    }
    if param.handle_stdout {
        list.push(Handler::Sink(StreamId::Stdout));
    }
    if param.handle_stderr {
        list.push(Handler::Sink(StreamId::Stderr));
    }
    if param.allocate_pty {
        list.push(Handler::WindowChange);
    }
    assert(list@ == handlers(*param));
    proof {
        what_is_handled_is_run(*param);
    }
    list
}

/// What is added to the number of a signal.
pub const SIGNAL_BASE: i32 = 128;

/// The exit code that stands for how a process ended.
pub open spec fn exit_code_of(status: ExitStatus) -> int {
    match status {
        ExitStatus::Code(code) => code as int,
        ExitStatus::Signal(num) => SIGNAL_BASE + num,
    }
}

/// The exit code of the client for how the command ended.
pub fn exit_code(status: ExitStatus) -> (code: i32)
    requires
        exit_code_of(status) <= i32::MAX,
    ensures
        code == exit_code_of(status),
        match status {
            ExitStatus::Code(given) => code == given,
            ExitStatus::Signal(num) => code == 128 + num,
        },
{
    match status {
        ExitStatus::Code(code) => code,
        ExitStatus::Signal(num) => SIGNAL_BASE + num,
    }
}

/// How the client ends, once the command has ended or is out of reach.
pub fn finish(served: Result<ExitStatus, Report>) -> (res: Result<i32, Report>)
    requires
        served matches Ok(status) ==> exit_code_of(status) <= i32::MAX,
    ensures
        match served {
            Ok(status) => res matches Ok(code) && code == exit_code_of(status),
            Err(cause) => res matches Err(err) && report_messages(err) == seq!["internal error"@]
                + report_messages(cause),
        },
{
    match wrap_err(served, "internal error") {
        Ok(status) => Ok(exit_code(status)),
        Err(err) => Err(err),
    }
}

/// The exit code of a program that fails.
pub const FAILURE_CODE: i32 = 255;

/// The exit code of the program.
pub fn process_exit_code(res: &Result<i32, Report>) -> (code: i32)
    ensures
        code == match *res {
            Ok(code) => code,
            Err(_) => FAILURE_CODE,
        },
{
    match res {
        Ok(code) => *code,
        Err(_) => FAILURE_CODE,
    }
}

/// Any combination of options but to disable and to force a pseudo-terminal is in order. The user
/// wants one exactly if there would be one on a terminal, which is what is told of its kind: it
/// is disabled, forced, or left to the command.
pub proof fn the_options_decide_what_is_wanted(args: Args)
    ensures
        args.wf() <==> !(args.disable_pty && args.force_enable_pty > 0),
        args.wants_pty() <==> args.gets_pty(true),
        args.wf() && args.disable_pty ==> args.mode() is Disable && !args.wants_pty(),
        args.wf() && args.force_enable_pty > 0 ==> args.mode() is Enable && args.wants_pty(),
        !args.disable_pty && args.force_enable_pty == 0 ==> args.mode() is Auto && (
        args.wants_pty() <==> args.command@.len() == 0),
{
}

/// What the client is to take care of has a handler, and nothing else has; and none has two.
pub proof fn what_is_handled_is_run(param: ServeParam)
    ensures
        handlers(param).contains(Handler::Source(StreamId::Stdin)) <==> param.handle_stdin,
        handlers(param).contains(Handler::Sink(StreamId::Stdout)) <==> param.handle_stdout,
        handlers(param).contains(Handler::Sink(StreamId::Stderr)) <==> param.handle_stderr,
        handlers(param).contains(Handler::WindowChange) <==> param.allocate_pty,
        handlers(param).no_duplicates(),
        forall|i: int|
            0 <= i < handlers(param).len() ==> {
                ||| #[trigger] handlers(param)[i] == Handler::Source(StreamId::Stdin)
                ||| handlers(param)[i] == Handler::Sink(StreamId::Stdout)
                ||| handlers(param)[i] == Handler::Sink(StreamId::Stderr)
                ||| handlers(param)[i] is WindowChange
            },
{
    let a = handler_if(param.handle_stdin, Handler::Source(StreamId::Stdin));
    let b = handler_if(param.handle_stdout, Handler::Sink(StreamId::Stdout));
    let c = handler_if(param.handle_stderr, Handler::Sink(StreamId::Stderr));
    let d = handler_if(param.allocate_pty, Handler::WindowChange);
    let all = handlers(param);
    if param.handle_stdin {
        assert(all[0] == Handler::Source(StreamId::Stdin));
    }
    if param.handle_stdout {
        assert(all[a.len() as int] == Handler::Sink(StreamId::Stdout));
    }
    if param.handle_stderr {
        assert(all[(a.len() + b.len()) as int] == Handler::Sink(StreamId::Stderr));
    }
    if param.allocate_pty {
        assert(all[(a.len() + b.len() + c.len()) as int] == Handler::WindowChange);
    }
}

} // verus!
