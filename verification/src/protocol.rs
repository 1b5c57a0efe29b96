//! What the client and the server tell each other.
use crate::error::{chain_messages, new_report, report_messages, texts, wrap_report};
use crate::text::{
    decimal, decimal_text, hex_byte, hex_byte_text, joined, signed_decimal, signed_decimal_text,
};
use color_eyre::eyre::Report;
use vstd::prelude::*;
use vstd::string::*;

verus! {

/// An error on its way to the other side: the messages of its report, outermost first.
#[derive(Debug, Clone, PartialEq, Eq)]
pub struct SerialError(pub Vec<String>);

impl View for SerialError {
    type V = Seq<Seq<char>>;

    open spec fn view(&self) -> Seq<Seq<char>> {
        texts(self.0@)
    }
}

/// The messages of the error that an error on the wire stands for: its own, or one that tells
/// that it came without any.
pub open spec fn received_messages(messages: Seq<Seq<char>>) -> Seq<Seq<char>> {
    if messages.len() == 0 {
        seq!["failed to deserialize an error information"@]
    } else {
        messages
    }
}

impl SerialError {
    /// Takes the messages of a report.
    pub fn new(err: &Report) -> (serial: Self)
        ensures
            serial@ == report_messages(*err),
            serial@.len() > 0,
    {
        SerialError(chain_messages(err))
    }
}

impl From<SerialError> for Report {
    /// Builds the report back, from the root cause outwards.
    fn from(from: SerialError) -> (err: Self)
        ensures
            report_messages(err) == received_messages(from@),
            from@.len() > 0 ==> report_messages(err) == from@,
            from@.len() == 0 ==> report_messages(err) == seq![
                "failed to deserialize an error information"@,
            ],
    {
        let mut messages: Vec<String> = from.0;
        let ghost all: Seq<Seq<char>> = texts(messages@);
        let mut err: Option<Report> = None;
        while messages.len() > 0
            invariant
                messages@.len() <= all.len(),
                texts(messages@) == all.take(messages@.len() as int),
                match err {
                    Some(e) => messages@.len() < all.len() && report_messages(e) == all.skip(
                        messages@.len() as int,
                    ),
                    None => messages@.len() == all.len(),
                },
            decreases messages@.len(),
        {
            let ghost len: int = messages@.len() as int;
            let ghost before: Seq<Seq<char>> = texts(messages@);
            let message: String = messages.pop().unwrap();
            proof {
                assert(message@ == before[len - 1]);
                assert(all.skip(len - 1) == seq![message@] + all.skip(len));
                assert(texts(messages@) == all.take(len - 1));
                assert(all.skip(all.len() as int) == Seq::<Seq<char>>::empty());
            }
            err = Some(
                match err {
                    Some(e) => wrap_report(e, message),
                    None => new_report(message),
                },
            );
        }
        assert(all.skip(0) == all);
        match err {
            Some(e) => e,
            None => new_report("failed to deserialize an error information".to_owned()),
        }
    }
}

impl vstd::std_specs::convert::FromSpecImpl<SerialError> for Report {
    open spec fn obeys_from_spec() -> bool {
        false
    }

    open spec fn from_spec(from: SerialError) -> Self {
        arbitrary()
    }
}

/// An error that crosses the wire arrives with the messages that it left with.
pub proof fn errors_cross_the_wire_unchanged(sent: Report, serial: SerialError, received: Report)
    requires
        serial@ == report_messages(sent),
        serial@.len() > 0,
        report_messages(received) == received_messages(serial@),
    ensures
        report_messages(received) == report_messages(sent),
{
}

/// The answer to a request.
#[derive(Debug, Clone, PartialEq, Eq)]
pub enum Response {
    Success,
    Failure(SerialError),
}

impl Response {
    /// Tells how the work on a request ended.
    pub fn new<T>(res: &Result<T, Report>) -> (response: Self)
        ensures
            res is Ok ==> response is Success,
            res matches Err(err) ==> response matches Response::Failure(serial) && serial@
                == report_messages(*err) && serial@.len() > 0,
    {
        match res {
            Ok(_) => Response::Success,
            Err(err) => Response::Failure(SerialError::new(err)),
        }
    }
}

impl From<Response> for Result<(), Report> {
    /// The outcome that the response tells.
    fn from(res: Response) -> (outcome: Self)
        ensures
            res is Success ==> outcome is Ok,
            res matches Response::Failure(serial) ==> outcome matches Err(err) && report_messages(err)
                == received_messages(serial@),
    {
        match res {
            Response::Success => Ok(()),
            Response::Failure(err) => Err(Report::from(err)),
        }
    }
}

impl vstd::std_specs::convert::FromSpecImpl<Response> for Result<(), Report> {
    open spec fn obeys_from_spec() -> bool {
        false
    }

    open spec fn from_spec(res: Response) -> Self {
        arbitrary()
    }
}

/// A request to the server.
#[derive(Debug, Clone, PartialEq, Eq)]
pub enum Request {
    Execute(ExecuteRequest),
}

/// A request to run a command.
#[derive(Debug, Clone, PartialEq, Eq)]
pub struct ExecuteRequest {
    pub command: ExecuteCommand,
    pub envs: Vec<(String, String)>,
    pub pty_param: Option<PtyParam>,
    pub connect_addrs: Vec<String>,
}

/// What to run.
#[derive(Debug, Clone, PartialEq, Eq)]
pub enum ExecuteCommand {
    LoginShell,
    Program { command: Vec<String> },
}

/// The pseudo-terminal to run it on.
#[derive(Debug, Clone, Copy, PartialEq, Eq)]
pub struct PtyParam {
    pub window_size: WindowSize,
}

/// The size of a terminal window, in characters.
#[derive(Debug, Clone, Copy, PartialEq, Eq)]
pub struct WindowSize {
    pub width: u16,
    pub height: u16,
}

/// How a process ended.
#[derive(Debug, Clone, Copy, PartialEq, Eq)]
pub enum ExitStatus {
    Code(i32),
    Signal(i32),
}

impl ExitStatus {
    /// How it is shown in diagnostics.
    pub open spec fn text(&self) -> Seq<char> {
        match self {
            ExitStatus::Code(code) => "Code("@ + signed_decimal(*code as int) + ")"@,
            ExitStatus::Signal(num) => "Signal("@ + signed_decimal(*num as int) + ")"@,
        }
    }

    pub fn debug_text(&self) -> (text: String)
        ensures
            text@ == self.text(),
            match self {
                ExitStatus::Code(code) => text@ == "Code("@ + signed_decimal(*code as int) + ")"@,
                ExitStatus::Signal(num) => text@ == "Signal("@ + signed_decimal(*num as int)
                    + ")"@,
            },
    {
        let (mut text, number): (String, i32) = match self {
            ExitStatus::Code(code) => ("Code(".to_owned(), *code),
            ExitStatus::Signal(num) => ("Signal(".to_owned(), *num),
        };
        text.append(signed_decimal_text(number).as_str());
        text.append(")");
        text
    }
}

/// A forwarded port, numbered in the order of the request.
#[derive(Debug, Clone, Copy, PartialEq, Eq, Hash, Structural)]
pub struct PortId(pub u32);

impl PortId {
    pub fn new(id: u32) -> (port: Self)
        ensures
            port == PortId(id),
    {
        PortId(id)
    }

    /// The text in diagnostics.
    pub open spec fn text(self) -> Seq<char> {
        "PortId("@ + decimal(self.0 as nat) + ")"@
    }

    pub fn debug_text(&self) -> (text: String)
        ensures
            text@ == self.text(),
            text@ == "PortId("@ + decimal(self.0 as nat) + ")"@,
    {
        let mut text: String = "PortId(".to_owned();
        text.append(decimal_text(self.0 as u64).as_str());
        text.append(")");
        text
    }
}

/// The names of some forwarded ports, in the order of the request. Both sides name them so.
pub fn port_ids(count: usize) -> (ports: Vec<PortId>)
    requires
        count < u32::MAX,
    ensures
        ports@ == Seq::new(count as nat, |i: int| PortId(i as u32)),
{
    let mut ports: Vec<PortId> = Vec::new();
    for i in 0..count
        invariant
            count < u32::MAX,
            ports@ == Seq::new(i as nat, |i: int| PortId(i as u32)),
    {
        ports.push(PortId::new(i as u32));
        assert(ports@ == Seq::new((i + 1) as nat, |i: int| PortId(i as u32)));
    }
    ports
}

/// A connection through a forwarded port, numbered in the order in which they are accepted.
#[derive(Debug, Clone, Copy, PartialEq, Eq, Hash, Structural)]
pub struct ConnId(pub u32);

impl ConnId {
    pub fn new(id: u32) -> (conn: Self)
        ensures
            conn == ConnId(id),
    {
        ConnId(id)
    }

    /// The text in diagnostics.
    pub open spec fn text(self) -> Seq<char> {
        "ConnId("@ + decimal(self.0 as nat) + ")"@
    }

    pub fn debug_text(&self) -> (text: String)
        ensures
            text@ == self.text(),
            text@ == "ConnId("@ + decimal(self.0 as nat) + ")"@,
    {
        let mut text: String = "ConnId(".to_owned();
        text.append(decimal_text(self.0 as u64).as_str());
        text.append(")");
        text
    }
}

/// A stream of bytes between the two sides.
#[derive(Debug, Clone, Copy, PartialEq, Eq, Hash, Structural)]
pub enum StreamId {
    Stdin,
    Stdout,
    Stderr,
    Forward(PortId, ConnId),
}

impl StreamId {
    /// The text in diagnostics.
    pub open spec fn text(self) -> Seq<char> {
        match self {
            StreamId::Stdin => "Stdin"@,
            StreamId::Stdout => "Stdout"@,
            StreamId::Stderr => "Stderr"@,
            StreamId::Forward(port, conn) => "Forward("@ + port.text() + ", "@ + conn.text() + ")"@,
        }
    }

    pub fn debug_text(&self) -> (text: String)
        ensures
            text@ == self.text(),
            match self {
                StreamId::Stdin => text@ == "Stdin"@,
                StreamId::Stdout => text@ == "Stdout"@,
                StreamId::Stderr => text@ == "Stderr"@,
                StreamId::Forward(port, conn) => text@ == "Forward("@ + port.text() + ", "@
                    + conn.text() + ")"@,
            },
    {
        match self {
            StreamId::Stdin => "Stdin".to_owned(),
            StreamId::Stdout => "Stdout".to_owned(),
            StreamId::Stderr => "Stderr".to_owned(),
            StreamId::Forward(port, conn) => {
                let mut text: String = "Forward(".to_owned();
                text.append(port.debug_text().as_str());
                text.append(", ");
                text.append(conn.debug_text().as_str());
                text.append(")");
                text
            },
        }
    }
}

/// What the reading end of a stream tells the writing end.
#[derive(Clone, PartialEq, Eq)]
pub enum SourceAction {
    Data(Vec<u8>),
    SourceClosed,
}

/// What the reading end of a stream tells the writing end, as bytes.
pub enum SourceMessage {
    Data(Seq<u8>),
    SourceClosed,
}

impl View for SourceAction {
    type V = SourceMessage;

    open spec fn view(&self) -> SourceMessage {
        match self {
            SourceAction::Data(bytes) => SourceMessage::Data(bytes@),
            SourceAction::SourceClosed => SourceMessage::SourceClosed,
        }
    }
}

/// What the writing end of a stream tells the reading end.
#[derive(Debug, Clone, Copy, PartialEq, Eq, Structural)]
pub enum SinkAction {
    Ack,
    SinkClosed,
}

/// What either end of a stream tells the other.
#[derive(Clone, PartialEq, Eq)]
pub enum StreamAction {
    SourceAction(SourceAction),
    SinkAction(SinkAction),
}

/// What the listening side of a forwarded port tells the connecting side.
#[derive(Debug, Clone, Copy, PartialEq, Eq, Structural)]
pub enum ListenerAction {
    Connect(ConnId),
    ListenerClosed,
}

/// What the connecting side of a forwarded port answers.
#[derive(Debug, Clone, PartialEq, Eq)]
pub enum ConnecterAction {
    ConnectResponse(ConnId, Response),
}

/// What the server tells the client while a command runs.
#[derive(Clone, PartialEq, Eq)]
pub enum ServerAction {
    StreamAction(StreamId, StreamAction),
    ConnecterAction(PortId, ConnecterAction),
    Exit(ExitStatus),
    Finished,
}

/// What the client tells the server while a command runs.
#[derive(Clone, PartialEq, Eq)]
pub enum ClientAction {
    StreamAction(StreamId, StreamAction),
    WindowSizeChange(WindowSize),
    ListenerAction(PortId, ListenerAction),
    Finished,
}

/// The most bytes that one message of a stream carries.
pub const MAX_STREAM_PACKET_SIZE: usize = 4096;

/// The most bytes that the text of a packet shows.
pub const SHOWN_BYTES: usize = 8;

/// How many of the bytes of a packet are shown.
pub open spec fn shown_count(bytes: Seq<u8>) -> nat {
    if bytes.len() < SHOWN_BYTES {
        bytes.len()
    } else {
        SHOWN_BYTES as nat
    }
}

/// The first bytes of a packet in hexadecimal, and dots where there are more.
pub open spec fn shown_bytes(bytes: Seq<u8>) -> Seq<char> {
    joined(Seq::new(shown_count(bytes), |i: int| hex_byte(bytes[i])), " "@) + if bytes.len()
        > SHOWN_BYTES {
        " .."@
    } else {
        Seq::empty()
    }
}

/// Writes the first bytes of a packet.
pub fn shown_bytes_text(bytes: &Vec<u8>) -> (text: String)
    ensures
        text@ == shown_bytes(bytes@),
{
    let count: usize = if bytes.len() < SHOWN_BYTES {
        bytes.len()
    } else {
        SHOWN_BYTES
    };
    let mut text: String = String::new();
    let ghost all: Seq<Seq<char>> = Seq::new(count as nat, |i: int| hex_byte(bytes@[i]));
    for i in 0..count
        invariant
            count <= bytes@.len(),
            all == Seq::new(count as nat, |i: int| hex_byte(bytes@[i])),
            text@ == joined(all.take(i as int), " "@),
    {
        if i != 0 {
            text.append(" ");
        }
        text.append(hex_byte_text(bytes[i]).as_str());
        proof {
            assert(all.take(i + 1).drop_last() == all.take(i as int));
            assert(all.take(i + 1).last() == hex_byte(bytes@[i as int]));
        }
    }
    assert(all.take(count as int) == all);
    if bytes.len() > SHOWN_BYTES {
        text.append(" ..");
    }
    text
}

impl SourceAction {
    /// The text in diagnostics: of a packet its length and its first bytes.
    pub open spec fn text(self) -> Seq<char> {
        match self {
            SourceAction::Data(bytes) => "Data { len: "@ + decimal(bytes@.len()) + ", bytes: "@
                + shown_bytes(bytes@) + " }"@,
            SourceAction::SourceClosed => "SourceClosed"@,
        }
    }

    pub fn debug_text(&self) -> (text: String)
        ensures
            text@ == self.text(),
            match self {
                SourceAction::Data(bytes) => text@ == "Data { len: "@ + decimal(bytes@.len())
                    + ", bytes: "@ + shown_bytes(bytes@) + " }"@,
                SourceAction::SourceClosed => text@ == "SourceClosed"@,
            },
    {
        match self {
            SourceAction::Data(bytes) => {
                let mut text: String = "Data { len: ".to_owned();
                text.append(decimal_text(bytes.len() as u64).as_str());
                text.append(", bytes: ");
                text.append(shown_bytes_text(bytes).as_str());
                text.append(" }");
                text
            },
            SourceAction::SourceClosed => "SourceClosed".to_owned(),
        }
    }
}

/// A message of a stream is the bytes that it carries, or that its source is closed.
pub proof fn a_packet_is_its_bytes(action: SourceAction)
    ensures
        action matches SourceAction::Data(bytes) ==> action@ == SourceMessage::Data(bytes@),
        action is SourceClosed <==> action@ is SourceClosed,
{
}

proof fn lemma_pairs_joined(pairs: Seq<Seq<char>>, i: int)
    requires
        forall|k: int| 0 <= k < pairs.len() ==> (#[trigger] pairs[k]).len() == 2,
        0 <= i < pairs.len(),
    ensures
        joined(pairs, " "@).len() == 3 * pairs.len() - 1,
        joined(pairs, " "@)[3 * i] == pairs[i][0],
        joined(pairs, " "@)[3 * i + 1] == pairs[i][1],
        i > 0 ==> joined(pairs, " "@)[3 * i - 1] == ' ',
    decreases pairs.len(),
{
    reveal_strlit(" ");
    if pairs.len() > 1 {
        let front = pairs.drop_last();
        assert forall|k: int| 0 <= k < front.len() implies (#[trigger] front[k]).len() == 2 by {
            assert(front[k] == pairs[k]);
        }
        assert(pairs[pairs.len() - 1].len() == 2);
        let all = joined(pairs, " "@);
        let head = joined(front, " "@);
        if i < front.len() {
            lemma_pairs_joined(front, i);
            assert(all[3 * i] == head[3 * i]);
            assert(all[3 * i + 1] == head[3 * i + 1]);
            if i > 0 {
                assert(all[3 * i - 1] == head[3 * i - 1]);
            }
        } else {
            lemma_pairs_joined(front, 0);
            assert(all[3 * i - 1] == " "@[0]);
            assert(all[3 * i] == pairs.last()[0]);
            assert(all[3 * i + 1] == pairs.last()[1]);
        }
    } else {
        assert(pairs[0].len() == 2);
    }
}

/// The first eight bytes of a packet are shown, or all if it has no more, each in its two digits
/// and with a space between each two; and dots are shown exactly where it has more.
pub proof fn the_first_bytes_are_shown(bytes: Seq<u8>, i: int)
    ensures
        bytes.len() == 0 ==> shown_bytes(bytes).len() == 0,
        0 < bytes.len() <= 8 ==> shown_bytes(bytes).len() == 3 * bytes.len() - 1,
        bytes.len() > 8 ==> shown_bytes(bytes).len() == 26 && shown_bytes(bytes).skip(23)
            == " .."@,
        0 <= i < bytes.len() && i < 8 ==> shown_bytes(bytes)[3 * i] == hex_byte(bytes[i])[0]
            && shown_bytes(bytes)[3 * i + 1] == hex_byte(bytes[i])[1] && (i > 0 ==> shown_bytes(
            bytes,
        )[3 * i - 1] == ' '),
{
    reveal_strlit(" ..");
    let pairs = Seq::new(shown_count(bytes), |k: int| hex_byte(bytes[k]));
    assert(forall|k: int| 0 <= k < pairs.len() ==> (#[trigger] pairs[k]).len() == 2);
    if bytes.len() > 0 {
        lemma_pairs_joined(pairs, 0);
        if 0 <= i < pairs.len() {
            lemma_pairs_joined(pairs, i);
        }
        if bytes.len() > 8 {
            assert(shown_bytes(bytes).skip(23) == " .."@);
        }
    }
}

/// An error is received with the messages that it was sent with, in order, however many they
/// are; only one without any gets a message of its own.
pub proof fn only_an_empty_error_is_changed(messages: Seq<Seq<char>>)
    ensures
        messages.len() > 0 ==> received_messages(messages) == messages,
        messages.len() == 0 ==> received_messages(messages).len() == 1,
{
}

} // verus!
