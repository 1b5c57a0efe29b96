//! Messages on the connection: the size of each, in four bytes with the highest first, and then
//! its bytes.
use crate::error::{report_messages, wrap_report};
use crate::text::{decimal, decimal_text};
use color_eyre::eyre::Report;
use vstd::prelude::*;
use vstd::string::*;

verus! {

/// The most bytes that a message may have: 1 MiB.
pub const MESSAGE_SIZE_LIMIT: u32 = 1048576;

/// The bytes that the size of a message takes.
pub const HEADER_SIZE: usize = 4;

/// Why a message cannot be sent or received.
#[derive(Debug, Clone, Copy, PartialEq, Eq)]
pub enum SizeError {
    /// The other side announces a message of this size.
    Received(u32),
    /// A message to be sent has this size.
    Serialized(u64),
}

impl SizeError {
    /// What the error tells the user.
    pub open spec fn text(self) -> Seq<char> {
        match self {
            SizeError::Received(size) => "message size is too large, size="@ + decimal(
                size as nat,
            ),
            SizeError::Serialized(size) => "serialized size is too large, size="@ + decimal(
                size as nat,
            ),
        }
    }

    pub fn message(&self) -> (text: String)
        ensures
            text@ == self.text(),
            match self {
                SizeError::Received(size) => text@ == "message size is too large, size="@ + decimal(
                    *size as nat,
                ),
                SizeError::Serialized(size) => text@ == "serialized size is too large, size="@
                    + decimal(*size as nat),
            },
    {
        match self {
            SizeError::Received(size) => {
                let mut text: String = "message size is too large, size=".to_owned();
                text.append(decimal_text(*size as u64).as_str());
                text
            },
            SizeError::Serialized(size) => {
                let mut text: String = "serialized size is too large, size=".to_owned();
                text.append(decimal_text(*size).as_str());
                text
            },
        }
    }
}

/// The four bytes of a size, the highest first.
pub open spec fn header(size: nat) -> Seq<u8> {
    seq![
        (size / 0x100_0000 % 0x100) as u8,
        (size / 0x1_0000 % 0x100) as u8,
        (size / 0x100 % 0x100) as u8,
        (size % 0x100) as u8,
    ]
}

/// The size that four bytes announce.
pub open spec fn announced(header: Seq<u8>) -> nat {
    (header[0] * 0x100_0000 + header[1] * 0x1_0000 + header[2] * 0x100 + header[3]) as nat
}

/// A message as it stands on the connection.
pub open spec fn framed(payload: Seq<u8>) -> Seq<u8> {
    header(payload.len()) + payload
}

/// Several messages, one after another.
pub open spec fn framed_all(payloads: Seq<Seq<u8>>) -> Seq<u8>
    decreases payloads.len(),
{
    if payloads.len() == 0 {
        Seq::empty()
    } else {
        framed(payloads[0]) + framed_all(payloads.skip(1))
    }
}

/// The messages that stand complete at the start of what has arrived.
pub open spec fn messages(arrived: Seq<u8>) -> Seq<Seq<u8>>
    decreases arrived.len(),
{
    if arrived.len() < HEADER_SIZE {
        Seq::empty()
    } else {
        let size = announced(arrived.take(HEADER_SIZE as int));
        if size > MESSAGE_SIZE_LIMIT || arrived.len() < HEADER_SIZE + size {
            Seq::empty()
        } else {
            seq![arrived.subrange(HEADER_SIZE as int, HEADER_SIZE + size)] + messages(
                arrived.skip(HEADER_SIZE + size),
            )
        }
    }
}

/// Refuses a message that is over the limit before it is serialized.
pub fn check_serialized_size(size: u64) -> (res: Result<u32, SizeError>)
    ensures
        match res {
            Ok(fitting) => size <= MESSAGE_SIZE_LIMIT && fitting == size,
            Err(err) => size > MESSAGE_SIZE_LIMIT && err == SizeError::Serialized(size),
        },
{
    if size > MESSAGE_SIZE_LIMIT as u64 {
        Err(SizeError::Serialized(size))
    } else {
        Ok(size as u32)
    }
}

/// The bytes that go on the connection for a serialized message.
pub fn send_message(payload: &Vec<u8>) -> (res: Result<Vec<u8>, SizeError>)
    ensures
        match res {
            Ok(bytes) => payload@.len() <= MESSAGE_SIZE_LIMIT && bytes@ == framed(payload@),
            Err(err) => payload@.len() > MESSAGE_SIZE_LIMIT && err == SizeError::Serialized(
                payload@.len() as u64,
            ),
        },
        res matches Ok(bytes) ==> bytes@.len() == 4 + payload@.len() && bytes@.skip(4) == payload@
            && bytes@[0] * 0x100_0000 + bytes@[1] * 0x1_0000 + bytes@[2] * 0x100 + bytes@[3]
            == payload@.len(),
{
    let size: u32 = match check_serialized_size(payload.len() as u64) {
        Ok(size) => size,
        Err(err) => return Err(err),
    };
    let mut bytes: Vec<u8> = Vec::new();
    bytes.push((size / 0x100_0000 % 0x100) as u8);
    bytes.push((size / 0x1_0000 % 0x100) as u8);
    bytes.push((size / 0x100 % 0x100) as u8);
    bytes.push((size % 0x100) as u8);
    assert(bytes@ == header(payload@.len()));
    bytes.extend_from_slice(payload.as_slice());
    assert(bytes@ == framed(payload@));
    proof {
        a_message_stands_after_its_size(payload@);
    }
    Ok(bytes)
}

/// What a read of the wanted length brings, where the size of the next message is known and
/// where it is not: the size that is then known, and the message, once it is complete.
pub open spec fn taken(pending: Option<nat>, bytes: Seq<u8>) -> (
    Option<nat>,
    Result<Option<Seq<u8>>, SizeError>,
) {
    match pending {
        Some(_) => (None, Ok(Some(bytes))),
        None => if announced(bytes) > MESSAGE_SIZE_LIMIT {
            (None, Err(SizeError::Received(announced(bytes) as u32)))
        } else {
            (Some(announced(bytes)), Ok(None))
        },
    }
}

/// What is done to send a message, and with one that was received.
#[derive(Debug, Clone, Copy, PartialEq, Eq, Structural)]
pub enum MessageStep {
    SendSize,
    Serialize,
    Write,
    Flush,
    Deserialize,
}

impl MessageStep {
    /// What is said of its failure.
    pub open spec fn context(self) -> Seq<char> {
        match self {
            MessageStep::SendSize => "failed to send message size"@,
            MessageStep::Serialize => "failed to serialize message"@,
            MessageStep::Write => "failed to write message"@,
            MessageStep::Flush => "failed to flush stream"@,
            MessageStep::Deserialize => "failed to deserialize message"@,
        }
    }

    /// The error when this failed.
    pub fn failed(self, cause: Report) -> (err: Report)
        ensures
            report_messages(err) == seq![self.context()] + report_messages(cause),
    {
        let context: &str = match self {
            MessageStep::SendSize => "failed to send message size",
            MessageStep::Serialize => "failed to serialize message",
            MessageStep::Write => "failed to write message",
            MessageStep::Flush => "failed to flush stream",
            MessageStep::Deserialize => "failed to deserialize message",
        };
        wrap_report(cause, context.to_owned())
    }
}

/// Takes messages off the connection in reads of a known length: first a size, then as many
/// bytes as it announced.
pub struct MessageReader {
    announced: Option<u32>,
}

impl MessageReader {
    /// The size of the message of which the size has been read and the bytes have not.
    pub closed spec fn pending(&self) -> Option<nat> {
        match self.announced {
            Some(size) => Some(size as nat),
            None => None,
        }
    }

    /// No size over the limit is ever waited for.
    pub closed spec fn wf(&self) -> bool {
        self.announced matches Some(size) ==> size <= MESSAGE_SIZE_LIMIT
    }

    /// How many bytes the next read has to bring.
    pub open spec fn next_read(&self) -> nat {
        match self.pending() {
            Some(size) => size,
            None => HEADER_SIZE as nat,
        }
    }

    pub fn new() -> (reader: Self)
        ensures
            reader.wf(),
            reader.pending() is None,
    {
        MessageReader { announced: None }
    }

    /// How many bytes to read next. It is never more than the limit.
    pub fn wanted(&self) -> (len: usize)
        requires
            self.wf(),
        ensures
            len == self.next_read(),
            len <= MESSAGE_SIZE_LIMIT,
            len == match self.pending() {
                Some(size) => size,
                None => 4,
            },
    {
        match self.announced {
            Some(size) => size as usize,
            None => HEADER_SIZE,
        }
    }

    /// Tells whether the next read brings a message, and not the size of one.
    pub fn is_message_next(&self) -> (yes: bool)
        ensures
            yes == (self.pending() is Some),
    {
        self.announced.is_some()
    }

    /// The error for a read that failed, which tells what it should have brought.
    pub fn read_failed(&self, cause: Report) -> (err: Report)
        ensures
            report_messages(err) == seq![
                if self.pending() is Some {
                    "failed to receive message"@
                } else {
                    "failed to receive message size"@
                },
            ] + report_messages(cause),
    {
        if self.is_message_next() {
            wrap_report(cause, "failed to receive message".to_owned())
        } else {
            wrap_report(cause, "failed to receive message size".to_owned())
        }
    }

    /// Takes what has been read: a message when it is complete, nothing after its size.
    pub fn recv_message(&mut self, bytes: Vec<u8>) -> (res: Result<Option<Vec<u8>>, SizeError>)
        requires
            old(self).wf(),
            bytes@.len() == old(self).next_read(),
        ensures
            final(self).wf(),
            final(self).pending() == taken(old(self).pending(), bytes@).0,
            match (res, taken(old(self).pending(), bytes@).1) {
                (Ok(Some(message)), Ok(Some(bytes))) => message@ == bytes,
                (Ok(None), Ok(None)) => true,
                (Err(err), Err(expected)) => err == expected,
                _ => false,
            },
            match old(self).pending() {
                Some(_) => final(self).pending() is None && res is Ok && res->Ok_0 is Some
                    && res->Ok_0->0@ == bytes@,
                None => {
                    let size = bytes@[0] * 0x100_0000 + bytes@[1] * 0x1_0000 + bytes@[2] * 0x100
                        + bytes@[3];
                    if size <= MESSAGE_SIZE_LIMIT {
                        final(self).pending() == Some(size as nat) && res is Ok
                            && res->Ok_0 is None
                    } else {
                        final(self).pending() is None && res == Err::<Option<Vec<u8>>, SizeError>(
                            SizeError::Received(size as u32),
                        )
                    }
                },
            },
    {
        match self.announced {
            Some(_) => {
                self.announced = None;
                Ok(Some(bytes))
            },
            None => {
                let size: u32 = bytes[0] as u32 * 0x100_0000 + bytes[1] as u32 * 0x1_0000
                    + bytes[2] as u32 * 0x100 + bytes[3] as u32;
                if size > MESSAGE_SIZE_LIMIT {
                    Err(SizeError::Received(size))
                } else {
                    self.announced = Some(size);
                    Ok(None)
                }
            },
        }
    }
}

/// The size that a message is sent with is the size that is read.
pub proof fn size_is_read_back(size: nat)
    requires
        size <= u32::MAX,
    ensures
        header(size).len() == HEADER_SIZE,
        announced(header(size)) == size,
{
}

/// What is sent as messages, one after another, is received as the same messages in the same
/// order, whatever incomplete message follows them.
pub proof fn messages_are_read_back(payloads: Seq<Seq<u8>>, rest: Seq<u8>)
    requires
        forall|i: int| 0 <= i < payloads.len() ==> (#[trigger] payloads[i]).len()
            <= MESSAGE_SIZE_LIMIT,
    ensures
        messages(framed_all(payloads) + rest) == payloads + messages(rest),
    decreases payloads.len(),
{
    if payloads.len() == 0 {
        assert(framed_all(payloads) + rest == rest);
        assert(payloads + messages(rest) == messages(rest));
    } else {
        let first = payloads[0];
        let tail = payloads.skip(1);
        let arrived = framed_all(payloads) + rest;
        assert forall|i: int| 0 <= i < tail.len() implies (#[trigger] tail[i]).len()
            <= MESSAGE_SIZE_LIMIT by {
            assert(tail[i] == payloads[i + 1]);
        }
        messages_are_read_back(tail, rest);
        size_is_read_back(first.len());
        assert(arrived.take(HEADER_SIZE as int) == header(first.len()));
        assert(arrived.subrange(HEADER_SIZE as int, (HEADER_SIZE + first.len()) as int) == first);
        assert(arrived.skip((HEADER_SIZE + first.len()) as int) == framed_all(tail) + rest);
        assert(payloads + messages(rest) == seq![first] + (tail + messages(rest)));
    }
}

/// A reader that has no message pending and is given the next bytes of the connection, as many
/// as it wants each time, first learns a size and then hands out the first message that stands
/// there.
pub proof fn reader_hands_out_the_first_message(arrived: Seq<u8>)
    requires
        messages(arrived).len() > 0,
    ensures
        ({
            let (pending, nothing) = taken(None, arrived.take(HEADER_SIZE as int));
            let rest = arrived.skip(HEADER_SIZE as int);
            &&& nothing == Ok::<Option<Seq<u8>>, SizeError>(None)
            &&& pending is Some
            &&& pending->0 <= rest.len()
            &&& taken(pending, rest.take(pending->0 as int)) == (
                None::<nat>,
                Ok::<Option<Seq<u8>>, SizeError>(Some(messages(arrived)[0])),
            )
            &&& messages(arrived) == seq![messages(arrived)[0]] + messages(
                rest.skip(pending->0 as int),
            )
        }),
{
    let size = announced(arrived.take(HEADER_SIZE as int));
    let rest = arrived.skip(HEADER_SIZE as int);
    assert(rest.take(size as int) == arrived.subrange(HEADER_SIZE as int, HEADER_SIZE + size));
    assert(rest.skip(size as int) == arrived.skip(HEADER_SIZE + size));
}

/// A size over the limit is refused as soon as it is read, and no message comes of it.
pub proof fn oversized_messages_are_refused(arrived: Seq<u8>)
    requires
        arrived.len() >= HEADER_SIZE,
        announced(arrived.take(HEADER_SIZE as int)) > MESSAGE_SIZE_LIMIT,
    ensures
        taken(None, arrived.take(HEADER_SIZE as int)).1 == Err::<Option<Seq<u8>>, SizeError>(
            SizeError::Received(announced(arrived.take(HEADER_SIZE as int)) as u32),
        ),
        messages(arrived).len() == 0,
{
}

/// The highest byte of a size comes first: the bytes, each two hundred and fifty-six times the
/// next, make up the size, and any four bytes are those of the size that they announce.
pub proof fn the_highest_byte_comes_first(size: nat, bytes: Seq<u8>)
    requires
        size <= u32::MAX,
        bytes.len() == 4,
    ensures
        header(size).len() == 4,
        header(size)[0] * 0x100_0000 + header(size)[1] * 0x1_0000 + header(size)[2] * 0x100
            + header(size)[3] == size,
        announced(bytes) == bytes[0] * 0x100_0000 + bytes[1] * 0x1_0000 + bytes[2] * 0x100
            + bytes[3],
        header(announced(bytes)) == bytes,
{
    size_is_read_back(size);
    lemma_bytes_of(bytes[0] as int, bytes[1] as int, bytes[2] as int, bytes[3] as int);
    assert(header(announced(bytes)) == bytes);
}

proof fn lemma_bytes_of(a: int, b: int, c: int, d: int)
    requires
        0 <= a < 0x100,
        0 <= b < 0x100,
        0 <= c < 0x100,
        0 <= d < 0x100,
    ensures
        ({
            let n = a * 0x100_0000 + b * 0x1_0000 + c * 0x100 + d;
            &&& n / 0x100_0000 % 0x100 == a
            &&& n / 0x1_0000 % 0x100 == b
            &&& n / 0x100 % 0x100 == c
            &&& n % 0x100 == d
        }),
{
    let n = a * 0x100_0000 + b * 0x1_0000 + c * 0x100 + d;
    assert(n / 0x100_0000 == a);
    assert(n / 0x1_0000 == a * 0x100 + b);
    assert(n / 0x100 == a * 0x1_0000 + b * 0x100 + c);
}

/// A message is sent as its size and then all its bytes as they are, and nothing more.
pub proof fn a_message_stands_after_its_size(payload: Seq<u8>)
    requires
        payload.len() <= MESSAGE_SIZE_LIMIT,
    ensures
        framed(payload).len() == 4 + payload.len(),
        framed(payload).skip(4) == payload,
        announced(framed(payload).take(4)) == payload.len(),
        framed(payload)[0] * 0x100_0000 + framed(payload)[1] * 0x1_0000 + framed(payload)[2] * 0x100
            + framed(payload)[3] == payload.len(),
{
    size_is_read_back(payload.len());
    assert(framed(payload).take(4) == header(payload.len()));
    assert(framed(payload).skip(4) == payload);
}

/// Whatever size up to a mebibyte is announced, none and the limit itself included, a message of
/// that size is waited for and handed out as it came; a larger one is refused.
pub proof fn a_message_is_taken_as_announced(bytes: Seq<u8>, size: nat, message: Seq<u8>)
    requires
        bytes.len() == 4,
    ensures
        announced(bytes) <= 1024 * 1024 <==> taken(None, bytes) == (
            Some(announced(bytes)),
            Ok::<Option<Seq<u8>>, SizeError>(None),
        ),
        announced(bytes) > 1024 * 1024 <==> taken(None, bytes).1 is Err,
        taken(Some(size), message) == (
            None::<nat>,
            Ok::<Option<Seq<u8>>, SizeError>(Some(message)),
        ),
{
}

} // verus!
