//! The raw mode of a terminal: entered for a remote command that runs on a pseudo-terminal, and
//! left with the attributes that the terminal had before.
use crate::terminal::attributes::{make_raw, raw_attributes, Attributes, ECHO, OPOST};
use vstd::prelude::*;

verus! {

/// What is being done to the terminal.
#[derive(Debug, Clone, Copy, PartialEq, Eq)]
pub enum RawModePhase {
    /// Nothing.
    Idle,
    /// Its attributes are being read, to enter the raw mode.
    Reading,
    /// Its attributes, which were these, are being set to their raw form.
    Entering(Attributes),
    /// Its attributes are being set to what they were.
    Leaving,
}

/// How an operation on the terminal ended.
#[derive(Debug, Clone, Copy, PartialEq, Eq)]
pub enum TerminalEvent {
    /// Its attributes were read.
    Read(Attributes),
    /// Its attributes were set.
    Applied,
    /// The operation failed.
    Failed,
}

/// What to do next.
#[derive(Debug, Clone, Copy, PartialEq, Eq)]
pub enum RawModeStep {
    /// Nothing: the mode was changed, or was as it should be already.
    Done(bool),
    /// Read the attributes of the terminal on this file descriptor.
    Read(i32),
    /// Set the attributes of the terminal on this file descriptor.
    Apply(i32, Attributes),
    /// Report the error of the operation.
    Fail,
}

/// The mode of the terminal on a file descriptor.
#[derive(Debug, Clone, Copy, PartialEq, Eq)]
pub struct RawMode {
    pub fd: i32,
    pub phase: RawModePhase,
    /// In raw mode, the attributes that the terminal had before.
    pub orig: Option<Attributes>,
}

/// The events that can happen: those that are waited for.
pub open spec fn raw_mode_accepts(phase: RawModePhase, event: TerminalEvent) -> bool {
    match phase {
        RawModePhase::Idle => false,
        RawModePhase::Reading => event is Read || event is Failed,
        RawModePhase::Entering(_) | RawModePhase::Leaving => event is Applied || event is Failed,
    }
}

/// What the end of an operation makes of the mode, and what to do next.
pub open spec fn raw_mode_step(mode: RawMode, event: TerminalEvent) -> (RawMode, RawModeStep) {
    let idle = RawMode { phase: RawModePhase::Idle, ..mode };
    match (mode.phase, event) {
        (RawModePhase::Reading, TerminalEvent::Read(attributes)) => (
            RawMode { phase: RawModePhase::Entering(attributes), ..mode },
            RawModeStep::Apply(mode.fd, raw_attributes(attributes)),
        ),
        (RawModePhase::Entering(attributes), TerminalEvent::Applied) => (
            RawMode { orig: Some(attributes), ..idle },
            RawModeStep::Done(true),
        ),
        (_, TerminalEvent::Applied) => (idle, RawModeStep::Done(true)),
        _ => (idle, RawModeStep::Fail),
    }
}

/// What the start of entering makes of the mode, and what to do next.
pub open spec fn enter_step(mode: RawMode) -> (RawMode, RawModeStep) {
    if mode.orig is None {
        (RawMode { phase: RawModePhase::Reading, ..mode }, RawModeStep::Read(mode.fd))
    } else {
        (mode, RawModeStep::Done(false))
    }
}

/// What the start of leaving makes of the mode, and what to do next. It is left even if the
/// attributes cannot be set.
pub open spec fn leave_step(mode: RawMode) -> (RawMode, RawModeStep) {
    match mode.orig {
        Some(orig) => (
            RawMode { fd: mode.fd, phase: RawModePhase::Leaving, orig: None },
            RawModeStep::Apply(mode.fd, orig),
        ),
        None => (mode, RawModeStep::Done(false)),
    }
}

impl RawMode {
    pub fn new(fd: i32) -> (mode: Self)
        ensures
            mode == (RawMode { fd, phase: RawModePhase::Idle, orig: None }),
    {
        RawMode { fd, phase: RawModePhase::Idle, orig: None }
    }

    /// Starts to enter the raw mode.
    pub fn enter(&mut self) -> (step: RawModeStep)
        requires
            old(self).phase is Idle,
        ensures
            (*final(self), step) == enter_step(*old(self)),
            final(self).orig == old(self).orig,
            old(self).orig is None ==> step == RawModeStep::Read(old(self).fd) && final(self).phase is Reading,
            old(self).orig is Some ==> step == RawModeStep::Done(false) && final(self).phase is Idle,
    {
        if self.orig.is_none() {
            self.phase = RawModePhase::Reading;
            RawModeStep::Read(self.fd)
        } else {
            RawModeStep::Done(false)
        }
    }

    /// Starts to leave the raw mode.
    pub fn leave(&mut self) -> (step: RawModeStep)
        requires
            old(self).phase is Idle,
        ensures
            (*final(self), step) == leave_step(*old(self)),
            final(self).orig is None,
            old(self).orig matches Some(orig) ==> step == RawModeStep::Apply(old(self).fd, orig)
                && final(self).phase is Leaving,
            old(self).orig is None ==> step == RawModeStep::Done(false) && final(self).phase is Idle,
    {
        if let Some(orig) = self.orig.take() {
            self.phase = RawModePhase::Leaving;
            RawModeStep::Apply(self.fd, orig)
        } else {
            RawModeStep::Done(false)
        }
    }

    /// Takes the end of an operation.
    pub fn handle(&mut self, event: TerminalEvent) -> (step: RawModeStep)
        requires
            raw_mode_accepts(old(self).phase, event),
        ensures
            (*final(self), step) == raw_mode_step(*old(self), event),
            final(self).fd == old(self).fd,
            match event {
                TerminalEvent::Read(attributes) => step == RawModeStep::Apply(
                    old(self).fd,
                    raw_attributes(attributes),
                ) && final(self).phase == RawModePhase::Entering(attributes) && final(self).orig
                    == old(self).orig,
                TerminalEvent::Applied => step == RawModeStep::Done(true)
                    && final(self).phase is Idle && final(self).orig == match old(self).phase {
                    RawModePhase::Entering(attributes) => Some(attributes),
                    _ => old(self).orig,
                },
                TerminalEvent::Failed => step is Fail && final(self).phase is Idle
                    && final(self).orig == old(self).orig,
            },
            old(self).phase is Reading ==> (step matches RawModeStep::Apply(_, raw)
                ==> raw.local_flags & ECHO == 0 && raw.output_flags & OPOST == 0),
    {
        let phase: RawModePhase = self.phase;
        self.phase = RawModePhase::Idle;
        match (phase, event) {
            (RawModePhase::Reading, TerminalEvent::Read(attributes)) => {
                self.phase = RawModePhase::Entering(attributes);
                RawModeStep::Apply(self.fd, make_raw(&attributes))
            },
            (RawModePhase::Entering(attributes), TerminalEvent::Applied) => {
                self.orig = Some(attributes);
                RawModeStep::Done(true)
            },
            (_, TerminalEvent::Applied) => RawModeStep::Done(true),
            _ => RawModeStep::Fail,
        }
    }

    pub fn is_raw_mode(&self) -> (yes: bool)
        ensures
            yes == (self.orig is Some),
    {
        self.orig.is_some()
    }
}

/// Starts to enter the raw mode.
pub fn enter(mode: &mut RawMode) -> (step: RawModeStep)
    requires
        old(mode).phase is Idle,
    ensures
        (*final(mode), step) == enter_step(*old(mode)),
{
    mode.enter()
}

/// Starts to leave the raw mode.
pub fn leave(mode: &mut RawMode) -> (step: RawModeStep)
    requires
        old(mode).phase is Idle,
    ensures
        (*final(mode), step) == leave_step(*old(mode)),
{
    mode.leave()
}

/// Stands for a scope at the end of which the raw mode is left.
#[derive(Debug, PartialEq, Eq)]
pub struct RawModeGuard {}

/// The scope that goes with an attempt to enter the raw mode: there is one unless the attempt
/// failed, even where the terminal was in raw mode already.
pub fn enter_scoped<E>(entered: Result<bool, E>) -> (guard: Result<RawModeGuard, E>)
    ensures
        guard == match entered {
            Ok(_) => Ok::<RawModeGuard, E>(RawModeGuard {  }),
            Err(err) => Err(err),
        },
{
    match entered {
        Ok(_) => Ok(RawModeGuard {  }),
        Err(err) => Err(err),
    }
}

/// Entering the raw mode and leaving it sets the terminal to the attributes that it had before,
/// and leaves the mode as it was.
pub proof fn leaving_restores_the_attributes(mode: RawMode, attributes: Attributes)
    requires
        mode.phase is Idle,
        mode.orig is None,
    ensures
        ({
            let (reading, read) = enter_step(mode);
            let (entering, set) = raw_mode_step(reading, TerminalEvent::Read(attributes));
            let (raw, entered) = raw_mode_step(entering, TerminalEvent::Applied);
            let (leaving, reset) = leave_step(raw);
            let (after, left) = raw_mode_step(leaving, TerminalEvent::Applied);
            &&& read == RawModeStep::Read(mode.fd)
            &&& raw_mode_accepts(reading.phase, TerminalEvent::Read(attributes))
            &&& set == RawModeStep::Apply(mode.fd, raw_attributes(attributes))
            &&& raw_mode_accepts(entering.phase, TerminalEvent::Applied)
            &&& entered == RawModeStep::Done(true)
            &&& raw.phase is Idle
            &&& reset == RawModeStep::Apply(mode.fd, attributes)
            &&& raw_mode_accepts(leaving.phase, TerminalEvent::Applied)
            &&& left == RawModeStep::Done(true)
            &&& after == mode
        }),
{
}

/// Entering the raw mode twice keeps the attributes of before the first time, and touches the
/// terminal only once; so does leaving it twice.
pub proof fn a_second_time_changes_nothing(mode: RawMode)
    requires
        mode.phase is Idle,
    ensures
        mode.orig is Some ==> enter_step(mode) == (mode, RawModeStep::Done(false)),
        mode.orig is None ==> leave_step(mode) == (mode, RawModeStep::Done(false)),
{
}

/// Where entering fails, at either of its operations, the terminal does not count as being in
/// raw mode; and once leaving has started it does not either, however it ends.
pub proof fn a_failure_is_not_raw_mode(mode: RawMode, attributes: Attributes, event: TerminalEvent)
    requires
        mode.phase is Idle,
    ensures
        mode.orig is None ==> ({
            let reading = enter_step(mode).0;
            let entering = raw_mode_step(reading, TerminalEvent::Read(attributes)).0;
            &&& raw_mode_step(reading, TerminalEvent::Failed) == (mode, RawModeStep::Fail)
            &&& raw_mode_step(entering, TerminalEvent::Failed) == (mode, RawModeStep::Fail)
        }),
        mode.orig is Some && raw_mode_accepts(leave_step(mode).0.phase, event) ==> raw_mode_step(
            leave_step(mode).0,
            event,
        ).0.orig is None,
{
}

/// The end of a line.
pub const LF: u8 = 10;

/// The return to the start of a line.
pub const CR: u8 = 13;

/// Some output as a terminal in raw mode needs it: with a return before each end of a line.
pub open spec fn with_returns(output: Seq<u8>) -> Seq<u8>
    decreases output.len(),
{
    if output.len() == 0 {
        Seq::empty()
    } else if output.last() == LF {
        with_returns(output.drop_last()) + seq![CR, LF]
    } else {
        with_returns(output.drop_last()).push(output.last())
    }
}

/// Writes to a terminal that may be in raw mode.
#[derive(Debug)]
pub struct RawModeWriter<W> {
    pub inner: W,
}

impl<W> RawModeWriter<W> {
    pub fn new(inner: W) -> (writer: Self)
        ensures
            writer.inner == inner,
    {
        RawModeWriter { inner }
    }

    /// What has to be written to the inner writer, whole, for some output.
    pub fn write(&self, mode: &RawMode, buf: &Vec<u8>) -> (out: Vec<u8>)
        ensures
            out@ == if mode.orig is Some {
                with_returns(buf@)
            } else {
                buf@
            },
    {
        let raw: bool = mode.is_raw_mode();
        let mut out: Vec<u8> = Vec::new();
        for i in 0..buf.len()
            invariant
                out@ == if raw {
                    with_returns(buf@.take(i as int))
                } else {
                    buf@.take(i as int)
                },
        {
            proof {
                assert(buf@.take(i + 1).drop_last() == buf@.take(i as int));
                assert(buf@.take(i + 1).last() == buf@[i as int]);
                assert(buf@.take(i + 1) == buf@.take(i as int).push(buf@[i as int]));
            }
            let ghost before: Seq<u8> = out@;
            if raw && buf[i] == LF {
                out.push(CR);
                out.push(LF);
                assert(out@ == before + seq![CR, LF]);
            } else {
                out.push(buf[i]);
            }
        }
        assert(buf@.take(buf@.len() as int) == buf@);
        out
    }

    /// What the caller is told of some output, once the inner writer has taken what stands for
    /// it or has failed: all of the output counts as written, whatever was put in.
    pub fn written<E>(&self, buf: &Vec<u8>, outcome: Result<(), E>) -> (res: Result<usize, E>)
        ensures
            res == match outcome {
                Ok(_) => Ok::<usize, E>(buf@.len() as usize),
                Err(err) => Err(err),
            },
    {
        match outcome {
            Ok(()) => Ok(buf.len()),
            Err(err) => Err(err),
        }
    }
}

/// It makes no difference whether some output is written at once or in two parts.
pub proof fn parts_are_written_as_the_whole(first: Seq<u8>, second: Seq<u8>)
    ensures
        with_returns(first + second) == with_returns(first) + with_returns(second),
    decreases second.len(),
{
    let all = first + second;
    if second.len() == 0 {
        assert(all == first);
        assert(with_returns(first) + with_returns(second) == with_returns(first));
    } else {
        parts_are_written_as_the_whole(first, second.drop_last());
        assert(all.drop_last() == first + second.drop_last());
        assert(all.last() == second.last());
        assert(with_returns(all) == with_returns(first) + with_returns(second));
    }
}

/// In what a terminal in raw mode is sent, each end of a line comes after a return.
pub proof fn each_line_ends_with_a_return(output: Seq<u8>, i: int)
    requires
        0 <= i < with_returns(output).len(),
        with_returns(output)[i] == LF,
    ensures
        i > 0,
        with_returns(output)[i - 1] == CR,
    decreases output.len(),
{
    let front = with_returns(output.drop_last());
    if i < front.len() {
        assert(with_returns(output)[i] == front[i]);
        each_line_ends_with_a_return(output.drop_last(), i);
    }
}

/// Output without an end of a line is sent as it is.
pub proof fn output_without_line_ends_is_unchanged(output: Seq<u8>)
    requires
        !output.contains(LF),
    ensures
        with_returns(output) == output,
    decreases output.len(),
{
    if output.len() > 0 {
        let front = output.drop_last();
        assert(output[output.len() - 1] != LF);
        assert(!front.contains(LF)) by {
            if front.contains(LF) {
                let i = choose|i: int| 0 <= i < front.len() && front[i] == LF;
                assert(output[i] == LF);
            }
        }
        output_without_line_ends_is_unchanged(front);
        assert(front.push(output.last()) == output);
    }
}

/// The end of a line becomes a return and the end of a line, wherever it stands, and every other
/// byte stays as it is: nothing is left out, and nothing else is put in.
pub proof fn only_returns_are_put_in(output: Seq<u8>, byte: u8)
    ensures
        with_returns(Seq::empty()).len() == 0,
        with_returns(output.push(byte)) == if byte == 10 {
            with_returns(output).push(13).push(10)
        } else {
            with_returns(output).push(byte)
        },
{
    let all = output.push(byte);
    assert(all.drop_last() == output);
    if byte == LF {
        assert(with_returns(output) + seq![CR, LF] == with_returns(output).push(13).push(10));
    }
}

/// An operation on the terminal that is under way can end as it should or fail, and the raw mode
/// is entered with one that reads and one that sets the attributes, and left with one that sets
/// them. One that fails is told, and leaves nothing under way.
pub proof fn an_operation_ends_or_fails(mode: RawMode, attributes: Attributes)
    ensures
        mode.phase is Reading <==> raw_mode_accepts(mode.phase, TerminalEvent::Read(attributes)),
        mode.phase is Entering || mode.phase is Leaving <==> raw_mode_accepts(
            mode.phase,
            TerminalEvent::Applied,
        ),
        !(mode.phase is Idle) <==> raw_mode_accepts(mode.phase, TerminalEvent::Failed),
        raw_mode_step(mode, TerminalEvent::Failed) == (
            RawMode { phase: RawModePhase::Idle, ..mode },
            RawModeStep::Fail,
        ),
        mode.phase is Leaving ==> raw_mode_step(mode, TerminalEvent::Applied) == (
            RawMode { phase: RawModePhase::Idle, ..mode },
            RawModeStep::Done(true),
        ),
        mode.phase is Idle && mode.orig is None ==> raw_mode_accepts(
            enter_step(mode).0.phase,
            TerminalEvent::Read(attributes),
        ),
        mode.phase is Idle && mode.orig is Some ==> raw_mode_accepts(
            leave_step(mode).0.phase,
            TerminalEvent::Applied,
        ) && leave_step(mode).1 == RawModeStep::Apply(mode.fd, mode.orig->0),
{
}

} // verus!
