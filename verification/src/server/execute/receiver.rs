//! What the server does with what the client tells.
use crate::error::{report_messages, wrap_report};
use crate::protocol::{ClientAction, ListenerAction, PortId, StreamAction, StreamId, WindowSize};
use color_eyre::eyre::Report;
use vstd::prelude::*;
use vstd::string::*;

verus! {

/// What happened to the receiver.
pub enum ReceiverEvent {
    /// The client told this.
    Message(ClientAction),
    /// Nothing can be received or sent any more, for this reason.
    Failed(Report),
    /// What was to be handed on last has nowhere to go, for this reason.
    Undelivered(Report),
}

/// What the receiver has to do next.
pub enum ReceiverStep {
    /// Hand this on to an end of the stream.
    RouteStream(StreamId, StreamAction),
    /// Set the size of the window of the pseudo-terminal, and go on even if that fails.
    SetWindowSize(WindowSize),
    /// Warn that there is no pseudo-terminal.
    WarnNoPty,
    /// Hand this on to whoever makes the connections for the port.
    RouteListener(PortId, ListenerAction),
    /// Tell the sender that the receiver has finished, and stop.
    Finish,
    /// Stop all streams, have the process killed for this error, tell the sender that the
    /// receiver has finished, and stop.
    Shutdown(Report),
    /// Stop with this error at once: the streams are left as they are, and the sender is not told
    /// that the receiver has finished.
    Fail(Report),
}

/// The receiver of the server.
pub struct Task {
    pub has_pty: bool,
    pub finished: bool,
}

impl Task {
    pub fn new(has_pty: bool) -> (task: Self)
        ensures
            task == (Task { has_pty, finished: false }),
    {
        Task { has_pty, finished: false }
    }

    /// Takes the receiver through an event.
    pub fn handle(&mut self, event: ReceiverEvent) -> (step: ReceiverStep)
        requires
            !old(self).finished,
        ensures
            final(self).has_pty == old(self).has_pty,
            final(self).finished == (step is Finish || step is Shutdown || step is Fail),
            match event {
                ReceiverEvent::Message(ClientAction::StreamAction(id, action)) => step
                    == ReceiverStep::RouteStream(id, action),
                ReceiverEvent::Message(ClientAction::WindowSizeChange(size)) => step == if old(
                    self,
                ).has_pty {
                    ReceiverStep::SetWindowSize(size)
                } else {
                    ReceiverStep::WarnNoPty
                },
                ReceiverEvent::Message(ClientAction::ListenerAction(port, action)) => step
                    == ReceiverStep::RouteListener(port, action),
                ReceiverEvent::Message(ClientAction::Finished) => step == ReceiverStep::Finish,
                ReceiverEvent::Failed(cause) => step matches ReceiverStep::Shutdown(err)
                    && report_messages(err) == seq!["connection disconnected unexpectedly"@]
                    + report_messages(cause),
                ReceiverEvent::Undelivered(err) => step == ReceiverStep::Fail(err),
            },
    {
        match event {
            ReceiverEvent::Message(ClientAction::StreamAction(id, action)) => {
                ReceiverStep::RouteStream(id, action)
            },
            ReceiverEvent::Message(ClientAction::WindowSizeChange(size)) => {
                if self.has_pty {
                    ReceiverStep::SetWindowSize(size)
                } else {
                    ReceiverStep::WarnNoPty
                }
            },
            ReceiverEvent::Message(ClientAction::ListenerAction(port, action)) => {
                ReceiverStep::RouteListener(port, action)
            },
            ReceiverEvent::Message(ClientAction::Finished) => {
                self.finished = true;
                ReceiverStep::Finish
            },
            ReceiverEvent::Failed(cause) => {
                self.finished = true;
                ReceiverStep::Shutdown(
                    wrap_report(cause, "connection disconnected unexpectedly".to_owned()),
                )
            },
            ReceiverEvent::Undelivered(err) => {
                self.finished = true;
                ReceiverStep::Fail(err)
            },
        }
    }
}

} // verus!
