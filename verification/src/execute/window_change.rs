//! The size of the local window, which the pseudo-terminal follows.
use crate::protocol::{ClientAction, WindowSize};
use color_eyre::eyre::Report;
use vstd::prelude::*;

verus! {

/// What happened.
pub enum WindowChangeEvent {
    /// The window changed its size, to this if it could be got.
    Signal(Option<WindowSize>),
    /// The command ended.
    Exit,
    /// What was to be sent last could not be, for this reason.
    SendFailed(Report),
}

/// What to do next.
pub enum WindowChangeStep {
    /// Send this and go on.
    Send(ClientAction),
    /// Go on.
    Wait,
    Stop,
    /// Stop with an error.
    Fail(Report),
}

/// Tells the server of the new size of the window, unless it could not be got.
pub fn handle(event: WindowChangeEvent) -> (step: WindowChangeStep)
    ensures
        step == match event {
            WindowChangeEvent::Signal(Some(size)) => WindowChangeStep::Send(
                ClientAction::WindowSizeChange(size),
            ),
            WindowChangeEvent::Signal(None) => WindowChangeStep::Wait,
            WindowChangeEvent::Exit => WindowChangeStep::Stop,
            WindowChangeEvent::SendFailed(err) => WindowChangeStep::Fail(err),
        },
{
    match event {
        WindowChangeEvent::Signal(Some(size)) => WindowChangeStep::Send(
            ClientAction::WindowSizeChange(size),
        ),
        WindowChangeEvent::Signal(None) => WindowChangeStep::Wait,
        WindowChangeEvent::Exit => WindowChangeStep::Stop,
        WindowChangeEvent::SendFailed(err) => WindowChangeStep::Fail(err),
    }
}

} // verus!
