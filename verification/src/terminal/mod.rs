//! The local terminal.
pub mod attributes;
pub mod raw_mode;

use crate::terminal::raw_mode::{enter_step, leave_step, RawMode, RawModeGuard, RawModeStep};
use vstd::prelude::*;

verus! {

/// Starts to enter the raw mode.
pub fn enter_raw_mode(mode: &mut RawMode) -> (step: RawModeStep)
    requires
        old(mode).phase is Idle,
    ensures
        (*final(mode), step) == enter_step(*old(mode)),
{
    crate::terminal::raw_mode::enter(mode)
}

/// The scope that goes with an attempt to enter the raw mode: there is one unless it failed.
pub fn enter_raw_mode_scoped<E>(entered: Result<bool, E>) -> (guard: Result<RawModeGuard, E>)
    ensures
        guard == match entered {
            Ok(_) => Ok::<RawModeGuard, E>(RawModeGuard {  }),
            Err(err) => Err(err),
        },
{
    crate::terminal::raw_mode::enter_scoped(entered)
}

/// Starts to leave the raw mode.
pub fn leave_raw_mode(mode: &mut RawMode) -> (step: RawModeStep)
    requires
        old(mode).phase is Idle,
    ensures
        (*final(mode), step) == leave_step(*old(mode)),
{
    crate::terminal::raw_mode::leave(mode)
}

} // verus!
