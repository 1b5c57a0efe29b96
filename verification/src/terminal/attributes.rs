//! The attributes of a terminal.
use nix::sys::termios::{cfmakeraw, Termios};
use vstd::prelude::*;

verus! {

/// The attributes of a terminal, as the system keeps them.
#[derive(Debug, Clone, Copy, PartialEq, Eq)]
pub struct Attributes {
    pub input_flags: u32,
    pub output_flags: u32,
    pub control_flags: u32,
    pub local_flags: u32,
    pub line: u8,
    pub control_chars: [u8; 32],
    pub input_speed: u32,
    pub output_speed: u32,
}

/// The local flag by which a terminal echoes its input.
pub const ECHO: u32 = 8;

/// The output flag by which a terminal processes its output, such as the end of a line.
pub const OPOST: u32 = 1;

/// The raw form of some attributes: what `cfmakeraw` makes of them.
pub uninterp spec fn raw_attributes(attributes: Attributes) -> Attributes;

/// Calls `nix::sys::termios::cfmakeraw` on a copy of the attributes. The result depends on the
/// attributes alone; echoing is off in it, and so is the processing of the output. That input
/// comes character by character is not stated: the number of that flag is not the same on all
/// targets of `libc`.
#[verifier::external_body]
pub(crate) fn make_raw(attributes: &Attributes) -> (raw: Attributes)
    ensures
        raw == raw_attributes(*attributes),
        raw.local_flags & ECHO == 0,
        raw.output_flags & OPOST == 0,
{
    let Attributes { input_flags, output_flags, control_flags, local_flags, line, .. } = *attributes;
    let mut termios = Termios::from(libc::termios {
        c_iflag: input_flags, c_oflag: output_flags, c_cflag: control_flags, c_lflag: local_flags,
        c_line: line, c_cc: attributes.control_chars,
        c_ispeed: attributes.input_speed, c_ospeed: attributes.output_speed,
    });
    cfmakeraw(&mut termios);
    let raw = libc::termios::from(termios);
    Attributes {
        input_flags: raw.c_iflag, output_flags: raw.c_oflag, control_flags: raw.c_cflag,
        local_flags: raw.c_lflag, line: raw.c_line, control_chars: raw.c_cc,
        input_speed: raw.c_ispeed, output_speed: raw.c_ospeed,
    }
}

} // verus!
