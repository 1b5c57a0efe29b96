use rlirsh::terminal::attributes::{Attributes, ECHO, OPOST};
use rlirsh::terminal::raw_mode::{
    self, RawMode, RawModeGuard, RawModePhase, RawModeStep, RawModeWriter, TerminalEvent,
};
use rlirsh::terminal::{enter_raw_mode, enter_raw_mode_scoped, leave_raw_mode};

fn cooked() -> Attributes {
    Attributes {
        input_flags: 0o2400 | 0o400,
        output_flags: 0o5,
        control_flags: 0o277,
        local_flags: 0o105073,
        line: 0,
        control_chars: [3; 32],
        input_speed: 15,
        output_speed: 15,
    }
}

fn entered() -> RawMode {
    let mut mode = RawMode::new(0);
    assert_eq!(raw_mode::enter(&mut mode), RawModeStep::Read(0));
    mode.handle(TerminalEvent::Read(cooked()));
    assert_eq!(mode.handle(TerminalEvent::Applied), RawModeStep::Done(true));
    mode
}

#[test]
fn entering_sets_the_raw_form_of_the_attributes() {
    let mut mode = RawMode::new(5);
    assert_eq!(enter_raw_mode(&mut mode), RawModeStep::Read(5));
    match mode.handle(TerminalEvent::Read(cooked())) {
        RawModeStep::Apply(5, raw) => {
            assert_ne!(raw, cooked());
            assert_eq!(raw.local_flags & ECHO, 0);
            assert_eq!(raw.output_flags & OPOST, 0);
            assert_eq!(raw.local_flags & libc::ICANON, 0);
            assert_eq!(raw.control_flags & libc::CSIZE, libc::CS8);
        }
        step => panic!("{:?}", step),
    }
    assert_eq!((ECHO, OPOST), (libc::ECHO, libc::OPOST));
    assert!(!mode.is_raw_mode());
    assert_eq!(mode.handle(TerminalEvent::Applied), RawModeStep::Done(true));
    assert!(mode.is_raw_mode());
}

#[test]
fn leaving_sets_the_attributes_of_before() {
    let mut mode = entered();
    assert_eq!(leave_raw_mode(&mut mode), RawModeStep::Apply(0, cooked()));
    assert!(!mode.is_raw_mode());
    assert_eq!(mode.handle(TerminalEvent::Applied), RawModeStep::Done(true));
    assert_eq!(mode, RawMode::new(0));
}

#[test]
fn a_second_time_touches_nothing() {
    let mut mode = entered();
    assert_eq!(mode.enter(), RawModeStep::Done(false));
    assert_eq!(mode, entered());
    let mut mode = RawMode::new(0);
    assert_eq!(raw_mode::leave(&mut mode), RawModeStep::Done(false));
    assert_eq!(mode, RawMode::new(0));
}

#[test]
fn a_terminal_that_fails_is_not_in_raw_mode() {
    let mut mode = RawMode::new(0);
    mode.enter();
    assert_eq!(mode.handle(TerminalEvent::Failed), RawModeStep::Fail);
    assert_eq!(mode, RawMode::new(0));
    mode.enter();
    mode.handle(TerminalEvent::Read(cooked()));
    assert_eq!(mode.handle(TerminalEvent::Failed), RawModeStep::Fail);
    assert_eq!(mode, RawMode::new(0));
    let mut mode = entered();
    mode.leave();
    assert_eq!(mode.handle(TerminalEvent::Failed), RawModeStep::Fail);
    assert_eq!(mode.phase, RawModePhase::Idle);
    assert!(!mode.is_raw_mode());
}

#[test]
fn a_scope_goes_with_every_attempt_that_does_not_fail() {
    assert_eq!(raw_mode::enter_scoped::<()>(Ok(true)), Ok(RawModeGuard {}));
    assert_eq!(enter_raw_mode_scoped::<()>(Ok(false)), Ok(RawModeGuard {}));
    assert_eq!(raw_mode::enter_scoped(Err("no terminal")), Err("no terminal"));
}

#[test]
fn output_in_raw_mode_gets_returns() {
    let writer = RawModeWriter::new(());
    let raw = entered();
    assert_eq!(writer.write(&raw, &b"a\nbc\n\n".to_vec()), b"a\r\nbc\r\n\r\n");
    assert_eq!(writer.write(&raw, &b"\r\n".to_vec()), b"\r\r\n");
    assert_eq!(writer.write(&raw, &b"".to_vec()), b"");
    assert_eq!(writer.write(&raw, &b"plain".to_vec()), b"plain");
}

#[test]
fn the_caller_is_told_of_its_own_output() {
    let writer = RawModeWriter::new(());
    let buf = b"a\nb\n".to_vec();
    assert_eq!(writer.write(&entered(), &buf).len(), 6);
    assert_eq!(writer.written::<&str>(&buf, Ok(())), Ok(4));
    assert_eq!(writer.written(&buf, Err("closed")), Err("closed"));
}

#[test]
fn output_otherwise_stays_as_it_is() {
    let writer = RawModeWriter::new(());
    assert_eq!(writer.write(&RawMode::new(0), &b"a\nb\n".to_vec()), b"a\nb\n");
}

#[test]
fn output_in_parts_is_the_output_as_a_whole() {
    let writer = RawModeWriter::new(());
    let raw = entered();
    let mut parts = writer.write(&raw, &b"one\nt".to_vec());
    parts.extend(writer.write(&raw, &b"wo\n".to_vec()));
    assert_eq!(parts, writer.write(&raw, &b"one\ntwo\n".to_vec()));
}
