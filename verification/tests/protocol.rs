use color_eyre::eyre::Report;
use rlirsh::error::wrap_err;
use rlirsh::execute;
use rlirsh::protocol::{
    port_ids, shown_bytes_text, ConnId, ExitStatus, PortId, Response, SerialError, SourceAction,
    StreamId,
};

fn messages(report: &Report) -> Vec<String> {
    report.chain().map(|cause| cause.to_string()).collect()
}

fn failure() -> Report {
    Report::msg("no such file").wrap_err("failed to open").wrap_err("failed to start")
}

#[test]
fn serial_error_holds_the_chain() {
    let serial = SerialError::new(&failure());
    assert_eq!(serial.0, vec!["failed to start", "failed to open", "no such file"]);
}

#[test]
fn serial_error_of_a_single_cause() {
    assert_eq!(SerialError::new(&Report::msg("alone")).0, vec!["alone"]);
}

#[test]
fn an_error_crosses_the_wire_unchanged() {
    let sent = failure();
    let received = Report::from(SerialError::new(&sent));
    assert_eq!(messages(&received), messages(&sent));
}

#[test]
fn an_error_without_messages_tells_so() {
    let received = Report::from(SerialError(vec![]));
    assert_eq!(messages(&received), vec!["failed to deserialize an error information"]);
}

#[test]
fn response_tells_success() {
    let response = Response::new(&Ok::<u8, Report>(3));
    assert_eq!(response, Response::Success);
    assert!(Result::<(), Report>::from(response).is_ok());
}

#[test]
fn response_tells_the_failure() {
    let response = Response::new(&Err::<u8, Report>(failure()));
    let err = Result::<(), Report>::from(response).unwrap_err();
    assert_eq!(messages(&err), vec!["failed to start", "failed to open", "no such file"]);
}

#[test]
fn a_refused_request_is_told_with_its_context() {
    let err = execute::connect(Response::new(&Err::<(), Report>(Report::msg("denied"))))
        .unwrap_err();
    assert_eq!(messages(&err), vec!["failed to execute the program", "denied"]);
    assert!(execute::connect(Response::Success).is_ok());
}

#[test]
fn wrap_err_puts_the_context_first() {
    assert_eq!(wrap_err(Ok::<u8, Report>(7), "context").unwrap(), 7);
    let err = wrap_err(Err::<u8, Report>(Report::msg("cause")), "context").unwrap_err();
    assert_eq!(messages(&err), vec!["context", "cause"]);
}

#[test]
fn ids_are_numbered() {
    assert_eq!(PortId::new(3), PortId(3));
    assert_eq!(ConnId::new(4), ConnId(4));
    assert_eq!(port_ids(3), vec![PortId(0), PortId(1), PortId(2)]);
    assert_eq!(port_ids(0), vec![]);
}

#[test]
fn ids_in_diagnostics_are_as_derived() {
    for id in [
        StreamId::Stdin,
        StreamId::Stdout,
        StreamId::Stderr,
        StreamId::Forward(PortId(0), ConnId(4294967295)),
    ] {
        assert_eq!(id.debug_text(), format!("{:?}", id));
    }
    assert_eq!(PortId(10).debug_text(), "PortId(10)");
    assert_eq!(ConnId(99).debug_text(), "ConnId(99)");
}

#[test]
fn exit_statuses_in_diagnostics_are_as_derived() {
    for status in [ExitStatus::Code(0), ExitStatus::Code(i32::MIN), ExitStatus::Signal(9)] {
        assert_eq!(status.debug_text(), format!("{:?}", status));
    }
}

#[test]
fn packets_show_their_first_bytes() {
    assert_eq!(shown_bytes_text(&vec![]), "");
    assert_eq!(shown_bytes_text(&vec![0x0a]), "0a");
    assert_eq!(shown_bytes_text(&vec![0, 1, 2, 3, 4, 5, 6, 0xff]), "00 01 02 03 04 05 06 ff");
    assert_eq!(shown_bytes_text(&vec![0, 1, 2, 3, 4, 5, 6, 7, 8]), "00 01 02 03 04 05 06 07 ..");
}

#[test]
fn source_actions_in_diagnostics() {
    assert_eq!(
        SourceAction::Data(vec![0xde, 0xad]).debug_text(),
        "Data { len: 2, bytes: de ad }"
    );
    assert_eq!(
        SourceAction::Data(vec![9; 4096]).debug_text(),
        "Data { len: 4096, bytes: 09 09 09 09 09 09 09 09 .. }"
    );
    assert_eq!(SourceAction::SourceClosed.debug_text(), "SourceClosed");
}
