use color_eyre::eyre::Report;
use rlirsh::message::{
    check_serialized_size, send_message, MessageReader, MessageStep, SizeError, MESSAGE_SIZE_LIMIT,
};

#[test]
fn a_message_is_preceded_by_its_size() {
    assert_eq!(send_message(&vec![7, 8, 9]).unwrap(), vec![0, 0, 0, 3, 7, 8, 9]);
    assert_eq!(send_message(&vec![]).unwrap(), vec![0, 0, 0, 0]);
    let large = send_message(&vec![1; 0x1_0203]).unwrap();
    assert_eq!(large[..4], [0, 1, 2, 3]);
    assert_eq!(large.len(), 4 + 0x1_0203);
}

#[test]
fn the_limit_itself_can_be_sent() {
    let bytes = send_message(&vec![0; MESSAGE_SIZE_LIMIT as usize]).unwrap();
    assert_eq!(bytes[..4], [0, 0x10, 0, 0]);
    assert_eq!(check_serialized_size(1048576), Ok(1048576));
}

#[test]
fn more_than_the_limit_cannot_be_sent() {
    let err = send_message(&vec![0; MESSAGE_SIZE_LIMIT as usize + 1]).unwrap_err();
    assert_eq!(err, SizeError::Serialized(1048577));
    assert_eq!(err.message(), "serialized size is too large, size=1048577");
    assert_eq!(check_serialized_size(1 << 40), Err(SizeError::Serialized(1 << 40)));
}

#[test]
fn messages_are_received_as_they_were_sent() {
    let payloads: Vec<Vec<u8>> = vec![vec![1, 2, 3], vec![], vec![4; 300]];
    let mut arrived: Vec<u8> = vec![];
    for payload in &payloads {
        arrived.extend(send_message(payload).unwrap());
    }
    let mut reader = MessageReader::new();
    let mut received = vec![];
    while !arrived.is_empty() || reader.is_message_next() {
        let rest = arrived.split_off(reader.wanted());
        if let Some(message) = reader.recv_message(arrived).unwrap() {
            received.push(message);
        }
        arrived = rest;
    }
    assert_eq!(received, payloads);
}

#[test]
fn a_reader_wants_a_size_first() {
    let mut reader = MessageReader::new();
    assert_eq!(reader.wanted(), 4);
    assert!(!reader.is_message_next());
    assert_eq!(reader.recv_message(vec![0, 0, 1, 2]), Ok(None));
    assert!(reader.is_message_next());
    assert_eq!(reader.wanted(), 258);
}

#[test]
fn an_announced_size_over_the_limit_is_refused() {
    let mut reader = MessageReader::new();
    let err = reader.recv_message(vec![0, 0x10, 0, 1]).unwrap_err();
    assert_eq!(err, SizeError::Received(1048577));
    assert_eq!(err.message(), "message size is too large, size=1048577");
    let err = reader.recv_message(vec![0xff; 4]).unwrap_err();
    assert_eq!(err, SizeError::Received(u32::MAX));
}

#[test]
fn a_failed_read_tells_what_it_should_have_brought() {
    let mut reader = MessageReader::new();
    let err = reader.read_failed(Report::msg("reset"));
    let causes: Vec<String> = err.chain().map(|cause| cause.to_string()).collect();
    assert_eq!(causes, vec!["failed to receive message size", "reset"]);
    assert_eq!(reader.recv_message(vec![0, 0, 0, 2]), Ok(None));
    let err = reader.read_failed(Report::msg("reset"));
    let causes: Vec<String> = err.chain().map(|cause| cause.to_string()).collect();
    assert_eq!(causes, vec!["failed to receive message", "reset"]);
}

#[test]
fn each_step_of_a_message_fails_with_its_context() {
    for (step, context) in [
        (MessageStep::SendSize, "failed to send message size"),
        (MessageStep::Serialize, "failed to serialize message"),
        (MessageStep::Write, "failed to write message"),
        (MessageStep::Flush, "failed to flush stream"),
        (MessageStep::Deserialize, "failed to deserialize message"),
    ] {
        let err = step.failed(Report::msg("reset"));
        let causes: Vec<String> = err.chain().map(|cause| cause.to_string()).collect();
        assert_eq!(causes, vec![context, "reset"]);
    }
}
