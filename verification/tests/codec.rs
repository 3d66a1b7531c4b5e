use dynamo::errors::{error_storage_data, get_storage_error_type, ProtocolError, StorageErrors};
use dynamo::file::{
    deserialize_create_file, deserialize_filename_operation, serialize_create_file,
    serialize_filename,
};
use dynamo::message::{
    ack_data, build_error_data, build_message_data, copy_range, describe_message, get_error_type,
    get_type, get_type_literal, parse_message, read_message, ErrorType, Message, MessageType,
    ReadEvent, ReadStep, READ_BUFFER_SIZE, RETRY_DELAY_MILLIS,
};

fn all_types() -> Vec<MessageType> {
    vec![
        MessageType::CliPut,
        MessageType::CliGet,
        MessageType::CliDelete,
        MessageType::Error,
        MessageType::Okay,
    ]
}

#[test]
fn type_tags_are_one_to_five() {
    assert_eq!(MessageType::CliPut.code(), 1);
    assert_eq!(MessageType::CliGet.code(), 2);
    assert_eq!(MessageType::CliDelete.code(), 3);
    assert_eq!(MessageType::Error.code(), 4);
    assert_eq!(MessageType::Okay.code(), 5);
}

#[test]
fn type_tags_round_trip() {
    for t in all_types() {
        assert_eq!(get_type(&t.code()), Ok(t));
    }
}

#[test]
fn unknown_type_tags_are_refused() {
    assert_eq!(get_type(&0), Err(ProtocolError::UnknownMessageType(0)));
    assert_eq!(get_type(&6), Err(ProtocolError::UnknownMessageType(6)));
    assert_eq!(get_type(&255), Err(ProtocolError::UnknownMessageType(255)));
}

#[test]
fn error_category_codes() {
    assert_eq!(ErrorType::StorageError.code(), 1);
    assert_eq!(get_error_type(&1), Ok(ErrorType::StorageError));
    assert_eq!(get_error_type(&0), Err(ProtocolError::UnknownErrorCategory(0)));
    assert_eq!(get_error_type(&2), Err(ProtocolError::UnknownErrorCategory(2)));
}

#[test]
fn storage_error_codes() {
    assert_eq!(StorageErrors::AlreadyExists.code(), 1);
    assert_eq!(StorageErrors::NotFound.code(), 2);
    assert_eq!(StorageErrors::UnknownError.code(), 3);
    assert_eq!(get_storage_error_type(&1), Ok(StorageErrors::AlreadyExists));
    assert_eq!(get_storage_error_type(&2), Ok(StorageErrors::NotFound));
    assert_eq!(get_storage_error_type(&3), Ok(StorageErrors::UnknownError));
    assert_eq!(get_storage_error_type(&0), Err(ProtocolError::UnknownStorageError(0)));
    assert_eq!(get_storage_error_type(&4), Err(ProtocolError::UnknownStorageError(4)));
}

#[test]
fn type_literals() {
    assert_eq!(get_type_literal(MessageType::CliPut), "CLI_PUT");
    assert_eq!(get_type_literal(MessageType::CliGet), "CLI_GET");
    assert_eq!(get_type_literal(MessageType::CliDelete), "CLI_DELETE");
    assert_eq!(get_type_literal(MessageType::Okay), "OK");
    assert_eq!(get_type_literal(MessageType::Error), "ERROR");
}

#[test]
fn message_data_is_tag_then_payload() {
    let mut content: Vec<u8> = vec![10, 20, 30];
    let data = build_message_data(MessageType::CliGet, &mut content);
    assert_eq!(data, vec![2, 10, 20, 30]);
    assert!(content.is_empty());
}

#[test]
fn error_data_is_category_then_detail() {
    let mut content: Vec<u8> = vec![2];
    let data = build_error_data(ErrorType::StorageError, &mut content);
    assert_eq!(data, vec![1, 2]);
    assert!(content.is_empty());
}

#[test]
fn ack_is_the_ok_tag_alone() {
    assert_eq!(ack_data(), vec![5]);
}

#[test]
fn storage_error_reply_bytes() {
    assert_eq!(error_storage_data(StorageErrors::AlreadyExists), vec![4, 1, 1]);
    assert_eq!(error_storage_data(StorageErrors::NotFound), vec![4, 1, 2]);
    assert_eq!(error_storage_data(StorageErrors::UnknownError), vec![4, 1, 3]);
}

#[test]
fn copy_range_takes_the_middle() {
    let data: Vec<u8> = vec![1, 2, 3, 4, 5];
    assert_eq!(copy_range(&data, 1, 4), vec![2, 3, 4]);
    assert_eq!(copy_range(&data, 0, 5), data);
    assert_eq!(copy_range(&data, 5, 5), Vec::<u8>::new());
}

#[test]
fn parse_splits_tag_and_payload() {
    let data: Vec<u8> = vec![2, 1, 97];
    let message = parse_message(&data, String::from("127.0.0.1")).unwrap();
    assert_eq!(message.message_type, MessageType::CliGet);
    assert_eq!(message.content, vec![1, 97]);
    assert_eq!(message.origin, "127.0.0.1");
}

#[test]
fn parse_of_tag_alone_has_empty_payload() {
    let data: Vec<u8> = vec![5];
    let message = parse_message(&data, String::new()).unwrap();
    assert_eq!(message.message_type, MessageType::Okay);
    assert!(message.content.is_empty());
}

#[test]
fn parse_refuses_an_empty_stream() {
    let data: Vec<u8> = Vec::new();
    let r = parse_message(&data, String::new());
    assert_eq!(r.err(), Some(ProtocolError::EmptyMessage));
}

#[test]
fn parse_refuses_an_unknown_tag() {
    let data: Vec<u8> = vec![9, 1, 2];
    let r = parse_message(&data, String::new());
    assert_eq!(r.err(), Some(ProtocolError::UnknownMessageType(9)));
}

#[test]
fn framing_round_trips() {
    for t in all_types() {
        let payload: Vec<u8> = vec![0, 255, 7];
        let mut content = payload.clone();
        let data = build_message_data(t, &mut content);
        let message = parse_message(&data, String::new()).unwrap();
        assert_eq!(message.message_type, t);
        assert_eq!(message.content, payload);
    }
}

#[test]
fn filename_payload_bytes() {
    let mut output: Vec<u8> = vec![9];
    let r = serialize_filename(&String::from("a.txt"), &mut output);
    assert_eq!(r, Ok(()));
    assert_eq!(output, vec![9, 5, 97, 46, 116, 120, 116]);
}

#[test]
fn filename_length_counts_utf8_bytes() {
    let mut output: Vec<u8> = Vec::new();
    let r = serialize_filename(&String::from("é"), &mut output);
    assert_eq!(r, Ok(()));
    assert_eq!(output, vec![2, 0xC3, 0xA9]);
}

#[test]
fn filename_of_255_bytes_fits() {
    let name = "x".repeat(255);
    let mut output: Vec<u8> = Vec::new();
    assert_eq!(serialize_filename(&name, &mut output), Ok(()));
    assert_eq!(output.len(), 256);
    assert_eq!(output[0], 255);
}

#[test]
fn filename_of_256_bytes_is_refused() {
    let name = "x".repeat(256);
    let mut output: Vec<u8> = vec![1, 2];
    assert_eq!(serialize_filename(&name, &mut output), Err(ProtocolError::FilenameTooLong));
    assert_eq!(output, vec![1, 2]);
    let mut content: Vec<u8> = vec![7, 8];
    assert_eq!(
        serialize_create_file(&name, &mut content, &mut output),
        Err(ProtocolError::FilenameTooLong)
    );
    assert_eq!(output, vec![1, 2]);
    assert_eq!(content, vec![7, 8]);
}

#[test]
fn create_payload_bytes() {
    let mut content: Vec<u8> = b"hello".to_vec();
    let mut output: Vec<u8> = Vec::new();
    let r = serialize_create_file(&String::from("a.txt"), &mut content, &mut output);
    assert_eq!(r, Ok(()));
    assert_eq!(output, vec![5, 97, 46, 116, 120, 116, 5, 104, 101, 108, 108, 111]);
    assert!(content.is_empty());
}

#[test]
fn reserved_byte_is_the_length_modulo_256() {
    let mut content: Vec<u8> = vec![1; 300];
    let mut output: Vec<u8> = Vec::new();
    assert_eq!(serialize_create_file(&String::from("f"), &mut content, &mut output), Ok(()));
    assert_eq!(output.len(), 303);
    assert_eq!(output[2], 44);
}

#[test]
fn create_round_trip() {
    let names = vec![String::from("a.txt"), String::from("é—日本.bin"), String::new(), "n".repeat(255)];
    let contents: Vec<Vec<u8>> = vec![Vec::new(), b"hello".to_vec(), vec![0, 255, 47, 0], vec![3; 1000]];
    for name in &names {
        for content in &contents {
            let mut sent = content.clone();
            let mut output: Vec<u8> = Vec::new();
            assert_eq!(serialize_create_file(name, &mut sent, &mut output), Ok(()));
            let (got_name, got_content) = deserialize_create_file(&output).unwrap();
            assert_eq!(&got_name, name);
            assert_eq!(&got_content, content);
        }
    }
}

#[test]
fn filename_round_trip() {
    for name in vec![String::from("a.txt"), String::from("ß.dat"), "n".repeat(255)] {
        let mut output: Vec<u8> = Vec::new();
        assert_eq!(serialize_filename(&name, &mut output), Ok(()));
        assert_eq!(deserialize_filename_operation(&output), Ok(name));
    }
}

#[test]
fn create_decoder_skips_the_reserved_byte() {
    let data: Vec<u8> = vec![1, 102, 200, 9, 8];
    assert_eq!(deserialize_create_file(&data), Ok((String::from("f"), vec![9, 8])));
}

#[test]
fn create_decoder_refuses_malformed_payloads() {
    let empty: Vec<u8> = Vec::new();
    assert_eq!(deserialize_create_file(&empty), Err(ProtocolError::MalformedPayload));
    let short: Vec<u8> = vec![5, 97, 98];
    assert_eq!(deserialize_create_file(&short), Err(ProtocolError::MalformedPayload));
    let no_reserved: Vec<u8> = vec![2, 97, 98];
    assert_eq!(deserialize_create_file(&no_reserved), Err(ProtocolError::MalformedPayload));
    let not_utf8: Vec<u8> = vec![2, 0xC3, 0x28, 0, 1];
    assert_eq!(deserialize_create_file(&not_utf8), Err(ProtocolError::MalformedPayload));
    let only_length: Vec<u8> = vec![0];
    assert_eq!(deserialize_create_file(&only_length), Err(ProtocolError::MalformedPayload));
}

#[test]
fn create_decoder_takes_an_empty_content() {
    let data: Vec<u8> = vec![1, 102, 0];
    assert_eq!(deserialize_create_file(&data), Ok((String::from("f"), Vec::new())));
}

#[test]
fn filename_decoder_takes_all_after_the_first_byte() {
    let data: Vec<u8> = vec![5, 97, 46, 116, 120, 116];
    assert_eq!(deserialize_filename_operation(&data), Ok(String::from("a.txt")));
    let other_length: Vec<u8> = vec![0, 97, 98];
    assert_eq!(deserialize_filename_operation(&other_length), Ok(String::from("ab")));
}

#[test]
fn filename_decoder_refuses_malformed_payloads() {
    let empty: Vec<u8> = Vec::new();
    assert_eq!(deserialize_filename_operation(&empty), Err(ProtocolError::MalformedPayload));
    let not_utf8: Vec<u8> = vec![2, 0xFF, 0xFE];
    assert_eq!(deserialize_filename_operation(&not_utf8), Err(ProtocolError::MalformedPayload));
}

#[test]
fn filename_decoder_decodes_utf8() {
    let data: Vec<u8> = vec![2, 0xC3, 0xA9];
    let name = deserialize_filename_operation(&data).unwrap();
    assert_eq!(name.chars().count(), 1);
    assert_eq!(name, "é");
}

#[test]
fn received_line_names_type_and_origin() {
    let message = Message {
        origin: String::from("10.0.0.7"),
        message_type: MessageType::CliDelete,
        content: Vec::new(),
    };
    assert_eq!(describe_message(&message), "Received message: CLI_DELETE from 10.0.0.7");
}

fn feed(received: &mut Vec<u8>, segment: &[u8]) -> ReadStep {
    let mut buf: Vec<u8> = vec![0; READ_BUFFER_SIZE];
    buf[..segment.len()].copy_from_slice(segment);
    read_message(received, &buf, ReadEvent::Received(segment.len()))
}

#[test]
fn read_with_bytes_appends_them_and_reads_on() {
    assert_eq!(READ_BUFFER_SIZE, 2048);
    let mut received: Vec<u8> = Vec::new();
    assert_eq!(feed(&mut received, &[2, 1, 97]), ReadStep::ReadOn);
    assert_eq!(received, vec![2, 1, 97]);
}

#[test]
fn end_of_stream_delivers_what_was_received() {
    let mut received: Vec<u8> = Vec::new();
    assert_eq!(feed(&mut received, &[2, 1, 97]), ReadStep::ReadOn);
    let buf: Vec<u8> = vec![0; READ_BUFFER_SIZE];
    assert_eq!(read_message(&mut received, &buf, ReadEvent::Received(0)), ReadStep::Deliver);
    assert_eq!(received, vec![2, 1, 97]);
}

#[test]
fn message_in_two_reads_is_delivered_whole() {
    let mut received: Vec<u8> = Vec::new();
    assert_eq!(feed(&mut received, &[1, 1, 102]), ReadStep::ReadOn);
    assert_eq!(feed(&mut received, &[2, 9, 8]), ReadStep::ReadOn);
    assert_eq!(feed(&mut received, &[]), ReadStep::Deliver);
    assert_eq!(received, vec![1, 1, 102, 2, 9, 8]);
    assert_eq!(deserialize_create_file(&received[1..].to_vec()), Ok((String::from("f"), vec![9, 8])));
}

#[test]
fn message_longer_than_the_buffer_is_delivered_whole() {
    let mut content: Vec<u8> = (0..5000u32).map(|i| (i % 251) as u8).collect();
    let expected = content.clone();
    let mut payload: Vec<u8> = Vec::new();
    assert_eq!(serialize_create_file(&String::from("big"), &mut content, &mut payload), Ok(()));
    let message = build_message_data(MessageType::CliPut, &mut payload);
    assert_eq!(message.len(), 1 + 1 + 3 + 1 + 5000);

    let mut received: Vec<u8> = Vec::new();
    for segment in message.chunks(READ_BUFFER_SIZE) {
        assert_eq!(feed(&mut received, segment), ReadStep::ReadOn);
    }
    assert_eq!(feed(&mut received, &[]), ReadStep::Deliver);
    assert_eq!(received, message);

    let parsed = parse_message(&received, String::new()).unwrap();
    assert_eq!(parsed.message_type, MessageType::CliPut);
    assert_eq!(deserialize_create_file(&parsed.content), Ok((String::from("big"), expected)));
}

#[test]
fn full_buffer_is_taken_whole() {
    let mut received: Vec<u8> = vec![1];
    let buf: Vec<u8> = vec![7; 16];
    assert_eq!(read_message(&mut received, &buf, ReadEvent::Received(16)), ReadStep::ReadOn);
    assert_eq!(received.len(), 17);
    assert_eq!(received[0], 1);
    assert_eq!(received[16], 7);
}

#[test]
fn ended_stream_with_nothing_received_is_a_framing_error() {
    let mut received: Vec<u8> = Vec::new();
    let buf: Vec<u8> = vec![0; 8];
    assert_eq!(read_message(&mut received, &buf, ReadEvent::Received(0)), ReadStep::Empty);
    assert!(received.is_empty());
}

#[test]
fn blocked_read_is_retried_after_a_pause() {
    assert_eq!(RETRY_DELAY_MILLIS, 100);
    let mut received: Vec<u8> = vec![5];
    let buf: Vec<u8> = vec![9; 8];
    assert_eq!(read_message(&mut received, &buf, ReadEvent::WouldBlock), ReadStep::RetryAfter(100));
    assert_eq!(received, vec![5]);
}

#[test]
fn failed_read_is_handed_up() {
    let mut received: Vec<u8> = vec![5];
    let buf: Vec<u8> = vec![9; 8];
    assert_eq!(read_message(&mut received, &buf, ReadEvent::Failed), ReadStep::Broken);
    assert_eq!(received, vec![5]);
}
