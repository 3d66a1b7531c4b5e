use dynamo::commands::{
    create_command, delete_command, fetched_output, filename_command, get_command,
    handle_command, reply_status, status_line, validate_ack, wait_ack, Operation, ReplyStatus,
};
use dynamo::errors::{ProtocolError, StorageErrors};
use dynamo::handler::{
    ack_reply, get_reply, handle_create, handle_delete, handle_get, handle_message, route_message,
};
use dynamo::manager::StorageManager;
use dynamo::memory::MemoryStorage;
use dynamo::message::{parse_message, Message, MessageType};

fn request(message_type: MessageType, content: Vec<u8>) -> Message {
    Message { origin: String::from("client"), message_type, content }
}

fn reply(message_type: MessageType, content: Vec<u8>) -> Message {
    Message { origin: String::from("node"), message_type, content }
}

#[test]
fn replies_to_create_and_delete() {
    assert_eq!(ack_reply(Ok(())), vec![5]);
    assert_eq!(ack_reply(Err(StorageErrors::AlreadyExists)), vec![4, 1, 1]);
    assert_eq!(ack_reply(Err(StorageErrors::NotFound)), vec![4, 1, 2]);
    assert_eq!(ack_reply(Err(StorageErrors::UnknownError)), vec![4, 1, 3]);
}

#[test]
fn replies_to_get() {
    assert_eq!(get_reply(Ok(b"hello".to_vec())), vec![5, 104, 101, 108, 108, 111]);
    assert_eq!(get_reply(Ok(Vec::new())), vec![5]);
    assert_eq!(get_reply(Err(StorageErrors::NotFound)), vec![4, 1, 2]);
    assert_eq!(get_reply(Err(StorageErrors::UnknownError)), vec![4, 1, 3]);
}

#[test]
fn scenario_create_get_create_delete_get() {
    let mut storage = MemoryStorage::new();
    let name = String::from("a.txt");

    let mut hello: Vec<u8> = b"hello".to_vec();
    let create = create_command(&name, &mut hello).unwrap();
    assert_eq!(handle_message(&create, String::from("c"), &mut storage), Ok(vec![5]));

    let get = get_command(&name).unwrap();
    assert_eq!(
        handle_message(&get, String::from("c"), &mut storage),
        Ok(vec![5, 104, 101, 108, 108, 111])
    );

    let mut world: Vec<u8> = b"world".to_vec();
    let create_again = create_command(&name, &mut world).unwrap();
    assert_eq!(handle_message(&create_again, String::from("c"), &mut storage), Ok(vec![4, 1, 1]));

    let delete = delete_command(&name).unwrap();
    assert_eq!(handle_message(&delete, String::from("c"), &mut storage), Ok(vec![5]));

    assert_eq!(handle_message(&get, String::from("c"), &mut storage), Ok(vec![4, 1, 2]));
}

#[test]
fn scenario_as_the_client_sees_it() {
    let mut storage = MemoryStorage::new();
    let new = Operation::New { filename: String::from("a.txt") };
    let get = Operation::Get { filename: String::from("a.txt"), output: String::from("out.txt") };
    let delete = Operation::Delete { filename: String::from("a.txt") };

    let mut content: Vec<u8> = b"hello".to_vec();
    let sent = handle_command(&new, &mut content).unwrap();
    assert!(content.is_empty());
    let answer = handle_message(&sent, String::from("c"), &mut storage).unwrap();
    assert_eq!(wait_ack(&answer, String::from("n")), Ok(ReplyStatus::Completed));

    let mut unused: Vec<u8> = vec![1];
    let sent = handle_command(&get, &mut unused).unwrap();
    assert_eq!(unused, vec![1]);
    let answer = handle_message(&sent, String::from("c"), &mut storage).unwrap();
    let message = parse_message(&answer, String::from("n")).unwrap();
    assert!(validate_ack(&message));
    assert_eq!(fetched_output(&get, &message), Some((String::from("out.txt"), b"hello".to_vec())));

    let mut content: Vec<u8> = b"world".to_vec();
    let sent = handle_command(&new, &mut content).unwrap();
    let answer = handle_message(&sent, String::from("c"), &mut storage).unwrap();
    assert_eq!(wait_ack(&answer, String::from("n")), Ok(ReplyStatus::AlreadyExists));

    let sent = handle_command(&delete, &mut unused).unwrap();
    let answer = handle_message(&sent, String::from("c"), &mut storage).unwrap();
    assert_eq!(wait_ack(&answer, String::from("n")), Ok(ReplyStatus::Completed));

    let sent = handle_command(&get, &mut unused).unwrap();
    let answer = handle_message(&sent, String::from("c"), &mut storage).unwrap();
    let message = parse_message(&answer, String::from("n")).unwrap();
    assert!(!validate_ack(&message));
    assert_eq!(reply_status(&message), ReplyStatus::NotFound);
    assert_eq!(fetched_output(&get, &message), None);
}

#[test]
fn create_handler_stores_and_acknowledges() {
    let mut storage = MemoryStorage::new();
    let message = request(MessageType::CliPut, vec![1, 102, 2, 9, 8]);
    assert_eq!(handle_create(&message, &mut storage), Ok(vec![5]));
    assert_eq!(storage.get_file(&String::from("f")), Ok(vec![9, 8]));
    assert_eq!(handle_create(&message, &mut storage), Ok(vec![4, 1, 1]));
}

#[test]
fn get_handler_returns_the_content() {
    let mut storage = MemoryStorage::new();
    assert_eq!(storage.store_file(&String::from("f"), &vec![1, 2, 3]), Ok(()));
    let message = request(MessageType::CliGet, vec![1, 102]);
    assert_eq!(handle_get(&message, &storage), Ok(vec![5, 1, 2, 3]));
    let missing = request(MessageType::CliGet, vec![1, 103]);
    assert_eq!(handle_get(&missing, &storage), Ok(vec![4, 1, 2]));
}

#[test]
fn delete_handler_removes_and_acknowledges() {
    let mut storage = MemoryStorage::new();
    assert_eq!(storage.store_file(&String::from("f"), &vec![1, 2, 3]), Ok(()));
    let message = request(MessageType::CliDelete, vec![1, 102]);
    assert_eq!(handle_delete(&message, &mut storage), Ok(vec![5]));
    assert_eq!(storage.len(), 0);
    assert_eq!(handle_delete(&message, &mut storage), Ok(vec![4, 1, 2]));
}

#[test]
fn handlers_refuse_malformed_payloads() {
    let mut storage = MemoryStorage::new();
    let put = request(MessageType::CliPut, vec![4, 97]);
    assert_eq!(handle_create(&put, &mut storage), Err(ProtocolError::MalformedPayload));
    let get = request(MessageType::CliGet, Vec::new());
    assert_eq!(handle_get(&get, &storage), Err(ProtocolError::MalformedPayload));
    let delete = request(MessageType::CliDelete, vec![1, 0xFF]);
    assert_eq!(handle_delete(&delete, &mut storage), Err(ProtocolError::MalformedPayload));
    assert_eq!(storage.len(), 0);
}

#[test]
fn router_refuses_reply_types() {
    let mut storage = MemoryStorage::new();
    let ok = request(MessageType::Okay, Vec::new());
    assert_eq!(route_message(&ok, &mut storage), Err(ProtocolError::UnexpectedMessageType));
    let error = request(MessageType::Error, vec![1, 2]);
    assert_eq!(route_message(&error, &mut storage), Err(ProtocolError::UnexpectedMessageType));
}

#[test]
fn router_dispatches_by_type() {
    let mut storage = MemoryStorage::new();
    let put = request(MessageType::CliPut, vec![1, 102, 1, 7]);
    assert_eq!(route_message(&put, &mut storage), Ok(vec![5]));
    let get = request(MessageType::CliGet, vec![1, 102]);
    assert_eq!(route_message(&get, &mut storage), Ok(vec![5, 7]));
    let delete = request(MessageType::CliDelete, vec![1, 102]);
    assert_eq!(route_message(&delete, &mut storage), Ok(vec![5]));
    assert_eq!(route_message(&get, &mut storage), Ok(vec![4, 1, 2]));
}

#[test]
fn framing_errors_get_no_reply() {
    let mut storage = MemoryStorage::new();
    assert_eq!(
        handle_message(&Vec::new(), String::from("c"), &mut storage),
        Err(ProtocolError::EmptyMessage)
    );
    assert_eq!(
        handle_message(&vec![0, 1, 2], String::from("c"), &mut storage),
        Err(ProtocolError::UnknownMessageType(0))
    );
    assert_eq!(
        handle_message(&vec![1], String::from("c"), &mut storage),
        Err(ProtocolError::MalformedPayload)
    );
}

#[test]
fn create_outside_the_root_is_an_unknown_error() {
    let mut storage = MemoryStorage::new();
    let mut content: Vec<u8> = b"x".to_vec();
    let create = create_command(&String::from("../a"), &mut content).unwrap();
    assert_eq!(handle_message(&create, String::from("c"), &mut storage), Ok(vec![4, 1, 3]));
    let get = get_command(&String::from("../a")).unwrap();
    assert_eq!(handle_message(&get, String::from("c"), &mut storage), Ok(vec![4, 1, 2]));
}

#[test]
fn create_request_bytes() {
    let mut content: Vec<u8> = b"hello".to_vec();
    let sent = create_command(&String::from("a.txt"), &mut content);
    assert_eq!(sent, Ok(vec![1, 5, 97, 46, 116, 120, 116, 5, 104, 101, 108, 108, 111]));
    assert!(content.is_empty());
}

#[test]
fn filename_request_bytes() {
    assert_eq!(get_command(&String::from("a.txt")), Ok(vec![2, 5, 97, 46, 116, 120, 116]));
    assert_eq!(delete_command(&String::from("a.txt")), Ok(vec![3, 5, 97, 46, 116, 120, 116]));
    assert_eq!(filename_command(MessageType::CliGet, &String::from("f")), Ok(vec![2, 1, 102]));
}

#[test]
fn requests_refuse_long_filenames() {
    let name = "x".repeat(256);
    let mut content: Vec<u8> = vec![1, 2];
    assert_eq!(create_command(&name, &mut content), Err(ProtocolError::FilenameTooLong));
    assert_eq!(content, vec![1, 2]);
    assert_eq!(get_command(&name), Err(ProtocolError::FilenameTooLong));
    assert_eq!(delete_command(&name), Err(ProtocolError::FilenameTooLong));
    let new = Operation::New { filename: name };
    assert_eq!(handle_command(&new, &mut content), Err(ProtocolError::FilenameTooLong));
    assert_eq!(content, vec![1, 2]);
}

#[test]
fn request_for_each_operation() {
    let mut content: Vec<u8> = vec![9];
    let new = Operation::New { filename: String::from("f") };
    assert_eq!(handle_command(&new, &mut content), Ok(vec![1, 1, 102, 1, 9]));
    assert!(content.is_empty());
    let mut content: Vec<u8> = vec![9];
    let get = Operation::Get { filename: String::from("f"), output: String::from("o") };
    assert_eq!(handle_command(&get, &mut content), Ok(vec![2, 1, 102]));
    assert_eq!(content, vec![9]);
    let delete = Operation::Delete { filename: String::from("f") };
    assert_eq!(handle_command(&delete, &mut content), Ok(vec![3, 1, 102]));
    assert_eq!(content, vec![9]);
}

#[test]
fn status_of_each_reply() {
    assert_eq!(reply_status(&reply(MessageType::Okay, Vec::new())), ReplyStatus::Completed);
    assert_eq!(reply_status(&reply(MessageType::Okay, vec![1, 2])), ReplyStatus::Completed);
    assert_eq!(reply_status(&reply(MessageType::Error, vec![1, 1])), ReplyStatus::AlreadyExists);
    assert_eq!(reply_status(&reply(MessageType::Error, vec![1, 2])), ReplyStatus::NotFound);
    assert_eq!(reply_status(&reply(MessageType::Error, vec![1, 3])), ReplyStatus::UnknownError);
}

#[test]
fn status_of_an_unparsable_reply() {
    assert_eq!(reply_status(&reply(MessageType::Error, Vec::new())), ReplyStatus::Unparsable);
    assert_eq!(reply_status(&reply(MessageType::Error, vec![1])), ReplyStatus::Unparsable);
    assert_eq!(reply_status(&reply(MessageType::Error, vec![2, 1])), ReplyStatus::Unparsable);
    assert_eq!(reply_status(&reply(MessageType::Error, vec![1, 4])), ReplyStatus::Unparsable);
    assert_eq!(reply_status(&reply(MessageType::Error, vec![1, 0])), ReplyStatus::Unparsable);
    assert_eq!(reply_status(&reply(MessageType::CliPut, Vec::new())), ReplyStatus::Unparsable);
    assert_eq!(reply_status(&reply(MessageType::CliGet, Vec::new())), ReplyStatus::Unparsable);
    assert_eq!(reply_status(&reply(MessageType::CliDelete, Vec::new())), ReplyStatus::Unparsable);
}

#[test]
fn status_lines() {
    assert_eq!(status_line(ReplyStatus::Completed), "Operation completed successfully");
    assert_eq!(status_line(ReplyStatus::AlreadyExists), "File already exists in the system.");
    assert_eq!(status_line(ReplyStatus::NotFound), "File not found in the system.");
    assert_eq!(
        status_line(ReplyStatus::UnknownError),
        "Something unexpected happened while processing your request."
    );
    assert_eq!(status_line(ReplyStatus::Unparsable), "Error parsing reply.");
}

#[test]
fn only_ok_validates() {
    assert!(validate_ack(&reply(MessageType::Okay, Vec::new())));
    assert!(!validate_ack(&reply(MessageType::Error, vec![1, 2])));
    assert!(!validate_ack(&reply(MessageType::Error, Vec::new())));
    assert!(!validate_ack(&reply(MessageType::CliPut, Vec::new())));
}

#[test]
fn wait_ack_refuses_bytes_that_are_no_message() {
    assert_eq!(wait_ack(&Vec::new(), String::from("n")), Err(ProtocolError::EmptyMessage));
    assert_eq!(wait_ack(&vec![77], String::from("n")), Err(ProtocolError::UnknownMessageType(77)));
    assert_eq!(wait_ack(&vec![5], String::from("n")), Ok(ReplyStatus::Completed));
    assert_eq!(wait_ack(&vec![4, 1, 3], String::from("n")), Ok(ReplyStatus::UnknownError));
}

#[test]
fn only_a_completed_get_writes_output() {
    let get = Operation::Get { filename: String::from("f"), output: String::from("out") };
    let new = Operation::New { filename: String::from("f") };
    let delete = Operation::Delete { filename: String::from("f") };
    let ok = reply(MessageType::Okay, vec![1, 2, 3]);
    let error = reply(MessageType::Error, vec![1, 2]);
    assert_eq!(fetched_output(&get, &ok), Some((String::from("out"), vec![1, 2, 3])));
    assert_eq!(fetched_output(&get, &error), None);
    assert_eq!(fetched_output(&new, &ok), None);
    assert_eq!(fetched_output(&delete, &ok), None);
}
