//! The client's side of an exchange: the one request for an operation, and
//! what the one reply means.

use vstd::prelude::*;
use vstd::string::*;
use crate::errors::{
    get_storage_error_type, storage_error_code, storage_error_of_code, ProtocolError, StorageErrors,
};
use crate::file::{
    create_content, create_filename, create_payload, filename_payload, fits_length_byte,
    is_create_payload, is_filename_payload, lemma_create_round_trip, lemma_filename_round_trip,
    payload_filename, serialize_create_file, serialize_filename,
};
use crate::handler::{ack_reply_bytes, get_reply_bytes};
use crate::message::{
    build_message_data, copy_range, error_type_of_code, get_error_type, lemma_message_round_trip,
    message_bytes, parse_bytes, parse_message, ErrorType, Message, MessageType,
};

verus! {

/// What a client asks of a node.
#[derive(Clone, Debug)]
pub enum Operation {
    /// Store the local file `filename` under its name.
    New { filename: String },
    /// Fetch the object `filename` and write it to the new local file `output`.
    Get { filename: String, output: String },
    /// Delete the object `filename`.
    Delete { filename: String },
}

/// What a reply tells the client.
#[derive(Clone, Copy, Debug, PartialEq, Eq, Structural)]
pub enum ReplyStatus {
    /// The operation was carried out.
    Completed,
    /// The node refused to create: an object of that name exists.
    AlreadyExists,
    /// The node holds no object of that name.
    NotFound,
    /// The node failed for another reason.
    UnknownError,
    /// The reply is no reply: a request's type, or an error envelope that
    /// is too short or holds an unknown code.
    Unparsable,
}

/// The status that a storage error in a reply stands for.
pub open spec fn status_of_error(e: StorageErrors) -> ReplyStatus {
    match e {
        StorageErrors::AlreadyExists => ReplyStatus::AlreadyExists,
        StorageErrors::NotFound => ReplyStatus::NotFound,
        StorageErrors::UnknownError => ReplyStatus::UnknownError,
    }
}

/// What a reply of type `t` with payload `content` tells: `Okay` is
/// success; `Error` is read as an envelope of a category byte and a code
/// byte; everything else is unparsable.
pub open spec fn status_of(t: MessageType, content: Seq<u8>) -> ReplyStatus {
    match t {
        MessageType::Okay => ReplyStatus::Completed,
        MessageType::Error => if content.len() >= 2 && error_type_of_code(content[0]) is Some {
            match storage_error_of_code(content[1]) {
                Some(e) => status_of_error(e),
                None => ReplyStatus::Unparsable,
            }
        } else {
            ReplyStatus::Unparsable
        },
        _ => ReplyStatus::Unparsable,
    }
}

/// The line that tells the user of a status.
pub open spec fn status_text(status: ReplyStatus) -> Seq<char> {
    match status {
        ReplyStatus::Completed => "Operation completed successfully"@,
        ReplyStatus::AlreadyExists => "File already exists in the system."@,
        ReplyStatus::NotFound => "File not found in the system."@,
        ReplyStatus::UnknownError => "Something unexpected happened while processing your request."@,
        ReplyStatus::Unparsable => "Error parsing reply."@,
    }
}

/// Reads the status out of a reply.
pub fn reply_status(message: &Message) -> (status: ReplyStatus)
    ensures
        status == status_of(message.message_type, message.content@),
{
    match message.message_type {
        MessageType::Okay => ReplyStatus::Completed,
        MessageType::Error => {
            if message.content.len() < 2 {
                return ReplyStatus::Unparsable;
            }
            match get_error_type(&message.content[0]) {
                Err(_) => ReplyStatus::Unparsable,
                Ok(ErrorType::StorageError) => match get_storage_error_type(&message.content[1]) {
                    Err(_) => ReplyStatus::Unparsable,
                    Ok(StorageErrors::AlreadyExists) => ReplyStatus::AlreadyExists,
                    Ok(StorageErrors::NotFound) => ReplyStatus::NotFound,
                    Ok(StorageErrors::UnknownError) => ReplyStatus::UnknownError,
                },
            }
        },
        _ => ReplyStatus::Unparsable,
    }
}

/// The one line that summarises a status for the user.
pub fn status_line(status: ReplyStatus) -> (line: String)
    ensures
        line@ == status_text(status),
{
    match status {
        ReplyStatus::Completed => String::from_str("Operation completed successfully"),
        ReplyStatus::AlreadyExists => String::from_str("File already exists in the system."),
        ReplyStatus::NotFound => String::from_str("File not found in the system."),
        ReplyStatus::UnknownError => String::from_str(
            "Something unexpected happened while processing your request.",
        ),
        ReplyStatus::Unparsable => String::from_str("Error parsing reply."),
    }
}

/// Whether a reply says that the operation was carried out.
pub fn validate_ack(message: &Message) -> (ok: bool)
    ensures
        ok == (status_of(message.message_type, message.content@) == ReplyStatus::Completed),
        ok == (message.message_type == MessageType::Okay),
{
    match reply_status(message) {
        ReplyStatus::Completed => true,
        _ => false,
    }
}

/// Decodes the bytes of the one reply and reads its status. Bytes that are
/// no message are a protocol error.
pub fn wait_ack(reply: &Vec<u8>, origin: String) -> (r: Result<ReplyStatus, ProtocolError>)
    ensures
        r == match parse_bytes(reply@) {
            Ok((t, content)) => Ok::<ReplyStatus, ProtocolError>(status_of(t, content)),
            Err(e) => Err(e),
        },
{
    match parse_message(reply, origin) {
        Err(e) => Err(e),
        Ok(message) => Ok(reply_status(&message)),
    }
}

/// The bytes of a request that carries only a filename.
pub open spec fn filename_request(command: MessageType, name: Seq<char>) -> Seq<u8> {
    message_bytes(command, filename_payload(name))
}

/// The bytes of a create request.
pub open spec fn create_request(name: Seq<char>, content: Seq<u8>) -> Seq<u8> {
    message_bytes(MessageType::CliPut, create_payload(name, content))
}

/// Builds the create request for the file `filename` with the content
/// `file_content`, which is drained. A filename longer than 255 UTF-8 bytes
/// is refused, and the content is then left as it was.
pub fn create_command(filename: &String, file_content: &mut Vec<u8>) -> (r: Result<
    Vec<u8>,
    ProtocolError,
>)
    ensures
        fits_length_byte(filename@) ==> r is Ok && r.unwrap()@ == create_request(
            filename@,
            old(file_content)@,
        ) && final(file_content)@ == Seq::<u8>::empty(),
        !fits_length_byte(filename@) ==> r == Err::<Vec<u8>, ProtocolError>(
            ProtocolError::FilenameTooLong,
        ) && final(file_content)@ == old(file_content)@,
{
    let mut send_buffer: Vec<u8> = Vec::new();
    match serialize_create_file(filename, file_content, &mut send_buffer) {
        Err(e) => Err(e),
        Ok(()) => {
            assert(send_buffer@ =~= create_payload(filename@, old(file_content)@));
            Ok(build_message_data(MessageType::CliPut, &mut send_buffer))
        },
    }
}

/// Builds the request of type `command` that carries only `filename`. A
/// filename longer than 255 UTF-8 bytes is refused.
pub fn filename_command(command: MessageType, filename: &String) -> (r: Result<
    Vec<u8>,
    ProtocolError,
>)
    ensures
        fits_length_byte(filename@) ==> r is Ok && r.unwrap()@ == filename_request(
            command,
            filename@,
        ),
        !fits_length_byte(filename@) ==> r == Err::<Vec<u8>, ProtocolError>(
            ProtocolError::FilenameTooLong,
        ),
{
    let mut send_buffer: Vec<u8> = Vec::new();
    match serialize_filename(filename, &mut send_buffer) {
        Err(e) => Err(e),
        Ok(()) => {
            assert(send_buffer@ =~= filename_payload(filename@));
            Ok(build_message_data(command, &mut send_buffer))
        },
    }
}

/// Builds the get request for `filename`.
pub fn get_command(filename: &String) -> (r: Result<Vec<u8>, ProtocolError>)
    ensures
        fits_length_byte(filename@) ==> r is Ok && r.unwrap()@ == filename_request(
            MessageType::CliGet,
            filename@,
        ),
        !fits_length_byte(filename@) ==> r == Err::<Vec<u8>, ProtocolError>(
            ProtocolError::FilenameTooLong,
        ),
{
    filename_command(MessageType::CliGet, filename)
}

/// Builds the delete request for `filename`.
pub fn delete_command(filename: &String) -> (r: Result<Vec<u8>, ProtocolError>)
    ensures
        fits_length_byte(filename@) ==> r is Ok && r.unwrap()@ == filename_request(
            MessageType::CliDelete,
            filename@,
        ),
        !fits_length_byte(filename@) ==> r == Err::<Vec<u8>, ProtocolError>(
            ProtocolError::FilenameTooLong,
        ),
{
    filename_command(MessageType::CliDelete, filename)
}

impl Operation {
    /// The name of the object that the operation is about.
    pub open spec fn object_name(self) -> Seq<char> {
        match self {
            Operation::New { filename } => filename@,
            Operation::Get { filename, output } => filename@,
            Operation::Delete { filename } => filename@,
        }
    }
}

/// The bytes of the request for an operation; `content` is what a create
/// sends.
pub open spec fn request_bytes(command: Operation, content: Seq<u8>) -> Seq<u8> {
    match command {
        Operation::New { filename } => create_request(filename@, content),
        Operation::Get { filename, output } => filename_request(MessageType::CliGet, filename@),
        Operation::Delete { filename } => filename_request(MessageType::CliDelete, filename@),
    }
}

/// Builds the one request for an operation. `file_content` is the content
/// of the local file, which a create sends and drains; the other operations
/// leave it as it is. A filename longer than 255 UTF-8 bytes is refused,
/// and nothing is then to be sent.
pub fn handle_command(command: &Operation, file_content: &mut Vec<u8>) -> (r: Result<
    Vec<u8>,
    ProtocolError,
>)
    ensures
        fits_length_byte(command.object_name()) ==> r is Ok && r.unwrap()@ == request_bytes(
            *command,
            old(file_content)@,
        ),
        !fits_length_byte(command.object_name()) ==> r == Err::<Vec<u8>, ProtocolError>(
            ProtocolError::FilenameTooLong,
        ),
        final(file_content)@ == if command is New && r is Ok {
            Seq::<u8>::empty()
        } else {
            old(file_content)@
        },
{
    match command {
        Operation::New { filename } => create_command(filename, file_content),
        Operation::Get { filename, output } => get_command(filename),
        Operation::Delete { filename } => delete_command(filename),
    }
}

/// What the client writes to a local file after the reply to `command`:
/// for a get that was carried out, the reply's payload, to the get's output
/// path. After every other exchange nothing is written.
pub fn fetched_output(command: &Operation, reply: &Message) -> (r: Option<(String, Vec<u8>)>)
    ensures
        match *command {
            Operation::Get { filename, output } => if reply.message_type == MessageType::Okay {
                r is Some && r.unwrap().0@ == output@ && r.unwrap().1@ == reply.content@
            } else {
                r is None
            },
            _ => r is None,
        },
{
    match command {
        Operation::Get { filename, output } => {
            if validate_ack(reply) {
                Some((output.clone(), copy_range(&reply.content, 0, reply.content.len())))
            } else {
                None
            }
        },
        _ => None,
    }
}

/// A create request, decoded by the receiver, yields the filename and the
/// content that the sender encoded: for every filename of at most 255 UTF-8
/// bytes and every content.
pub proof fn lemma_create_request_round_trip(name: Seq<char>, content: Seq<u8>)
    requires
        fits_length_byte(name),
    ensures
        parse_bytes(create_request(name, content)) == Ok::<(MessageType, Seq<u8>), ProtocolError>(
            (MessageType::CliPut, create_payload(name, content)),
        ),
        is_create_payload(create_payload(name, content)),
        create_filename(create_payload(name, content)) == name,
        create_content(create_payload(name, content)) == content,
{
    lemma_message_round_trip(MessageType::CliPut, create_payload(name, content));
    lemma_create_round_trip(name, content);
}

/// A get or delete request, decoded by the receiver, yields the type and
/// the filename that the sender encoded: for every filename of at most 255
/// UTF-8 bytes.
pub proof fn lemma_filename_request_round_trip(command: MessageType, name: Seq<char>)
    requires
        fits_length_byte(name),
    ensures
        parse_bytes(filename_request(command, name)) == Ok::<(MessageType, Seq<u8>), ProtocolError>(
            (command, filename_payload(name)),
        ),
        is_filename_payload(filename_payload(name)),
        payload_filename(filename_payload(name)) == name,
{
    lemma_message_round_trip(command, filename_payload(name));
    lemma_filename_round_trip(name);
}

/// The status of a storage outcome, as a client names it.
pub open spec fn status_of_outcome(outcome: Result<(), StorageErrors>) -> ReplyStatus {
    match outcome {
        Ok(()) => ReplyStatus::Completed,
        Err(e) => status_of_error(e),
    }
}

/// A client reads out of a node's reply the very outcome that the node put
/// into it: the reply to a create or a delete decodes to the outcome's
/// status, and the reply to a get that succeeded decodes to `Okay` with
/// exactly the content.
pub proof fn lemma_reply_round_trip(outcome: Result<(), StorageErrors>, content: Seq<u8>)
    ensures
        match parse_bytes(ack_reply_bytes(outcome)) {
            Ok((t, payload)) => status_of(t, payload) == status_of_outcome(outcome),
            Err(_) => false,
        },
        parse_bytes(get_reply_bytes(Ok(content))) == Ok::<(MessageType, Seq<u8>), ProtocolError>(
            (MessageType::Okay, content),
        ),
{
    lemma_message_round_trip(MessageType::Okay, Seq::<u8>::empty());
    lemma_message_round_trip(MessageType::Okay, content);
    match outcome {
        Ok(()) => {},
        Err(e) => {
            let envelope = seq![1u8] + seq![storage_error_code(e)];
            lemma_message_round_trip(MessageType::Error, envelope);
            assert(envelope.len() == 2);
            assert(envelope[0] == 1u8);
            assert(envelope[1] == storage_error_code(e));
        },
    }
}

} // verus!
