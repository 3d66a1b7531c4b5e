//! The storage error taxonomy and its one-byte wire codes.

use vstd::prelude::*;
use crate::message::{build_error_data, build_message_data, error_bytes, message_bytes, ErrorType, MessageType};

verus! {

/// What can go wrong when the wire bytes of a message are read.
#[derive(Clone, Copy, Debug, PartialEq, Eq, Structural)]
pub enum ProtocolError {
    /// No type tag: the byte stream was empty.
    EmptyMessage,
    /// The type tag is none of the known message types.
    UnknownMessageType(u8),
    /// The outer byte of an error envelope names no known category.
    UnknownErrorCategory(u8),
    /// The inner byte of an error envelope names no known storage error.
    UnknownStorageError(u8),
    /// The payload is too short for its layout, or a filename is not UTF-8.
    MalformedPayload,
    /// The filename's UTF-8 encoding is longer than one length byte can tell.
    FilenameTooLong,
    /// A message type that is only ever a reply arrived as a request.
    UnexpectedMessageType,
}

/// Why a storage operation failed.
#[derive(Clone, Copy, Debug, PartialEq, Eq, Structural)]
pub enum StorageErrors {
    AlreadyExists,
    NotFound,
    UnknownError,
}

/// The wire code of a storage error.
pub open spec fn storage_error_code(e: StorageErrors) -> u8 {
    match e {
        StorageErrors::AlreadyExists => 1,
        StorageErrors::NotFound => 2,
        StorageErrors::UnknownError => 3,
    }
}

/// The storage error that a wire code stands for, if any.
pub open spec fn storage_error_of_code(t: u8) -> Option<StorageErrors> {
    if t == 1 {
        Some(StorageErrors::AlreadyExists)
    } else if t == 2 {
        Some(StorageErrors::NotFound)
    } else if t == 3 {
        Some(StorageErrors::UnknownError)
    } else {
        None
    }
}

impl StorageErrors {
    /// The one-byte wire code of this error.
    pub fn code(self) -> (c: u8)
        ensures
            c == storage_error_code(self),
    {
        match self {
            StorageErrors::AlreadyExists => 1,
            StorageErrors::NotFound => 2,
            StorageErrors::UnknownError => 3,
        }
    }
}

/// Decodes the inner code of an error envelope. Codes 1, 2 and 3 are the
/// three storage errors; every other byte is refused with the byte itself.
pub fn get_storage_error_type(t: &u8) -> (r: Result<StorageErrors, ProtocolError>)
    ensures
        r == match storage_error_of_code(*t) {
            Some(e) => Ok::<StorageErrors, ProtocolError>(e),
            None => Err(ProtocolError::UnknownStorageError(*t)),
        },
{
    match *t {
        1 => Ok(StorageErrors::AlreadyExists),
        2 => Ok(StorageErrors::NotFound),
        3 => Ok(StorageErrors::UnknownError),
        _ => Err(ProtocolError::UnknownStorageError(*t)),
    }
}

/// Decoding a storage error's code gives the error back, and a byte decodes
/// to an error only if it is that error's code.
pub proof fn lemma_storage_error_code_round_trip(e: StorageErrors, t: u8)
    ensures
        storage_error_of_code(storage_error_code(e)) == Some(e),
        storage_error_of_code(t) == Some(e) ==> storage_error_code(e) == t,
{
}

/// The bytes of the error reply for a storage error: the `Error` type tag,
/// the storage category's code, the error's code.
pub open spec fn storage_error_message(e: StorageErrors) -> Seq<u8> {
    message_bytes(MessageType::Error, error_bytes(ErrorType::StorageError, seq![storage_error_code(e)]))
}

/// Builds the error reply that tells a client of a storage error.
pub fn error_storage_data(error_type: StorageErrors) -> (res: Vec<u8>)
    ensures
        res@ == storage_error_message(error_type),
        res@ == seq![4u8, 1u8, storage_error_code(error_type)],
{
    let mut content: Vec<u8> = Vec::new();
    content.push(error_type.code());
    let mut data = build_error_data(ErrorType::StorageError, &mut content);
    let res = build_message_data(MessageType::Error, &mut data);
    assert(res@ =~= seq![4u8, 1u8, storage_error_code(error_type)]);
    res
}

} // verus!
