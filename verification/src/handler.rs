//! The server's command router: one decoded message in, exactly one reply
//! out, or a protocol error that ends the connection without a reply.

use vstd::prelude::*;
use crate::errors::{error_storage_data, storage_error_message, ProtocolError, StorageErrors};
use crate::file::{
    create_content, create_filename, deserialize_create_file, deserialize_filename_operation,
    is_create_payload, is_filename_payload, payload_filename,
};
use crate::manager::{
    delete_result, get_result, objects_after_delete, objects_after_store, store_result, Objects,
    StorageManager,
};
use crate::names::is_object_name;
use crate::message::{
    ack_data, build_message_data, message_bytes, parse_bytes, parse_message, Message, MessageType,
};

verus! {

/// The reply to a create or a delete: the acknowledgement on success, the
/// error reply with the storage error's code on failure.
pub open spec fn ack_reply_bytes(outcome: Result<(), StorageErrors>) -> Seq<u8> {
    match outcome {
        Ok(()) => message_bytes(MessageType::Okay, Seq::<u8>::empty()),
        Err(e) => storage_error_message(e),
    }
}

/// The reply to a get: an `Okay` message whose payload is the content on
/// success, the error reply with the storage error's code on failure.
pub open spec fn get_reply_bytes(outcome: Result<Seq<u8>, StorageErrors>) -> Seq<u8> {
    match outcome {
        Ok(content) => message_bytes(MessageType::Okay, content),
        Err(e) => storage_error_message(e),
    }
}

/// The view of a read's outcome.
pub open spec fn get_outcome_view(outcome: Result<Vec<u8>, StorageErrors>) -> Result<
    Seq<u8>,
    StorageErrors,
> {
    match outcome {
        Ok(content) => Ok(content@),
        Err(e) => Err(e),
    }
}

/// Builds the reply to a create or a delete from the storage's outcome.
pub fn ack_reply(outcome: Result<(), StorageErrors>) -> (reply: Vec<u8>)
    ensures
        reply@ == ack_reply_bytes(outcome),
{
    match outcome {
        Ok(()) => ack_data(),
        Err(e) => error_storage_data(e),
    }
}

/// Builds the reply to a get from the storage's outcome.
pub fn get_reply(outcome: Result<Vec<u8>, StorageErrors>) -> (reply: Vec<u8>)
    ensures
        reply@ == get_reply_bytes(get_outcome_view(outcome)),
{
    match outcome {
        Ok(content) => {
            let mut content = content;
            build_message_data(MessageType::Okay, &mut content)
        },
        Err(e) => error_storage_data(e),
    }
}

/// What handling a create of `name` with `content` does: it replies as
/// the storage rules say and stores accordingly. Only where the storage is
/// not reliable and the name is an object name may it instead reply with
/// `UnknownError` and change nothing.
pub open spec fn create_handled(
    reliable: bool,
    before: Objects,
    name: Seq<char>,
    content: Seq<u8>,
    reply: Seq<u8>,
    after: Objects,
) -> bool {
    ||| reply == ack_reply_bytes(store_result(before, name)) && after == objects_after_store(
        before,
        name,
        content,
    )
    ||| !reliable && is_object_name(name) && reply == storage_error_message(
        StorageErrors::UnknownError,
    ) && after == before
}

/// What handling a get of `name` replies: what the storage rules say. Only
/// where the storage is not reliable and the name is an object name may it
/// instead reply with `UnknownError`.
pub open spec fn get_handled(
    reliable: bool,
    objects: Objects,
    name: Seq<char>,
    reply: Seq<u8>,
) -> bool {
    ||| reply == get_reply_bytes(get_result(objects, name))
    ||| !reliable && is_object_name(name) && reply == storage_error_message(
        StorageErrors::UnknownError,
    )
}

/// What handling a delete of `name` does: it replies as the storage rules
/// say and removes accordingly. Only where the storage is not reliable and
/// the name is an object name may it instead reply with `UnknownError` and
/// change nothing.
pub open spec fn delete_handled(
    reliable: bool,
    before: Objects,
    name: Seq<char>,
    reply: Seq<u8>,
    after: Objects,
) -> bool {
    ||| reply == ack_reply_bytes(delete_result(before, name)) && after == objects_after_delete(
        before,
        name,
    )
    ||| !reliable && is_object_name(name) && reply == storage_error_message(
        StorageErrors::UnknownError,
    ) && after == before
}

/// Handles a create request: decodes the filename and the content, stores
/// the object, and replies with the acknowledgement or the storage error. A
/// malformed payload ends the connection; the storage is then not touched.
pub fn handle_create<S: StorageManager>(message: &Message, storage: &mut S) -> (r: Result<
    Vec<u8>,
    ProtocolError,
>)
    ensures
        !is_create_payload(message.content@) ==> r == Err::<Vec<u8>, ProtocolError>(
            ProtocolError::MalformedPayload,
        ) && final(storage).objects() == old(storage).objects(),
        is_create_payload(message.content@) ==> r is Ok && create_handled(
            old(storage).reliable(),
            old(storage).objects(),
            create_filename(message.content@),
            create_content(message.content@),
            r.unwrap()@,
            final(storage).objects(),
        ),
        final(storage).reliable() == old(storage).reliable(),
{
    match deserialize_create_file(&message.content) {
        Err(e) => Err(e),
        Ok((filename, content)) => {
            let outcome = storage.store_file(&filename, &content);
            Ok(ack_reply(outcome))
        },
    }
}

/// Handles a get request: decodes the filename, reads the object, and
/// replies with its content or the storage error. A malformed payload ends
/// the connection.
pub fn handle_get<S: StorageManager>(message: &Message, storage: &S) -> (r: Result<
    Vec<u8>,
    ProtocolError,
>)
    ensures
        !is_filename_payload(message.content@) ==> r == Err::<Vec<u8>, ProtocolError>(
            ProtocolError::MalformedPayload,
        ),
        is_filename_payload(message.content@) ==> r is Ok && get_handled(
            storage.reliable(),
            storage.objects(),
            payload_filename(message.content@),
            r.unwrap()@,
        ),
{
    match deserialize_filename_operation(&message.content) {
        Err(e) => Err(e),
        Ok(filename) => {
            let outcome = storage.get_file(&filename);
            Ok(get_reply(outcome))
        },
    }
}

/// Handles a delete request: decodes the filename, removes the object, and
/// replies with the acknowledgement or the storage error. A malformed
/// payload ends the connection; the storage is then not touched.
pub fn handle_delete<S: StorageManager>(message: &Message, storage: &mut S) -> (r: Result<
    Vec<u8>,
    ProtocolError,
>)
    ensures
        !is_filename_payload(message.content@) ==> r == Err::<Vec<u8>, ProtocolError>(
            ProtocolError::MalformedPayload,
        ) && final(storage).objects() == old(storage).objects(),
        is_filename_payload(message.content@) ==> r is Ok && delete_handled(
            old(storage).reliable(),
            old(storage).objects(),
            payload_filename(message.content@),
            r.unwrap()@,
            final(storage).objects(),
        ),
        final(storage).reliable() == old(storage).reliable(),
{
    match deserialize_filename_operation(&message.content) {
        Err(e) => Err(e),
        Ok(filename) => {
            let outcome = storage.delete_file(&filename);
            Ok(ack_reply(outcome))
        },
    }
}

/// What routing a message of type `t` with payload `content` does to the
/// stored objects and returns: the handler's reply for a well-formed
/// request, `MalformedPayload` for a request whose payload is not, and
/// `UnexpectedMessageType` for the two reply types. Only a well-formed
/// create or delete can change what is stored.
pub open spec fn routed(
    reliable: bool,
    t: MessageType,
    content: Seq<u8>,
    before: Objects,
    r: Result<Vec<u8>, ProtocolError>,
    after: Objects,
) -> bool {
    match t {
        MessageType::CliPut => if is_create_payload(content) {
            r is Ok && create_handled(
                reliable,
                before,
                create_filename(content),
                create_content(content),
                r.unwrap()@,
                after,
            )
        } else {
            r == Err::<Vec<u8>, ProtocolError>(ProtocolError::MalformedPayload) && after == before
        },
        MessageType::CliGet => after == before && if is_filename_payload(content) {
            r is Ok && get_handled(reliable, before, payload_filename(content), r.unwrap()@)
        } else {
            r == Err::<Vec<u8>, ProtocolError>(ProtocolError::MalformedPayload)
        },
        MessageType::CliDelete => if is_filename_payload(content) {
            r is Ok && delete_handled(
                reliable,
                before,
                payload_filename(content),
                r.unwrap()@,
                after,
            )
        } else {
            r == Err::<Vec<u8>, ProtocolError>(ProtocolError::MalformedPayload) && after == before
        },
        _ => r == Err::<Vec<u8>, ProtocolError>(ProtocolError::UnexpectedMessageType) && after
            == before,
    }
}

/// Routes one decoded message by its type to the handler of that request
/// and returns the one reply. The two reply types are no requests: they are
/// refused, and the storage is not touched.
pub fn route_message<S: StorageManager>(message: &Message, storage: &mut S) -> (r: Result<
    Vec<u8>,
    ProtocolError,
>)
    ensures
        routed(
            old(storage).reliable(),
            message.message_type,
            message.content@,
            old(storage).objects(),
            r,
            final(storage).objects(),
        ),
        final(storage).reliable() == old(storage).reliable(),
{
    match message.message_type {
        MessageType::CliPut => handle_create(message, storage),
        MessageType::CliGet => handle_get(message, &*storage),
        MessageType::CliDelete => handle_delete(message, storage),
        MessageType::Error => Err(ProtocolError::UnexpectedMessageType),
        MessageType::Okay => Err(ProtocolError::UnexpectedMessageType),
    }
}

/// Handles the bytes of one request received from `origin`: decodes the
/// message, routes it, and returns the bytes of the one reply. Bytes that
/// are no message end the connection without a reply, and the storage is
/// then not touched.
pub fn handle_message<S: StorageManager>(data: &Vec<u8>, origin: String, storage: &mut S) -> (r:
    Result<Vec<u8>, ProtocolError>)
    ensures
        match parse_bytes(data@) {
            Ok((t, content)) => routed(
                old(storage).reliable(),
                t,
                content,
                old(storage).objects(),
                r,
                final(storage).objects(),
            ),
            Err(e) => r == Err::<Vec<u8>, ProtocolError>(e) && final(storage).objects() == old(
                storage,
            ).objects(),
        },
        final(storage).reliable() == old(storage).reliable(),
{
    match parse_message(data, origin) {
        Err(e) => Err(e),
        Ok(message) => route_message(&message, storage),
    }
}

/// The acknowledgement is no error reply: a reply to a create or a delete
/// is the acknowledgement only if the operation succeeded.
pub proof fn lemma_acknowledged_means_done(outcome: Result<(), StorageErrors>)
    ensures
        ack_reply_bytes(outcome) == message_bytes(MessageType::Okay, Seq::<u8>::empty())
            <==> outcome is Ok,
{
    match outcome {
        Ok(()) => {},
        Err(e) => {
            assert(ack_reply_bytes(outcome)[0] == 4u8);
            assert(message_bytes(MessageType::Okay, Seq::<u8>::empty())[0] == 5u8);
        },
    }
}

/// Read after write, on the wire: once a create of `name` with `content`
/// was acknowledged, the reply to a get of `name` carries exactly
/// `content`; only a storage that is not reliable may fail the read.
pub proof fn lemma_get_after_acknowledged_create(
    reliable: bool,
    before: Objects,
    name: Seq<char>,
    content: Seq<u8>,
    after: Objects,
    reply: Seq<u8>,
)
    requires
        create_handled(
            reliable,
            before,
            name,
            content,
            message_bytes(MessageType::Okay, Seq::<u8>::empty()),
            after,
        ),
        get_handled(reliable, after, name, reply),
    ensures
        reply == message_bytes(MessageType::Okay, content) || (!reliable && reply
            == storage_error_message(StorageErrors::UnknownError)),
{
    lemma_acknowledged_means_done(store_result(before, name));
    lemma_acknowledged_means_done(Err(StorageErrors::UnknownError));
}

/// Delete, then read, on the wire: once a delete of `name` was
/// acknowledged, the reply to a get of `name` and the reply to a second
/// delete of `name` are both the `NotFound` error, and the second delete
/// changes nothing; only a storage that is not reliable may fail instead.
pub proof fn lemma_not_found_after_acknowledged_delete(
    reliable: bool,
    before: Objects,
    name: Seq<char>,
    after: Objects,
    get_reply: Seq<u8>,
    delete_reply: Seq<u8>,
    last: Objects,
)
    requires
        delete_handled(
            reliable,
            before,
            name,
            message_bytes(MessageType::Okay, Seq::<u8>::empty()),
            after,
        ),
        get_handled(reliable, after, name, get_reply),
        delete_handled(reliable, after, name, delete_reply, last),
    ensures
        get_reply == storage_error_message(StorageErrors::NotFound) || (!reliable && get_reply
            == storage_error_message(StorageErrors::UnknownError)),
        delete_reply == storage_error_message(StorageErrors::NotFound) || (!reliable
            && delete_reply == storage_error_message(StorageErrors::UnknownError)),
        last == after,
{
    lemma_acknowledged_means_done(delete_result(before, name));
    lemma_acknowledged_means_done(Err(StorageErrors::UnknownError));
}

/// Exclusive create, on the wire: of two creates of one object name that
/// is not taken, handled one after the other by a reliable storage, the
/// first is acknowledged, the second gets the `AlreadyExists` error, and a
/// get then carries the content of the first.
pub proof fn lemma_second_create_is_refused(
    before: Objects,
    name: Seq<char>,
    first: Seq<u8>,
    second: Seq<u8>,
    first_reply: Seq<u8>,
    between: Objects,
    second_reply: Seq<u8>,
    after: Objects,
    get_reply: Seq<u8>,
)
    requires
        is_object_name(name),
        !before.contains_key(name),
        create_handled(true, before, name, first, first_reply, between),
        create_handled(true, between, name, second, second_reply, after),
        get_handled(true, after, name, get_reply),
    ensures
        first_reply == message_bytes(MessageType::Okay, Seq::<u8>::empty()),
        second_reply == storage_error_message(StorageErrors::AlreadyExists),
        get_reply == message_bytes(MessageType::Okay, first),
{
}

/// Unknown filename, on the wire: where no object is stored under `name`,
/// the reply to a get and the reply to a delete of `name` are both the
/// `NotFound` error, and the delete changes nothing; only a storage that is
/// not reliable may fail instead, and only for an object name.
pub proof fn lemma_not_found_for_unknown_name(
    reliable: bool,
    objects: Objects,
    name: Seq<char>,
    get_reply: Seq<u8>,
    delete_reply: Seq<u8>,
    after: Objects,
)
    requires
        !objects.contains_key(name) || !is_object_name(name),
        get_handled(reliable, objects, name, get_reply),
        delete_handled(reliable, objects, name, delete_reply, after),
    ensures
        get_reply == storage_error_message(StorageErrors::NotFound) || (!reliable
            && is_object_name(name) && get_reply == storage_error_message(
            StorageErrors::UnknownError,
        )),
        delete_reply == storage_error_message(StorageErrors::NotFound) || (!reliable
            && is_object_name(name) && delete_reply == storage_error_message(
            StorageErrors::UnknownError,
        )),
        after == objects,
{
}

} // verus!
