//! Messages and their framing: one type tag byte, then the payload.

use vstd::prelude::*;
use vstd::string::*;
use crate::errors::ProtocolError;

verus! {

/// The outer category of an error envelope.
#[derive(Clone, Copy, Debug, PartialEq, Eq, Structural)]
pub enum ErrorType {
    StorageError,
}

/// The wire code of an error category.
pub open spec fn error_type_code(t: ErrorType) -> u8 {
    match t {
        ErrorType::StorageError => 1,
    }
}

/// The error category that a wire code stands for, if any.
pub open spec fn error_type_of_code(t: u8) -> Option<ErrorType> {
    if t == 1 {
        Some(ErrorType::StorageError)
    } else {
        None
    }
}

impl ErrorType {
    /// The one-byte wire code of this category.
    pub fn code(self) -> (c: u8)
        ensures
            c == error_type_code(self),
    {
        match self {
            ErrorType::StorageError => 1,
        }
    }
}

/// Decodes the outer byte of an error envelope. Code 1 is the storage
/// category; every other byte is refused with the byte itself.
pub fn get_error_type(t: &u8) -> (r: Result<ErrorType, ProtocolError>)
    ensures
        r == match error_type_of_code(*t) {
            Some(e) => Ok::<ErrorType, ProtocolError>(e),
            None => Err(ProtocolError::UnknownErrorCategory(*t)),
        },
{
    match *t {
        1 => Ok(ErrorType::StorageError),
        _ => Err(ProtocolError::UnknownErrorCategory(*t)),
    }
}

/// The kind of a message: three requests and two replies.
#[derive(Clone, Copy, Debug, PartialEq, Eq, Structural)]
pub enum MessageType {
    CliPut,
    CliGet,
    CliDelete,
    Error,
    /// The success reply; its payload is empty or the fetched content.
    Okay,
}

/// The type tag of a message type.
pub open spec fn type_code(t: MessageType) -> u8 {
    match t {
        MessageType::CliPut => 1,
        MessageType::CliGet => 2,
        MessageType::CliDelete => 3,
        MessageType::Error => 4,
        MessageType::Okay => 5,
    }
}

/// The message type that a type tag stands for, if any.
pub open spec fn type_of_code(t: u8) -> Option<MessageType> {
    if t == 1 {
        Some(MessageType::CliPut)
    } else if t == 2 {
        Some(MessageType::CliGet)
    } else if t == 3 {
        Some(MessageType::CliDelete)
    } else if t == 4 {
        Some(MessageType::Error)
    } else if t == 5 {
        Some(MessageType::Okay)
    } else {
        None
    }
}

impl MessageType {
    /// The one-byte type tag of this message type.
    pub fn code(self) -> (c: u8)
        ensures
            c == type_code(self),
    {
        match self {
            MessageType::CliPut => 1,
            MessageType::CliGet => 2,
            MessageType::CliDelete => 3,
            MessageType::Error => 4,
            MessageType::Okay => 5,
        }
    }
}

/// Decodes a type tag. Tags 1 to 5 are the five message types; every other
/// byte is refused with the byte itself.
pub fn get_type(t: &u8) -> (r: Result<MessageType, ProtocolError>)
    ensures
        r == match type_of_code(*t) {
            Some(m) => Ok::<MessageType, ProtocolError>(m),
            None => Err(ProtocolError::UnknownMessageType(*t)),
        },
{
    match *t {
        1 => Ok(MessageType::CliPut),
        2 => Ok(MessageType::CliGet),
        3 => Ok(MessageType::CliDelete),
        4 => Ok(MessageType::Error),
        5 => Ok(MessageType::Okay),
        _ => Err(ProtocolError::UnknownMessageType(*t)),
    }
}

/// Each type tag decodes to its own message type, and each error category
/// code to its own category; no other byte decodes to them.
pub proof fn lemma_code_round_trip(m: MessageType, e: ErrorType, t: u8)
    ensures
        type_of_code(type_code(m)) == Some(m),
        type_of_code(t) == Some(m) ==> type_code(m) == t,
        error_type_of_code(error_type_code(e)) == Some(e),
        error_type_of_code(t) == Some(e) ==> error_type_code(e) == t,
{
}

/// The name under which a message type appears in status lines.
pub open spec fn type_literal(t: MessageType) -> Seq<char> {
    match t {
        MessageType::CliPut => "CLI_PUT"@,
        MessageType::CliGet => "CLI_GET"@,
        MessageType::CliDelete => "CLI_DELETE"@,
        MessageType::Okay => "OK"@,
        MessageType::Error => "ERROR"@,
    }
}

/// The name of a message type, for status lines.
pub fn get_type_literal(t: MessageType) -> (s: String)
    ensures
        s@ == type_literal(t),
{
    match t {
        MessageType::CliPut => String::from_str("CLI_PUT"),
        MessageType::CliGet => String::from_str("CLI_GET"),
        MessageType::CliDelete => String::from_str("CLI_DELETE"),
        MessageType::Okay => String::from_str("OK"),
        MessageType::Error => String::from_str("ERROR"),
    }
}

/// One decoded request or reply.
#[derive(Clone, Debug)]
pub struct Message {
    /// The peer's address, as text. It is informational: nothing is routed by it.
    pub origin: String,
    pub message_type: MessageType,
    /// Everything after the type tag.
    pub content: Vec<u8>,
}

/// The bytes of a message on the wire: its type tag, then its payload.
pub open spec fn message_bytes(t: MessageType, payload: Seq<u8>) -> Seq<u8> {
    seq![type_code(t)] + payload
}

/// The payload of an error reply before the inner code is known to be a
/// storage code: the category's code, then what the category carries.
pub open spec fn error_bytes(t: ErrorType, detail: Seq<u8>) -> Seq<u8> {
    seq![error_type_code(t)] + detail
}

/// What a byte stream decodes to: the message type and the payload, or the
/// reason why it is no message.
pub open spec fn parse_bytes(data: Seq<u8>) -> Result<(MessageType, Seq<u8>), ProtocolError> {
    if data.len() == 0 {
        Err(ProtocolError::EmptyMessage)
    } else {
        match type_of_code(data[0]) {
            Some(t) => Ok((t, data.subrange(1, data.len() as int))),
            None => Err(ProtocolError::UnknownMessageType(data[0])),
        }
    }
}

/// Builds an error envelope: the category's code followed by `content`,
/// which is drained.
pub fn build_error_data(error_type: ErrorType, content: &mut Vec<u8>) -> (res: Vec<u8>)
    ensures
        res@ == error_bytes(error_type, old(content)@),
        final(content)@ == Seq::<u8>::empty(),
{
    let mut res: Vec<u8> = Vec::new();
    res.push(error_type.code());
    res.append(content);
    res
}

/// Frames a message: the type tag followed by `content`, which is drained.
pub fn build_message_data(message_type: MessageType, content: &mut Vec<u8>) -> (res: Vec<u8>)
    ensures
        res@ == message_bytes(message_type, old(content)@),
        final(content)@ == Seq::<u8>::empty(),
{
    let mut res: Vec<u8> = Vec::new();
    res.push(message_type.code());
    res.append(content);
    res
}

/// The acknowledgement: an `Ok` message with an empty payload.
pub fn ack_data() -> (res: Vec<u8>)
    ensures
        res@ == message_bytes(MessageType::Okay, Seq::<u8>::empty()),
{
    let mut empty: Vec<u8> = Vec::new();
    build_message_data(MessageType::Okay, &mut empty)
}

/// Copies the bytes of `data` from index `from` up to, not including, index `to`.
pub fn copy_range(data: &Vec<u8>, from: usize, to: usize) -> (res: Vec<u8>)
    requires
        from <= to <= data@.len(),
    ensures
        res@ == data@.subrange(from as int, to as int),
{
    let mut res: Vec<u8> = Vec::new();
    let mut i: usize = from;
    while i < to
        invariant
            from <= i <= to <= data@.len(),
            res@ == data@.subrange(from as int, i as int),
        decreases to - i,
    {
        res.push(data[i]);
        i = i + 1;
        assert(res@ =~= data@.subrange(from as int, i as int));
    }
    res
}

/// Decodes the bytes of one message received from `origin`. The first byte
/// is the type tag, the rest is the payload. An empty stream and an unknown
/// tag are refused.
pub fn parse_message(data: &Vec<u8>, origin: String) -> (r: Result<Message, ProtocolError>)
    ensures
        match parse_bytes(data@) {
            Ok((t, payload)) => r is Ok && r.unwrap().message_type == t
                && r.unwrap().content@ == payload && r.unwrap().origin == origin,
            Err(e) => r == Err::<Message, ProtocolError>(e),
        },
{
    if data.len() == 0 {
        return Err(ProtocolError::EmptyMessage);
    }
    match get_type(&data[0]) {
        Ok(message_type) => {
            let content = copy_range(data, 1, data.len());
            Ok(Message { origin, message_type, content })
        },
        Err(e) => Err(e),
    }
}

/// Framing a message and decoding the bytes gives the type and the payload
/// back, for every type and every payload.
pub proof fn lemma_message_round_trip(t: MessageType, payload: Seq<u8>)
    ensures
        parse_bytes(message_bytes(t, payload)) == Ok::<(MessageType, Seq<u8>), ProtocolError>(
            (t, payload),
        ),
{
    let data = message_bytes(t, payload);
    assert(data[0] == type_code(t));
    assert(data.subrange(1, data.len() as int) =~= payload);
}

/// The status line for a received message.
pub open spec fn received_line(t: MessageType, origin: Seq<char>) -> Seq<char> {
    "Received message: "@ + type_literal(t) + " from "@ + origin
}

/// The line that a node logs for a received message: its type and where it
/// came from.
pub fn describe_message(message: &Message) -> (line: String)
    ensures
        line@ == received_line(message.message_type, message.origin@),
{
    let mut line = String::from_str("Received message: ");
    let literal = get_type_literal(message.message_type);
    line.append(literal.as_str());
    line.append(" from ");
    line.append(message.origin.as_str());
    line
}

/// The size of the buffer that each read of a stream fills.
pub const READ_BUFFER_SIZE: usize = 2048;

/// How long a reader waits, in milliseconds, before it reads again after
/// the stream had nothing ready.
pub const RETRY_DELAY_MILLIS: u64 = 100;

/// What one read on the stream gave.
#[derive(Clone, Copy, Debug, PartialEq, Eq, Structural)]
pub enum ReadEvent {
    /// The read put this many bytes at the front of the buffer. Zero means
    /// that the peer has ended the message: it has closed its writing half.
    Received(usize),
    /// Nothing was ready; the read would have blocked.
    WouldBlock,
    /// The read failed for another reason.
    Failed,
}

/// What the reader does after one read.
#[derive(Clone, Copy, Debug, PartialEq, Eq, Structural)]
pub enum ReadStep {
    /// The bytes were taken; read again.
    ReadOn,
    /// The message has ended: what was received is the whole message.
    Deliver,
    /// Wait this many milliseconds, then read again.
    RetryAfter(u64),
    /// The stream ended before a type tag came: a framing error.
    Empty,
    /// The transport failed: its error is handed up.
    Broken,
}

/// The bytes that a read of `count` bytes put at the front of `buf`.
pub open spec fn read_bytes(buf: Seq<u8>, count: usize) -> Seq<u8> {
    if count < buf.len() {
        buf.subrange(0, count as int)
    } else {
        buf
    }
}

/// The step that follows a read event when `received` has come so far. A
/// read that brings bytes is followed by another read. The end of the
/// stream delivers what was received, unless nothing was.
pub open spec fn read_step(received: Seq<u8>, event: ReadEvent) -> ReadStep {
    match event {
        ReadEvent::Received(count) => if count > 0 {
            ReadStep::ReadOn
        } else if received.len() > 0 {
            ReadStep::Deliver
        } else {
            ReadStep::Empty
        },
        ReadEvent::WouldBlock => ReadStep::RetryAfter(100),
        ReadEvent::Failed => ReadStep::Broken,
    }
}

/// What has been received after a read event: the bytes that the read
/// brought are appended; every other event leaves it as it was.
pub open spec fn received_after(received: Seq<u8>, buf: Seq<u8>, event: ReadEvent) -> Seq<u8> {
    match event {
        ReadEvent::Received(count) => received + read_bytes(buf, count),
        _ => received,
    }
}

/// Takes one read into `buf` into account: what the read brought is
/// appended to `received`, and the step that follows is returned. The
/// message is complete when the peer ends it, not before: a read that
/// brings bytes is followed by another read, and the end of the stream
/// delivers all that was received. A stream that ends with nothing received
/// is a framing error. A read that would block is tried again after a
/// pause, and a failed read ends the exchange.
pub fn read_message(received: &mut Vec<u8>, buf: &Vec<u8>, event: ReadEvent) -> (step: ReadStep)
    ensures
        step == read_step(old(received)@, event),
        final(received)@ == received_after(old(received)@, buf@, event),
{
    match event {
        ReadEvent::Received(count) => {
            if count > 0 {
                let end: usize = if count < buf.len() {
                    count
                } else {
                    buf.len()
                };
                let mut bytes = copy_range(buf, 0, end);
                assert(bytes@ =~= read_bytes(buf@, count));
                received.append(&mut bytes);
                ReadStep::ReadOn
            } else {
                assert(received@ =~= received@ + read_bytes(buf@, count));
                if received.len() > 0 {
                    ReadStep::Deliver
                } else {
                    ReadStep::Empty
                }
            }
        },
        ReadEvent::WouldBlock => ReadStep::RetryAfter(RETRY_DELAY_MILLIS),
        ReadEvent::Failed => ReadStep::Broken,
    }
}

/// One read of a stream, as a reader sees it: the buffer after the read and
/// the count that the read reported.
pub struct StreamRead {
    pub buf: Seq<u8>,
    pub count: usize,
}

/// What has been received after `reads`, in that order, starting with nothing.
pub open spec fn received_after_reads(reads: Seq<StreamRead>) -> Seq<u8>
    decreases reads.len(),
{
    if reads.len() == 0 {
        Seq::empty()
    } else {
        received_after(
            received_after_reads(reads.drop_last()),
            reads.last().buf,
            ReadEvent::Received(reads.last().count),
        )
    }
}

/// The segments in which `reads` brought the stream's bytes.
pub open spec fn segments_of(reads: Seq<StreamRead>) -> Seq<Seq<u8>> {
    reads.map_values(|read: StreamRead| read_bytes(read.buf, read.count))
}

/// A message is delivered whole, however it is cut into segments: after
/// any reads, what has been received is the segments joined in order,
/// nothing dropped and nothing added; and when the peer then ends the
/// message, that is what is delivered, if it holds a byte at all.
pub proof fn lemma_whole_message_is_received(reads: Seq<StreamRead>)
    ensures
        received_after_reads(reads) == segments_of(reads).flatten(),
        read_step(received_after_reads(reads), ReadEvent::Received(0)) == if segments_of(
            reads,
        ).flatten().len() > 0 {
            ReadStep::Deliver
        } else {
            ReadStep::Empty
        },
        received_after(received_after_reads(reads), Seq::<u8>::empty(), ReadEvent::Received(0))
            == segments_of(reads).flatten(),
    decreases reads.len(),
{
    let segments = segments_of(reads);
    segments.lemma_flatten_and_flatten_alt_are_equivalent();
    if reads.len() > 0 {
        let front = reads.drop_last();
        lemma_whole_message_is_received(front);
        segments_of(front).lemma_flatten_and_flatten_alt_are_equivalent();
        assert(segments.drop_last() =~= segments_of(front));
        assert(segments.last() == read_bytes(reads.last().buf, reads.last().count));
    }
    assert(received_after_reads(reads) + Seq::<u8>::empty() =~= received_after_reads(reads));
}

} // verus!
