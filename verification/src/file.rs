//! The payload layouts of the three requests.
//!
//! A filename travels as one length byte followed by its UTF-8 bytes. A
//! create request appends one reserved byte and then the content, which runs
//! to the end of the message. A message ends where its sender ends the
//! stream, and a receiver reads up to there, so the content is whole however
//! long it is; the reserved byte is written, and skipped when reading.

use vstd::prelude::*;
use vstd::utf8::*;
use vstd::string::*;
use crate::errors::ProtocolError;
use crate::message::copy_range;

verus! {

/// `std::string::FromUtf8Error`, the error of `String::from_utf8`. Nothing
/// is read from it.
#[verifier::external_type_specification]
#[verifier::external_body]
pub struct ExFromUtf8Error(std::string::FromUtf8Error);

/// `String::from_utf8`: it succeeds exactly on well-formed UTF-8, and the
/// string it then gives has the very bytes it was handed.
pub assume_specification[ String::from_utf8 ](vec: Vec<u8>) -> (r: Result<
    String,
    std::string::FromUtf8Error,
>)
    ensures
        r is Ok <==> valid_utf8(vec@),
        r is Ok ==> encode_utf8(r.unwrap()@) == vec@,
;

/// The largest filename length, in UTF-8 bytes, that one length byte can tell.
pub const MAX_FILENAME_LEN: usize = 255;

/// Whether a filename's UTF-8 encoding fits the length byte.
pub open spec fn fits_length_byte(name: Seq<char>) -> bool {
    encode_utf8(name).len() <= 255
}

/// The payload of a request that carries only a filename: the length of its
/// UTF-8 encoding, then the encoding.
pub open spec fn filename_payload(name: Seq<char>) -> Seq<u8> {
    seq![encode_utf8(name).len() as u8] + encode_utf8(name)
}

/// The reserved byte of a create payload: the content's length modulo 256.
/// No reader looks at it.
pub open spec fn reserved_byte(content: Seq<u8>) -> u8 {
    (content.len() % 256) as u8
}

/// The payload of a create request: the filename's payload, the reserved
/// byte, then the content.
pub open spec fn create_payload(name: Seq<char>, content: Seq<u8>) -> Seq<u8> {
    filename_payload(name) + seq![reserved_byte(content)] + content
}

/// Whether `data` has the layout of a create payload: a length byte, that
/// many bytes of well-formed UTF-8, and at least the reserved byte after them.
pub open spec fn is_create_payload(data: Seq<u8>) -> bool {
    &&& data.len() >= 1
    &&& data.len() >= data[0] + 2
    &&& valid_utf8(data.subrange(1, data[0] + 1))
}

/// The filename that a create payload carries.
pub open spec fn create_filename(data: Seq<u8>) -> Seq<char>
    recommends
        is_create_payload(data),
{
    decode_utf8(data.subrange(1, data[0] + 1))
}

/// The content that a create payload carries: all that follows the reserved byte.
pub open spec fn create_content(data: Seq<u8>) -> Seq<u8>
    recommends
        is_create_payload(data),
{
    data.subrange(data[0] + 2, data.len() as int)
}

/// Whether `data` has the layout of a filename-only payload as a reader
/// takes it: one leading byte, then well-formed UTF-8 to the end.
pub open spec fn is_filename_payload(data: Seq<u8>) -> bool {
    &&& data.len() >= 1
    &&& valid_utf8(data.subrange(1, data.len() as int))
}

/// The filename that a filename-only payload carries: all that follows the
/// leading byte.
pub open spec fn payload_filename(data: Seq<u8>) -> Seq<char>
    recommends
        is_filename_payload(data),
{
    decode_utf8(data.subrange(1, data.len() as int))
}

/// Appends the payload of a filename-only request to `output`. A filename
/// whose UTF-8 encoding is longer than 255 bytes is refused, and `output`
/// is then left as it was.
pub fn serialize_filename(filename: &String, output: &mut Vec<u8>) -> (r: Result<
    (),
    ProtocolError,
>)
    ensures
        fits_length_byte(filename@) ==> r is Ok && final(output)@ == old(output)@
            + filename_payload(filename@),
        !fits_length_byte(filename@) ==> r == Err::<(), ProtocolError>(
            ProtocolError::FilenameTooLong,
        ) && final(output)@ == old(output)@,
{
    let mut bytes = filename.as_str().as_bytes_vec();
    if bytes.len() > MAX_FILENAME_LEN {
        return Err(ProtocolError::FilenameTooLong);
    }
    let len: u8 = bytes.len() as u8;
    output.push(len);
    output.append(&mut bytes);
    assert(final(output)@ =~= old(output)@ + filename_payload(filename@));
    Ok(())
}

/// Appends the payload of a create request to `output` and drains
/// `content` into it. A filename whose UTF-8 encoding is longer than 255
/// bytes is refused, and both vectors are then left as they were.
pub fn serialize_create_file(
    filename: &String,
    content: &mut Vec<u8>,
    output: &mut Vec<u8>,
) -> (r: Result<(), ProtocolError>)
    ensures
        fits_length_byte(filename@) ==> r is Ok && final(output)@ == old(output)@
            + create_payload(filename@, old(content)@) && final(content)@ == Seq::<u8>::empty(),
        !fits_length_byte(filename@) ==> r == Err::<(), ProtocolError>(
            ProtocolError::FilenameTooLong,
        ) && final(output)@ == old(output)@ && final(content)@ == old(content)@,
{
    match serialize_filename(filename, output) {
        Err(e) => Err(e),
        Ok(()) => {
            let reserved: u8 = (content.len() % 256) as u8;
            output.push(reserved);
            output.append(content);
            assert(final(output)@ =~= old(output)@ + create_payload(filename@, old(content)@));
            Ok(())
        },
    }
}

/// Reads a filename out of its UTF-8 bytes, if they are well formed.
fn filename_from_bytes(bytes: Vec<u8>) -> (r: Option<String>)
    ensures
        valid_utf8(bytes@) ==> r is Some && r.unwrap()@ == decode_utf8(bytes@),
        !valid_utf8(bytes@) ==> r is None,
{
    match String::from_utf8(bytes) {
        Ok(name) => {
            proof {
                encode_utf8_decode_utf8(name@);
            }
            Some(name)
        },
        Err(_) => None,
    }
}

/// Decodes the payload of a create request into the filename and the
/// content. The payload is refused as malformed when it is shorter than its
/// length byte says, when the reserved byte is missing, or when the filename
/// is not UTF-8.
pub fn deserialize_create_file(data: &Vec<u8>) -> (r: Result<(String, Vec<u8>), ProtocolError>)
    ensures
        is_create_payload(data@) ==> r is Ok && r.unwrap().0@ == create_filename(data@)
            && r.unwrap().1@ == create_content(data@),
        !is_create_payload(data@) ==> r == Err::<(String, Vec<u8>), ProtocolError>(
            ProtocolError::MalformedPayload,
        ),
{
    if data.len() < 1 {
        return Err(ProtocolError::MalformedPayload);
    }
    let filename_len: usize = data[0] as usize;
    if data.len() < 2 || data.len() - 2 < filename_len {
        return Err(ProtocolError::MalformedPayload);
    }
    match filename_from_bytes(copy_range(data, 1, filename_len + 1)) {
        None => Err(ProtocolError::MalformedPayload),
        Some(filename) => {
            let content = copy_range(data, filename_len + 2, data.len());
            Ok((filename, content))
        },
    }
}

/// Decodes the payload of a get or delete request into the filename: the
/// bytes after the leading length byte, to the end of the payload. The
/// payload is refused as malformed when it is empty or the filename is not
/// UTF-8.
pub fn deserialize_filename_operation(data: &Vec<u8>) -> (r: Result<String, ProtocolError>)
    ensures
        is_filename_payload(data@) ==> r is Ok && r.unwrap()@ == payload_filename(data@),
        !is_filename_payload(data@) ==> r == Err::<String, ProtocolError>(
            ProtocolError::MalformedPayload,
        ),
{
    if data.len() < 1 {
        return Err(ProtocolError::MalformedPayload);
    }
    match filename_from_bytes(copy_range(data, 1, data.len())) {
        None => Err(ProtocolError::MalformedPayload),
        Some(filename) => Ok(filename),
    }
}

/// A create payload decodes to the filename and the content that it was
/// built from, for every filename that fits the length byte and every
/// content.
pub proof fn lemma_create_round_trip(name: Seq<char>, content: Seq<u8>)
    requires
        fits_length_byte(name),
    ensures
        is_create_payload(create_payload(name, content)),
        create_filename(create_payload(name, content)) == name,
        create_content(create_payload(name, content)) == content,
{
    let data = create_payload(name, content);
    let encoded = encode_utf8(name);
    assert(data[0] == encoded.len());
    assert(data.subrange(1, data[0] + 1) =~= encoded);
    assert(data.subrange(data[0] + 2, data.len() as int) =~= content);
    encode_utf8_valid_utf8(name);
    encode_utf8_decode_utf8(name);
}

/// A filename-only payload decodes to the filename that it was built from,
/// for every filename that fits the length byte.
pub proof fn lemma_filename_round_trip(name: Seq<char>)
    requires
        fits_length_byte(name),
    ensures
        is_filename_payload(filename_payload(name)),
        payload_filename(filename_payload(name)) == name,
{
    let data = filename_payload(name);
    assert(data.subrange(1, data.len() as int) =~= encode_utf8(name));
    encode_utf8_valid_utf8(name);
    encode_utf8_decode_utf8(name);
}

} // verus!
