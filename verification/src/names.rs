//! Object names: the filenames that name an object of the flat namespace
//! under a storage root.

use vstd::prelude::*;
use vstd::string::*;
use vstd::utf8::*;

verus! {

/// The characters that no object name holds: the two path separators and NUL.
pub open spec fn is_reserved_char(c: char) -> bool {
    c == '/' || c == '\\' || c == '\0'
}

/// Whether a filename names an object of the flat namespace under the
/// storage root. It is not empty, holds no path separator and no NUL, and is
/// neither `.` nor `..`: so it cannot name anything outside the root.
pub open spec fn is_object_name(name: Seq<char>) -> bool {
    &&& name.len() > 0
    &&& forall|i: int| 0 <= i < name.len() ==> !is_reserved_char(#[trigger] name[i])
    &&& name != seq!['.']
    &&& name != seq!['.', '.']
}

/// Whether some character of `chars` has the code `code`.
pub open spec fn has_char_code(chars: Seq<char>, code: u8) -> bool {
    exists|j: int| 0 <= j < chars.len() && #[trigger] chars[j] as u32 == code as u32
}

proof fn lemma_low_byte(v: u32)
    by (bit_vector)
    requires
        v <= 0x7F,
    ensures
        (v & 0x7F) as u8 == v as u8,
        (v as u8) as u32 == v,
{
}

proof fn lemma_high_bytes(x: u8)
    by (bit_vector)
    ensures
        0x80u8 | x >= 0x80u8,
        0xC0u8 | x >= 0x80u8,
        0xE0u8 | x >= 0x80u8,
        0xF0u8 | x >= 0x80u8,
{
}

/// The encoding of a scalar below 0x80 is the one byte of that value; every
/// byte of every other scalar's encoding is 0x80 or above.
proof fn lemma_scalar_bytes(v: u32)
    ensures
        encode_scalar(v).len() >= 1,
        v <= 0x7F ==> encode_scalar(v) == seq![v as u8],
        v > 0x7F ==> forall|k: int|
            0 <= k < encode_scalar(v).len() ==> #[trigger] encode_scalar(v)[k] >= 0x80,
{
    if v <= 0x7F {
        lemma_low_byte(v);
    } else {
        lemma_high_bytes(((v >> 6) & 0x1F) as u8);
        lemma_high_bytes(((v >> 12) & 0x0F) as u8);
        lemma_high_bytes(((v >> 18) & 0x7) as u8);
        lemma_high_bytes((v & 0x3F) as u8);
        lemma_high_bytes(((v >> 6) & 0x3F) as u8);
        lemma_high_bytes(((v >> 12) & 0x3F) as u8);
    }
}

/// A byte below 0x80 occurs in the UTF-8 encoding of a string exactly if
/// the character with that code occurs in the string.
pub proof fn lemma_low_byte_is_a_char(chars: Seq<char>, code: u8)
    requires
        code <= 0x7F,
    ensures
        encode_utf8(chars).contains(code) <==> has_char_code(chars, code),
        chars.len() > 0 <==> encode_utf8(chars).len() > 0,
    decreases chars.len(),
{
    if chars.len() > 0 {
        let first = chars[0] as u32;
        let head = encode_scalar(first);
        let rest = chars.drop_first();
        let tail = encode_utf8(rest);
        let bytes = encode_utf8(chars);
        assert(bytes == head + tail);
        lemma_scalar_bytes(first);
        lemma_low_byte_is_a_char(rest, code);
        if first <= 0x7F {
            lemma_low_byte(first);
        }
        if bytes.contains(code) {
            let k = choose|k: int| 0 <= k < bytes.len() && bytes[k] == code;
            if k < head.len() {
                assert(head[k] == code);
                assert(first == code as u32);
                assert(chars[0] as u32 == code as u32);
            } else {
                assert(tail[k - head.len()] == code);
                assert(tail.contains(code));
                let j = choose|j: int| 0 <= j < rest.len() && #[trigger] rest[j] as u32 == code as u32;
                assert(chars[j + 1] == rest[j]);
                assert(chars[j + 1] as u32 == code as u32);
            }
        }
        if has_char_code(chars, code) {
            let j = choose|j: int| 0 <= j < chars.len() && #[trigger] chars[j] as u32 == code as u32;
            if j == 0 {
                assert(bytes[0] == head[0]);
                assert(bytes[0] == code);
            } else {
                assert(rest[j - 1] == chars[j]);
                assert(rest[j - 1] as u32 == code as u32);
                assert(has_char_code(rest, code));
                let k = choose|k: int| 0 <= k < tail.len() && tail[k] == code;
                assert(bytes[head.len() + k] == tail[k]);
            }
        }
    }
}

/// The UTF-8 encodings of `.` and `..` are one and two bytes 0x2E, and
/// nothing else encodes to them.
proof fn lemma_dot_names(chars: Seq<char>)
    ensures
        chars == seq!['.'] <==> encode_utf8(chars) == seq![0x2Eu8],
        chars == seq!['.', '.'] <==> encode_utf8(chars) == seq![0x2Eu8, 0x2Eu8],
{
    let one = seq!['.'];
    let two = seq!['.', '.'];
    lemma_scalar_bytes('.' as u32);
    lemma_low_byte('.' as u32);
    assert(encode_utf8(one.drop_first()) =~= Seq::<u8>::empty()) by {
        assert(one.drop_first().len() == 0);
    }
    assert(encode_utf8(one) =~= seq![0x2Eu8]);
    assert(two.drop_first() =~= one);
    assert(encode_utf8(two) =~= seq![0x2Eu8, 0x2Eu8]);
    encode_utf8_decode_utf8(chars);
    encode_utf8_decode_utf8(one);
    encode_utf8_decode_utf8(two);
}

/// Whether `filename` names an object of the flat namespace.
pub fn check_filename(filename: &String) -> (ok: bool)
    ensures
        ok == is_object_name(filename@),
{
    let bytes = filename.as_str().as_bytes();
    let len: usize = bytes.len();
    proof {
        lemma_low_byte_is_a_char(filename@, 0x2F);
        lemma_low_byte_is_a_char(filename@, 0x5C);
        lemma_low_byte_is_a_char(filename@, 0x00);
        lemma_dot_names(filename@);
    }
    if len == 0 {
        return false;
    }
    let mut i: usize = 0;
    while i < len
        invariant
            bytes@ == encode_utf8(filename@),
            len == bytes@.len(),
            0 <= i <= len,
            forall|k: int| 0 <= k < i ==> bytes@[k] != 0x2F && bytes@[k] != 0x5C && bytes@[k] != 0,
        decreases len - i,
    {
        let b: u8 = bytes[i];
        if b == 0x2F || b == 0x5C || b == 0 {
            proof {
                assert(bytes@[i as int] == b);
                assert(bytes@.contains(b));
                lemma_low_byte_is_a_char(filename@, b);
                let j = choose|j: int|
                    0 <= j < filename@.len() && #[trigger] filename@[j] as u32 == b as u32;
                char_u32_cast(filename@[j], b as u32);
                assert(is_reserved_char(filename@[j]));
            }
            return false;
        }
        i = i + 1;
    }
    if len == 1 && bytes[0] == 0x2E {
        assert(bytes@ =~= seq![0x2Eu8]);
        return false;
    }
    if len == 2 && bytes[0] == 0x2E && bytes[1] == 0x2E {
        assert(bytes@ =~= seq![0x2Eu8, 0x2Eu8]);
        return false;
    }
    proof {
        assert forall|j: int| 0 <= j < filename@.len() implies !is_reserved_char(
            #[trigger] filename@[j],
        ) by {
            let c = filename@[j];
            if c == '/' {
                assert(filename@[j] as u32 == 0x2Fu8 as u32);
                assert(has_char_code(filename@, 0x2F));
            }
            if c == '\\' {
                assert(filename@[j] as u32 == 0x5Cu8 as u32);
                assert(has_char_code(filename@, 0x5C));
            }
            if c == '\0' {
                assert(filename@[j] as u32 == 0x00u8 as u32);
                assert(has_char_code(filename@, 0x00));
            }
        }
    }
    true
}

} // verus!
