//! Chunk identifiers.
//!
//! A chunk is stored in a file named after its identifier, so an identifier must not be able to
//! name anything outside the storage directory. The commands of the backend must use UUIDs; the
//! storage layer has a check of its own.

use crate::text;
use vstd::prelude::*;
use vstd::string::*;
use vstd::utf8::*;

verus! {

/// The longest chunk identifier that is stored, in bytes.
pub const MAX_CHUNK_ID_BYTES: u64 = 255;

/// A hexadecimal digit of either case.
pub open spec fn is_hex_digit(c: char) -> bool {
    '0' <= c <= '9' || 'a' <= c <= 'f' || 'A' <= c <= 'F'
}

/// Thirty-two hexadecimal digits in five groups, with hyphens between the groups.
pub open spec fn is_hyphenated(s: Seq<char>) -> bool {
    &&& s.len() == 36
    &&& forall|i: int|
        0 <= i < 36 ==> if i == 8 || i == 13 || i == 18 || i == 23 {
            #[trigger] s[i] == '-'
        } else {
            is_hex_digit(s[i])
        }
}

/// `a` is `b` or, for a letter, the capital of `b`.
pub open spec fn is_letter_of(a: char, b: char) -> bool {
    a == b || ('a' <= b <= 'z' && a as int == b as int - 32)
}

/// `s` begins with `urn:uuid:`, the letters in either case.
pub open spec fn has_urn_prefix(s: Seq<char>) -> bool {
    &&& s.len() >= 9
    &&& is_letter_of(s[0], 'u')
    &&& is_letter_of(s[1], 'r')
    &&& is_letter_of(s[2], 'n')
    &&& s[3] == ':'
    &&& is_letter_of(s[4], 'u')
    &&& is_letter_of(s[5], 'u')
    &&& is_letter_of(s[6], 'i')
    &&& is_letter_of(s[7], 'd')
    &&& s[8] == ':'
}

/// `s` is a UUID in one of its four written forms: the bare digits, the hyphenated form, the
/// hyphenated form in braces, and the hyphenated form as a URN.
pub open spec fn is_uuid(s: Seq<char>) -> bool {
    ||| s.len() == 32 && forall|i: int| 0 <= i < 32 ==> is_hex_digit(#[trigger] s[i])
    ||| is_hyphenated(s)
    ||| s.len() == 38 && s[0] == '{' && s[37] == '}' && is_hyphenated(s.subrange(1, 37))
    ||| s.len() == 45 && has_urn_prefix(s) && is_hyphenated(s.subrange(9, 45))
}

/// Calls `uuid::Uuid::parse_str` and tells whether it succeeded. The contract claims that it
/// accepts exactly the four written forms of `is_uuid`; the value it parses is not used.
#[verifier::external_body]
pub(crate) fn parses_as_uuid(s: &str) -> (ok: bool)
    ensures
        ok == is_uuid(s@),
{
    uuid::Uuid::parse_str(s).is_ok()
}

/// The length of a chunk identifier is in bounds: not empty, and at most 255 bytes.
pub open spec fn length_in_bounds(id: Seq<char>) -> bool {
    id.len() > 0 && encode_utf8(id).len() <= MAX_CHUNK_ID_BYTES
}

/// A chunk identifier cannot step out of a directory: no separator of any system, no `..`.
pub open spec fn free_of_traversal(id: Seq<char>) -> bool {
    !text::has_adjacent(id, '.', '.') && !id.contains('/') && !id.contains('\\')
}

/// Is the length of `id` in bounds?
pub fn has_valid_length(id: &str) -> (ok: bool)
    ensures
        ok == length_in_bounds(id@),
{
    let bytes = id.as_bytes();
    !id.is_empty() && bytes.len() <= 255
}

/// Is `id` free of separators and of `..`?
pub fn has_no_traversal(id: &str) -> (ok: bool)
    ensures
        ok == free_of_traversal(id@),
{
    !text::contains_adjacent(id, '.', '.') && !text::contains_char(id, '/') && !text::contains_char(id, '\\')
}

/// Every UUID passes the checks of the storage layer: the backend's commands cannot be refused
/// there for their identifier, and none of them can name a file outside the storage directory.
pub proof fn uuid_is_storable(id: Seq<char>)
    requires
        is_uuid(id),
    ensures
        length_in_bounds(id),
        free_of_traversal(id),
        !id.contains('.'),
{
    assert forall|i: int| 0 <= i < id.len() implies {
        let c = #[trigger] id[i];
        &&& '\0' <= c <= '\u{7f}'
        &&& c != '/'
        &&& c != '\\'
        &&& c != '.'
    } by {
        if id.len() == 38 {
            if 1 <= i < 37 {
                assert(id.subrange(1, 37)[i - 1] == id[i]);
            }
        } else if id.len() == 45 {
            if 9 <= i {
                assert(id.subrange(9, 45)[i - 9] == id[i]);
            }
        }
    }
    assert(is_ascii_chars(id));
    is_ascii_chars_encode_utf8(id);
}

} // verus!
