//! Text as it crosses the boundary to the host: UTF-8 bytes closed by one
//! terminator byte, with no terminator before the end.

use vstd::prelude::*;
use vstd::slice::slice_subrange;
use vstd::string::*;
use vstd::utf8::*;

verus! {

/// The byte that closes a host string.
pub const TERMINATOR: u8 = 0;

/// No byte of `bytes` is the terminator.
pub open spec fn terminator_free(bytes: Seq<u8>) -> bool {
    forall|i: int| 0 <= i < bytes.len() ==> bytes[i] != TERMINATOR
}

/// The host can hold `text`: its encoding has no terminator inside.
pub open spec fn representable(text: Seq<char>) -> bool {
    terminator_free(encode_utf8(text))
}

/// The host string for `text`: its UTF-8 encoding, then the terminator.
pub open spec fn host_string(text: Seq<char>) -> Seq<u8> {
    encode_utf8(text).push(TERMINATOR)
}

/// `bytes` end in the terminator and hold no other.
pub open spec fn is_host_string(bytes: Seq<u8>) -> bool {
    &&& bytes.len() > 0
    &&& bytes.last() == TERMINATOR
    &&& terminator_free(bytes.drop_last())
}

/// `bytes` are a host string whose content is UTF-8.
pub open spec fn is_host_text(bytes: Seq<u8>) -> bool {
    is_host_string(bytes) && valid_utf8(bytes.drop_last())
}

/// The text that a host string holds.
pub open spec fn text_of(bytes: Seq<u8>) -> Seq<char>
    recommends
        is_host_text(bytes),
{
    decode_utf8(bytes.drop_last())
}

proof fn lemma_scalar_bytes(c: u32)
    by (bit_vector)
    requires
        c <= 0x10FFFF,
    ensures
        c <= 0x7F ==> ((c & 0x7F) as u8 == 0 <==> c == 0),
        0xC0u8 | ((c >> 6) & 0x1F) as u8 != 0,
        0xE0u8 | ((c >> 12) & 0x0F) as u8 != 0,
        0xF0u8 | ((c >> 18) & 0x7) as u8 != 0,
        0x80u8 | (c & 0x3F) as u8 != 0,
        0x80u8 | ((c >> 6) & 0x3F) as u8 != 0,
        0x80u8 | ((c >> 12) & 0x3F) as u8 != 0,
{
}

/// The encoding of one character holds the terminator exactly when the
/// character is the null character.
proof fn lemma_scalar_terminator(c: char)
    ensures
        terminator_free(encode_scalar(c as u32)) <==> c != '\0',
{
    let s = c as u32;
    char_is_scalar(c);
    lemma_scalar_bytes(s);
    if c == '\0' {
        assert(encode_scalar(s)[0] == TERMINATOR);
    }
}

proof fn lemma_terminator_free_concat(a: Seq<u8>, b: Seq<u8>)
    ensures
        terminator_free(a + b) <==> terminator_free(a) && terminator_free(b),
{
    if terminator_free(a + b) {
        assert forall|i: int| 0 <= i < a.len() implies a[i] != TERMINATOR by {
            assert((a + b)[i] == a[i]);
        }
        assert forall|i: int| 0 <= i < b.len() implies b[i] != TERMINATOR by {
            assert((a + b)[a.len() + i] == b[i]);
        }
    }
}

/// A text is representable exactly when none of its characters is the null
/// character.
pub proof fn lemma_representable_chars(text: Seq<char>)
    ensures
        representable(text) <==> forall|i: int| 0 <= i < text.len() ==> text[i] != '\0',
    decreases text.len(),
{
    if text.len() > 0 {
        let rest = text.drop_first();
        lemma_representable_chars(rest);
        lemma_scalar_terminator(text[0]);
        lemma_terminator_free_concat(encode_scalar(text[0] as u32), encode_utf8(rest));
        if representable(text) {
            assert forall|i: int| 0 <= i < text.len() implies text[i] != '\0' by {
                if i > 0 {
                    assert(rest[i - 1] == text[i]);
                }
            }
        }
        if forall|i: int| 0 <= i < text.len() ==> text[i] != '\0' {
            assert forall|i: int| 0 <= i < rest.len() implies rest[i] != '\0' by {
                assert(rest[i] == text[i + 1]);
            }
        }
    }
}

/// Two texts joined are representable exactly when both are.
pub proof fn lemma_representable_concat(a: Seq<char>, b: Seq<char>)
    ensures
        representable(a + b) <==> representable(a) && representable(b),
{
    lemma_representable_chars(a);
    lemma_representable_chars(b);
    lemma_representable_chars(a + b);
    if representable(a + b) {
        assert forall|i: int| 0 <= i < a.len() implies a[i] != '\0' by {
            assert((a + b)[i] == a[i]);
        }
        assert forall|i: int| 0 <= i < b.len() implies b[i] != '\0' by {
            assert((a + b)[a.len() + i] == b[i]);
        }
    }
}

/// The host string of a representable text is a host text, and holds that
/// text unchanged.
pub proof fn lemma_host_string_keeps_text(text: Seq<char>)
    requires
        representable(text),
    ensures
        is_host_text(host_string(text)),
        text_of(host_string(text)) == text,
{
    assert(host_string(text).drop_last() =~= encode_utf8(text));
    encode_utf8_valid_utf8(text);
    encode_utf8_decode_utf8(text);
}

/// The text of a host text is representable, and its host string is the
/// bytes it came from.
pub proof fn lemma_text_keeps_host_string(bytes: Seq<u8>)
    requires
        is_host_text(bytes),
    ensures
        representable(text_of(bytes)),
        host_string(text_of(bytes)) == bytes,
{
    decode_utf8_encode_utf8(bytes.drop_last());
    assert(bytes.drop_last().push(bytes.last()) =~= bytes);
}

/// Whether the host can hold `text`.
pub fn is_representable(text: &str) -> (ok: bool)
    ensures
        ok == representable(text@),
{
    let bytes = text.as_bytes();
    let mut i: usize = 0;
    while i < bytes.len()
        invariant
            i <= bytes.len(),
            bytes@ == encode_utf8(text@),
            forall|j: int| 0 <= j < i ==> bytes@[j] != TERMINATOR,
        decreases bytes.len() - i,
    {
        if bytes[i] == TERMINATOR {
            return false;
        }
        i += 1;
    }
    true
}

/// The host string for `text`.
pub fn to_host(text: &str) -> (bytes: Vec<u8>)
    requires
        representable(text@),
    ensures
        bytes@ == host_string(text@),
        is_host_text(bytes@),
{
    proof {
        lemma_host_string_keeps_text(text@);
    }
    let mut bytes = text.as_bytes_vec();
    bytes.push(TERMINATOR);
    bytes
}

/// `core::str::from_utf8`, believed and not proved: it gives a string slice
/// exactly where `bytes` are UTF-8, and that slice is made of the very
/// bytes it was given.
#[verifier::external_body]
fn utf8_text(bytes: &[u8]) -> (text: Option<&str>)
    ensures
        text is Some <==> valid_utf8(bytes@),
        text matches Some(t) ==> encode_utf8(t@) == bytes@,
{
    match core::str::from_utf8(bytes) {
        Ok(text) => Some(text),
        Err(_) => None,
    }
}

/// Whether `bytes` are a host string whose content is UTF-8.
pub fn is_text(bytes: &[u8]) -> (ok: bool)
    ensures
        ok == is_host_text(bytes@),
{
    let n = bytes.len();
    if n == 0 {
        return false;
    }
    if bytes[n - 1] != TERMINATOR {
        return false;
    }
    let content = slice_subrange(bytes, 0, n - 1);
    assert(content@ == bytes@.drop_last());
    let mut i: usize = 0;
    while i < content.len()
        invariant
            i <= content.len(),
            content@ == bytes@.drop_last(),
            forall|j: int| 0 <= j < i ==> content@[j] != TERMINATOR,
        decreases content.len() - i,
    {
        if content[i] == TERMINATOR {
            return false;
        }
        i += 1;
    }
    utf8_text(content).is_some()
}

/// The text that the host string `bytes` holds.
pub fn from_host(bytes: &[u8]) -> (text: &str)
    requires
        is_host_text(bytes@),
    ensures
        text@ == text_of(bytes@),
        host_string(text@) == bytes@,
{
    let content = slice_subrange(bytes, 0, bytes.len() - 1);
    assert(content@ == bytes@.drop_last());
    let text = utf8_text(content).unwrap();
    proof {
        encode_utf8_decode_utf8(text@);
        lemma_text_keeps_host_string(bytes@);
    }
    text
}

} // verus!
