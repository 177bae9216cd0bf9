//! Marshalling of host strings into buffers the engine can read: the bytes of
//! the text, one terminating zero, and the length kept beside them.
use crate::error::{ErrorKind, TelephonyError, TelephonyErrorView};
use vstd::prelude::*;
use vstd::slice::slice_to_vec;
use vstd::string::StringExecFns;
use vstd::utf8::{char_is_scalar, encode_scalar, encode_utf8};

verus! {

/// A text holds a null byte exactly when it holds the character U+0000: no
/// other character has a zero among the bytes of its encoding.
pub open spec fn has_nul(text: Seq<char>) -> bool {
    text.contains('\0')
}

/// A string in the form the engine reads: `buffer` holds the bytes and `slen`
/// says how many of them are text.
#[derive(Clone, Debug, PartialEq, Eq)]
pub struct EngineString {
    pub buffer: Vec<u8>,
    pub slen: usize,
}

/// An engine string as plain data.
pub struct EngineStringView {
    pub buffer: Seq<u8>,
    pub slen: nat,
}

impl View for EngineString {
    type V = EngineStringView;

    open spec fn view(&self) -> EngineStringView {
        EngineStringView { buffer: self.buffer@, slen: self.slen as nat }
    }
}

impl EngineStringView {
    /// The text bytes are followed by exactly one zero, and none of them is
    /// zero: the buffer can be read up to its terminator or by its length,
    /// with the same result.
    pub open spec fn terminated(self) -> bool {
        &&& self.buffer.len() == self.slen + 1
        &&& self.buffer[self.slen as int] == 0u8
        &&& forall|i: int| 0 <= i < self.slen ==> self.buffer[i] != 0u8
    }
}

/// The engine string of a text: its UTF-8 bytes, a terminating zero, and the
/// number of text bytes.
pub open spec fn marshalled(text: Seq<char>) -> EngineStringView {
    EngineStringView { buffer: encode_utf8(text).push(0u8), slen: encode_utf8(text).len() }
}

/// The engine string of a text without a terminator: the bytes alone.
pub open spec fn unterminated(text: Seq<char>) -> EngineStringView {
    EngineStringView { buffer: encode_utf8(text), slen: encode_utf8(text).len() }
}

/// The error raised for a text that cannot be marshalled.
pub open spec fn rejected_input(text: Seq<char>) -> TelephonyErrorView {
    TelephonyErrorView {
        kind: ErrorKind::InputValueError,
        detail: "Could not use input value: '"@ + text + "' Contained Null Byte"@,
    }
}

proof fn lemma_width_1_nul(s: u32)
    by (bit_vector)
    ensures
        s <= 0x7F ==> (((s & 0x7F) as u8 == 0u8) <==> s == 0),
{
}

proof fn lemma_leading_bytes_nonzero(s: u32)
    by (bit_vector)
    ensures
        0xC0u8 | ((s >> 6) & 0x1F) as u8 != 0u8,
        0xE0u8 | ((s >> 12) & 0x0F) as u8 != 0u8,
        0xF0u8 | ((s >> 18) & 0x7) as u8 != 0u8,
{
}

proof fn lemma_continuation_bytes_nonzero(s: u32)
    by (bit_vector)
    ensures
        0x80u8 | (s & 0x3F) as u8 != 0u8,
        0x80u8 | ((s >> 6) & 0x3F) as u8 != 0u8,
        0x80u8 | ((s >> 12) & 0x3F) as u8 != 0u8,
{
}

/// The encoding of one character holds a zero byte exactly when the
/// character is U+0000.
pub proof fn lemma_char_nul(c: char)
    ensures
        encode_scalar(c as u32).contains(0u8) <==> c == '\0',
{
    let s = c as u32;
    let bytes = encode_scalar(s);
    char_is_scalar(c);
    lemma_width_1_nul(s);
    lemma_leading_bytes_nonzero(s);
    lemma_continuation_bytes_nonzero(s);
    if c == '\0' {
        assert(bytes[0] == 0u8);
    }
}

/// The bytes of a text hold a zero exactly when the text holds U+0000.
pub proof fn lemma_text_nul(text: Seq<char>)
    ensures
        encode_utf8(text).contains(0u8) <==> has_nul(text),
    decreases text.len(),
{
    if text.len() > 0 {
        let head = encode_scalar(text[0] as u32);
        let tail = encode_utf8(text.drop_first());
        lemma_char_nul(text[0]);
        lemma_text_nul(text.drop_first());
        if head.contains(0u8) {
            let i = choose|i: int| 0 <= i < head.len() && head[i] == 0u8;
            assert((head + tail)[i] == 0u8);
            assert(text[0] == '\0');
        }
        if tail.contains(0u8) {
            let i = choose|i: int| 0 <= i < tail.len() && tail[i] == 0u8;
            assert((head + tail)[head.len() + i] == 0u8);
            let k = choose|k: int| 0 <= k < text.drop_first().len() && text.drop_first()[k] == '\0';
            assert(text[k + 1] == '\0');
        }
        if (head + tail).contains(0u8) {
            let i = choose|i: int| 0 <= i < (head + tail).len() && (head + tail)[i] == 0u8;
            if i < head.len() {
                assert(head[i] == 0u8);
            } else {
                assert(tail[i - head.len()] == 0u8);
            }
        }
        if has_nul(text) {
            let k = choose|k: int| 0 <= k < text.len() && text[k] == '\0';
            if k > 0 {
                assert(text.drop_first()[k - 1] == '\0');
            }
        }
    }
}

/// A text without U+0000 marshals into a well-terminated engine string.
pub proof fn lemma_marshalled_terminated(text: Seq<char>)
    requires
        !has_nul(text),
    ensures
        marshalled(text).terminated(),
{
    lemma_text_nul(text);
}

/// Whether a zero occurs among the bytes.
fn holds_zero(bytes: &[u8]) -> (found: bool)
    ensures
        found == bytes@.contains(0u8),
{
    let mut i: usize = 0;
    while i < bytes.len()
        invariant
            i <= bytes.len(),
            forall|j: int| 0 <= j < i ==> bytes@[j] != 0u8,
        decreases bytes.len() - i,
    {
        if bytes[i] == 0 {
            return true;
        }
        i += 1;
    }
    false
}

/// Marshals a host string for the engine.
///
/// A text that holds a null byte cannot be told from a shorter one by its
/// terminator, and is rejected with `InputValueError`; the detail quotes the
/// text. Any other text becomes its bytes, a terminating zero and its length
/// in bytes.
pub fn make_pj_str_t(input: String) -> (res: Result<EngineString, TelephonyError>)
    ensures
        match res {
            Ok(s) => !has_nul(input@) && s@ == marshalled(input@) && s@.terminated(),
            Err(e) => has_nul(input@) && e@ == rejected_input(input@),
        },
{
    let bytes = input.as_str().as_bytes();
    proof {
        lemma_text_nul(input@);
    }
    if holds_zero(bytes) {
        let mut message = "Could not use input value: '".to_owned();
        message.append(input.as_str());
        message.append("' Contained Null Byte");
        Err(TelephonyError::InputValueError(message))
    } else {
        proof {
            lemma_marshalled_terminated(input@);
        }
        let slen = bytes.len();
        let mut buffer = slice_to_vec(bytes);
        buffer.push(0u8);
        Ok(EngineString { buffer, slen })
    }
}

/// Hands the bytes of a host string over as they are: no terminator is added
/// and no null byte is looked for. The result is never well-terminated, and
/// can only be read by its length.
pub fn make_pj_str_t_OLD(input: String) -> (s: EngineString)
    ensures
        s@ == unterminated(input@),
        !s@.terminated(),
{
    let bytes = input.as_str().as_bytes();
    let slen = bytes.len();
    EngineString { buffer: slice_to_vec(bytes), slen }
}

} // verus!
