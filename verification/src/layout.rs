//! The fixed layout of a stored record.
//!
//! The host allocates an account once, before the record is first written, so
//! the size it reserves must cover every record that can ever be stored in
//! it. A record is stored as a discriminator, the author's key, the done
//! flag, the text as a length prefix followed by its UTF-8 bytes, and the two
//! timestamps.

use vstd::prelude::*;
use vstd::utf8::encode_utf8;

verus! {

/// The most characters (Unicode scalar values) a task's text may have.
pub const MAX_TEXT_CHARS: usize = 400;

/// Bytes of the tag that tells a task account from accounts of other kinds.
pub const DISCRIMINATOR: usize = 8;

/// Bytes of a public key.
pub const PUBLIC_KEY_LENGTH: usize = 32;

/// Bytes of the done flag.
pub const BOOL_LENGTH: usize = 1;

/// Bytes of the length prefix that precedes the text.
pub const TEXT_PREFIX_LENGTH: usize = 4;

/// Bytes of the longest UTF-8 encoding of one character.
pub const MAX_CHAR_WIDTH: usize = 4;

/// Bytes reserved for the text: the prefix and room for
/// [`MAX_TEXT_CHARS`] characters of the greatest width.
pub const TEXT_LENGTH: usize = TEXT_PREFIX_LENGTH + MAX_TEXT_CHARS * MAX_CHAR_WIDTH;

/// Bytes of one timestamp.
pub const TIMESTAMP_LENGTH: usize = 8;

/// The bytes that a text occupies in a stored record: the length prefix and
/// the text's UTF-8 encoding.
pub open spec fn text_region(text: Seq<char>) -> nat {
    TEXT_PREFIX_LENGTH as nat + encode_utf8(text).len()
}

/// A character takes at least one byte and at most [`MAX_CHAR_WIDTH`], so a
/// text's encoding has at least as many bytes as the text has characters and
/// at most [`MAX_CHAR_WIDTH`] times as many.
pub proof fn lemma_encoding_bounded(text: Seq<char>)
    ensures
        text.len() <= encode_utf8(text).len() <= MAX_CHAR_WIDTH * text.len(),
    decreases text.len(),
{
    if text.len() > 0 {
        lemma_encoding_bounded(text.drop_first());
    }
}

/// A text within the character limit fits the bytes reserved for it.
pub proof fn lemma_text_fits(text: Seq<char>)
    requires
        text.len() <= MAX_TEXT_CHARS,
    ensures
        text_region(text) <= TEXT_LENGTH,
{
    lemma_encoding_bounded(text);
}

} // verus!
