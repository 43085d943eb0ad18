//! Storage sizes of the records: a record-kind prefix, then fixed-width fields,
//! with each string stored as a 4-byte length followed by its UTF-8 bytes.
use vstd::prelude::*;
use crate::records::{text_len, Note, MAX_CONTENT_LEN, MAX_TITLE_LEN};

verus! {

/// Bytes of the record-kind prefix that every stored record starts with.
pub const DISCRIMINATOR_LEN: usize = 8;

/// Bytes of an identity key.
pub const KEY_LEN: usize = 32;

/// Bytes of the length in front of a stored string.
pub const STRING_PREFIX_LEN: usize = 4;

/// Space allocated to the configuration: prefix, authority, bump, counter.
pub const CONFIG_SPACE: usize = DISCRIMINATOR_LEN + KEY_LEN + 1 + 8;

/// Space allocated to a note: prefix, author, receiver, title and content at their
/// longest, bump, two tallies and two timestamps.
pub const NOTE_SPACE: usize = DISCRIMINATOR_LEN + 2 * KEY_LEN + STRING_PREFIX_LEN + MAX_TITLE_LEN
    + STRING_PREFIX_LEN + MAX_CONTENT_LEN + 1 + 4 * 8;

/// Space allocated to a reaction: prefix, reactor, note address, kind, bump.
pub const REACTION_SPACE: usize = DISCRIMINATOR_LEN + 2 * KEY_LEN + 1 + 1;

/// Encoded size of a note whose title and content take the given numbers of bytes.
pub open spec fn note_encoded_len(title_len: nat, content_len: nat) -> nat {
    (DISCRIMINATOR_LEN + 2 * KEY_LEN + STRING_PREFIX_LEN + title_len + STRING_PREFIX_LEN
        + content_len + 1 + 4 * 8) as nat
}

/// The encoded size of `n`; a well-formed note always fits in `NOTE_SPACE`.
pub fn note_size(n: &Note) -> (r: usize)
    requires
        n.wf(),
    ensures
        r == note_encoded_len(text_len(n.title@), text_len(n.content@)),
        r <= NOTE_SPACE,
{
    let title_len = n.title.as_str().as_bytes().len();
    let content_len = n.content.as_str().as_bytes().len();
    DISCRIMINATOR_LEN + 2 * KEY_LEN + STRING_PREFIX_LEN + title_len + STRING_PREFIX_LEN
        + content_len + 1 + 4 * 8
}

} // verus!
