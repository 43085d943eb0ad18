//! The records kept by the ledger, the accounts each operation names, and the
//! errors an operation can end with.
use vstd::prelude::*;
use vstd::utf8::encode_utf8;
use crate::key::Key;

verus! {

/// Longest title, in bytes of UTF-8.
pub const MAX_TITLE_LEN: usize = 50;

/// Longest content, in bytes of UTF-8.
pub const MAX_CONTENT_LEN: usize = 300;

/// The length of a text in bytes of UTF-8.
pub open spec fn text_len(s: Seq<char>) -> nat {
    encode_utf8(s).len()
}

/// The singleton record: who initialised the ledger and how many notes are live.
#[derive(Clone, Copy, Debug)]
pub struct Config {
    pub authority: Key,
    pub bump: u8,
    pub note_count: u64,
}

/// A note from `author` to `receiver`.
#[derive(Debug)]
pub struct Note {
    pub author: Key,
    pub receiver: Key,
    pub title: String,
    pub content: String,
    pub bump: u8,
    pub likes: u64,
    pub dislikes: u64,
    pub created_at: i64,
    pub updated_at: i64,
}

impl Note {
    /// Distinct parties, bounded text, and an update time no earlier than creation.
    pub open spec fn wf(&self) -> bool {
        &&& self.author@ != self.receiver@
        &&& text_len(self.title@) <= MAX_TITLE_LEN
        &&& text_len(self.content@) <= MAX_CONTENT_LEN
        &&& self.created_at <= self.updated_at
    }
}

#[derive(Clone, Copy, Debug, PartialEq, Eq, Structural)]
pub enum ReactionType {
    NoReaction,
    Like,
    Dislike,
}

/// The reaction of `reactor` to the note at address `note`.
#[derive(Clone, Copy, Debug)]
pub struct Reaction {
    pub reactor: Key,
    pub note: Key,
    pub reaction_type: ReactionType,
    pub bump: u8,
}

/// Accounts of `initialize`: the signer who becomes the authority.
#[derive(Clone, Copy, Debug)]
pub struct Initialize {
    pub authority: Key,
}

/// Accounts of sending a note: its author (the signer) and its receiver.
#[derive(Clone, Copy, Debug)]
pub struct SendNoteByContent {
    pub author: Key,
    pub receiver: Key,
}

/// Accounts of deleting a note: the note's address and the signer deleting it.
#[derive(Clone, Copy, Debug)]
pub struct DeleteNoteByContent {
    pub note: Key,
    pub deleter: Key,
}

/// Accounts of editing a note: the note's address and the signer editing it.
#[derive(Clone, Copy, Debug)]
pub struct EditNoteByContent {
    pub note: Key,
    pub author: Key,
}

/// Accounts of reacting to a note, changing or removing a reaction: the note's
/// address and the signer reacting.
#[derive(Clone, Copy, Debug)]
pub struct ReactToNoteByContent {
    pub note: Key,
    pub reactor: Key,
}

#[derive(Clone, Copy, Debug, PartialEq, Eq, Structural)]
pub enum TellitError {
    /// Author and receiver are the same key.
    CannotSendToSelf,
    /// Title longer than `MAX_TITLE_LEN` bytes.
    TitleTooLong,
    /// Content longer than `MAX_CONTENT_LEN` bytes.
    ContentTooLong,
    /// Reserved: an occupied note address is reported as `AccountAlreadyInUse`.
    DuplicateMessage,
    /// The signer is not allowed to change this record.
    NotAuthorized,
    /// A reaction of type `NoReaction` where `Like` or `Dislike` is needed.
    InvalidReactionType,
    /// A tally would have to go below zero.
    InvalidReactionCount,
    /// The address to allocate already holds a record.
    AccountAlreadyInUse,
    /// The address named holds no record of the expected kind.
    AccountNotInitialized,
    /// The record's address does not re-derive from the given seeds.
    ConstraintSeeds,
    /// No program address could be derived from the seeds.
    AddressDerivationFailed,
    /// The host clock could not be read.
    ClockUnavailable,
}

} // verus!
