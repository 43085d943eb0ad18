//! The ledger: the configuration record, the notes and the reactions, and the
//! operations that create, change and remove them.
use vstd::prelude::*;
use crate::address::{
    config_seeds, created_program_address, find_config_address, find_note_address,
    find_reaction_address, found_program_address, note_address_with_bump, note_seeds,
    reaction_seeds, with_bump,
};
use crate::clock::clock_unix_timestamp;
use crate::key::Key;
use crate::records::{
    text_len, Config, DeleteNoteByContent, EditNoteByContent, Initialize, Note,
    ReactToNoteByContent, Reaction, ReactionType, SendNoteByContent, TellitError,
    MAX_CONTENT_LEN, MAX_TITLE_LEN,
};
use crate::store::{
    index_of, lemma_index_of, lemma_lookup_remove, lemma_lookup_update, lemma_push_unique,
    lookup, position, unique_addresses, Slot,
};

verus! {

/// `x + 1`, held at `u64::MAX`.
pub open spec fn sat_inc(x: u64) -> u64 {
    if x == u64::MAX {
        x
    } else {
        (x + 1) as u64
    }
}

/// `x - 1`, held at zero.
pub open spec fn sat_dec(x: u64) -> u64 {
    if x == 0 {
        0
    } else {
        (x - 1) as u64
    }
}

/// `Ok(())` when no error is due, else the error.
pub open spec fn outcome(e: Option<TellitError>) -> Result<(), TellitError> {
    match e {
        Some(e) => Err(e),
        None => Ok(()),
    }
}

/// The note with one more reaction of `kind` counted.
pub open spec fn tally_added(n: Note, kind: ReactionType) -> Note {
    match kind {
        ReactionType::Like => Note { likes: sat_inc(n.likes), ..n },
        ReactionType::Dislike => Note { dislikes: sat_inc(n.dislikes), ..n },
        ReactionType::NoReaction => n,
    }
}

/// The note with one reaction of `kind` taken back.
pub open spec fn tally_withdrawn(n: Note, kind: ReactionType) -> Note {
    match kind {
        ReactionType::Like => Note { likes: sat_dec(n.likes), ..n },
        ReactionType::Dislike => Note { dislikes: sat_dec(n.dislikes), ..n },
        ReactionType::NoReaction => n,
    }
}

/// Taking back a reaction of `kind` would take a zero tally below zero.
pub open spec fn withdraw_underflows(n: Note, kind: ReactionType) -> bool {
    ||| kind == ReactionType::Like && n.likes == 0
    ||| kind == ReactionType::Dislike && n.dislikes == 0
}

/// The whole state the operations act on: the program whose addresses the records
/// live at, the configuration singleton, and the note and reaction records.
pub struct Ledger {
    pub program_id: Key,
    pub config: Option<Slot<Config>>,
    pub notes: Vec<Slot<Note>>,
    pub reactions: Vec<Slot<Reaction>>,
}

impl Ledger {
    /// Addresses are unique within each record kind, and every note is well formed.
    pub open spec fn wf(&self) -> bool {
        &&& unique_addresses(self.notes@)
        &&& unique_addresses(self.reactions@)
        &&& forall|i: int| 0 <= i < self.notes@.len() ==> (#[trigger] self.notes@[i]).record.wf()
    }

    /// The note stored at address `a`.
    pub open spec fn note(&self, a: Seq<u8>) -> Option<Note> {
        lookup(self.notes@, a)
    }

    /// The reaction stored at address `a`.
    pub open spec fn reaction(&self, a: Seq<u8>) -> Option<Reaction> {
        lookup(self.reactions@, a)
    }

    /// The live-note counter, once the configuration exists.
    pub open spec fn note_count(&self) -> Option<u64> {
        match self.config {
            Some(c) => Some(c.record.note_count),
            None => None,
        }
    }

    /// Every note but the one at `a` is as in `other`.
    pub open spec fn other_notes_as(&self, other: Ledger, a: Seq<u8>) -> bool {
        forall|b: Seq<u8>| b != a ==> #[trigger] self.note(b) == other.note(b)
    }

    /// The configuration is `other`'s, with the counter set to `count`.
    pub open spec fn config_counting(&self, other: Ledger, count: u64) -> bool {
        match other.config {
            Some(c) => self.config == Some(
                Slot {
                    address: c.address,
                    record: Config {
                        authority: c.record.authority,
                        bump: c.record.bump,
                        note_count: count,
                    },
                },
            ),
            None => false,
        }
    }

    /// An empty ledger for `program_id`.
    pub fn new(program_id: Key) -> (l: Ledger)
        ensures
            l.wf(),
            l.program_id == program_id,
            l.config is None,
            l.notes@.len() == 0,
            l.reactions@.len() == 0,
    {
        Ledger { program_id, config: None, notes: Vec::new(), reactions: Vec::new() }
    }

    /// The note stored at `address`.
    pub fn note_at(&self, address: &Key) -> (r: Option<&Note>)
        requires
            self.wf(),
        ensures
            match r {
                Some(n) => self.note(address@) == Some(*n),
                None => self.note(address@) is None,
            },
    {
        match position(&self.notes, address) {
            Some(i) => Some(&self.notes[i].record),
            None => None,
        }
    }

    /// The reaction stored at `address`.
    pub fn reaction_at(&self, address: &Key) -> (r: Option<&Reaction>)
        requires
            self.wf(),
        ensures
            match r {
                Some(x) => self.reaction(address@) == Some(*x),
                None => self.reaction(address@) is None,
            },
    {
        match position(&self.reactions, address) {
            Some(i) => Some(&self.reactions[i].record),
            None => None,
        }
    }

    /// The live-note counter, once the configuration exists.
    pub fn live_note_count(&self) -> (r: Option<u64>)
        ensures
            r == self.note_count(),
    {
        match &self.config {
            Some(c) => Some(c.record.note_count),
            None => None,
        }
    }

    // ---- configuration ----

    /// Why `initialize` fails, if it does.
    pub open spec fn initialize_error(&self) -> Option<TellitError> {
        match found_program_address(config_seeds(), self.program_id@) {
            None => Some(TellitError::AddressDerivationFailed),
            Some(_) => if self.config is Some {
                Some(TellitError::AccountAlreadyInUse)
            } else {
                None
            },
        }
    }

    /// Creates the configuration record at its fixed address, with `authority` as its
    /// authority and no notes counted. A second call is refused.
    pub fn initialize(&mut self, accounts: &Initialize) -> (r: Result<(), TellitError>)
        requires
            old(self).wf(),
        ensures
            final(self).wf(),
            r == outcome(old(self).initialize_error()),
            r is Err ==> *final(self) == *old(self),
            r is Ok ==> {
                &&& final(self).program_id == old(self).program_id
                &&& final(self).notes == old(self).notes
                &&& final(self).reactions == old(self).reactions
                &&& final(self).config matches Some(c) && found_program_address(
                    config_seeds(),
                    old(self).program_id@,
                ) == Some((c.address@, c.record.bump)) && c.record.authority == accounts.authority
                    && c.record.note_count == 0
            },
    {
        let (address, bump) = match find_config_address(&self.program_id) {
            Some(p) => p,
            None => return Err(TellitError::AddressDerivationFailed),
        };
        if self.config.is_some() {
            return Err(TellitError::AccountAlreadyInUse);
        }
        self.config = Some(
            Slot {
                address,
                record: Config { authority: accounts.authority, bump, note_count: 0 },
            },
        );
        Ok(())
    }

    // ---- notes ----

    /// Why sending a note fails, if it does: self-send, over-long title or content,
    /// no configuration, no derivable address, or an address already taken.
    pub open spec fn send_note_error(
        &self,
        author: Key,
        receiver: Key,
        title: Seq<char>,
        content: Seq<char>,
    ) -> Option<TellitError> {
        if author@ == receiver@ {
            Some(TellitError::CannotSendToSelf)
        } else if text_len(title) > MAX_TITLE_LEN {
            Some(TellitError::TitleTooLong)
        } else if text_len(content) > MAX_CONTENT_LEN {
            Some(TellitError::ContentTooLong)
        } else if self.config is None {
            Some(TellitError::AccountNotInitialized)
        } else {
            match found_program_address(
                note_seeds(author@, receiver@, title, content),
                self.program_id@,
            ) {
                None => Some(TellitError::AddressDerivationFailed),
                Some((a, _)) => if self.note(a) is Some {
                    Some(TellitError::AccountAlreadyInUse)
                } else {
                    None
                },
            }
        }
    }

    /// `post` is `pre` with the note stored at its derived address, fresh (no
    /// reactions, created and updated at `now`), and one more note counted.
    pub open spec fn note_sent(
        pre: Ledger,
        post: Ledger,
        author: Key,
        receiver: Key,
        title: String,
        content: String,
        now: i64,
    ) -> bool {
        match found_program_address(
            note_seeds(author@, receiver@, title@, content@),
            pre.program_id@,
        ) {
            Some((a, bump)) => {
                &&& post.program_id == pre.program_id
                &&& post.reactions == pre.reactions
                &&& post.note(a) == Some(
                    Note {
                        author,
                        receiver,
                        title,
                        content,
                        bump,
                        likes: 0,
                        dislikes: 0,
                        created_at: now,
                        updated_at: now,
                    },
                )
                &&& post.other_notes_as(pre, a)
                &&& post.config_counting(pre, sat_inc(pre.note_count()->0))
            },
            None => false,
        }
    }

    /// Sends a note from `accounts.author` to `accounts.receiver`, stamped `now`.
    /// The note's address is derived from both keys and a fingerprint of its text,
    /// so sending the same text to the same receiver twice is refused.
    pub fn send_note_at(
        &mut self,
        accounts: &SendNoteByContent,
        title: String,
        content: String,
        now: i64,
    ) -> (r: Result<(), TellitError>)
        requires
            old(self).wf(),
        ensures
            final(self).wf(),
            r == outcome(
                old(self).send_note_error(accounts.author, accounts.receiver, title@, content@),
            ),
            r is Err ==> *final(self) == *old(self),
            r is Ok ==> Self::note_sent(
                *old(self),
                *final(self),
                accounts.author,
                accounts.receiver,
                title,
                content,
                now,
            ),
    {
        let author = accounts.author;
        let receiver = accounts.receiver;
        if author.equals(&receiver) {
            return Err(TellitError::CannotSendToSelf);
        }
        if title.as_str().as_bytes().len() > MAX_TITLE_LEN {
            return Err(TellitError::TitleTooLong);
        }
        if content.as_str().as_bytes().len() > MAX_CONTENT_LEN {
            return Err(TellitError::ContentTooLong);
        }
        let (config_address, config) = match &self.config {
            Some(c) => (c.address, c.record),
            None => return Err(TellitError::AccountNotInitialized),
        };
        let (address, bump) = match find_note_address(
            &self.program_id,
            &author,
            &receiver,
            &title,
            &content,
        ) {
            Some(p) => p,
            None => return Err(TellitError::AddressDerivationFailed),
        };
        if position(&self.notes, &address).is_some() {
            return Err(TellitError::AccountAlreadyInUse);
        }
        let note = Note {
            author,
            receiver,
            title,
            content,
            bump,
            likes: 0,
            dislikes: 0,
            created_at: now,
            updated_at: now,
        };
        let slot = Slot { address, record: note };
        proof {
            lemma_push_unique(self.notes@, slot);
        }
        let ghost pre = *self;
        self.notes.push(slot);
        proof {
            assert(self.notes@.last() == slot);
            assert(self.notes@.drop_last() =~= pre.notes@);
            assert forall|b: Seq<u8>| b != address@ implies #[trigger] self.note(b) == pre.note(b) by {}
        }
        self.config = Some(
            Slot {
                address: config_address,
                record: Config {
                    authority: config.authority,
                    bump: config.bump,
                    note_count: config.note_count.saturating_add(1),
                },
            },
        );
        Ok(())
    }

    /// The note `n`, stored at `note`, re-derives its address from its parties,
    /// `title`, `content` and its stored bump.
    pub open spec fn note_rederives(&self, note: Key, n: Note, title: Seq<char>, content: Seq<char>) -> bool {
        created_program_address(
            with_bump(note_seeds(n.author@, n.receiver@, title, content), n.bump),
            self.program_id@,
        ) == Some(note@)
    }

    /// Why deleting a note fails, if it does: no configuration, no note at the
    /// address, a deleter who is neither author nor receiver, or a text that does not
    /// re-derive the address.
    pub open spec fn delete_note_error(
        &self,
        note: Key,
        deleter: Key,
        title: Seq<char>,
        content: Seq<char>,
    ) -> Option<TellitError> {
        if self.config is None {
            Some(TellitError::AccountNotInitialized)
        } else {
            match self.note(note@) {
                None => Some(TellitError::AccountNotInitialized),
                Some(n) => if deleter@ != n.author@ && deleter@ != n.receiver@ {
                    Some(TellitError::NotAuthorized)
                } else if !self.note_rederives(note, n, title, content) {
                    Some(TellitError::ConstraintSeeds)
                } else {
                    None
                },
            }
        }
    }

    /// Deletes the note at `accounts.note`, on behalf of its author or receiver, and
    /// counts one note fewer. Reactions to it are left in place.
    pub fn delete_note_by_content(
        &mut self,
        accounts: &DeleteNoteByContent,
        original_title: String,
        original_content: String,
    ) -> (r: Result<(), TellitError>)
        requires
            old(self).wf(),
        ensures
            final(self).wf(),
            r == outcome(
                old(self).delete_note_error(
                    accounts.note,
                    accounts.deleter,
                    original_title@,
                    original_content@,
                ),
            ),
            r is Err ==> *final(self) == *old(self),
            r is Ok ==> {
                &&& final(self).program_id == old(self).program_id
                &&& final(self).reactions == old(self).reactions
                &&& final(self).note(accounts.note@) is None
                &&& final(self).other_notes_as(*old(self), accounts.note@)
                &&& final(self).config_counting(*old(self), sat_dec(old(self).note_count()->0))
            },
    {
        let (config_address, config) = match &self.config {
            Some(c) => (c.address, c.record),
            None => return Err(TellitError::AccountNotInitialized),
        };
        let i = match position(&self.notes, &accounts.note) {
            Some(i) => i,
            None => return Err(TellitError::AccountNotInitialized),
        };
        let n = &self.notes[i].record;
        if !accounts.deleter.equals(&n.author) && !accounts.deleter.equals(&n.receiver) {
            return Err(TellitError::NotAuthorized);
        }
        match note_address_with_bump(
            &self.program_id,
            &n.author,
            &n.receiver,
            &original_title,
            &original_content,
            n.bump,
        ) {
            Some(k) => {
                if !k.equals(&accounts.note) {
                    return Err(TellitError::ConstraintSeeds);
                }
            },
            None => return Err(TellitError::ConstraintSeeds),
        }
        let ghost pre = *self;
        proof {
            lemma_lookup_remove(self.notes@, i as int);
        }
        self.notes.remove(i);
        proof {
            assert forall|j: int| 0 <= j < self.notes@.len() implies (
            #[trigger] self.notes@[j]).record.wf() by {
                if j < i {
                    assert(self.notes@[j] == pre.notes@[j]);
                } else {
                    assert(self.notes@[j] == pre.notes@[j + 1]);
                }
            }
            assert forall|b: Seq<u8>| b != accounts.note@ implies #[trigger] self.note(b)
                == pre.note(b) by {}
        }
        self.config = Some(
            Slot {
                address: config_address,
                record: Config {
                    authority: config.authority,
                    bump: config.bump,
                    note_count: config.note_count.saturating_sub(1),
                },
            },
        );
        Ok(())
    }

    /// Why editing a note fails, if it does: no note at the address, a text that does
    /// not re-derive the address, an editor who is not the author, or an over-long
    /// new title or content.
    pub open spec fn edit_note_error(
        &self,
        note: Key,
        editor: Key,
        title: Seq<char>,
        content: Seq<char>,
        new_title: Seq<char>,
        new_content: Seq<char>,
    ) -> Option<TellitError> {
        match self.note(note@) {
            None => Some(TellitError::AccountNotInitialized),
            Some(n) => if !self.note_rederives(note, n, title, content) {
                Some(TellitError::ConstraintSeeds)
            } else if editor@ != n.author@ {
                Some(TellitError::NotAuthorized)
            } else if text_len(new_title) > MAX_TITLE_LEN {
                Some(TellitError::TitleTooLong)
            } else if text_len(new_content) > MAX_CONTENT_LEN {
                Some(TellitError::ContentTooLong)
            } else {
                None
            },
        }
    }

    /// Replaces the title and content of the note at `accounts.note`, on behalf of
    /// its author, and stamps it updated at `now` (never earlier than its creation).
    /// The note keeps its address, which was derived from the text it was sent with.
    pub fn edit_note_at(
        &mut self,
        accounts: &EditNoteByContent,
        original_title: String,
        original_content: String,
        new_title: String,
        new_content: String,
        now: i64,
    ) -> (r: Result<(), TellitError>)
        requires
            old(self).wf(),
        ensures
            final(self).wf(),
            r == outcome(
                old(self).edit_note_error(
                    accounts.note,
                    accounts.author,
                    original_title@,
                    original_content@,
                    new_title@,
                    new_content@,
                ),
            ),
            r is Err ==> *final(self) == *old(self),
            r is Ok ==> {
                let n = old(self).note(accounts.note@)->0;
                &&& final(self).program_id == old(self).program_id
                &&& final(self).reactions == old(self).reactions
                &&& final(self).config == old(self).config
                &&& final(self).note(accounts.note@) == Some(
                    Note {
                        title: new_title,
                        content: new_content,
                        updated_at: if now >= n.created_at {
                            now
                        } else {
                            n.created_at
                        },
                        ..n
                    },
                )
                &&& final(self).other_notes_as(*old(self), accounts.note@)
            },
    {
        let i = match position(&self.notes, &accounts.note) {
            Some(i) => i,
            None => return Err(TellitError::AccountNotInitialized),
        };
        let n = &self.notes[i].record;
        match note_address_with_bump(
            &self.program_id,
            &n.author,
            &n.receiver,
            &original_title,
            &original_content,
            n.bump,
        ) {
            Some(k) => {
                if !k.equals(&accounts.note) {
                    return Err(TellitError::ConstraintSeeds);
                }
            },
            None => return Err(TellitError::ConstraintSeeds),
        }
        if !accounts.author.equals(&n.author) {
            return Err(TellitError::NotAuthorized);
        }
        if new_title.as_str().as_bytes().len() > MAX_TITLE_LEN {
            return Err(TellitError::TitleTooLong);
        }
        if new_content.as_str().as_bytes().len() > MAX_CONTENT_LEN {
            return Err(TellitError::ContentTooLong);
        }
        let updated_at = if now >= n.created_at {
            now
        } else {
            n.created_at
        };
        let edited = Note {
            author: n.author,
            receiver: n.receiver,
            title: new_title,
            content: new_content,
            bump: n.bump,
            likes: n.likes,
            dislikes: n.dislikes,
            created_at: n.created_at,
            updated_at,
        };
        let slot = Slot { address: self.notes[i].address, record: edited };
        let ghost pre = *self;
        proof {
            lemma_lookup_update(self.notes@, i as int, slot);
        }
        self.notes[i] = slot;
        proof {
            assert(self.notes@ == pre.notes@.update(i as int, slot));
            assert forall|j: int| 0 <= j < self.notes@.len() implies (
            #[trigger] self.notes@[j]).record.wf() by {
                if j != i {
                    assert(self.notes@[j] == pre.notes@[j]);
                }
            }
            assert forall|b: Seq<u8>| b != accounts.note@ implies #[trigger] self.note(b)
                == pre.note(b) by {}
        }
        Ok(())
    }

    // ---- reactions ----

    /// Why the note named for a reaction cannot be used, if it cannot: no note at the
    /// address, or a text that does not re-derive the address.
    pub open spec fn note_target_error(
        &self,
        note: Key,
        title: Seq<char>,
        content: Seq<char>,
    ) -> Option<TellitError> {
        match self.note(note@) {
            None => Some(TellitError::AccountNotInitialized),
            Some(n) => if !self.note_rederives(note, n, title, content) {
                Some(TellitError::ConstraintSeeds)
            } else {
                None
            },
        }
    }

    /// The address of the reaction of `reactor` to the note at `note`.
    pub open spec fn reaction_address(&self, note: Key, reactor: Key) -> Seq<u8> {
        (found_program_address(reaction_seeds(note@, reactor@), self.program_id@)->0).0
    }

    /// Why a first reaction fails, if it does: the note cannot be used, no reaction
    /// address can be derived, the reactor already has a reaction record there, or
    /// the reaction is `NoReaction`.
    pub open spec fn react_error(
        &self,
        note: Key,
        reactor: Key,
        title: Seq<char>,
        content: Seq<char>,
        kind: ReactionType,
    ) -> Option<TellitError> {
        if self.note_target_error(note, title, content) is Some {
            self.note_target_error(note, title, content)
        } else {
            match found_program_address(reaction_seeds(note@, reactor@), self.program_id@) {
                None => Some(TellitError::AddressDerivationFailed),
                Some((ra, _)) => if self.reaction(ra) is Some {
                    Some(TellitError::AccountAlreadyInUse)
                } else if kind == ReactionType::NoReaction {
                    Some(TellitError::InvalidReactionType)
                } else {
                    None
                },
            }
        }
    }

    /// `post` is `pre` with a reaction record of `kind` appended at its derived
    /// address and counted on the note.
    pub open spec fn reacted(
        pre: Ledger,
        post: Ledger,
        note: Key,
        reactor: Key,
        kind: ReactionType,
    ) -> bool {
        match found_program_address(reaction_seeds(note@, reactor@), pre.program_id@) {
            Some((ra, rb)) => {
                &&& post.program_id == pre.program_id
                &&& post.config == pre.config
                &&& post.reactions@.len() == pre.reactions@.len() + 1
                &&& post.reactions@.drop_last() == pre.reactions@
                &&& post.reactions@.last().address@ == ra
                &&& post.reactions@.last().record == Reaction {
                    reactor,
                    note,
                    reaction_type: kind,
                    bump: rb,
                }
                &&& post.note(note@) == Some(tally_added(pre.note(note@)->0, kind))
                &&& post.other_notes_as(pre, note@)
            },
            None => false,
        }
    }

    /// Why the reaction named for a change cannot be used, if it cannot: the note
    /// cannot be used, no reaction address can be derived, no reaction record is
    /// there, or the record belongs to another reactor or another note.
    pub open spec fn reaction_target_error(
        &self,
        note: Key,
        reactor: Key,
        title: Seq<char>,
        content: Seq<char>,
    ) -> Option<TellitError> {
        if self.note_target_error(note, title, content) is Some {
            self.note_target_error(note, title, content)
        } else {
            match found_program_address(reaction_seeds(note@, reactor@), self.program_id@) {
                None => Some(TellitError::AddressDerivationFailed),
                Some((ra, _)) => match self.reaction(ra) {
                    None => Some(TellitError::AccountNotInitialized),
                    Some(r) => if r.reactor@ != reactor@ {
                        Some(TellitError::NotAuthorized)
                    } else if r.note@ != note@ {
                        Some(TellitError::ConstraintSeeds)
                    } else {
                        None
                    },
                },
            }
        }
    }

    /// Why changing a reaction fails, if it does: the reaction cannot be used, or the
    /// tally of its current kind is already zero.
    pub open spec fn change_reaction_error(
        &self,
        note: Key,
        reactor: Key,
        title: Seq<char>,
        content: Seq<char>,
    ) -> Option<TellitError> {
        if self.reaction_target_error(note, reactor, title, content) is Some {
            self.reaction_target_error(note, reactor, title, content)
        } else if withdraw_underflows(
            self.note(note@)->0,
            (self.reaction(self.reaction_address(note, reactor))->0).reaction_type,
        ) {
            Some(TellitError::InvalidReactionCount)
        } else {
            None
        }
    }

    /// Why removing a reaction fails, if it does: the reaction cannot be used, it is
    /// already `NoReaction`, or the tally of its kind is already zero.
    pub open spec fn remove_reaction_error(
        &self,
        note: Key,
        reactor: Key,
        title: Seq<char>,
        content: Seq<char>,
    ) -> Option<TellitError> {
        if self.reaction_target_error(note, reactor, title, content) is Some {
            self.reaction_target_error(note, reactor, title, content)
        } else if (self.reaction(self.reaction_address(note, reactor))->0).reaction_type
            == ReactionType::NoReaction {
            Some(TellitError::InvalidReactionType)
        } else {
            self.change_reaction_error(note, reactor, title, content)
        }
    }

    /// `post` is `pre` with the reaction of `reactor` to `note` set to `kind` in
    /// place, its old kind taken back from the note's tallies and `kind` counted.
    pub open spec fn reaction_changed(
        pre: Ledger,
        post: Ledger,
        note: Key,
        reactor: Key,
        kind: ReactionType,
    ) -> bool {
        let i = index_of(pre.reactions@, pre.reaction_address(note, reactor));
        let slot = pre.reactions@[i];
        let n = pre.note(note@)->0;
        &&& post.program_id == pre.program_id
        &&& post.config == pre.config
        &&& post.reactions@ == pre.reactions@.update(
            i,
            Slot { address: slot.address, record: Reaction { reaction_type: kind, ..slot.record } },
        )
        &&& post.note(note@) == Some(tally_added(tally_withdrawn(n, slot.record.reaction_type), kind))
        &&& post.other_notes_as(pre, note@)
    }

    /// Finds the note named for a reaction.
    fn note_target(
        &self,
        note: &Key,
        title: &String,
        content: &String,
    ) -> (r: Result<usize, TellitError>)
        requires
            self.wf(),
        ensures
            match r {
                Ok(i) => {
                    &&& self.note_target_error(*note, title@, content@) is None
                    &&& i < self.notes@.len()
                    &&& index_of(self.notes@, note@) == i
                    &&& self.note(note@) == Some(self.notes@[i as int].record)
                },
                Err(e) => self.note_target_error(*note, title@, content@) == Some(e),
            },
    {
        let i = match position(&self.notes, note) {
            Some(i) => i,
            None => return Err(TellitError::AccountNotInitialized),
        };
        let n = &self.notes[i].record;
        match note_address_with_bump(&self.program_id, &n.author, &n.receiver, title, content, n.bump) {
            Some(k) => {
                if !k.equals(note) {
                    return Err(TellitError::ConstraintSeeds);
                }
            },
            None => return Err(TellitError::ConstraintSeeds),
        }
        Ok(i)
    }

    /// Finds the note and the existing reaction named for a change.
    fn reaction_target(
        &self,
        accounts: &ReactToNoteByContent,
        title: &String,
        content: &String,
    ) -> (r: Result<(usize, usize), TellitError>)
        requires
            self.wf(),
        ensures
            match r {
                Ok((i, j)) => {
                    &&& self.reaction_target_error(accounts.note, accounts.reactor, title@, content@) is None
                    &&& i < self.notes@.len()
                    &&& index_of(self.notes@, accounts.note@) == i
                    &&& self.note(accounts.note@) == Some(self.notes@[i as int].record)
                    &&& j < self.reactions@.len()
                    &&& index_of(self.reactions@, self.reaction_address(accounts.note, accounts.reactor)) == j
                    &&& self.reaction(self.reaction_address(accounts.note, accounts.reactor)) == Some(
                        self.reactions@[j as int].record,
                    )
                },
                Err(e) => self.reaction_target_error(accounts.note, accounts.reactor, title@, content@)
                    == Some(e),
            },
    {
        let i = match self.note_target(&accounts.note, title, content) {
            Ok(i) => i,
            Err(e) => return Err(e),
        };
        let (address, _bump) = match find_reaction_address(&self.program_id, &accounts.note, &accounts.reactor) {
            Some(p) => p,
            None => return Err(TellitError::AddressDerivationFailed),
        };
        let j = match position(&self.reactions, &address) {
            Some(j) => j,
            None => return Err(TellitError::AccountNotInitialized),
        };
        let reaction = &self.reactions[j].record;
        if !reaction.reactor.equals(&accounts.reactor) {
            return Err(TellitError::NotAuthorized);
        }
        if !reaction.note.equals(&accounts.note) {
            return Err(TellitError::ConstraintSeeds);
        }
        Ok((i, j))
    }

    /// Sets the tallies of the note in slot `i`.
    fn set_tallies(&mut self, i: usize, likes: u64, dislikes: u64)
        requires
            old(self).wf(),
            i < old(self).notes@.len(),
        ensures
            final(self).wf(),
            final(self).program_id == old(self).program_id,
            final(self).config == old(self).config,
            final(self).reactions == old(self).reactions,
            final(self).notes@ == old(self).notes@.update(
                i as int,
                Slot {
                    address: old(self).notes@[i as int].address,
                    record: Note { likes, dislikes, ..old(self).notes@[i as int].record },
                },
            ),
            final(self).note(old(self).notes@[i as int].address@) == Some(
                Note { likes, dislikes, ..old(self).notes@[i as int].record },
            ),
            final(self).other_notes_as(*old(self), old(self).notes@[i as int].address@),
    {
        let ghost pre = *self;
        self.notes[i].record.likes = likes;
        self.notes[i].record.dislikes = dislikes;
        proof {
            let slot = Slot {
                address: pre.notes@[i as int].address,
                record: Note { likes, dislikes, ..pre.notes@[i as int].record },
            };
            assert(self.notes@ =~= pre.notes@.update(i as int, slot));
            lemma_lookup_update(pre.notes@, i as int, slot);
            assert forall|j: int| 0 <= j < self.notes@.len() implies (
            #[trigger] self.notes@[j]).record.wf() by {
                if j != i {
                    assert(self.notes@[j] == pre.notes@[j]);
                } else {
                    assert(pre.notes@[j].record.wf());
                }
            }
            assert forall|b: Seq<u8>| b != pre.notes@[i as int].address@ implies #[trigger] self.note(b)
                == pre.note(b) by {}
        }
    }

    /// Records the first reaction of `accounts.reactor` to the note at
    /// `accounts.note` and counts it on the note.
    pub fn react_to_note_by_content(
        &mut self,
        accounts: &ReactToNoteByContent,
        original_title: String,
        original_content: String,
        reaction_type: ReactionType,
    ) -> (r: Result<(), TellitError>)
        requires
            old(self).wf(),
        ensures
            final(self).wf(),
            r == outcome(
                old(self).react_error(
                    accounts.note,
                    accounts.reactor,
                    original_title@,
                    original_content@,
                    reaction_type,
                ),
            ),
            r is Err ==> *final(self) == *old(self),
            r is Ok ==> Self::reacted(
                *old(self),
                *final(self),
                accounts.note,
                accounts.reactor,
                reaction_type,
            ),
    {
        let ghost pre = *self;
        let i = match self.note_target(&accounts.note, &original_title, &original_content) {
            Ok(i) => i,
            Err(e) => return Err(e),
        };
        proof {
            lemma_index_of(pre.notes@, accounts.note@);
        }
        let (address, bump) = match find_reaction_address(
            &self.program_id,
            &accounts.note,
            &accounts.reactor,
        ) {
            Some(p) => p,
            None => return Err(TellitError::AddressDerivationFailed),
        };
        if position(&self.reactions, &address).is_some() {
            return Err(TellitError::AccountAlreadyInUse);
        }
        let likes = self.notes[i].record.likes;
        let dislikes = self.notes[i].record.dislikes;
        let (likes, dislikes) = match reaction_type {
            ReactionType::Like => (likes.saturating_add(1), dislikes),
            ReactionType::Dislike => (likes, dislikes.saturating_add(1)),
            ReactionType::NoReaction => return Err(TellitError::InvalidReactionType),
        };
        self.set_tallies(i, likes, dislikes);
        let ghost mid = *self;
        let slot = Slot {
            address,
            record: Reaction {
                reactor: accounts.reactor,
                note: accounts.note,
                reaction_type,
                bump,
            },
        };
        proof {
            lemma_push_unique(self.reactions@, slot);
        }
        self.reactions.push(slot);
        proof {
            assert(self.reactions@.drop_last() =~= pre.reactions@);
            assert(pre.notes@[i as int].address@ == accounts.note@);
            assert forall|b: Seq<u8>| b != accounts.note@ implies #[trigger] self.note(b)
                == pre.note(b) by {
                assert(mid.note(b) == pre.note(b));
            }
        }
        Ok(())
    }

    /// Moves the tallies of the note in slot `i` from a reaction of kind `from` to
    /// one of kind `to`; refused when the tally of `from` is zero.
    fn retally(
        &mut self,
        i: usize,
        from: ReactionType,
        to: ReactionType,
    ) -> (r: Result<(), TellitError>)
        requires
            old(self).wf(),
            i < old(self).notes@.len(),
        ensures
            final(self).wf(),
            withdraw_underflows(old(self).notes@[i as int].record, from) ==> {
                &&& r == Err::<(), TellitError>(TellitError::InvalidReactionCount)
                &&& *final(self) == *old(self)
            },
            !withdraw_underflows(old(self).notes@[i as int].record, from) ==> {
                let n = tally_added(tally_withdrawn(old(self).notes@[i as int].record, from), to);
                &&& r is Ok
                &&& final(self).program_id == old(self).program_id
                &&& final(self).config == old(self).config
                &&& final(self).reactions == old(self).reactions
                &&& final(self).notes@ == old(self).notes@.update(
                    i as int,
                    Slot { address: old(self).notes@[i as int].address, record: n },
                )
                &&& final(self).note(old(self).notes@[i as int].address@) == Some(n)
                &&& final(self).other_notes_as(*old(self), old(self).notes@[i as int].address@)
            },
    {
        let mut likes = self.notes[i].record.likes;
        let mut dislikes = self.notes[i].record.dislikes;
        match from {
            ReactionType::Like => {
                if likes == 0 {
                    return Err(TellitError::InvalidReactionCount);
                }
                likes = likes - 1;
            },
            ReactionType::Dislike => {
                if dislikes == 0 {
                    return Err(TellitError::InvalidReactionCount);
                }
                dislikes = dislikes - 1;
            },
            ReactionType::NoReaction => {},
        }
        match to {
            ReactionType::Like => {
                likes = likes.saturating_add(1);
            },
            ReactionType::Dislike => {
                dislikes = dislikes.saturating_add(1);
            },
            ReactionType::NoReaction => {},
        }
        self.set_tallies(i, likes, dislikes);
        Ok(())
    }

    /// Sets the reaction in slot `j` to `kind`.
    fn set_reaction_type(&mut self, j: usize, kind: ReactionType)
        requires
            old(self).wf(),
            j < old(self).reactions@.len(),
        ensures
            final(self).wf(),
            final(self).program_id == old(self).program_id,
            final(self).config == old(self).config,
            final(self).notes == old(self).notes,
            final(self).reactions@ == old(self).reactions@.update(
                j as int,
                Slot {
                    address: old(self).reactions@[j as int].address,
                    record: Reaction { reaction_type: kind, ..old(self).reactions@[j as int].record },
                },
            ),
    {
        let ghost pre = *self;
        self.reactions[j].record.reaction_type = kind;
        proof {
            let slot = Slot {
                address: pre.reactions@[j as int].address,
                record: Reaction { reaction_type: kind, ..pre.reactions@[j as int].record },
            };
            assert(self.reactions@ =~= pre.reactions@.update(j as int, slot));
            lemma_lookup_update(pre.reactions@, j as int, slot);
        }
    }

    /// Changes the reaction of `accounts.reactor` to the note at `accounts.note` to
    /// `new_type`: its old kind is taken back from the note's tallies (refused if
    /// that tally is zero) and `new_type` is counted. `NoReaction` counts nothing.
    pub fn change_reaction(
        &mut self,
        accounts: &ReactToNoteByContent,
        original_title: String,
        original_content: String,
        new_type: ReactionType,
    ) -> (r: Result<(), TellitError>)
        requires
            old(self).wf(),
        ensures
            final(self).wf(),
            r == outcome(
                old(self).change_reaction_error(
                    accounts.note,
                    accounts.reactor,
                    original_title@,
                    original_content@,
                ),
            ),
            r is Err ==> *final(self) == *old(self),
            r is Ok ==> Self::reaction_changed(
                *old(self),
                *final(self),
                accounts.note,
                accounts.reactor,
                new_type,
            ),
    {
        let ghost pre = *self;
        let (i, j) = match self.reaction_target(accounts, &original_title, &original_content) {
            Ok(p) => p,
            Err(e) => return Err(e),
        };
        proof {
            lemma_index_of(pre.notes@, accounts.note@);
        }
        let old_type = self.reactions[j].record.reaction_type;
        match self.retally(i, old_type, new_type) {
            Ok(()) => {},
            Err(e) => return Err(e),
        }
        let ghost mid = *self;
        self.set_reaction_type(j, new_type);
        proof {
            assert(pre.notes@[i as int].address@ == accounts.note@);
            assert forall|b: Seq<u8>| b != accounts.note@ implies #[trigger] self.note(b)
                == pre.note(b) by {
                assert(mid.note(b) == pre.note(b));
            }
        }
        Ok(())
    }

    /// Takes back the reaction of `accounts.reactor` to the note at `accounts.note`:
    /// its kind is taken back from the note's tallies and the record is set to
    /// `NoReaction`. Refused when there is no reaction to take back.
    pub fn remove_reaction(
        &mut self,
        accounts: &ReactToNoteByContent,
        original_title: String,
        original_content: String,
    ) -> (r: Result<(), TellitError>)
        requires
            old(self).wf(),
        ensures
            final(self).wf(),
            r == outcome(
                old(self).remove_reaction_error(
                    accounts.note,
                    accounts.reactor,
                    original_title@,
                    original_content@,
                ),
            ),
            r is Err ==> *final(self) == *old(self),
            r is Ok ==> Self::reaction_changed(
                *old(self),
                *final(self),
                accounts.note,
                accounts.reactor,
                ReactionType::NoReaction,
            ),
    {
        let ghost pre = *self;
        let (i, j) = match self.reaction_target(accounts, &original_title, &original_content) {
            Ok(p) => p,
            Err(e) => return Err(e),
        };
        proof {
            lemma_index_of(pre.notes@, accounts.note@);
        }
        let old_type = self.reactions[j].record.reaction_type;
        if old_type == ReactionType::NoReaction {
            return Err(TellitError::InvalidReactionType);
        }
        match self.retally(i, old_type, ReactionType::NoReaction) {
            Ok(()) => {},
            Err(e) => return Err(e),
        }
        let ghost mid = *self;
        self.set_reaction_type(j, ReactionType::NoReaction);
        proof {
            assert(pre.notes@[i as int].address@ == accounts.note@);
            assert forall|b: Seq<u8>| b != accounts.note@ implies #[trigger] self.note(b)
                == pre.note(b) by {
                assert(mid.note(b) == pre.note(b));
            }
        }
        Ok(())
    }

    // ---- operations stamped by the host clock ----

    /// Sends a note as `send_note_at` does, stamped with the host clock's time.
    /// When the clock cannot be read, nothing changes.
    pub fn send_note_by_content(
        &mut self,
        accounts: &SendNoteByContent,
        title: String,
        content: String,
    ) -> (r: Result<(), TellitError>)
        requires
            old(self).wf(),
        ensures
            final(self).wf(),
            r != Err::<(), TellitError>(TellitError::ClockUnavailable) ==> r == outcome(
                old(self).send_note_error(accounts.author, accounts.receiver, title@, content@),
            ),
            r is Err ==> *final(self) == *old(self),
            r is Ok ==> exists|now: i64|
                Self::note_sent(
                    *old(self),
                    *final(self),
                    accounts.author,
                    accounts.receiver,
                    title,
                    content,
                    now,
                ),
    {
        let now = match clock_unix_timestamp() {
            Ok(t) => t,
            Err(_) => return Err(TellitError::ClockUnavailable),
        };
        self.send_note_at(accounts, title, content, now)
    }

    /// Edits a note as `edit_note_at` does, stamped with the host clock's time.
    /// When the clock cannot be read, nothing changes.
    pub fn edit_note_by_content(
        &mut self,
        accounts: &EditNoteByContent,
        original_title: String,
        original_content: String,
        new_title: String,
        new_content: String,
    ) -> (r: Result<(), TellitError>)
        requires
            old(self).wf(),
        ensures
            final(self).wf(),
            r != Err::<(), TellitError>(TellitError::ClockUnavailable) ==> r == outcome(
                old(self).edit_note_error(
                    accounts.note,
                    accounts.author,
                    original_title@,
                    original_content@,
                    new_title@,
                    new_content@,
                ),
            ),
            r is Err ==> *final(self) == *old(self),
            r is Ok ==> {
                let n = old(self).note(accounts.note@)->0;
                &&& final(self).program_id == old(self).program_id
                &&& final(self).reactions == old(self).reactions
                &&& final(self).config == old(self).config
                &&& final(self).note(accounts.note@) matches Some(e) && e == Note {
                    title: new_title,
                    content: new_content,
                    updated_at: e.updated_at,
                    ..n
                } && e.updated_at >= n.created_at
                &&& final(self).other_notes_as(*old(self), accounts.note@)
            },
    {
        let now = match clock_unix_timestamp() {
            Ok(t) => t,
            Err(_) => return Err(TellitError::ClockUnavailable),
        };
        self.edit_note_at(accounts, original_title, original_content, new_title, new_content, now)
    }
}

} // verus!
