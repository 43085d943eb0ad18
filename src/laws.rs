//! Properties of the ledger that relate several operations or hold across them.
use vstd::prelude::*;
use crate::key::Key;
use crate::ledger::{sat_inc, Ledger};
use crate::records::{Reaction, ReactionType, TellitError};
use crate::store::{index_of, lemma_index_of, Slot};
use crate::tally::{count_reactions, lemma_count_update, reacts_with};

verus! {

/// The tallies of the note at `a` (if there is one) equal the number of reaction
/// records that point at `a` with `Like` and with `Dislike`.
pub open spec fn tally_matches(l: Ledger, a: Seq<u8>) -> bool {
    l.note(a) matches Some(n) ==> {
        &&& n.likes == count_reactions(l.reactions@, a, ReactionType::Like)
        &&& n.dislikes == count_reactions(l.reactions@, a, ReactionType::Dislike)
    }
}

/// Sending the same note twice: after a first send succeeds, a second send of the
/// same author, receiver, title and content is refused because its address is
/// taken, and the counter has grown by one for the first send only.
pub proof fn lemma_second_send_refused(
    pre: Ledger,
    post: Ledger,
    author: Key,
    receiver: Key,
    title: String,
    content: String,
    now: i64,
)
    requires
        pre.send_note_error(author, receiver, title@, content@) is None,
        Ledger::note_sent(pre, post, author, receiver, title, content, now),
    ensures
        post.send_note_error(author, receiver, title@, content@) == Some(
            TellitError::AccountAlreadyInUse,
        ),
        post.note_count() == Some(sat_inc(pre.note_count()->0)),
        pre.note_count()->0 < u64::MAX ==> post.note_count()->0 == pre.note_count()->0 + 1,
{
}

/// Only the author or the receiver may delete a note: anyone else is refused as
/// not authorised (and a refused operation changes nothing).
pub proof fn lemma_third_party_cannot_delete(
    l: Ledger,
    note: Key,
    deleter: Key,
    title: Seq<char>,
    content: Seq<char>,
)
    requires
        l.config is Some,
        l.note(note@) is Some,
        deleter@ != (l.note(note@)->0).author@,
        deleter@ != (l.note(note@)->0).receiver@,
    ensures
        l.delete_note_error(note, deleter, title, content) == Some(TellitError::NotAuthorized),
{
}

/// Removing a reaction needs one: where the reactor has no reaction record for the
/// note, `remove_reaction` fails.
pub proof fn lemma_remove_needs_reaction(
    l: Ledger,
    note: Key,
    reactor: Key,
    title: Seq<char>,
    content: Seq<char>,
)
    requires
        l.reaction(l.reaction_address(note, reactor)) is None,
    ensures
        l.remove_reaction_error(note, reactor, title, content) is Some,
{
}

/// A note starts out consistent: right after it is sent, its tallies match the
/// reaction records, provided no record left from an earlier note at the same
/// address points at it.
pub proof fn lemma_sent_note_tally(
    pre: Ledger,
    post: Ledger,
    author: Key,
    receiver: Key,
    title: String,
    content: String,
    now: i64,
    a: Seq<u8>,
)
    requires
        Ledger::note_sent(pre, post, author, receiver, title, content, now),
        tally_matches(pre, a),
        count_reactions(pre.reactions@, a, ReactionType::Like) == 0,
        count_reactions(pre.reactions@, a, ReactionType::Dislike) == 0,
    ensures
        tally_matches(post, a),
{
}

/// A first reaction keeps every note's tallies equal to the count of reaction
/// records of each kind, as long as the tallies are below `u64::MAX`.
pub proof fn lemma_react_keeps_tally(
    pre: Ledger,
    post: Ledger,
    note: Key,
    reactor: Key,
    kind: ReactionType,
    a: Seq<u8>,
)
    requires
        pre.note(note@) is Some,
        (pre.note(note@)->0).likes < u64::MAX,
        (pre.note(note@)->0).dislikes < u64::MAX,
        Ledger::reacted(pre, post, note, reactor, kind),
        tally_matches(pre, a),
    ensures
        tally_matches(post, a),
{
    let s = post.reactions@;
    assert(s.drop_last() == pre.reactions@);
    assert(count_reactions(s, a, ReactionType::Like) == count_reactions(
        pre.reactions@,
        a,
        ReactionType::Like,
    ) + reacts_with(s.last().record, a, ReactionType::Like));
    assert(count_reactions(s, a, ReactionType::Dislike) == count_reactions(
        pre.reactions@,
        a,
        ReactionType::Dislike,
    ) + reacts_with(s.last().record, a, ReactionType::Dislike));
    if a != note@ {
        assert(post.note(a) == pre.note(a));
    }
}

/// Changing a reaction in place keeps every note's tallies equal to the count of
/// reaction records of each kind, as long as the tallies are below `u64::MAX`.
pub proof fn lemma_change_keeps_tally(
    pre: Ledger,
    post: Ledger,
    note: Key,
    reactor: Key,
    title: Seq<char>,
    content: Seq<char>,
    kind: ReactionType,
    a: Seq<u8>,
)
    requires
        pre.change_reaction_error(note, reactor, title, content) is None,
        (pre.note(note@)->0).likes < u64::MAX,
        (pre.note(note@)->0).dislikes < u64::MAX,
        Ledger::reaction_changed(pre, post, note, reactor, kind),
        tally_matches(pre, a),
    ensures
        tally_matches(post, a),
{
    let ra = pre.reaction_address(note, reactor);
    lemma_index_of(pre.reactions@, ra);
    let i = index_of(pre.reactions@, ra);
    let slot = pre.reactions@[i];
    let x = Slot { address: slot.address, record: Reaction { reaction_type: kind, ..slot.record } };
    lemma_count_update(pre.reactions@, i, x, a, ReactionType::Like);
    lemma_count_update(pre.reactions@, i, x, a, ReactionType::Dislike);
    if a != note@ {
        assert(post.note(a) == pre.note(a));
    }
}

/// Removing a reaction keeps every note's tallies equal to the count of reaction
/// records of each kind.
pub proof fn lemma_remove_keeps_tally(
    pre: Ledger,
    post: Ledger,
    note: Key,
    reactor: Key,
    title: Seq<char>,
    content: Seq<char>,
    a: Seq<u8>,
)
    requires
        pre.remove_reaction_error(note, reactor, title, content) is None,
        Ledger::reaction_changed(pre, post, note, reactor, ReactionType::NoReaction),
        tally_matches(pre, a),
    ensures
        tally_matches(post, a),
{
    let ra = pre.reaction_address(note, reactor);
    lemma_index_of(pre.reactions@, ra);
    let i = index_of(pre.reactions@, ra);
    let slot = pre.reactions@[i];
    let x = Slot {
        address: slot.address,
        record: Reaction { reaction_type: ReactionType::NoReaction, ..slot.record },
    };
    lemma_count_update(pre.reactions@, i, x, a, ReactionType::Like);
    lemma_count_update(pre.reactions@, i, x, a, ReactionType::Dislike);
    if a != note@ {
        assert(post.note(a) == pre.note(a));
    }
}

} // verus!
