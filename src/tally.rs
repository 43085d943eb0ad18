//! Counting reactions: how many records of a kind point at a note.
use vstd::prelude::*;
use crate::records::{Reaction, ReactionType};
use crate::store::Slot;

verus! {

/// 1 when the record reacts to `note` with `kind`, else 0.
pub open spec fn reacts_with(r: Reaction, note: Seq<u8>, kind: ReactionType) -> nat {
    if r.note@ == note && r.reaction_type == kind {
        1
    } else {
        0
    }
}

/// The number of reaction records in `s` that react to `note` with `kind`.
pub open spec fn count_reactions(s: Seq<Slot<Reaction>>, note: Seq<u8>, kind: ReactionType) -> nat
    decreases s.len(),
{
    if s.len() == 0 {
        0
    } else {
        count_reactions(s.drop_last(), note, kind) + reacts_with(s.last().record, note, kind)
    }
}

/// Replacing one record changes each count by what the two records contribute.
pub proof fn lemma_count_update(
    s: Seq<Slot<Reaction>>,
    i: int,
    x: Slot<Reaction>,
    note: Seq<u8>,
    kind: ReactionType,
)
    requires
        0 <= i < s.len(),
    ensures
        count_reactions(s.update(i, x), note, kind) + reacts_with(s[i].record, note, kind)
            == count_reactions(s, note, kind) + reacts_with(x.record, note, kind),
    decreases s.len(),
{
    let t = s.update(i, x);
    if i == s.len() - 1 {
        assert(t.drop_last() =~= s.drop_last());
    } else {
        lemma_count_update(s.drop_last(), i, x, note, kind);
        assert(t.drop_last() =~= s.drop_last().update(i, x));
    }
}

} // verus!
