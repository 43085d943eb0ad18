use tellit::address::{
    find_config_address, find_note_address, find_reaction_address, fingerprint_of,
    note_address_with_bump,
};
use tellit::key::Key;
use tellit::ledger::Ledger;
use tellit::records::{
    Config, DeleteNoteByContent, EditNoteByContent, Initialize, ReactToNoteByContent,
    ReactionType, SendNoteByContent, TellitError,
};
use tellit::space::{note_size, CONFIG_SPACE, NOTE_SPACE, REACTION_SPACE};
use tellit::store::Slot;

fn key(b: u8) -> Key {
    Key::new([b; 32])
}

fn program() -> Key {
    key(200)
}

fn text(x: &str) -> String {
    x.to_string()
}

fn ready() -> Ledger {
    let mut l = Ledger::new(program());
    l.initialize(&Initialize { authority: key(1) }).unwrap();
    l
}

fn send(l: &mut Ledger, a: u8, b: u8, t: &str, c: &str) -> Result<(), TellitError> {
    l.send_note_at(&SendNoteByContent { author: key(a), receiver: key(b) }, text(t), text(c), 1000)
}

fn addr(a: u8, b: u8, t: &str, c: &str) -> Key {
    find_note_address(&program(), &key(a), &key(b), &text(t), &text(c)).unwrap().0
}

fn react(l: &mut Ledger, note: Key, reactor: u8, t: &str, c: &str, kind: ReactionType) -> Result<(), TellitError> {
    l.react_to_note_by_content(&ReactToNoteByContent { note, reactor: key(reactor) }, text(t), text(c), kind)
}

fn change(l: &mut Ledger, note: Key, reactor: u8, t: &str, c: &str, kind: ReactionType) -> Result<(), TellitError> {
    l.change_reaction(&ReactToNoteByContent { note, reactor: key(reactor) }, text(t), text(c), kind)
}

fn remove(l: &mut Ledger, note: Key, reactor: u8, t: &str, c: &str) -> Result<(), TellitError> {
    l.remove_reaction(&ReactToNoteByContent { note, reactor: key(reactor) }, text(t), text(c))
}

fn delete(l: &mut Ledger, note: Key, deleter: u8, t: &str, c: &str) -> Result<(), TellitError> {
    l.delete_note_by_content(&DeleteNoteByContent { note, deleter: key(deleter) }, text(t), text(c))
}

fn tallies(l: &Ledger, note: &Key) -> (u64, u64) {
    let n = l.note_at(note).unwrap();
    (n.likes, n.dislikes)
}

#[test]
fn key_equals_compares_every_byte() {
    let mut b = [3u8; 32];
    assert!(Key::new(b).equals(&Key::new(b)));
    b[31] = 4;
    assert!(!Key::new([3u8; 32]).equals(&Key::new(b)));
    assert_eq!(Key::new(b).to_bytes(), b);
}

#[test]
fn initialize_sets_authority_and_zero_count() {
    let l = ready();
    let c = l.config.as_ref().unwrap();
    assert_eq!(c.record.authority.to_bytes(), [1u8; 32]);
    assert_eq!(c.record.note_count, 0);
    let (a, bump) = find_config_address(&program()).unwrap();
    assert_eq!(c.address.to_bytes(), a.to_bytes());
    assert_eq!(c.record.bump, bump);
    assert_eq!(l.live_note_count(), Some(0));
}

#[test]
fn initialize_twice_is_refused() {
    let mut l = ready();
    assert_eq!(l.initialize(&Initialize { authority: key(2) }), Err(TellitError::AccountAlreadyInUse));
    assert_eq!(l.config.as_ref().unwrap().record.authority.to_bytes(), [1u8; 32]);
}

#[test]
fn send_before_initialize_is_refused() {
    let mut l = Ledger::new(program());
    assert_eq!(send(&mut l, 1, 2, "Hi", "Hello"), Err(TellitError::AccountNotInitialized));
    assert!(l.notes.is_empty());
}

#[test]
fn sent_note_is_fresh() {
    let mut l = ready();
    send(&mut l, 1, 2, "Hi", "Hello").unwrap();
    let a = addr(1, 2, "Hi", "Hello");
    let n = l.note_at(&a).unwrap();
    assert_eq!(n.author.to_bytes(), [1u8; 32]);
    assert_eq!(n.receiver.to_bytes(), [2u8; 32]);
    assert_eq!(n.title, "Hi");
    assert_eq!(n.content, "Hello");
    assert_eq!(n.created_at, 1000);
    assert_eq!(n.updated_at, n.created_at);
    assert_eq!((n.likes, n.dislikes), (0, 0));
    assert_eq!(l.live_note_count(), Some(1));
}

#[test]
fn send_to_self_is_refused() {
    let mut l = ready();
    assert_eq!(send(&mut l, 1, 1, "Hi", "Hello"), Err(TellitError::CannotSendToSelf));
    assert_eq!(l.live_note_count(), Some(0));
}

#[test]
fn title_bound_is_fifty_bytes() {
    let mut l = ready();
    let fifty = "t".repeat(50);
    assert_eq!(send(&mut l, 1, 2, &fifty, "c"), Ok(()));
    let fifty_one = "t".repeat(51);
    assert_eq!(send(&mut l, 1, 2, &fifty_one, "c"), Err(TellitError::TitleTooLong));
    // 26 two-byte characters are 52 bytes.
    let wide = "é".repeat(26);
    assert_eq!(send(&mut l, 1, 2, &wide, "c"), Err(TellitError::TitleTooLong));
    assert_eq!(l.live_note_count(), Some(1));
}

#[test]
fn content_bound_is_three_hundred_bytes() {
    let mut l = ready();
    assert_eq!(send(&mut l, 1, 2, "t", &"c".repeat(300)), Ok(()));
    assert_eq!(send(&mut l, 1, 2, "t", &"c".repeat(301)), Err(TellitError::ContentTooLong));
    assert_eq!(l.live_note_count(), Some(1));
}

#[test]
fn same_note_twice_is_refused() {
    let mut l = ready();
    assert_eq!(send(&mut l, 1, 2, "Hi", "Hello"), Ok(()));
    assert_eq!(send(&mut l, 1, 2, "Hi", "Hello"), Err(TellitError::AccountAlreadyInUse));
    assert_eq!(l.live_note_count(), Some(1));
    assert_eq!(l.notes.len(), 1);
}

#[test]
fn different_text_gives_a_different_note() {
    let mut l = ready();
    send(&mut l, 1, 2, "Hi", "Hello").unwrap();
    send(&mut l, 1, 2, "Hi", "Hello again").unwrap();
    send(&mut l, 2, 1, "Hi", "Hello").unwrap();
    assert_eq!(l.live_note_count(), Some(3));
    assert!(!addr(1, 2, "Hi", "Hello").equals(&addr(1, 2, "Hi", "Hello again")));
    assert!(!addr(1, 2, "Hi", "Hello").equals(&addr(2, 1, "Hi", "Hello")));
}

#[test]
fn fingerprint_separates_title_from_content() {
    let f1 = fingerprint_of(&text("ab"), &text("c"));
    let f2 = fingerprint_of(&text("a"), &text("bc"));
    assert_ne!(f1, f2);
    assert_eq!(f1, fingerprint_of(&text("ab"), &text("c")));
    assert_ne!(f1, [0u8; 32]);
    let mut l = ready();
    send(&mut l, 1, 2, "ab", "c").unwrap();
    assert_eq!(send(&mut l, 1, 2, "a", "bc"), Ok(()));
}

#[test]
fn stored_bump_rederives_the_note_address() {
    let (a, bump) = find_note_address(&program(), &key(1), &key(2), &text("Hi"), &text("Hello")).unwrap();
    let again = note_address_with_bump(&program(), &key(1), &key(2), &text("Hi"), &text("Hello"), bump).unwrap();
    assert_eq!(a.to_bytes(), again.to_bytes());
    let other = find_note_address(&program(), &key(1), &key(2), &text("Hi"), &text("Hello!")).unwrap();
    assert_ne!(a.to_bytes(), other.0.to_bytes());
    assert_ne!(a.to_bytes(), [1u8; 32]);
}

#[test]
fn third_party_delete_is_refused() {
    let mut l = ready();
    send(&mut l, 1, 2, "Hi", "Hello").unwrap();
    let a = addr(1, 2, "Hi", "Hello");
    assert_eq!(delete(&mut l, a, 3, "Hi", "Hello"), Err(TellitError::NotAuthorized));
    assert_eq!(l.live_note_count(), Some(1));
    assert!(l.note_at(&a).is_some());
}

#[test]
fn receiver_and_author_can_delete() {
    let mut l = ready();
    send(&mut l, 1, 2, "Hi", "Hello").unwrap();
    send(&mut l, 1, 2, "Hi", "Bye").unwrap();
    assert_eq!(delete(&mut l, addr(1, 2, "Hi", "Hello"), 2, "Hi", "Hello"), Ok(()));
    assert_eq!(delete(&mut l, addr(1, 2, "Hi", "Bye"), 1, "Hi", "Bye"), Ok(()));
    assert_eq!(l.live_note_count(), Some(0));
    assert!(l.note_at(&addr(1, 2, "Hi", "Hello")).is_none());
    assert!(l.notes.is_empty());
}

#[test]
fn delete_with_other_text_is_refused() {
    let mut l = ready();
    send(&mut l, 1, 2, "Hi", "Hello").unwrap();
    let a = addr(1, 2, "Hi", "Hello");
    assert_eq!(delete(&mut l, a, 1, "Hi", "Hello!"), Err(TellitError::ConstraintSeeds));
    assert_eq!(l.live_note_count(), Some(1));
}

#[test]
fn delete_of_missing_note_is_refused() {
    let mut l = ready();
    assert_eq!(delete(&mut l, addr(1, 2, "Hi", "Hello"), 1, "Hi", "Hello"), Err(TellitError::AccountNotInitialized));
}

#[test]
fn counter_never_goes_below_zero() {
    let mut l = ready();
    send(&mut l, 1, 2, "Hi", "Hello").unwrap();
    let c = l.config.as_ref().unwrap();
    l.config = Some(Slot {
        address: c.address,
        record: Config { authority: c.record.authority, bump: c.record.bump, note_count: 0 },
    });
    delete(&mut l, addr(1, 2, "Hi", "Hello"), 1, "Hi", "Hello").unwrap();
    assert_eq!(l.live_note_count(), Some(0));
}

#[test]
fn counter_holds_at_its_maximum() {
    let mut l = ready();
    let c = l.config.as_ref().unwrap();
    l.config = Some(Slot {
        address: c.address,
        record: Config { authority: c.record.authority, bump: c.record.bump, note_count: u64::MAX },
    });
    send(&mut l, 1, 2, "Hi", "Hello").unwrap();
    assert_eq!(l.live_note_count(), Some(u64::MAX));
}

#[test]
fn reactions_are_counted() {
    let mut l = ready();
    send(&mut l, 1, 2, "Hi", "Hello").unwrap();
    let a = addr(1, 2, "Hi", "Hello");
    react(&mut l, a, 3, "Hi", "Hello", ReactionType::Like).unwrap();
    react(&mut l, a, 4, "Hi", "Hello", ReactionType::Dislike).unwrap();
    react(&mut l, a, 5, "Hi", "Hello", ReactionType::Like).unwrap();
    assert_eq!(tallies(&l, &a), (2, 1));
    let (ra, bump) = find_reaction_address(&program(), &a, &key(3)).unwrap();
    let r = l.reaction_at(&ra).unwrap();
    assert_eq!(r.reaction_type, ReactionType::Like);
    assert_eq!(r.reactor.to_bytes(), [3u8; 32]);
    assert_eq!(r.note.to_bytes(), a.to_bytes());
    assert_eq!(r.bump, bump);
}

#[test]
fn reacting_with_no_reaction_is_refused() {
    let mut l = ready();
    send(&mut l, 1, 2, "Hi", "Hello").unwrap();
    let a = addr(1, 2, "Hi", "Hello");
    assert_eq!(react(&mut l, a, 3, "Hi", "Hello", ReactionType::NoReaction), Err(TellitError::InvalidReactionType));
    assert!(l.reactions.is_empty());
    assert_eq!(tallies(&l, &a), (0, 0));
}

#[test]
fn reacting_twice_is_refused() {
    let mut l = ready();
    send(&mut l, 1, 2, "Hi", "Hello").unwrap();
    let a = addr(1, 2, "Hi", "Hello");
    react(&mut l, a, 3, "Hi", "Hello", ReactionType::Like).unwrap();
    assert_eq!(react(&mut l, a, 3, "Hi", "Hello", ReactionType::Dislike), Err(TellitError::AccountAlreadyInUse));
    assert_eq!(tallies(&l, &a), (1, 0));
}

#[test]
fn reacting_with_other_text_is_refused() {
    let mut l = ready();
    send(&mut l, 1, 2, "Hi", "Hello").unwrap();
    let a = addr(1, 2, "Hi", "Hello");
    assert_eq!(react(&mut l, a, 3, "Hi", "Hallo", ReactionType::Like), Err(TellitError::ConstraintSeeds));
    assert_eq!(react(&mut l, key(9), 3, "Hi", "Hello", ReactionType::Like), Err(TellitError::AccountNotInitialized));
}

#[test]
fn change_from_like_to_dislike_moves_one_count() {
    let mut l = ready();
    send(&mut l, 1, 2, "Hi", "Hello").unwrap();
    let a = addr(1, 2, "Hi", "Hello");
    react(&mut l, a, 3, "Hi", "Hello", ReactionType::Like).unwrap();
    assert_eq!(tallies(&l, &a), (1, 0));
    change(&mut l, a, 3, "Hi", "Hello", ReactionType::Dislike).unwrap();
    assert_eq!(tallies(&l, &a), (0, 1));
}

#[test]
fn scenario_send_react_change_delete() {
    let mut l = ready();
    send(&mut l, 1, 2, "Hi", "Hello").unwrap();
    assert_eq!(l.live_note_count(), Some(1));
    let a = addr(1, 2, "Hi", "Hello");
    react(&mut l, a, 3, "Hi", "Hello", ReactionType::Like).unwrap();
    assert_eq!(tallies(&l, &a).0, 1);
    change(&mut l, a, 3, "Hi", "Hello", ReactionType::Dislike).unwrap();
    assert_eq!(tallies(&l, &a), (0, 1));
    delete(&mut l, a, 2, "Hi", "Hello").unwrap();
    assert_eq!(l.live_note_count(), Some(0));
    assert!(l.note_at(&a).is_none());
    // The reaction record outlives the note.
    let (ra, _) = find_reaction_address(&program(), &a, &key(3)).unwrap();
    assert!(l.reaction_at(&ra).is_some());
}

#[test]
fn remove_without_reaction_is_refused() {
    let mut l = ready();
    send(&mut l, 1, 2, "Hi", "Hello").unwrap();
    let a = addr(1, 2, "Hi", "Hello");
    assert_eq!(remove(&mut l, a, 3, "Hi", "Hello"), Err(TellitError::AccountNotInitialized));
    assert_eq!(change(&mut l, a, 3, "Hi", "Hello", ReactionType::Like), Err(TellitError::AccountNotInitialized));
    assert_eq!(tallies(&l, &a), (0, 0));
}

#[test]
fn remove_takes_back_a_reaction_once() {
    let mut l = ready();
    send(&mut l, 1, 2, "Hi", "Hello").unwrap();
    let a = addr(1, 2, "Hi", "Hello");
    react(&mut l, a, 3, "Hi", "Hello", ReactionType::Like).unwrap();
    assert_eq!(remove(&mut l, a, 3, "Hi", "Hello"), Ok(()));
    assert_eq!(tallies(&l, &a), (0, 0));
    let (ra, _) = find_reaction_address(&program(), &a, &key(3)).unwrap();
    assert_eq!(l.reaction_at(&ra).unwrap().reaction_type, ReactionType::NoReaction);
    assert_eq!(remove(&mut l, a, 3, "Hi", "Hello"), Err(TellitError::InvalidReactionType));
    // A cleared reaction can be set again by changing it.
    assert_eq!(change(&mut l, a, 3, "Hi", "Hello", ReactionType::Dislike), Ok(()));
    assert_eq!(tallies(&l, &a), (0, 1));
}

#[test]
fn change_on_a_zero_tally_is_refused() {
    let mut l = ready();
    send(&mut l, 1, 2, "Hi", "Hello").unwrap();
    let a = addr(1, 2, "Hi", "Hello");
    react(&mut l, a, 3, "Hi", "Hello", ReactionType::Like).unwrap();
    let i = l.notes.iter().position(|s| s.address.equals(&a)).unwrap();
    l.notes[i].record.likes = 0;
    assert_eq!(change(&mut l, a, 3, "Hi", "Hello", ReactionType::Dislike), Err(TellitError::InvalidReactionCount));
    assert_eq!(remove(&mut l, a, 3, "Hi", "Hello"), Err(TellitError::InvalidReactionCount));
    assert_eq!(tallies(&l, &a), (0, 0));
}

#[test]
fn tallies_follow_final_reaction_states() {
    let mut l = ready();
    send(&mut l, 1, 2, "Hi", "Hello").unwrap();
    let a = addr(1, 2, "Hi", "Hello");
    react(&mut l, a, 10, "Hi", "Hello", ReactionType::Like).unwrap();
    react(&mut l, a, 11, "Hi", "Hello", ReactionType::Like).unwrap();
    react(&mut l, a, 12, "Hi", "Hello", ReactionType::Dislike).unwrap();
    react(&mut l, a, 13, "Hi", "Hello", ReactionType::Dislike).unwrap();
    change(&mut l, a, 10, "Hi", "Hello", ReactionType::Dislike).unwrap();
    remove(&mut l, a, 12, "Hi", "Hello").unwrap();
    change(&mut l, a, 13, "Hi", "Hello", ReactionType::Like).unwrap();
    change(&mut l, a, 11, "Hi", "Hello", ReactionType::NoReaction).unwrap();
    assert_eq!(react(&mut l, a, 11, "Hi", "Hello", ReactionType::Like), Err(TellitError::AccountAlreadyInUse));
    // Final states: 10 Dislike, 11 none, 12 none, 13 Like.
    assert_eq!(tallies(&l, &a), (1, 1));
}

#[test]
fn author_edits_a_note_in_place() {
    let mut l = ready();
    send(&mut l, 1, 2, "Hi", "Hello").unwrap();
    let a = addr(1, 2, "Hi", "Hello");
    let r = l.edit_note_at(&EditNoteByContent { note: a, author: key(1) }, text("Hi"), text("Hello"), text("Hey"), text("Howdy"), 2000);
    assert_eq!(r, Ok(()));
    let n = l.note_at(&a).unwrap();
    assert_eq!(n.title, "Hey");
    assert_eq!(n.content, "Howdy");
    assert_eq!(n.created_at, 1000);
    assert_eq!(n.updated_at, 2000);
    assert_eq!(l.live_note_count(), Some(1));
}

#[test]
fn edit_never_moves_update_time_before_creation() {
    let mut l = ready();
    send(&mut l, 1, 2, "Hi", "Hello").unwrap();
    let a = addr(1, 2, "Hi", "Hello");
    l.edit_note_at(&EditNoteByContent { note: a, author: key(1) }, text("Hi"), text("Hello"), text("Hey"), text("Howdy"), 10).unwrap();
    assert_eq!(l.note_at(&a).unwrap().updated_at, 1000);
}

#[test]
fn edit_by_other_than_author_is_refused() {
    let mut l = ready();
    send(&mut l, 1, 2, "Hi", "Hello").unwrap();
    let a = addr(1, 2, "Hi", "Hello");
    let r = l.edit_note_at(&EditNoteByContent { note: a, author: key(2) }, text("Hi"), text("Hello"), text("Hey"), text("Howdy"), 2000);
    assert_eq!(r, Err(TellitError::NotAuthorized));
    let r = l.edit_note_at(&EditNoteByContent { note: a, author: key(1) }, text("Hi"), text("Hello"), "x".repeat(51), text("Howdy"), 2000);
    assert_eq!(r, Err(TellitError::TitleTooLong));
    let r = l.edit_note_at(&EditNoteByContent { note: a, author: key(1) }, text("Hi"), text("Hello"), text("Hey"), "x".repeat(301), 2000);
    assert_eq!(r, Err(TellitError::ContentTooLong));
    assert_eq!(l.note_at(&a).unwrap().title, "Hi");
}

#[test]
fn clock_stamped_send_needs_the_host_clock() {
    let mut l = ready();
    let r = l.send_note_by_content(&SendNoteByContent { author: key(1), receiver: key(2) }, text("Hi"), text("Hello"));
    assert_eq!(r, Err(TellitError::ClockUnavailable));
    assert_eq!(l.live_note_count(), Some(0));
}

#[test]
fn record_spaces_match_their_layouts() {
    assert_eq!(CONFIG_SPACE, 49);
    assert_eq!(NOTE_SPACE, 463);
    assert_eq!(REACTION_SPACE, 74);
    let mut l = ready();
    send(&mut l, 1, 2, "Hi", "Hello").unwrap();
    assert_eq!(note_size(l.note_at(&addr(1, 2, "Hi", "Hello")).unwrap()), 120);
    send(&mut l, 1, 2, &"t".repeat(50), &"c".repeat(300)).unwrap();
    assert_eq!(note_size(l.note_at(&addr(1, 2, &"t".repeat(50), &"c".repeat(300))).unwrap()), NOTE_SPACE);
}
