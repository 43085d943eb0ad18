//! Deterministic record addresses: the seeds of each record kind, the content
//! fingerprint of a note, and the program-address derivation of the host.
use vstd::prelude::*;
use vstd::utf8::{encode_scalar, encode_utf8, encode_utf8_decode_utf8};
use crate::key::Key;
use anchor_lang::solana_program::pubkey::{Pubkey, PubkeyError};

verus! {

/// The keccak-256 digest of a byte string.
pub uninterp spec fn keccak_digest(data: Seq<u8>) -> Seq<u8>;

/// The address and bump seed found for `seeds` under `program`, if any.
pub uninterp spec fn found_program_address(seeds: Seq<Seq<u8>>, program: Seq<u8>) -> Option<(Seq<u8>, u8)>;

/// The address created from `seeds` (the last one being a bump) under `program`, if
/// the seeds are valid and the result lies off the curve.
pub uninterp spec fn created_program_address(seeds: Seq<Seq<u8>>, program: Seq<u8>) -> Option<Seq<u8>>;

/// Relies on `solana_keccak_hasher::hash`: the keccak-256 digest of `data`, a
/// function of the bytes alone.
#[verifier::external_body]
fn keccak(data: &[u8]) -> (r: [u8; 32])
    ensures
        r@ == keccak_digest(data@),
{
    solana_keccak_hasher::hash(data).to_bytes()
}

/// Relies on `Pubkey::try_find_program_address`: deterministic in the seeds and the
/// program; when it finds `(address, bump)`, `address` is what
/// `Pubkey::create_program_address` gives for the seeds followed by `[bump]`.
#[verifier::external_body]
fn try_find_program_address(seeds: &Vec<Vec<u8>>, program: &Key) -> (r: Option<(Key, u8)>)
    ensures
        found_view(r) == found_program_address(seeds.deep_view(), program@),
        r matches Some((k, b)) ==> created_program_address(
            seeds.deep_view().push(seq![b]),
            program@,
        ) == Some(k@),
{
    let slices: Vec<&[u8]> = seeds.iter().map(|s| s.as_slice()).collect();
    Pubkey::try_find_program_address(&slices, &Pubkey::new_from_array(program.bytes)).map(
        |(a, b)| (Key { bytes: a.to_bytes() }, b),
    )
}

#[verifier::external_type_specification]
#[verifier::external_body]
pub struct ExPubkeyError(PubkeyError);

/// Relies on `Pubkey::create_program_address`: deterministic in the seeds and the
/// program; an error (too many or too long seeds, or a point on the curve) means
/// there is no such address.
#[verifier::external_body]
fn create_program_address(seeds: &Vec<Vec<u8>>, program: &Key) -> (r: Result<Key, PubkeyError>)
    ensures
        match r {
            Ok(k) => created_program_address(seeds.deep_view(), program@) == Some(k@),
            Err(_) => created_program_address(seeds.deep_view(), program@) is None,
        },
{
    let slices: Vec<&[u8]> = seeds.iter().map(|s| s.as_slice()).collect();
    Pubkey::create_program_address(&slices, &Pubkey::new_from_array(program.bytes)).map(
        |a| Key { bytes: a.to_bytes() },
    )
}

pub open spec fn found_view(r: Option<(Key, u8)>) -> Option<(Seq<u8>, u8)> {
    match r {
        Some((k, b)) => Some((k@, b)),
        None => None,
    }
}

pub open spec fn created_view(r: Option<Key>) -> Option<Seq<u8>> {
    match r {
        Some(k) => Some(k@),
        None => None,
    }
}

/// Byte that joins title and content in a fingerprint. It never occurs in UTF-8
/// text (`lemma_utf8_has_no_separator`), so the join is unambiguous.
pub const FINGERPRINT_SEPARATOR: u8 = 0xff;

/// "config"
pub open spec fn config_tag() -> Seq<u8> {
    seq![99u8, 111u8, 110u8, 102u8, 105u8, 103u8]
}

/// "note"
pub open spec fn note_tag() -> Seq<u8> {
    seq![110u8, 111u8, 116u8, 101u8]
}

/// "reaction"
pub open spec fn reaction_tag() -> Seq<u8> {
    seq![114u8, 101u8, 97u8, 99u8, 116u8, 105u8, 111u8, 110u8]
}

/// The bytes hashed into a note's fingerprint: title, separator, content.
pub open spec fn fingerprint_input(title: Seq<u8>, content: Seq<u8>) -> Seq<u8> {
    title + seq![FINGERPRINT_SEPARATOR] + content
}

/// The fingerprint of a note's text, over the UTF-8 encodings of title and content.
pub open spec fn fingerprint(title: Seq<char>, content: Seq<char>) -> Seq<u8> {
    keccak_digest(fingerprint_input(encode_utf8(title), encode_utf8(content)))
}

pub open spec fn config_seeds() -> Seq<Seq<u8>> {
    seq![config_tag()]
}

pub open spec fn note_seeds(
    author: Seq<u8>,
    receiver: Seq<u8>,
    title: Seq<char>,
    content: Seq<char>,
) -> Seq<Seq<u8>> {
    seq![note_tag(), author, receiver, fingerprint(title, content)]
}

pub open spec fn reaction_seeds(note: Seq<u8>, reactor: Seq<u8>) -> Seq<Seq<u8>> {
    seq![reaction_tag(), note, reactor]
}

/// A seed list followed by a one-byte bump seed.
pub open spec fn with_bump(seeds: Seq<Seq<u8>>, bump: u8) -> Seq<Seq<u8>> {
    seeds.push(seq![bump])
}

/// Joining distinct (title, content) pairs gives distinct fingerprint inputs, as
/// long as neither title holds the separator byte.
pub proof fn lemma_fingerprint_input_injective(t1: Seq<u8>, c1: Seq<u8>, t2: Seq<u8>, c2: Seq<u8>)
    requires
        !t1.contains(FINGERPRINT_SEPARATOR),
        !t2.contains(FINGERPRINT_SEPARATOR),
        fingerprint_input(t1, c1) == fingerprint_input(t2, c2),
    ensures
        t1 == t2,
        c1 == c2,
{
    let s = fingerprint_input(t1, c1);
    if t1.len() < t2.len() {
        assert(s[t1.len() as int] == FINGERPRINT_SEPARATOR);
        assert(s[t1.len() as int] == t2[t1.len() as int]);
    } else if t2.len() < t1.len() {
        assert(s[t2.len() as int] == FINGERPRINT_SEPARATOR);
        assert(s[t2.len() as int] == t1[t2.len() as int]);
    }
    assert(t1 =~= s.subrange(0, t1.len() as int));
    assert(t2 =~= s.subrange(0, t2.len() as int));
    assert(c1 =~= s.subrange(t1.len() as int + 1, s.len() as int));
    assert(c2 =~= s.subrange(t2.len() as int + 1, s.len() as int));
}

/// No byte of the UTF-8 encoding of a scalar is the separator.
proof fn lemma_scalar_has_no_separator(c: u32)
    ensures
        !encode_scalar(c).contains(FINGERPRINT_SEPARATOR),
{
    assert((c & 0x7F) as u8 != 0xffu8) by (bit_vector);
    assert(0xC0u8 | ((c >> 6) & 0x1F) as u8 != 0xffu8) by (bit_vector);
    assert(0xE0u8 | ((c >> 12) & 0x0F) as u8 != 0xffu8) by (bit_vector);
    assert(0xF0u8 | ((c >> 18) & 0x7) as u8 != 0xffu8) by (bit_vector);
    assert(0x80u8 | (c & 0x3F) as u8 != 0xffu8) by (bit_vector);
    assert(0x80u8 | ((c >> 6) & 0x3F) as u8 != 0xffu8) by (bit_vector);
    assert(0x80u8 | ((c >> 12) & 0x3F) as u8 != 0xffu8) by (bit_vector);
}

/// UTF-8 text never holds the separator byte.
pub proof fn lemma_utf8_has_no_separator(chars: Seq<char>)
    ensures
        !encode_utf8(chars).contains(FINGERPRINT_SEPARATOR),
    decreases chars.len(),
{
    if chars.len() > 0 {
        let head = encode_scalar(chars[0] as u32);
        let tail = encode_utf8(chars.drop_first());
        lemma_scalar_has_no_separator(chars[0] as u32);
        lemma_utf8_has_no_separator(chars.drop_first());
        assert forall|i: int| 0 <= i < head.len() + tail.len() implies (head + tail)[i]
            != FINGERPRINT_SEPARATOR by {
            if i < head.len() {
                assert(head[i] != FINGERPRINT_SEPARATOR);
            } else {
                assert(tail[i - head.len()] != FINGERPRINT_SEPARATOR);
            }
        }
    }
}

/// Distinct (title, content) pairs give distinct fingerprint inputs: the keccak
/// digest is the only place where two notes' texts can collide.
pub proof fn lemma_fingerprint_text_injective(
    t1: Seq<char>,
    c1: Seq<char>,
    t2: Seq<char>,
    c2: Seq<char>,
)
    requires
        fingerprint_input(encode_utf8(t1), encode_utf8(c1)) == fingerprint_input(
            encode_utf8(t2),
            encode_utf8(c2),
        ),
    ensures
        t1 == t2,
        c1 == c2,
{
    lemma_utf8_has_no_separator(t1);
    lemma_utf8_has_no_separator(t2);
    lemma_fingerprint_input_injective(encode_utf8(t1), encode_utf8(c1), encode_utf8(t2), encode_utf8(c2));
    encode_utf8_decode_utf8(t1);
    encode_utf8_decode_utf8(t2);
    encode_utf8_decode_utf8(c1);
    encode_utf8_decode_utf8(c2);
}

fn copy_bytes(out: &mut Vec<u8>, src: &[u8])
    ensures
        final(out)@ == old(out)@ + src@,
{
    let mut i: usize = 0;
    while i < src.len()
        invariant
            i <= src@.len(),
            out@ == old(out)@ + src@.subrange(0, i as int),
        decreases src@.len() - i,
    {
        out.push(src[i]);
        i = i + 1;
        assert(out@ =~= old(out)@ + src@.subrange(0, i as int));
    }
    assert(src@.subrange(0, i as int) =~= src@);
}

fn bytes_of(src: &[u8]) -> (r: Vec<u8>)
    ensures
        r@ == src@,
{
    let mut r: Vec<u8> = Vec::new();
    copy_bytes(&mut r, src);
    assert(r@ =~= src@);
    r
}

/// The fingerprint of a note's title and content.
pub fn fingerprint_of(title: &String, content: &String) -> (r: [u8; 32])
    ensures
        r@ == fingerprint(title@, content@),
{
    let mut input: Vec<u8> = bytes_of(title.as_str().as_bytes());
    input.push(FINGERPRINT_SEPARATOR);
    copy_bytes(&mut input, content.as_str().as_bytes());
    assert(input@ =~= fingerprint_input(encode_utf8(title@), encode_utf8(content@)));
    keccak(input.as_slice())
}

fn config_seeds_exec() -> (r: Vec<Vec<u8>>)
    ensures
        r.deep_view() == config_seeds(),
{
    let tag: Vec<u8> = vec![99u8, 111u8, 110u8, 102u8, 105u8, 103u8];
    assert(tag@ =~= config_tag());
    assert(tag.deep_view() =~= tag@);
    let r: Vec<Vec<u8>> = vec![tag];
    assert(r.deep_view() =~= config_seeds());
    r
}

fn note_seeds_exec(
    author: &Key,
    receiver: &Key,
    title: &String,
    content: &String,
) -> (r: Vec<Vec<u8>>)
    ensures
        r.deep_view() == note_seeds(author@, receiver@, title@, content@),
{
    let tag: Vec<u8> = vec![110u8, 111u8, 116u8, 101u8];
    let a: Vec<u8> = bytes_of(author.bytes.as_slice());
    let b: Vec<u8> = bytes_of(receiver.bytes.as_slice());
    let fp = fingerprint_of(title, content);
    let f: Vec<u8> = bytes_of(fp.as_slice());
    assert(tag@ =~= note_tag());
    assert(tag.deep_view() =~= tag@);
    assert(a.deep_view() =~= a@);
    assert(b.deep_view() =~= b@);
    assert(f.deep_view() =~= f@);
    let r: Vec<Vec<u8>> = vec![tag, a, b, f];
    assert(r.deep_view() =~= note_seeds(author@, receiver@, title@, content@));
    r
}

fn reaction_seeds_exec(note: &Key, reactor: &Key) -> (r: Vec<Vec<u8>>)
    ensures
        r.deep_view() == reaction_seeds(note@, reactor@),
{
    let tag: Vec<u8> = vec![114u8, 101u8, 97u8, 99u8, 116u8, 105u8, 111u8, 110u8];
    let a: Vec<u8> = bytes_of(note.bytes.as_slice());
    let b: Vec<u8> = bytes_of(reactor.bytes.as_slice());
    assert(tag@ =~= reaction_tag());
    assert(tag.deep_view() =~= tag@);
    assert(a.deep_view() =~= a@);
    assert(b.deep_view() =~= b@);
    let r: Vec<Vec<u8>> = vec![tag, a, b];
    assert(r.deep_view() =~= reaction_seeds(note@, reactor@));
    r
}

/// The address and bump of the configuration record under `program`.
pub fn find_config_address(program: &Key) -> (r: Option<(Key, u8)>)
    ensures
        found_view(r) == found_program_address(config_seeds(), program@),
        r matches Some((k, b)) ==> created_program_address(with_bump(config_seeds(), b), program@)
            == Some(k@),
{
    try_find_program_address(&config_seeds_exec(), program)
}

/// The address and bump of the note that `author` sends to `receiver` with this text.
pub fn find_note_address(
    program: &Key,
    author: &Key,
    receiver: &Key,
    title: &String,
    content: &String,
) -> (r: Option<(Key, u8)>)
    ensures
        found_view(r) == found_program_address(
            note_seeds(author@, receiver@, title@, content@),
            program@,
        ),
        r matches Some((k, b)) ==> created_program_address(
            with_bump(note_seeds(author@, receiver@, title@, content@), b),
            program@,
        ) == Some(k@),
{
    try_find_program_address(&note_seeds_exec(author, receiver, title, content), program)
}

/// The address and bump of the reaction of `reactor` to the note at `note`.
pub fn find_reaction_address(program: &Key, note: &Key, reactor: &Key) -> (r: Option<(Key, u8)>)
    ensures
        found_view(r) == found_program_address(reaction_seeds(note@, reactor@), program@),
        r matches Some((k, b)) ==> created_program_address(
            with_bump(reaction_seeds(note@, reactor@), b),
            program@,
        ) == Some(k@),
{
    try_find_program_address(&reaction_seeds_exec(note, reactor), program)
}

/// Re-creates a note's address from its parties, its text and its stored bump.
pub fn note_address_with_bump(
    program: &Key,
    author: &Key,
    receiver: &Key,
    title: &String,
    content: &String,
    bump: u8,
) -> (r: Option<Key>)
    ensures
        created_view(r) == created_program_address(
            with_bump(note_seeds(author@, receiver@, title@, content@), bump),
            program@,
        ),
{
    let mut seeds = note_seeds_exec(author, receiver, title, content);
    let b: Vec<u8> = vec![bump];
    assert(b.deep_view() =~= seq![bump]);
    seeds.push(b);
    assert(seeds.deep_view() =~= with_bump(note_seeds(author@, receiver@, title@, content@), bump));
    match create_program_address(&seeds, program) {
        Ok(k) => Some(k),
        Err(_) => None,
    }
}

} // verus!
