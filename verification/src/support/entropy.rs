//! Random identifiers: UUIDs from the `uuid` crate and choices from the `rand` crate.
use vstd::prelude::*;
use rand::rngs::ThreadRng;
use rand::seq::SliceRandom;
use uuid::adapter::{Hyphenated, Simple};
use uuid::Uuid;
use crate::support::text::hex_bytes;

verus! {

#[verifier::external_type_specification]
#[verifier::external_body]
pub struct ExThreadRng(ThreadRng);

/// The 32 lower-case hex digits of a UUID, without separators.
pub open spec fn uuid_simple_chars(b: Seq<u8>) -> Seq<char> {
    hex_bytes(b)
}

/// The lower-case hyphenated form of a UUID: groups of 4, 2, 2, 2 and 6 bytes in hex,
/// separated by `-`.
pub open spec fn uuid_hyphenated_chars(b: Seq<u8>) -> Seq<char> {
    hex_bytes(b.subrange(0, 4)) + seq!['-'] + hex_bytes(b.subrange(4, 6)) + seq!['-']
        + hex_bytes(b.subrange(6, 8)) + seq!['-'] + hex_bytes(b.subrange(8, 10)) + seq!['-']
        + hex_bytes(b.subrange(10, 16))
}

/// Whether the 16 bytes `b` carry the version (4) and variant (RFC 4122) of a random UUID.
pub open spec fn is_random_uuid(b: Seq<u8>) -> bool {
    &&& b.len() == 16
    &&& b[6] / 16 == 4
    &&& b[8] / 64 == 2
}

/// `Uuid::new_v4`: a random UUID, as its 16 bytes; the source sets the version nibble of
/// byte 6 to 4 and the two top bits of byte 8 to `10`. The bytes come from `getrandom`; the
/// source panics when it fails, which no argument can rule out.
#[verifier::external_body]
pub(crate) fn new_v4_bytes() -> (b: [u8; 16])
    ensures
        is_random_uuid(b@),
{
    *Uuid::new_v4().as_bytes()
}

/// `Simple`'s `Display` in `uuid`: the UUID with bytes `b` as 32 lower-case hex digits.
#[verifier::external_body]
pub(crate) fn uuid_simple(b: [u8; 16]) -> (s: String)
    ensures
        s@ == uuid_simple_chars(b@),
{
    Simple::from_uuid(Uuid::from_bytes(b)).to_string()
}

/// `Hyphenated`'s `Display` in `uuid`: the UUID with bytes `b` in its lower-case
/// hyphenated form.
#[verifier::external_body]
pub(crate) fn uuid_hyphenated(b: [u8; 16]) -> (s: String)
    ensures
        s@ == uuid_hyphenated_chars(b@),
{
    Hyphenated::from_uuid(Uuid::from_bytes(b)).to_string()
}

/// `rand::thread_rng`: the thread's random number generator. Nothing is stated of it.
#[verifier::external_body]
pub(crate) fn thread_rng() -> (rng: ThreadRng) {
    rand::thread_rng()
}

/// `SliceRandom::choose` on a slice of characters: `None` for an empty slice, otherwise one
/// of its elements. Which element comes out rests on chance and is not stated.
#[verifier::external_body]
pub(crate) fn choose_char(choices: &[char], rng: &mut ThreadRng) -> (c: Option<char>)
    ensures
        c is None <==> choices@.len() == 0,
        c matches Some(x) ==> choices@.contains(x),
{
    choices.choose(rng).copied()
}

} // verus!
