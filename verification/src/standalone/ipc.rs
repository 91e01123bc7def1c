//! The raw greeter socket protocol: eight-byte messages of magic, kind and length.
use vstd::prelude::*;
use crate::common::ipc::{lemma_magic_bytes, MAGIC, TAG_REQUEST_AUTHENTICATION};
use crate::support::wire::i16_be;

verus! {

/// The kinds of message that a greeter may send.
#[derive(Debug, PartialEq, Eq, Structural)]
pub enum MessageKind {
    RequestAuthentication,
}

impl MessageKind {
    /// Reads a message kind from its two-letter name; only `RA` is known.
    pub fn from_bytes(bytes: &[u8]) -> (k: Option<MessageKind>)
        ensures
            k == (if bytes@ == seq![0x52u8, 0x41u8] {
                Some(MessageKind::RequestAuthentication)
            } else {
                None
            }),
    {
        if bytes.len() == 2 && bytes[0] == 0x52 && bytes[1] == 0x41 {
            assert(bytes@ =~= seq![0x52u8, 0x41u8]);
            Some(MessageKind::RequestAuthentication)
        } else {
            None
        }
    }
}

/// Whether `msg` is a well-formed request: eight bytes, the magic `1w`, then a known kind.
pub open spec fn is_valid_message(msg: Seq<u8>) -> bool {
    &&& msg.len() == 8
    &&& msg[0] == 0x31u8
    &&& msg[1] == 0x77u8
    &&& msg[2] == 0x52u8
    &&& msg[3] == 0x41u8
}

/// Checks a message received from a greeter.
pub fn handle_message(msg: &[u8]) -> (r: Result<(), ()>)
    ensures
        r is Ok <==> is_valid_message(msg@),
        r is Ok ==> msg@.len() == 8 && msg@.subrange(0, 2) == i16_be(MAGIC) && msg@.subrange(2, 4)
            == TAG_REQUEST_AUTHENTICATION@,
        msg@.len() == 8 && msg@.subrange(0, 2) == i16_be(MAGIC) && msg@.subrange(2, 4)
            == TAG_REQUEST_AUTHENTICATION@ ==> r is Ok,
{
    proof {
        lemma_valid_message_shape(msg@);
    }
    if msg.len() != 8 {
        return Err(());
    }
    if msg[0] != 0x31 || msg[1] != 0x77 {
        return Err(());
    }
    assert(msg@.subrange(2, 4) =~= seq![msg@[2], msg@[3]]);
    let _kind = match MessageKind::from_bytes(&msg[2..4]) {
        Some(k) => k,
        None => {
            return Err(());
        },
    };
    let _len: i32 = read_int(&msg[5..8]);
    Ok(())
}

/// Appends the two big-endian bytes of `val`.
pub fn push_short(msg: &mut Vec<u8>, val: i16)
    ensures
        final(msg)@ == old(msg)@ + i16_be(val),
{
    proof {
        assert(val < 0 ==> (val as u16) == val + 65536) by (bit_vector);
        assert(val >= 0 ==> (val as u16) == val) by (bit_vector);
        assert(((val >> 8) & 0xFF) == ((val as u16) / 256) as i16) by (bit_vector);
        assert((val & 0xFF) == ((val as u16) % 256) as i16) by (bit_vector);
    }
    let ghost start = msg@;
    msg.push(((val >> 8) & 0xFF) as u8);
    msg.push((val & 0xFF) as u8);
    assert(msg@ =~= start + i16_be(val));
}

/// Reads the length field of a message; the value is fixed.
pub fn read_int(msg: &[u8]) -> (v: i32)
    ensures
        v == 1337,
{
    1337
}

/// The eight bytes that the daemon writes to a greeter when it connects: the magic, the
/// kind `PW` and the text `Hi!?`.
pub open spec fn greeting_bytes() -> Seq<u8> {
    i16_be(0x3177) + seq![0x50u8, 0x57u8] + seq![0x48u8, 0x69u8, 0x21u8, 0x3fu8]
}

/// Builds the message that greets a newly connected greeter.
pub fn greeting_message() -> (msg: Vec<u8>)
    ensures
        msg@ == greeting_bytes(),
{
    let mut msg: Vec<u8> = Vec::with_capacity(8);
    push_short(&mut msg, 0x3177);
    msg.push(0x50);
    msg.push(0x57);
    msg.push(0x48);
    msg.push(0x69);
    msg.push(0x21);
    msg.push(0x3f);
    assert(msg@ =~= greeting_bytes());
    msg
}

/// A greeter's request is accepted exactly when it is eight bytes that start with the frame
/// magic `1w` and carry the kind `RA`, the tag of an authentication request.
pub proof fn lemma_valid_message_shape(msg: Seq<u8>)
    ensures
        is_valid_message(msg) <==> {
            &&& msg.len() == 8
            &&& msg.subrange(0, 2) == i16_be(MAGIC)
            &&& msg.subrange(2, 4) == TAG_REQUEST_AUTHENTICATION@
        },
{
    lemma_magic_bytes();
    if msg.len() == 8 {
        let a = msg.subrange(0, 2);
        let b = msg.subrange(2, 4);
        assert(a[0] == msg[0] && a[1] == msg[1] && b[0] == msg[2] && b[1] == msg[3]);
        assert(TAG_REQUEST_AUTHENTICATION@ =~= seq![0x52u8, 0x41u8]);
        if msg[0] == 0x31u8 && msg[1] == 0x77u8 {
            assert(a =~= i16_be(MAGIC));
        }
        if msg[2] == 0x52u8 && msg[3] == 0x41u8 {
            assert(b =~= TAG_REQUEST_AUTHENTICATION@);
        }
    }
}

} // verus!
