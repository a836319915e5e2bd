//! The sentinel message: the byte prefix by which a listener tells a
//! deliberate shutdown signal from ordinary payload.

use vstd::prelude::*;
use vstd::string::{is_ascii, is_ascii_spec_bytes, StringSliceAdditionalSpecFns};

verus! {

/// Number of bytes in the sentinel message.
pub const SENTINEL_LEN: usize = 17;

/// The sentinel message, the ASCII text `Hello from client`.
pub open spec fn sentinel() -> Seq<u8> {
    seq![
        0x48u8, 0x65u8, 0x6cu8, 0x6cu8, 0x6fu8, 0x20u8,
        0x66u8, 0x72u8, 0x6fu8, 0x6du8, 0x20u8,
        0x63u8, 0x6cu8, 0x69u8, 0x65u8, 0x6eu8, 0x74u8,
    ]
}

/// The sentinel spelled as text.
pub const SENTINEL_TEXT: &'static str = "Hello from client";

/// The bytes of the sentinel are its text in ASCII, one byte to the letter.
pub proof fn sentinel_is_its_text()
    ensures
        sentinel() == SENTINEL_TEXT.spec_bytes(),
        sentinel().len() == SENTINEL_LEN,
{
    reveal_strlit("Hello from client");
    let text = SENTINEL_TEXT;
    assert(is_ascii(text)) by {
        assert forall|i: int| 0 <= i < text@.len() implies (text@[i] as u32) < 128 by {}
    }
    is_ascii_spec_bytes(text);
    assert(sentinel() =~= text.spec_bytes());
}

/// Whether `data` begins with the sentinel message, byte for byte.
pub open spec fn has_sentinel_prefix(data: Seq<u8>) -> bool {
    sentinel().is_prefix_of(data)
}

/// The sentinel message as an owned payload, ready to be sent.
pub fn sentinel_message() -> (message: Vec<u8>)
    ensures
        message@ == sentinel(),
{
    let mut message: Vec<u8> = Vec::with_capacity(SENTINEL_LEN);
    message.push(0x48u8);
    message.push(0x65u8);
    message.push(0x6cu8);
    message.push(0x6cu8);
    message.push(0x6fu8);
    message.push(0x20u8);
    message.push(0x66u8);
    message.push(0x72u8);
    message.push(0x6fu8);
    message.push(0x6du8);
    message.push(0x20u8);
    message.push(0x63u8);
    message.push(0x6cu8);
    message.push(0x69u8);
    message.push(0x65u8);
    message.push(0x6eu8);
    message.push(0x74u8);
    assert(message@ =~= sentinel());
    message
}

/// Tells whether a received message is the shutdown signal: whether it
/// begins with the sentinel message. The match is exact and case-sensitive;
/// whatever follows the prefix is not looked at.
pub fn starts_with_sentinel(data: &[u8]) -> (yes: bool)
    ensures
        yes == has_sentinel_prefix(data@),
{
    if data.len() < SENTINEL_LEN {
        return false;
    }
    let expected = sentinel_message();
    let mut i: usize = 0;
    while i < SENTINEL_LEN
        invariant
            i <= SENTINEL_LEN,
            SENTINEL_LEN <= data.len(),
            expected@ == sentinel(),
            forall|j: int| 0 <= j < i ==> data@[j] == sentinel()[j],
        decreases SENTINEL_LEN - i,
    {
        if data[i] != expected[i] {
            assert(data@.subrange(0, sentinel().len() as int)[i as int] != sentinel()[i as int]);
            return false;
        }
        i += 1;
    }
    assert(sentinel() =~= data@.subrange(0, sentinel().len() as int));
    true
}

/// Only the first bytes of a message decide: a message cut to any length
/// that still holds the whole prefix is the shutdown signal exactly when
/// the uncut message is.
pub proof fn sentinel_prefix_survives_cut(data: Seq<u8>, at: int)
    requires
        sentinel().len() <= at <= data.len(),
    ensures
        has_sentinel_prefix(data.subrange(0, at)) == has_sentinel_prefix(data),
{
    let n = sentinel().len() as int;
    assert(data.subrange(0, at).subrange(0, n) =~= data.subrange(0, n));
}

} // verus!
