use crate::types::{ApplicationParameter, ChallengeParameter, KeyHandle, Counter};
use vstd::prelude::*;

verus! {

/// The byte that opens a registration attestation.
pub const REGISTRATION_RESERVED_BYTE: u8 = 0x00;

/// The user-presence flag of an authentication.
pub const USER_PRESENT: u8 = 0x01;

/// The counter as four big-endian bytes.
pub open spec fn counter_bytes(c: u32) -> Seq<u8> {
    seq![
        (c / 0x100_0000) as u8,
        ((c / 0x1_0000) % 0x100) as u8,
        ((c / 0x100) % 0x100) as u8,
        (c % 0x100) as u8,
    ]
}

/// What a registration attestation signs: the reserved byte, the application,
/// the challenge, the key handle and the user's public key.
pub open spec fn registration_message(
    application: Seq<u8>,
    challenge: Seq<u8>,
    handle: Seq<u8>,
    public_key: Seq<u8>,
) -> Seq<u8> {
    seq![REGISTRATION_RESERVED_BYTE] + application + challenge + handle + public_key
}

/// What an authentication signs: the application, the user-presence flag, the
/// counter and the challenge.
pub open spec fn authentication_message(application: Seq<u8>, counter: u32, challenge: Seq<u8>) -> Seq<u8> {
    application + seq![USER_PRESENT] + counter_bytes(counter) + challenge
}

fn append_bytes(out: &mut Vec<u8>, bytes: &[u8])
    ensures
        final(out)@ == old(out)@ + bytes@,
{
    let mut i: usize = 0;
    while i < bytes.len()
        invariant
            i <= bytes@.len(),
            out@ == old(out)@ + bytes@.subrange(0, i as int),
        decreases bytes@.len() - i,
    {
        out.push(bytes[i]);
        i = i + 1;
        assert(bytes@.subrange(0, i as int) == bytes@.subrange(0, i - 1) + seq![bytes@[i - 1]]);
    }
    assert(bytes@.subrange(0, bytes@.len() as int) == bytes@);
}

/// Builds the message that a registration attestation signs.
pub fn registration_payload(
    application: &ApplicationParameter,
    challenge: &ChallengeParameter,
    handle: &KeyHandle,
    public_key: &[u8],
) -> (r: Vec<u8>)
    ensures
        r@ == registration_message(application@, challenge@, handle@, public_key@),
{
    let mut out: Vec<u8> = Vec::new();
    out.push(REGISTRATION_RESERVED_BYTE);
    append_bytes(&mut out, &application.0);
    append_bytes(&mut out, &challenge.0);
    append_bytes(&mut out, &handle.0);
    append_bytes(&mut out, public_key);
    out
}

/// Builds the message that an authentication signs.
pub fn authentication_payload(
    application: &ApplicationParameter,
    counter: Counter,
    challenge: &ChallengeParameter,
) -> (r: Vec<u8>)
    ensures
        r@ == authentication_message(application@, counter, challenge@),
{
    let mut out: Vec<u8> = Vec::new();
    append_bytes(&mut out, &application.0);
    out.push(USER_PRESENT);
    out.push((counter / 0x100_0000) as u8);
    out.push(((counter / 0x1_0000) % 0x100) as u8);
    out.push(((counter / 0x100) % 0x100) as u8);
    out.push((counter % 0x100) as u8);
    append_bytes(&mut out, &challenge.0);
    out
}

} // verus!
