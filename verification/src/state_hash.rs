//! The state verifier: a slow, salted, one-way hash and its check.
//!
//! The digest of the anti-forgery state is what the session record keeps; the
//! plaintext is never stored. Hashing draws a new salt on every call, so two
//! digests of one plaintext differ, and only `verify` relates them.

use vstd::prelude::*;

verus! {

/// `pwhash::error::Error`, the error of the hashing primitive. It is carried
/// from the call to where it is told apart from a digest; nothing is claimed
/// of what it holds.
#[verifier::external_type_specification]
#[verifier::external_body]
pub struct ExPwhashError(pwhash::error::Error);

/// What `pwhash::bcrypt::verify` answers for a plaintext and a digest.
pub uninterp spec fn bcrypt_verify_result(plaintext: Seq<char>, digest: Seq<char>) -> bool;

/// The code point of a character.
pub open spec fn code(c: char) -> int {
    c as u32 as int
}

/// Every character of `s` is a printable ASCII character: from the space to
/// the tilde.
pub open spec fn printable_ascii(s: Seq<char>) -> bool {
    forall|i: int| 0 <= i < s.len() ==> 0x20 <= code(#[trigger] s[i]) <= 0x7e
}

/// The shape of a digest that `hash` hands out: sixty printable ASCII
/// characters, the first of them the dollar sign of the variant tag.
pub open spec fn is_bcrypt_digest(s: Seq<char>) -> bool {
    &&& s.len() == 60
    &&& s[0] == '$'
    &&& forall|i: int| 0 <= i < s.len() ==> 0x20 < code(#[trigger] s[i]) < 0x7f
}

/// Whether a stored digest vouches for a plaintext.
///
/// An empty digest vouches for nothing, and neither does one that holds a
/// character outside printable ASCII: no digest that `hash` produced has one.
pub open spec fn digest_accepts(digest: Seq<char>, plaintext: Seq<char>) -> bool {
    &&& digest.len() > 0
    &&& printable_ascii(digest)
    &&& bcrypt_verify_result(plaintext, digest)
}

/// Why no digest was produced.
#[derive(Debug, Clone, Copy, PartialEq, Eq, Structural)]
pub enum HashError {
    /// The hashing primitive reported an error.
    Primitive,
}

/// Calls `pwhash::bcrypt::hash`, which salts with sixteen bytes from the
/// operating system and hashes at the default cost.
///
/// Claimed of it: a digest it returns is the variant tag between dollar
/// signs, the two-digit cost, twenty-two characters of salt and thirty-one of
/// checksum, sixty printable characters in all beginning with a dollar sign,
/// and `pwhash::bcrypt::verify` accepts it for the same
/// plaintext, since verifying recomputes the digest from the salt and cost
/// that it reads back out of it.
#[verifier::external_body]
fn bcrypt_hash(plaintext: &str) -> (res: Result<String, pwhash::error::Error>)
    ensures
        res matches Ok(digest) ==> is_bcrypt_digest(digest@) && bcrypt_verify_result(
            plaintext@,
            digest@,
        ),
{
    pwhash::bcrypt::hash(plaintext)
}

/// Calls `pwhash::bcrypt::verify`.
///
/// Claimed of it: the answer depends on the plaintext and the digest alone.
/// Only printable ASCII is handed to it: its salt decoder subtracts the space
/// from each character without a check and looks the difference up in a
/// table of ninety-six entries, so a character below the space or from
/// U+0080 up would stop the program.
#[verifier::external_body]
fn bcrypt_verify(plaintext: &str, digest: &str) -> (res: bool)
    requires
        printable_ascii(digest@),
    ensures
        res == bcrypt_verify_result(plaintext@, digest@),
{
    pwhash::bcrypt::verify(plaintext, digest)
}

/// Tells whether a text is printable ASCII throughout.
pub fn is_printable_ascii(s: &str) -> (res: bool)
    ensures
        res == printable_ascii(s@),
{
    let n = s.unicode_len();
    let mut i: usize = 0;
    while i < n
        invariant
            n == s@.len(),
            i <= n,
            forall|j: int| 0 <= j < i ==> 0x20 <= code(#[trigger] s@[j]) <= 0x7e,
        decreases n - i,
    {
        let c = s.get_char(i);
        if (c as u32) < 0x20 || (c as u32) > 0x7e {
            return false;
        }
        i = i + 1;
    }
    true
}

/// Hashes a plaintext under a salt drawn for this call.
///
/// A digest that comes back vouches for the plaintext it was made from.
pub fn hash(plaintext: &str) -> (res: Result<String, HashError>)
    ensures
        res matches Ok(digest) ==> is_bcrypt_digest(digest@) && digest_accepts(
            digest@,
            plaintext@,
        ),
{
    match bcrypt_hash(plaintext) {
        Ok(digest) => Ok(digest),
        Err(_) => Err(HashError::Primitive),
    }
}

/// Checks a plaintext against a stored digest.
pub fn verify(plaintext: &str, digest: &str) -> (res: bool)
    ensures
        res == digest_accepts(digest@, plaintext@),
{
    if digest.unicode_len() == 0 {
        return false;
    }
    if !is_printable_ascii(digest) {
        return false;
    }
    bcrypt_verify(plaintext, digest)
}

} // verus!
