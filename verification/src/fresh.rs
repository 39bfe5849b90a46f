//! Freshly drawn identifiers: anti-forgery states, session handles, account ids.
//!
//! Each call draws anew, so nothing is said of which value comes back, only of
//! its shape.

use rand::Rng;
use vstd::prelude::*;

verus! {

/// Length of an anti-forgery state.
pub const STATE_LEN: usize = 30;

/// Length of a session handle.
pub const SESSION_ID_LEN: usize = 64;

/// An ASCII letter or digit.
pub open spec fn is_alphanumeric(c: char) -> bool {
    ||| '0' <= c <= '9'
    ||| 'a' <= c <= 'z'
    ||| 'A' <= c <= 'Z'
}

/// A text of exactly `len` ASCII letters and digits.
pub open spec fn is_alphanumeric_token(s: Seq<char>, len: nat) -> bool {
    &&& s.len() == len
    &&& forall|i: int| 0 <= i < s.len() ==> is_alphanumeric(#[trigger] s[i])
}

/// A lower-case hexadecimal digit.
pub open spec fn is_lower_hex(c: char) -> bool {
    ||| '0' <= c <= '9'
    ||| 'a' <= c <= 'f'
}

/// The hyphenated form of a UUID: thirty-two lower-case hexadecimal digits in
/// groups of eight, four, four, four and twelve.
pub open spec fn is_hyphenated_uuid(s: Seq<char>) -> bool {
    &&& s.len() == 36
    &&& forall|i: int|
        0 <= i < 36 ==> if i == 8 || i == 13 || i == 18 || i == 23 {
            #[trigger] s[i] == '-'
        } else {
            is_lower_hex(s[i])
        }
}

/// Draws `len` bytes from `rand::distributions::Alphanumeric` with the
/// thread's generator, as `Rng::sample_iter` yields them.
///
/// Claimed of it: every byte drawn is one of the sixty-two ASCII letters and
/// digits, so the text has one character for each byte.
#[verifier::external_body]
pub(crate) fn sample_alphanumeric(len: usize) -> (res: String)
    ensures
        is_alphanumeric_token(res@, len as nat),
{
    let bytes: Vec<u8> = rand::thread_rng().sample_iter(&rand::distributions::Alphanumeric).take(
        len,
    ).collect();
    String::from_utf8(bytes).unwrap()
}

/// Formats the result of `uuid::Uuid::new_v4` with its `Display`.
///
/// Claimed of it: the text is the hyphenated lower-case form.
#[verifier::external_body]
fn random_uuid() -> (res: String)
    ensures
        is_hyphenated_uuid(res@),
{
    uuid::Uuid::new_v4().to_string()
}

/// A new anti-forgery state.
pub fn generate_state() -> (res: String)
    ensures
        is_alphanumeric_token(res@, STATE_LEN as nat),
{
    sample_alphanumeric(STATE_LEN)
}

/// A new session handle.
pub fn generate_session_id() -> (res: String)
    ensures
        is_alphanumeric_token(res@, SESSION_ID_LEN as nat),
{
    sample_alphanumeric(SESSION_ID_LEN)
}

/// A new internal account identifier.
pub fn generate_uuid() -> (res: String)
    ensures
        is_hyphenated_uuid(res@),
{
    random_uuid()
}

} // verus!
