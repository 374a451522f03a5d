//! Credentials and timestamps, both drawn from outside the library.

use vstd::prelude::*;

verus! {

/// A lower-case hexadecimal digit.
pub open spec fn is_lower_hex_digit(c: char) -> bool {
    ('0' <= c && c <= '9') || ('a' <= c && c <= 'f')
}

/// A credential as the issuer renders it: 32 lower-case hexadecimal digits.
pub open spec fn is_credential_text(s: Seq<char>) -> bool {
    &&& s.len() == 32
    &&& forall|i: int| 0 <= i < s.len() ==> is_lower_hex_digit(#[trigger] s[i])
}

/// Relies on uuid::Uuid::new_v4, a UUID of 122 random bits drawn from the
/// operating system (it panics where none can be drawn), and on the `Display`
/// of its `simple` form: 32 lower-case hexadecimal digits.
#[verifier::external_body]
fn random_uuid_text() -> (r: String)
    ensures
        is_credential_text(r@),
{
    uuid::Uuid::new_v4().simple().to_string()
}

/// Relies on chrono::Utc::now and DateTime::timestamp_millis: the current
/// time in milliseconds since the Unix epoch. `Utc::now` returns only when the
/// system clock is not before the epoch (it panics otherwise), so the value is
/// not negative; nothing else is known of it.
#[verifier::external_body]
pub(crate) fn now_millis() -> (r: i64)
    ensures
        r >= 0,
{
    chrono::Utc::now().timestamp_millis()
}

/// Issues a fresh, unguessable author credential.
pub fn issue_credential() -> (r: String)
    ensures
        is_credential_text(r@),
{
    random_uuid_text()
}

} // verus!
