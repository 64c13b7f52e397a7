//! What the service takes from its surroundings: the current time and
//! fresh random identifiers.
use vstd::prelude::*;
use crate::types::common::{opt_view, Timestamp};

verus! {

/// A lowercase hexadecimal digit.
pub open spec fn is_lower_hexdigit(c: char) -> bool {
    ('0' <= c && c <= '9') || ('a' <= c && c <= 'f')
}

/// The hyphenated lowercase text of a UUID: 36 characters, hyphens at 8,
/// 13, 18 and 23, lowercase hexadecimal digits elsewhere.
pub open spec fn is_uuid_text(text: Seq<char>) -> bool {
    &&& text.len() == 36
    &&& forall|i: int|
        0 <= i < 36 ==> if i == 8 || i == 13 || i == 18 || i == 23 {
            text[i] == '-'
        } else {
            is_lower_hexdigit(#[trigger] text[i])
        }
}

/// The text of a random (version 4, RFC 4122 variant) UUID: the version
/// digit `4` at 14 and a variant digit among `8`, `9`, `a`, `b` at 19.
pub open spec fn is_random_uuid_text(text: Seq<char>) -> bool {
    &&& is_uuid_text(text)
    &&& text[14] == '4'
    &&& (text[19] == '8' || text[19] == '9' || text[19] == 'a' || text[19] == 'b')
}

/// `chrono::Utc::now()`, as its `timestamp()` and `timestamp_subsec_nanos()`.
/// What time it is is left unsaid; chrono documents the nanoseconds as under
/// two billion (beyond one billion only in a leap second).
#[verifier::external_body]
pub(crate) fn current_time() -> (r: Timestamp)
    ensures
        r.nanos < 2_000_000_000,
{
    let now = chrono::Utc::now();
    Timestamp { secs: now.timestamp(), nanos: now.timestamp_subsec_nanos() }
}

/// `uuid::Uuid::new_v4()` written by its `to_string()`: the source masks the
/// random bits to version 4 and the RFC 4122 variant, and `Display` writes
/// the hyphenated lowercase form. Which UUID comes out is left unsaid.
#[verifier::external_body]
pub(crate) fn new_uuid_text() -> (r: String)
    ensures
        is_random_uuid_text(r@),
{
    uuid::Uuid::new_v4().to_string()
}

/// The UUID that a text names, in hyphenated lowercase form, or `None` where
/// the text is no UUID in a form that the `uuid` crate reads.
pub uninterp spec fn uuid_text_canonical(text: Seq<char>) -> Option<Seq<char>>;

/// `text.parse::<uuid::Uuid>()`, then the UUID's `to_string()`. Which texts
/// the crate reads (simple, hyphenated, braced, URN forms) is named, not
/// written out; `Display` writes the hyphenated lowercase form.
#[verifier::external_body]
fn parse_uuid_text(text: &str) -> (r: Option<String>)
    ensures
        opt_view(r) == uuid_text_canonical(text@),
        r matches Some(t) ==> is_uuid_text(t@),
{
    text.parse::<uuid::Uuid>().ok().map(|u| u.to_string())
}

/// The instance id of the service: the configured id where it names a UUID,
/// written in hyphenated lowercase form; else a fresh random UUID.
pub fn resolve_instance_id(configured: &str) -> (r: String)
    ensures
        uuid_text_canonical(configured@) matches Some(t) ==> r@ == t,
        uuid_text_canonical(configured@) is None ==> is_random_uuid_text(r@),
        is_uuid_text(r@),
{
    match parse_uuid_text(configured) {
        Some(id) => id,
        None => new_uuid_text(),
    }
}

} // verus!
