//! Small computations the session and chat stores make on their keys.

use vstd::prelude::*;

verus! {

/// The two participants of a private chat in the order the store keeps them:
/// the smaller identifier first (identifiers compare as their UUID bytes do).
pub open spec fn participants_order(a: u128, b: u128) -> (u128, u128) {
    if a < b { (a, b) } else { (b, a) }
}

/// Puts the participants of a private chat in the order the store keeps them.
pub fn ordered_pair(a: u128, b: u128) -> (r: (u128, u128))
    ensures
        r == participants_order(a, b),
{
    if a < b { (a, b) } else { (b, a) }
}

/// A private chat between two users is the same chat whoever starts it: the
/// stored order of its participants does not depend on the order given, it
/// holds both of them, and the smaller comes first.
pub proof fn pair_order_is_symmetric(a: u128, b: u128)
    ensures
        participants_order(a, b) == participants_order(b, a),
        participants_order(a, b).0 <= participants_order(a, b).1,
        (participants_order(a, b) == (a, b)) || (participants_order(a, b) == (b, a)),
{
}

/// When a session opened at `now` (Unix seconds) with a lifetime of
/// `ttl_secs` seconds expires.
pub open spec fn expiry_of(now: int, ttl_secs: int) -> int {
    now + ttl_secs
}

pub fn session_expiry(now: i64, ttl_secs: i64) -> (r: i64)
    requires
        i64::MIN <= expiry_of(now as int, ttl_secs as int) <= i64::MAX,
    ensures
        r == expiry_of(now as int, ttl_secs as int),
{
    now + ttl_secs
}

/// The `LIKE` pattern that matches names starting with `query`.
pub fn prefix_pattern(query: &str) -> (r: String)
    ensures
        r@ == query@ + "%"@,
{
    String::from_str(query).concat("%")
}

/// The hyphenated lower-case text of the UUID with value `id`, as its
/// `Display` writes it.
pub uninterp spec fn uuid_text(id: u128) -> Seq<char>;

/// `uuid::Uuid::from_u128(id).to_string()`. Claimed: the text depends on the
/// value alone.
#[verifier::external_body]
pub(crate) fn uuid_string(id: u128) -> (r: String)
    ensures
        r@ == uuid_text(id),
{
    uuid::Uuid::from_u128(id).to_string()
}

/// `uuid::Uuid::new_v4()` as its value: a random identifier, of which
/// nothing is stated.
#[verifier::external_body]
pub(crate) fn fresh_id() -> u128 {
    uuid::Uuid::new_v4().as_u128()
}

} // verus!
