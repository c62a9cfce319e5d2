use rand::Rng;
use vstd::prelude::*;

verus! {

/// Rust's division of `a` by a positive `b`, rounding toward zero.
pub open spec fn trunc_div(a: int, b: int) -> int {
    if a >= 0 {
        a / b
    } else {
        -((-a) / b)
    }
}

/// Rust's remainder of `a` by a positive `b`, with the sign of `a`.
pub open spec fn trunc_rem(a: int, b: int) -> int {
    if a >= 0 {
        a % b
    } else {
        -((-a) % b)
    }
}

/// The RFC 3339 text that `chrono` gives for a UTC instant `ms` milliseconds
/// after the Unix epoch; `None` when the instant is out of `chrono`'s range.
pub uninterp spec fn rfc3339_at_millis(ms: i64) -> Option<Seq<char>>;

/// Calls `chrono::DateTime::from_timestamp_millis` and formats the instant
/// with `to_rfc3339`. Claims only that the result is `rfc3339_at_millis` of
/// the argument; the calendar arithmetic is not restated.
#[verifier::external_body]
fn rfc3339_from_millis(ms: i64) -> (r: Option<String>)
    ensures
        match r {
            Some(s) => rfc3339_at_millis(ms) == Some(s@),
            None => rfc3339_at_millis(ms) is None,
        },
{
    match chrono::DateTime::from_timestamp_millis(ms) {
        Some(t) => Some(t.to_rfc3339()),
        None => None,
    }
}

/// Calls `chrono::Utc::now` and formats it with `to_rfc3339`. The clock is
/// read, so nothing is claimed of the text.
#[verifier::external_body]
pub(crate) fn now_rfc3339() -> (r: String) {
    chrono::Utc::now().to_rfc3339()
}

/// The RFC 3339 text of an instant given in milliseconds since the epoch;
/// an instant out of range is replaced by the current time.
pub fn iso(ms: i64) -> (r: String)
    ensures
        rfc3339_at_millis(ms) is Some ==> rfc3339_at_millis(ms) == Some(r@),
{
    match rfc3339_from_millis(ms) {
        Some(s) => s,
        None => now_rfc3339(),
    }
}

/// Calls `uuid::Uuid::new_v4` and formats it with `to_string`. The id is
/// random; the contract states only what its hyphenated form always has,
/// 36 characters.
#[verifier::external_body]
pub(crate) fn new_client_id() -> (r: String)
    ensures
        r@.len() == 36,
{
    uuid::Uuid::new_v4().to_string()
}

/// Calls `rand::Rng::gen_range(0..hi)` on `rand::thread_rng()`. The number is
/// random; the contract states only that it lies in `0..hi`.
#[verifier::external_body]
pub(crate) fn random_below(hi: u64) -> (r: u64)
    requires
        hi > 0,
    ensures
        r < hi,
{
    rand::thread_rng().gen_range(0..hi)
}

} // verus!
