use vstd::prelude::*;

verus! {

/// The local queue keeps at most this many app-usage segments.
pub const MAX_APP_USAGE: usize = 20_000;

/// How many of the oldest app-usage segments to drop when the queue holds
/// `count` of them: enough to come back to the cap.
pub fn app_usage_overflow(count: usize) -> (drop_n: usize)
    ensures
        count > MAX_APP_USAGE ==> drop_n == count - MAX_APP_USAGE,
        count <= MAX_APP_USAGE ==> drop_n == 0,
{
    if count > MAX_APP_USAGE {
        count - MAX_APP_USAGE
    } else {
        0
    }
}

/// A new open break interval is queued only while none is open, so at most
/// one interval is ever open.
pub fn should_append_open_interval(has_open: bool) -> (r: bool)
    ensures
        r == !has_open,
{
    !has_open
}

/// After dropping the overflow, the queue is back at the cap (or under it).
pub proof fn law_app_usage_capped(count: nat)
    ensures
        (if count > MAX_APP_USAGE {
            count - (count - MAX_APP_USAGE)
        } else {
            count as int
        }) <= MAX_APP_USAGE,
{
}

} // verus!
