use vstd::prelude::*;

verus! {

/// Milliseconds from `earlier` to `now` on a monotonic clock, saturating at
/// zero when `earlier` lies after `now`.
pub open spec fn elapsed_since(now: u64, earlier: u64) -> nat {
    if now >= earlier {
        (now - earlier) as nat
    } else {
        0
    }
}

/// Executable form of [`elapsed_since`].
pub fn elapsed_ms(now: u64, earlier: u64) -> (r: u64)
    ensures
        r == elapsed_since(now, earlier),
{
    if now >= earlier {
        now - earlier
    } else {
        0
    }
}

} // verus!
