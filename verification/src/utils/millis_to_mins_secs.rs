use vstd::prelude::*;

verus! {

/// Whole minutes and leftover seconds of a duration given in milliseconds.
pub open spec fn mins_secs(millis: nat) -> (nat, nat) {
    ((millis / 1000) / 60, (millis / 1000) % 60)
}

/// Splits a duration in milliseconds into whole minutes and the seconds left
/// over; fractions of a second are dropped.
pub fn millis_to_mins_secs(millis: u64) -> (r: (u64, u64))
    ensures
        (r.0 as nat, r.1 as nat) == mins_secs(millis as nat),
        r.1 < 60,
{
    let total: u64 = millis / 1000;
    (total / 60, total % 60)
}

/// A shorter duration never has more minutes, and with equal minutes never
/// more seconds.
pub proof fn lemma_mins_secs_monotonic(a: nat, b: nat)
    requires
        a <= b,
    ensures
        mins_secs(a).0 < mins_secs(b).0 || (mins_secs(a).0 == mins_secs(b).0 && mins_secs(a).1
            <= mins_secs(b).1),
{
    let ta = a / 1000;
    let tb = b / 1000;
    assert(ta <= tb) by (nonlinear_arith)
        requires
            a <= b,
            ta == a / 1000,
            tb == b / 1000,
    ;
    assert(ta / 60 < tb / 60 || (ta / 60 == tb / 60 && ta % 60 <= tb % 60)) by (nonlinear_arith)
        requires
            ta <= tb,
    ;
}

} // verus!
