//! Long waits, cut into slices that every timer can hold.

use vstd::prelude::*;

use crate::duration::{monus, shorter, Duration};

verus! {

/// Nanoseconds of the longest slice: one day.
pub open spec fn max_slice() -> nat {
    86_400_000_000_000
}

/// The first slice of a wait, and what is left of the wait behind it. The wait is over where
/// nothing is left.
pub fn next_slice(remaining: Duration) -> (slices: (Duration, Duration))
    ensures
        slices.0@ == shorter(remaining@, max_slice()),
        slices.1@ == monus(remaining@, slices.0@),
{
    let slice = remaining.min(Duration::from_secs(86_400));
    (slice, remaining.saturating_sub(slice))
}

/// The slices of a wait, one behind the other.
pub open spec fn slices(remaining: nat) -> Seq<nat>
    decreases remaining,
{
    let slice = shorter(remaining, max_slice());
    let rest = monus(remaining, slice);
    if rest == 0 {
        seq![slice]
    } else {
        seq![slice] + slices(rest)
    }
}

/// The length of several waits in a row.
pub open spec fn total(spans: Seq<nat>) -> nat
    decreases spans.len(),
{
    if spans.len() == 0 {
        0
    } else {
        spans[0] + total(spans.drop_first())
    }
}

/// The slices of a wait are together exactly as long as the wait, and none is longer than a day.
pub proof fn slices_add_up(remaining: nat)
    ensures
        total(slices(remaining)) == remaining,
        forall|i: int| 0 <= i < slices(remaining).len() ==> #[trigger] slices(remaining)[i]
            <= max_slice(),
    decreases remaining,
{
    let slice = shorter(remaining, max_slice());
    let rest = monus(remaining, slice);
    reveal_with_fuel(total, 2);
    if rest == 0 {
        assert(slices(remaining).drop_first() =~= Seq::<nat>::empty());
    } else {
        slices_add_up(rest);
        assert(slices(remaining).drop_first() =~= slices(rest));
        assert forall|i: int| 0 <= i < slices(remaining).len() implies #[trigger] slices(
            remaining,
        )[i] <= max_slice() by {
            if i > 0 {
                assert(slices(remaining)[i] == slices(rest)[i - 1]);
            }
        }
    }
}

/// A wait is cut only where it is longer than a day, into whole days and a rest that is not empty.
pub proof fn waits_are_cut_by_the_day(remaining: nat)
    ensures
        remaining <= 86_400_000_000_000 ==> slices(remaining) == seq![remaining],
        remaining > 86_400_000_000_000 ==> slices(remaining).len() > 1 && slices(remaining)[0]
            == 86_400_000_000_000 && slices(remaining).drop_first() == slices(
            (remaining - 86_400_000_000_000) as nat,
        ),
{
    if remaining > 86_400_000_000_000 {
        let rest = (remaining - 86_400_000_000_000) as nat;
        assert(slices(remaining) =~= seq![86_400_000_000_000nat] + slices(rest));
        assert(slices(remaining).drop_first() =~= slices(rest));
        slices_are_not_empty(rest);
    }
}

/// There is always a slice.
proof fn slices_are_not_empty(remaining: nat)
    ensures
        slices(remaining).len() > 0,
{
}

} // verus!
