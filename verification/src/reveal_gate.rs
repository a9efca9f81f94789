//! The reveal gate: a typed character becomes perceivable only once a fixed
//! interval has passed since it was typed. A pure, read-only predicate on a
//! cell's timestamp and the present moment; it never changes a cell.

use vstd::prelude::*;
use crate::types::Character;

verus! {

/// A cell's age at the moment `now`, in milliseconds: zero when the clock
/// stands before the cell's creation (ages saturate, they are never
/// negative).
pub open spec fn spec_age(now: u64, created_at: u64) -> nat {
    if now >= created_at {
        (now - created_at) as nat
    } else {
        0
    }
}

/// The reveal gate: a cell is revealed once its age has reached the reveal
/// rate.
pub open spec fn spec_is_revealed(now: u64, created_at: u64, reveal_rate: u64) -> bool {
    spec_age(now, created_at) >= reveal_rate
}

/// Whether the given cell is perceivable at the moment `now` under the
/// given reveal rate, in milliseconds.
pub fn is_revealed(cell: &Character, now: u64, reveal_rate: u64) -> (r: bool)
    ensures
        r == spec_is_revealed(now, cell.timestamp, reveal_rate),
{
    let age = if now >= cell.timestamp {
        now - cell.timestamp
    } else {
        0
    };
    age >= reveal_rate
}

/// Law: reveal status is monotonic. A cell revealed at one moment is
/// revealed at every later moment, because its creation time and the reveal
/// rate never change.
pub proof fn lemma_reveal_monotonic(t1: u64, t2: u64, created_at: u64, reveal_rate: u64)
    requires
        spec_is_revealed(t1, created_at, reveal_rate),
        t1 <= t2,
    ensures
        spec_is_revealed(t2, created_at, reveal_rate),
{
}

} // verus!
