//! Runs of frames, each given by the time that it takes.

use vstd::prelude::*;

verus! {

/// The time that a run of frames takes, in nanoseconds.
pub open spec fn total_time(deltas: Seq<nat>) -> nat
    decreases deltas.len(),
{
    if deltas.len() == 0 {
        0
    } else {
        deltas[0] + total_time(deltas.drop_first())
    }
}

} // verus!
