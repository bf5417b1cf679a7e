//! Randomly drawn identifiers and simulated event rolls.

use vstd::prelude::*;
use crate::text::{spec_tagged_id, tagged_id};

verus! {

/// Relies on rand::rng and rand::Rng::random_range: a value drawn from the
/// half-open range `lo..hi`. The call panics only on an empty range, which the
/// precondition rules out.
#[verifier::external_body]
fn random_in_range(lo: u64, hi: u64) -> (r: u64)
    requires
        lo < hi,
    ensures
        lo <= r < hi,
{
    let mut generator = rand::rng();
    rand::Rng::random_range(&mut generator, lo..hi)
}

/// A freshly drawn node identity: `node_` and six zero-padded decimal digits
/// of a serial number between 1000 and 999998.
pub fn fresh_node_id() -> (id: String)
    ensures
        exists|n: nat|
            1000 <= n < 999999 && id@ == #[trigger] spec_tagged_id("node_"@, n),
{
    let n = random_in_range(1000, 999999);
    let id = tagged_id("node_", n);
    proof {
        assert(id@ == spec_tagged_id("node_"@, n as nat));
    }
    id
}

/// A freshly drawn task identity for the simulated offer flow: `task_` and six
/// zero-padded decimal digits.
pub fn fresh_task_id() -> (id: String)
    ensures
        exists|n: nat|
            1000 <= n < 999999 && id@ == #[trigger] spec_tagged_id("task_"@, n),
{
    let n = random_in_range(1000, 999999);
    let id = tagged_id("task_", n);
    proof {
        assert(id@ == spec_tagged_id("task_"@, n as nat));
    }
    id
}

/// Roll the simulated once-in-`n` event for this tick; a certain event (one in
/// one) always hits.
pub fn chance_one_in(n: u64) -> (hit: bool)
    requires
        1 <= n,
    ensures
        n == 1 ==> hit,
{
    let r = random_in_range(0, n);
    r == 0
}

} // verus!
