//! Where network ids come from.

use vstd::prelude::*;

verus! {

/// `rand::random::<u32>()`: a number drawn from the thread's generator.
/// Nothing is promised of it: two draws may or may not differ, and nothing
/// keeps a draw apart from the ids that are live.
#[verifier::external_body]
pub(crate) fn random_network_id() -> (id: u32) {
    rand::random()
}

} // verus!
