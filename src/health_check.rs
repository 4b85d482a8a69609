use vstd::prelude::*;

verus! {

/// The liveness probe: always 200, whatever the request holds.
pub fn health_check() -> (r: u16)
    ensures
        r == 200,
{
    200
}

} // verus!
