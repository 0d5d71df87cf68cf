//! The backward pass.
use vstd::prelude::*;

verus! {

/// The backward pass of the network. It schedules no device work yet and
/// always succeeds.
pub fn backprop() -> (r: Result<(), ()>)
    ensures
        r == Ok::<(), ()>(()),
{
    Ok(())
}

} // verus!
