use vstd::prelude::*;

verus! {

/// Returns false if the shared state is not yet initialised.
/// Guards against buggy hosts calling process() before initialize().
pub fn is_ready<T>(state: &Option<T>) -> (ready: bool)
    ensures
        ready == state.is_some(),
{
    state.is_some()
}

} // verus!
