use vstd::prelude::*;

verus! {

/// Marker object through which the global executor is offered behind the
/// common executor interfaces.
#[derive(Debug, Default, Copy, Clone, PartialEq, Eq, Structural, PartialOrd, Ord)]
pub struct AsyncGlobalExecutor;

} // verus!
