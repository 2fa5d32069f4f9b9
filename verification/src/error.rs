use vstd::prelude::*;

verus! {

/// The failure shape a handler can return to the host runtime. The runtime
/// itself raises such errors during its pre-invocation validation; no path
/// in this program constructs one.
#[derive(Clone, Copy, Debug, PartialEq, Eq)]
pub enum ProgramError {
    /// A transaction supplied fewer accounts than the descriptor declares.
    NotEnoughAccountKeys,
}

} // verus!
