use crate::address::Address;
use crate::error::ProgramError;
use vstd::prelude::*;

verus! {

/// Accounts descriptor for `initialize`: the complete list of accounts the
/// runtime must validate before the call. This handler requires none.
pub struct Initialize {}

impl Initialize {
    /// How many accounts the descriptor declares: none at all.
    pub open spec fn spec_required_account_count() -> nat {
        0
    }

    /// The declared account count, as the runtime reads it.
    pub fn required_account_count() -> (r: usize)
        ensures
            r == Initialize::spec_required_account_count(),
    {
        0
    }

    /// Pre-invocation validation against the accounts a transaction supplied.
    /// With no account required, every account set passes — the empty one too.
    #[allow(unused_variables)]
    pub fn try_accounts(accounts: &Vec<Address>) -> (r: Result<Initialize, ProgramError>)
        ensures
            r is Ok,
    {
        Ok(Initialize {})
    }
}

} // verus!
