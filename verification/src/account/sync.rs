use vstd::prelude::*;

use super::Account;

verus! {

/// The builder of a synchronization of an account with the network.
pub struct AccountSynchronizer<'a> {
    /// The account to synchronize.
    pub account: &'a Account,
}

impl<'a> AccountSynchronizer<'a> {
    /// A synchronization of the given account.
    pub fn new(account: &'a Account) -> (synchronizer: Self)
        ensures
            synchronizer.account == account,
    {
        AccountSynchronizer { account }
    }
}

} // verus!
