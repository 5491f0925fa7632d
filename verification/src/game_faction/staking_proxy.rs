//! The query the faction makes to the staking pool, and the reply it reads.

use vstd::prelude::*;
use crate::store::copy_bytes;

verus! {

/// The staking pool contract, reached at `sc_address`.
pub struct StakingContract {
    pub sc_address: Vec<u8>,
}

/// A call of the staking pool's `currentUserData` view for `address`.
#[derive(Debug, PartialEq, Eq)]
pub struct CurrentUserDataCall {
    pub sc_address: Vec<u8>,
    pub address: Vec<u8>,
}

/// The reply of `currentUserData`; the faction reads the last two values,
/// the rewards earned and the staked balance.
#[derive(Debug, PartialEq, Eq)]
pub struct CurrentUserData {
    pub value0: u128,
    pub value1: u128,
    pub value2: u64,
    pub value3: bool,
    pub earned: u128,
    pub user_balance: u128,
}

impl StakingContract {
    /// The `currentUserData` call for `address`.
    pub fn current_user_data(&self, address: &Vec<u8>) -> (r: CurrentUserDataCall)
        ensures
            r.sc_address@ == self.sc_address@,
            r.address@ == address@,
    {
        CurrentUserDataCall { sc_address: copy_bytes(&self.sc_address), address: copy_bytes(address) }
    }
}

} // verus!
