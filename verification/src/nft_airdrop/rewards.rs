//! Deposits and withdrawals of reward pools, and the share of a pool that a
//! number of NFTs earns.

use vstd::prelude::*;
use crate::arith::mul_div;
use crate::chain::{Transfer, TransferView};
use crate::store::{bytes_eq, copy_bytes};
use super::Airdrop;
use super::models::{RewardsCheckpoint, CheckpointView};
use super::storage::{AirdropError, AirdropView};
use super::validation::{ValidationModule, signature_outcome};

verus! {

/// The share of `rewards_supply` that `user_nft_amount` of `total_nft_supply`
/// NFTs earn, rounded down; an error when the collection is empty or the
/// share does not fit in a `u128`.
pub open spec fn reward_amount(rewards_supply: u128, user_nft_amount: u32, total_nft_supply: u128) -> Result<u128, AirdropError> {
    if total_nft_supply == 0 {
        Err(AirdropError::DivisionByZero)
    } else if (rewards_supply * user_nft_amount) / (total_nft_supply as int) > u128::MAX {
        Err(AirdropError::Overflow)
    } else {
        Ok(((rewards_supply * user_nft_amount) / (total_nft_supply as int)) as u128)
    }
}

/// What depositing a payment of `reward_supply` units of `reward_token` with
/// nonce `reward_nonce` as the reward pool of `root_hash` does.
pub open spec fn add_checkpoint_outcome(
    s: AirdropView,
    caller: Seq<u8>,
    root_hash: Seq<u8>,
    total_nft_supply: u128,
    reward_token: Seq<u8>,
    reward_nonce: u64,
    reward_supply: u128,
) -> Result<AirdropView, AirdropError> {
    if s.rewards_checkpoints.contains_key(root_hash) {
        Err(AirdropError::CheckpointAlreadyExists)
    } else if !s.whitelisted.contains(caller) {
        Err(AirdropError::NotAllowedToDeposit)
    } else if reward_supply == 0 {
        Err(AirdropError::ZeroAmount)
    } else {
        Ok(AirdropView {
            rewards_checkpoints: s.rewards_checkpoints.insert(
                root_hash,
                CheckpointView { total_nft_supply, reward_token, reward_supply, reward_nonce },
            ),
            rewards_owner: s.rewards_owner.insert(root_hash, caller),
            ..s
        })
    }
}

/// What withdrawing the pool of `root_hash`, of which `nft_supply_left` NFTs
/// have not claimed, does: the caller gets the unclaimed share back.
pub open spec fn remove_checkpoint_outcome(
    s: AirdropView,
    caller: Seq<u8>,
    contract_owner: Seq<u8>,
    root_hash: Seq<u8>,
    nft_supply_left: u32,
    signature_valid: bool,
) -> Result<(AirdropView, TransferView), AirdropError> {
    if !s.rewards_checkpoints.contains_key(root_hash) {
        Err(AirdropError::CheckpointDoesNotExist)
    } else if s.rewards_owner.contains_key(root_hash) && s.rewards_owner[root_hash] != caller {
        Err(AirdropError::NotAllowedToRemove)
    } else if !s.rewards_owner.contains_key(root_hash) && caller != contract_owner {
        Err(AirdropError::OnlyOwner)
    } else if signature_outcome(s, signature_valid) is Err {
        Err(signature_outcome(s, signature_valid)->Err_0)
    } else {
        let c = s.rewards_checkpoints[root_hash];
        match reward_amount(c.reward_supply, nft_supply_left, c.total_nft_supply) {
            Err(e) => Err(e),
            Ok(amount) => Ok((
                AirdropView {
                    rewards_checkpoints: s.rewards_checkpoints.remove(root_hash),
                    rewards_owner: s.rewards_owner.remove(root_hash),
                    ..s
                },
                TransferView {
                    to: caller,
                    token: c.reward_token,
                    nonce: c.reward_nonce,
                    amount,
                    data: Seq::empty(),
                },
            )),
        }
    }
}

/// Reward pools of the airdrop contract.
pub trait RewardsModule: View<V = AirdropView> + Sized {
    /// Records the payment that comes with the call as the reward pool of
    /// `root_hash`, for a collection of `total_nft_supply` NFTs.
    fn add_rewards_checkpoint(
        &mut self,
        caller: &Vec<u8>,
        root_hash: &Vec<u8>,
        total_nft_supply: u128,
        reward_token: &Vec<u8>,
        reward_nonce: u64,
        reward_supply: u128,
    ) -> (r: Result<(), AirdropError>)
        ensures
            match add_checkpoint_outcome(
                old(self)@, caller@, root_hash@, total_nft_supply, reward_token@, reward_nonce, reward_supply,
            ) {
                Ok(s2) => r is Ok && final(self)@ == s2,
                Err(e) => r == Err::<(), AirdropError>(e) && final(self)@ == old(self)@,
            },
    ;

    /// Deletes the pool of `root_hash` and returns its unclaimed share to the
    /// caller.
    fn remove_rewards_checkpoint(
        &mut self,
        caller: &Vec<u8>,
        contract_owner: &Vec<u8>,
        root_hash: &Vec<u8>,
        nft_supply_left: u32,
        signature_valid: bool,
    ) -> (r: Result<Transfer, AirdropError>)
        ensures
            match remove_checkpoint_outcome(
                old(self)@, caller@, contract_owner@, root_hash@, nft_supply_left, signature_valid,
            ) {
                Ok((s2, t)) => r matches Ok(tr) && tr@ == t && final(self)@ == s2,
                Err(e) => r == Err::<Transfer, AirdropError>(e) && final(self)@ == old(self)@,
            },
    ;

    /// The share of a pool that a number of NFTs earns.
    fn calculate_reward_amount(
        &self,
        rewards_supply: u128,
        user_nft_amount: u32,
        total_nft_supply: u128,
    ) -> (r: Result<u128, AirdropError>)
        ensures
            r == reward_amount(rewards_supply, user_nft_amount, total_nft_supply),
    ;
}

impl RewardsModule for Airdrop {
    fn add_rewards_checkpoint(
        &mut self,
        caller: &Vec<u8>,
        root_hash: &Vec<u8>,
        total_nft_supply: u128,
        reward_token: &Vec<u8>,
        reward_nonce: u64,
        reward_supply: u128,
    ) -> Result<(), AirdropError> {
        if self.rewards_checkpoints.contains_key(root_hash) {
            return Err(AirdropError::CheckpointAlreadyExists);
        }
        if !self.whitelisted.contains_key(caller) {
            return Err(AirdropError::NotAllowedToDeposit);
        }
        if reward_supply == 0 {
            return Err(AirdropError::ZeroAmount);
        }
        let checkpoint = RewardsCheckpoint {
            total_nft_supply,
            reward_token: copy_bytes(reward_token),
            reward_supply,
            reward_nonce,
        };
        self.rewards_checkpoints.insert(copy_bytes(root_hash), checkpoint);
        self.rewards_owner.insert(copy_bytes(root_hash), copy_bytes(caller));
        Ok(())
    }

    fn remove_rewards_checkpoint(
        &mut self,
        caller: &Vec<u8>,
        contract_owner: &Vec<u8>,
        root_hash: &Vec<u8>,
        nft_supply_left: u32,
        signature_valid: bool,
    ) -> Result<Transfer, AirdropError> {
        let transfer = {
            let checkpoint = match self.rewards_checkpoints.get(root_hash) {
                None => return Err(AirdropError::CheckpointDoesNotExist),
                Some(c) => c,
            };
            match self.rewards_owner.get(root_hash) {
                Some(owner) => {
                    if !bytes_eq(owner, caller) {
                        return Err(AirdropError::NotAllowedToRemove);
                    }
                },
                None => {
                    if !bytes_eq(caller, contract_owner) {
                        return Err(AirdropError::OnlyOwner);
                    }
                },
            }
            match self.verify_signature(signature_valid) {
                Err(e) => return Err(e),
                Ok(()) => {},
            }
            let amount = match self.calculate_reward_amount(
                checkpoint.reward_supply,
                nft_supply_left,
                checkpoint.total_nft_supply,
            ) {
                Err(e) => return Err(e),
                Ok(a) => a,
            };
            Transfer::new(caller, &checkpoint.reward_token, checkpoint.reward_nonce, amount)
        };
        let _ = self.rewards_checkpoints.remove(root_hash);
        let _ = self.rewards_owner.remove(root_hash);
        Ok(transfer)
    }

    fn calculate_reward_amount(
        &self,
        rewards_supply: u128,
        user_nft_amount: u32,
        total_nft_supply: u128,
    ) -> Result<u128, AirdropError> {
        if total_nft_supply == 0 {
            return Err(AirdropError::DivisionByZero);
        }
        match mul_div(rewards_supply, user_nft_amount, total_nft_supply) {
            None => Err(AirdropError::Overflow),
            Some(v) => Ok(v),
        }
    }
}

} // verus!
