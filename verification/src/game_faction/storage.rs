//! The storage of the faction contract and its read-only views.

use vstd::prelude::*;
use crate::store::copy_bytes;
use super::Faction;
use super::models::{DaoItem, DaoItemView};
use super::staking_proxy::StakingContract;

verus! {

/// Why a faction call fails; a failed call changes nothing.
#[derive(Clone, Copy, Debug, PartialEq, Eq, Structural)]
pub enum FactionError {
    /// "Not authorized!": the caller is not the balancer.
    NotBalancer,
    /// "Not part of this faction!"
    NotPartOfFaction,
    /// "Cannot propose without 30000 KRO active staking"
    InsufficientStake,
    /// "Already voted."
    AlreadyVoted,
    /// "Proposal expired."
    ProposalExpired,
    /// "Cannot vote without active KRO staking"
    NoActiveStaking,
    /// "Proposal is active for 3 days."
    ProposalActive,
    /// "The faction does not have the funds for this action."
    InsufficientFunds,
    /// "Not authorized": the caller did not make the proposal.
    NotProposalOwner,
    /// "People already voted"
    PeopleAlreadyVoted,
    /// No proposal is stored under the id.
    ProposalNotFound,
    /// A setting that the call reads (the balancer, krogan or the rewards
    /// pool address, or the platform currency) is not stored.
    NotConfigured,
    /// A proposal's tallies sum to zero.
    DivisionByZero,
    /// A counter, a deadline or an amount exceeds its integer type.
    Overflow,
}

/// The storage of the faction contract, as values. Amounts and counters that
/// the storage does not hold read as zero.
#[verifier::ext_equal]
pub struct FactionView {
    pub balancer: Option<Seq<u8>>,
    /// Empty while not set.
    pub platform_currency: Seq<u8>,
    pub staking_pool: Option<Seq<u8>>,
    pub krogan: Option<Seq<u8>>,
    pub rewards_pool: Option<Seq<u8>>,
    pub minimum_stake: u128,
    pub user_count: u32,
    pub registered: Set<Seq<u8>>,
    pub dao_index: u32,
    pub dao_items: Map<u32, DaoItemView>,
    /// The stake each member voted with on each proposal; never zero.
    pub user_vote_weight: Map<(Seq<u8>, u32), u128>,
    /// The cost of each proposal type; never zero.
    pub proposal_type_cost: Map<Seq<u8>, u128>,
}

/// The value read from an amount map at `k`: zero when absent.
pub open spec fn amount_at<K>(m: Map<K, u128>, k: K) -> u128 {
    if m.contains_key(k) { m[k] } else { 0 }
}

/// The amount map after storing `v` at `k`: storing zero clears the key.
pub open spec fn store_amount<K>(m: Map<K, u128>, k: K, v: u128) -> Map<K, u128> {
    if v == 0 { m.remove(k) } else { m.insert(k, v) }
}

/// The read-only views of the faction contract.
pub trait StorageModule: View<V = FactionView> + Sized {
    /// The balancer contract's address.
    fn get_balancer(&self) -> (r: Option<Vec<u8>>)
        ensures
            opt_bytes(r) == self@.balancer,
    ;

    /// The staking pool's address.
    fn get_staking_pool(&self) -> (r: Option<Vec<u8>>)
        ensures
            opt_bytes(r) == self@.staking_pool,
    ;

    /// The number of registrations made.
    fn get_user_count(&self) -> (r: u32)
        ensures
            r == self@.user_count,
    ;

    /// Whether the address is a member.
    fn is_registered(&self, address: &Vec<u8>) -> (r: bool)
        ensures
            r == self@.registered.contains(address@),
    ;

    /// The id of the last proposal.
    fn get_dao_index(&self) -> (r: u32)
        ensures
            r == self@.dao_index,
    ;

    /// The proposal with this id.
    fn get_dao_item(&self, id: u32) -> (r: Option<DaoItem>)
        ensures
            match r {
                Some(item) => self@.dao_items.contains_key(id) && item@ == self@.dao_items[id],
                None => !self@.dao_items.contains_key(id),
            },
    ;

    /// The stake the address voted with on the proposal; zero if it did not.
    fn get_user_voted(&self, address: &Vec<u8>, id: u32) -> (r: u128)
        ensures
            r == amount_at(self@.user_vote_weight, (address@, id)),
    ;

    /// The cost of carrying out a proposal of this type.
    fn get_proposal_type_cost(&self, proposal_type: &Vec<u8>) -> (r: u128)
        ensures
            r == amount_at(self@.proposal_type_cost, proposal_type@),
    ;

    /// The staking pool, as the contract that the faction queries.
    fn staking_contract(&self) -> (r: Option<StakingContract>)
        ensures
            match r {
                Some(c) => self@.staking_pool == Some(c.sc_address@),
                None => self@.staking_pool is None,
            },
    ;
}

/// An optional byte string, as values.
pub open spec fn opt_bytes(o: Option<Vec<u8>>) -> Option<Seq<u8>> {
    match o {
        Some(v) => Some(v@),
        None => None,
    }
}

/// A copy of an optional byte string.
pub fn copy_opt_bytes(o: &Option<Vec<u8>>) -> (r: Option<Vec<u8>>)
    ensures
        opt_bytes(r) == opt_bytes(*o),
{
    match o {
        Some(v) => Some(copy_bytes(v)),
        None => None,
    }
}

impl StorageModule for Faction {
    fn get_balancer(&self) -> Option<Vec<u8>> {
        copy_opt_bytes(&self.balancer)
    }

    fn get_staking_pool(&self) -> Option<Vec<u8>> {
        copy_opt_bytes(&self.staking_pool)
    }

    fn get_user_count(&self) -> u32 {
        self.user_count
    }

    fn is_registered(&self, address: &Vec<u8>) -> bool {
        self.registered.contains_key(address)
    }

    fn get_dao_index(&self) -> u32 {
        self.dao_index
    }

    fn get_dao_item(&self, id: u32) -> Option<DaoItem> {
        match self.dao_items.get(&id) {
            Some(item) => Some(item.duplicate()),
            None => None,
        }
    }

    fn get_user_voted(&self, address: &Vec<u8>, id: u32) -> u128 {
        match self.user_vote_weight.get(&(copy_bytes(address), id)) {
            Some(w) => *w,
            None => 0,
        }
    }

    fn get_proposal_type_cost(&self, proposal_type: &Vec<u8>) -> u128 {
        match self.proposal_type_cost.get(proposal_type) {
            Some(c) => *c,
            None => 0,
        }
    }

    fn staking_contract(&self) -> Option<StakingContract> {
        match &self.staking_pool {
            Some(a) => Some(StakingContract { sc_address: copy_bytes(a) }),
            None => None,
        }
    }
}

} // verus!
