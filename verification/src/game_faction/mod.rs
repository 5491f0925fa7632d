//! The faction contract: a DAO whose members, registered by the balancer,
//! make stake-weighted proposals and votes, and whose accepted proposals are
//! paid for from the faction's funds.

pub mod laws;
pub mod models;
pub mod staking_proxy;
pub mod storage;

use vstd::prelude::*;
use crate::arith::scaled_share;
use crate::chain::{Transfer, TransferView};
use crate::store::{LinearMap, bytes_eq, copy_bytes};
use models::{DaoItem, DaoItemView, ProposalStatus, VoteType};
use staking_proxy::{CurrentUserData, CurrentUserDataCall, StakingContract};
use storage::{FactionError, FactionView, amount_at, opt_bytes, store_amount};

verus! {

/// The voting period of a proposal: three days, in seconds.
pub const VOTING_PERIOD: u64 = 259200;

/// The scale of the vote shares compared when a proposal is concluded.
pub const SHARE_SCALE: u128 = 10000;

/// The storage of the faction contract.
pub struct Faction {
    balancer: Option<Vec<u8>>,
    platform_currency: Vec<u8>,
    staking_pool: Option<Vec<u8>>,
    krogan: Option<Vec<u8>>,
    rewards_pool: Option<Vec<u8>>,
    minimum_stake: u128,
    user_count: u32,
    registered: LinearMap<Vec<u8>, ()>,
    dao_index: u32,
    dao_items: LinearMap<u32, DaoItem>,
    user_vote_weight: LinearMap<(Vec<u8>, u32), u128>,
    proposal_type_cost: LinearMap<Vec<u8>, u128>,
}

impl View for Faction {
    type V = FactionView;

    closed spec fn view(&self) -> FactionView {
        FactionView {
            balancer: opt_bytes(self.balancer),
            platform_currency: self.platform_currency@,
            staking_pool: opt_bytes(self.staking_pool),
            krogan: opt_bytes(self.krogan),
            rewards_pool: opt_bytes(self.rewards_pool),
            minimum_stake: self.minimum_stake,
            user_count: self.user_count,
            registered: self.registered@.dom(),
            dao_index: self.dao_index,
            dao_items: self.dao_items@,
            user_vote_weight: self.user_vote_weight@,
            proposal_type_cost: self.proposal_type_cost@,
        }
    }
}

/// The storage of a faction not yet initialised.
pub open spec fn empty_faction() -> FactionView {
    FactionView {
        balancer: None,
        platform_currency: Seq::empty(),
        staking_pool: None,
        krogan: None,
        rewards_pool: None,
        minimum_stake: 0,
        user_count: 0,
        registered: Set::empty(),
        dao_index: 0,
        dao_items: Map::empty(),
        user_vote_weight: Map::empty(),
        proposal_type_cost: Map::empty(),
    }
}

/// What `init` stores: each value unless one is stored already.
pub open spec fn init_outcome(
    s: FactionView,
    staking_pool: Seq<u8>,
    platform_currency: Seq<u8>,
    krogan: Seq<u8>,
    rewards_pool: Seq<u8>,
    minimum_stake: u128,
) -> FactionView {
    FactionView {
        staking_pool: if s.staking_pool is None { Some(staking_pool) } else { s.staking_pool },
        platform_currency: if s.platform_currency.len() == 0 { platform_currency } else { s.platform_currency },
        krogan: if s.krogan is None { Some(krogan) } else { s.krogan },
        rewards_pool: if s.rewards_pool is None { Some(rewards_pool) } else { s.rewards_pool },
        minimum_stake: if s.minimum_stake == 0 { minimum_stake } else { s.minimum_stake },
        ..s
    }
}

/// Succeeds when the caller is the stored balancer.
pub open spec fn balancer_check(s: FactionView, caller: Seq<u8>) -> Result<(), FactionError> {
    match s.balancer {
        None => Err(FactionError::NotConfigured),
        Some(b) => if b != caller { Err(FactionError::NotBalancer) } else { Ok(()) },
    }
}

/// What setting the cost of a proposal type does.
pub open spec fn register_proposal_type_outcome(s: FactionView, caller: Seq<u8>, proposal_type: Seq<u8>, cost: u128) -> Result<FactionView, FactionError> {
    match balancer_check(s, caller) {
        Err(e) => Err(e),
        Ok(()) => Ok(FactionView { proposal_type_cost: store_amount(s.proposal_type_cost, proposal_type, cost), ..s }),
    }
}

/// What registering a member does; the count goes up on every registration.
pub open spec fn register_user_outcome(s: FactionView, caller: Seq<u8>, address: Seq<u8>) -> Result<FactionView, FactionError> {
    match balancer_check(s, caller) {
        Err(e) => Err(e),
        Ok(()) => if s.user_count + 1 > u32::MAX {
            Err(FactionError::Overflow)
        } else {
            Ok(FactionView { registered: s.registered.insert(address), user_count: (s.user_count + 1) as u32, ..s })
        },
    }
}

/// What swapping a member for another does.
pub open spec fn swap_user_outcome(s: FactionView, caller: Seq<u8>, address: Seq<u8>, with_address: Seq<u8>) -> Result<FactionView, FactionError> {
    match balancer_check(s, caller) {
        Err(e) => Err(e),
        Ok(()) => Ok(FactionView { registered: s.registered.remove(address).insert(with_address), ..s }),
    }
}

/// What removing a member does; the count stays.
pub open spec fn remove_user_outcome(s: FactionView, caller: Seq<u8>, address: Seq<u8>) -> Result<FactionView, FactionError> {
    match balancer_check(s, caller) {
        Err(e) => Err(e),
        Ok(()) => Ok(FactionView { registered: s.registered.remove(address), ..s }),
    }
}

/// The active stake that a `currentUserData` reply reports: the staked
/// balance plus the rewards earned.
pub open spec fn reply_stake(reply: CurrentUserData) -> Result<u128, FactionError> {
    if reply.user_balance + reply.earned > u128::MAX {
        Err(FactionError::Overflow)
    } else {
        Ok((reply.user_balance + reply.earned) as u128)
    }
}

/// The staking query for `address`, as (contract asked, address asked
/// about): it goes to the stored staking pool.
pub open spec fn staking_query_of(s: FactionView, address: Seq<u8>) -> Result<(Seq<u8>, Seq<u8>), FactionError> {
    match s.staking_pool {
        Some(pool) => Ok((pool, address)),
        None => Err(FactionError::NotConfigured),
    }
}

/// The staking query a proposal by `caller` makes, after the checks that
/// come before it.
pub open spec fn propose_query_outcome(s: FactionView, caller: Seq<u8>) -> Result<(Seq<u8>, Seq<u8>), FactionError> {
    if !s.registered.contains(caller) {
        Err(FactionError::NotPartOfFaction)
    } else {
        staking_query_of(s, caller)
    }
}

/// What a proposal by `caller`, made at time `now`, does, where `reply` is
/// what the staking pool answered to the query of `propose_query_outcome`.
pub open spec fn propose_outcome(
    s: FactionView,
    caller: Seq<u8>,
    now: u64,
    reply: CurrentUserData,
    description: Seq<u8>,
    proposal_type: Seq<u8>,
    args: Seq<u8>,
) -> Result<(FactionView, u32), FactionError> {
    match propose_query_outcome(s, caller) {
        Err(e) => Err(e),
        Ok(_) => match reply_stake(reply) {
            Err(e) => Err(e),
            Ok(caller_staking) => open_proposal(s, caller, now, caller_staking, description, proposal_type, args),
        },
    }
}

/// A proposal by `caller` whose active stake is `caller_staking`: it gets
/// the next id, stays open for the voting period and counts the proposer's
/// stake as an up-vote.
pub open spec fn open_proposal(
    s: FactionView,
    caller: Seq<u8>,
    now: u64,
    caller_staking: u128,
    description: Seq<u8>,
    proposal_type: Seq<u8>,
    args: Seq<u8>,
) -> Result<(FactionView, u32), FactionError> {
    if caller_staking < s.minimum_stake {
        Err(FactionError::InsufficientStake)
    } else if s.dao_index + 1 > u32::MAX || now + VOTING_PERIOD > u64::MAX {
        Err(FactionError::Overflow)
    } else {
        let index = (s.dao_index + 1) as u32;
        let item = DaoItemView {
            id: index,
            owner: caller,
            deadline: (now + VOTING_PERIOD) as u64,
            proposal: description,
            proposal_type,
            args,
            up_votes: caller_staking,
            down_votes: 0,
            abstain_votes: 0,
            votes: 1,
            status: ProposalStatus::Pending,
        };
        Ok((
            FactionView {
                dao_index: index,
                dao_items: s.dao_items.insert(index, item),
                user_vote_weight: store_amount(s.user_vote_weight, (caller, index), caller_staking),
                ..s
            },
            index,
        ))
    }
}

/// The proposal after a ballot of `weight` of kind `vote`, if no count overflows.
pub open spec fn tally(item: DaoItemView, vote: VoteType, weight: u128) -> Option<DaoItemView> {
    if item.votes + 1 > u32::MAX {
        None
    } else {
        let votes = (item.votes + 1) as u32;
        match vote {
            VoteType::UpVote => if item.up_votes + weight > u128::MAX {
                None
            } else {
                Some(DaoItemView { up_votes: (item.up_votes + weight) as u128, votes, ..item })
            },
            VoteType::DownVote => if item.down_votes + weight > u128::MAX {
                None
            } else {
                Some(DaoItemView { down_votes: (item.down_votes + weight) as u128, votes, ..item })
            },
            VoteType::AbstainVote => if item.abstain_votes + weight > u128::MAX {
                None
            } else {
                Some(DaoItemView { abstain_votes: (item.abstain_votes + weight) as u128, votes, ..item })
            },
        }
    }
}

/// The staking query a ballot by `caller` on `proposal_id` at time `now`
/// makes, after the checks that come before it.
pub open spec fn vote_query_outcome(
    s: FactionView,
    caller: Seq<u8>,
    proposal_id: u32,
    now: u64,
) -> Result<(Seq<u8>, Seq<u8>), FactionError> {
    if !s.dao_items.contains_key(proposal_id) {
        Err(FactionError::ProposalNotFound)
    } else if !s.registered.contains(caller) {
        Err(FactionError::NotPartOfFaction)
    } else if s.user_vote_weight.contains_key((caller, proposal_id)) {
        Err(FactionError::AlreadyVoted)
    } else if !(s.dao_items[proposal_id].deadline > now) {
        Err(FactionError::ProposalExpired)
    } else {
        staking_query_of(s, caller)
    }
}

/// What a ballot by `caller`, cast at time `now`, does, where `reply` is
/// what the staking pool answered to the query of `vote_query_outcome`.
pub open spec fn vote_outcome(
    s: FactionView,
    caller: Seq<u8>,
    proposal_id: u32,
    vote: VoteType,
    now: u64,
    reply: CurrentUserData,
) -> Result<FactionView, FactionError> {
    match vote_query_outcome(s, caller, proposal_id, now) {
        Err(e) => Err(e),
        Ok(_) => match reply_stake(reply) {
            Err(e) => Err(e),
            Ok(caller_staking) => cast_ballot(s, caller, proposal_id, vote, caller_staking),
        },
    }
}

/// A ballot of kind `vote` by `caller`, whose active stake is
/// `caller_staking`, on the proposal `proposal_id`.
pub open spec fn cast_ballot(
    s: FactionView,
    caller: Seq<u8>,
    proposal_id: u32,
    vote: VoteType,
    caller_staking: u128,
) -> Result<FactionView, FactionError> {
    if caller_staking == 0 {
        Err(FactionError::NoActiveStaking)
    } else {
        match tally(s.dao_items[proposal_id], vote, caller_staking) {
            None => Err(FactionError::Overflow),
            Some(item) => Ok(FactionView {
                dao_items: s.dao_items.insert(proposal_id, item),
                user_vote_weight: s.user_vote_weight.insert((caller, proposal_id), caller_staking),
                ..s
            }),
        }
    }
}

/// The transfers that split `amount` of the platform currency in two halves,
/// rounded down, to krogan and to the rewards pool.
pub open spec fn revenue_split(s: FactionView, amount: u128) -> Result<Seq<TransferView>, FactionError> {
    match (s.krogan, s.rewards_pool) {
        (Some(k), Some(p)) => if s.platform_currency.len() == 0 {
            Err(FactionError::NotConfigured)
        } else {
            Ok(seq![
            TransferView { to: k, token: s.platform_currency, nonce: 0, amount: amount / 2, data: Seq::empty() },
            TransferView { to: p, token: s.platform_currency, nonce: 0, amount: amount / 2, data: Seq::empty() },
        ])
        },
        _ => Err(FactionError::NotConfigured),
    }
}

/// The share of `part` in `total`, in ten-thousandths, rounded down.
pub open spec fn vote_share(part: u128, total: int) -> int {
    (SHARE_SCALE * part) / total
}

/// What concluding a proposal whose voting period is over does, when the
/// faction holds `balance` of the platform currency: it succeeds when its
/// up-vote share is above its down-vote share, and its cost, if any, is then
/// paid out of the faction's funds.
pub open spec fn conclude_outcome(
    s: FactionView,
    caller: Seq<u8>,
    proposal_id: u32,
    now: u64,
    balance: u128,
) -> Result<(FactionView, Seq<TransferView>), FactionError> {
    if !s.dao_items.contains_key(proposal_id) {
        Err(FactionError::ProposalNotFound)
    } else if !s.registered.contains(caller) {
        Err(FactionError::NotPartOfFaction)
    } else if !(s.dao_items[proposal_id].deadline < now) {
        Err(FactionError::ProposalActive)
    } else {
        let item = s.dao_items[proposal_id];
        let total = item.abstain_votes + item.up_votes + item.down_votes;
        if total == 0 {
            Err(FactionError::DivisionByZero)
        } else {
            let up = vote_share(item.up_votes, total);
            let down = vote_share(item.down_votes, total);
            if up > down {
                let cost = amount_at(s.proposal_type_cost, item.proposal_type);
                let succeeded = FactionView {
                    dao_items: s.dao_items.insert(proposal_id, DaoItemView { status: ProposalStatus::Succeeded, ..item }),
                    ..s
                };
                if cost > 0 {
                    if balance < cost {
                        Err(FactionError::InsufficientFunds)
                    } else {
                        match revenue_split(s, cost) {
                            Err(e) => Err(e),
                            Ok(t) => Ok((succeeded, t)),
                        }
                    }
                } else {
                    Ok((succeeded, Seq::empty()))
                }
            } else {
                Ok((
                    FactionView {
                        dao_items: s.dao_items.insert(proposal_id, DaoItemView { status: ProposalStatus::Failed, ..item }),
                        ..s
                    },
                    Seq::empty(),
                ))
            }
        }
    }
}

/// What withdrawing a proposal does: only its proposer may, and only while
/// no one else has voted.
pub open spec fn remove_proposal_outcome(s: FactionView, caller: Seq<u8>, proposal_id: u32) -> Result<FactionView, FactionError> {
    if !s.dao_items.contains_key(proposal_id) {
        Err(FactionError::ProposalNotFound)
    } else if s.dao_items[proposal_id].owner != caller {
        Err(FactionError::NotProposalOwner)
    } else if s.dao_items[proposal_id].votes != 1 {
        Err(FactionError::PeopleAlreadyVoted)
    } else {
        Ok(FactionView { dao_items: s.dao_items.remove(proposal_id), ..s })
    }
}

/// The views of a list of transfers.
pub open spec fn transfer_views(v: Seq<Transfer>) -> Seq<TransferView> {
    v.map_values(|t: Transfer| t@)
}

/// The endpoints of the faction contract. `caller` is the address that signs
/// the transaction, `now` the block timestamp.
pub trait FactionContract: View<V = FactionView> + Sized {
    /// Stores the faction's settings, each unless one is stored already.
    fn init(
        &mut self,
        staking_pool: &Vec<u8>,
        platform_currency: &Vec<u8>,
        krogan: &Vec<u8>,
        rewards_pool: &Vec<u8>,
        minimum_stake: u128,
    )
        ensures
            final(self)@ == init_outcome(old(self)@, staking_pool@, platform_currency@, krogan@, rewards_pool@, minimum_stake),
    ;

    /// Stores the balancer's address unless one is stored already.
    fn register_balancer(&mut self, address: &Vec<u8>)
        ensures
            final(self)@ == (FactionView {
                balancer: if old(self)@.balancer is None { Some(address@) } else { old(self)@.balancer },
                ..old(self)@
            }),
    ;

    /// Sets the cost of carrying out a proposal of a type; balancer only.
    fn register_proposal_type(&mut self, caller: &Vec<u8>, proposal_type: &Vec<u8>, cost: u128) -> (r: Result<(), FactionError>)
        ensures
            match register_proposal_type_outcome(old(self)@, caller@, proposal_type@, cost) {
                Ok(s2) => r is Ok && final(self)@ == s2,
                Err(e) => r == Err::<(), FactionError>(e) && final(self)@ == old(self)@,
            },
    ;

    /// Makes an address a member; balancer only.
    fn register_user(&mut self, caller: &Vec<u8>, address: &Vec<u8>) -> (r: Result<(), FactionError>)
        ensures
            match register_user_outcome(old(self)@, caller@, address@) {
                Ok(s2) => r is Ok && final(self)@ == s2,
                Err(e) => r == Err::<(), FactionError>(e) && final(self)@ == old(self)@,
            },
    ;

    /// Replaces a member by another; balancer only.
    fn swap_user(&mut self, caller: &Vec<u8>, address: &Vec<u8>, with_address: &Vec<u8>) -> (r: Result<(), FactionError>)
        ensures
            match swap_user_outcome(old(self)@, caller@, address@, with_address@) {
                Ok(s2) => r is Ok && final(self)@ == s2,
                Err(e) => r == Err::<(), FactionError>(e) && final(self)@ == old(self)@,
            },
    ;

    /// Removes a member; balancer only.
    fn remove_user(&mut self, caller: &Vec<u8>, address: &Vec<u8>) -> (r: Result<(), FactionError>)
        ensures
            match remove_user_outcome(old(self)@, caller@, address@) {
                Ok(s2) => r is Ok && final(self)@ == s2,
                Err(e) => r == Err::<(), FactionError>(e) && final(self)@ == old(self)@,
            },
    ;

    /// The staking query a proposal by `caller` needs answered, unless the
    /// proposal is refused before it.
    fn propose_query(&self, caller: &Vec<u8>) -> (r: Result<CurrentUserDataCall, FactionError>)
        ensures
            match propose_query_outcome(self@, caller@) {
                Ok((pool, address)) => r matches Ok(c) && c.sc_address@ == pool && c.address@ == address,
                Err(e) => r == Err::<CurrentUserDataCall, FactionError>(e),
            },
    ;

    /// Opens a proposal and returns its id; `reply` is the staking pool's
    /// answer to the query of `propose_query`.
    fn propose(
        &mut self,
        caller: &Vec<u8>,
        now: u64,
        reply: &CurrentUserData,
        description: Vec<u8>,
        proposal_type: Vec<u8>,
        args: Vec<u8>,
    ) -> (r: Result<u32, FactionError>)
        ensures
            match propose_outcome(old(self)@, caller@, now, *reply, description@, proposal_type@, args@) {
                Ok((s2, index)) => r == Ok::<u32, FactionError>(index) && final(self)@ == s2,
                Err(e) => r == Err::<u32, FactionError>(e) && final(self)@ == old(self)@,
            },
    ;

    /// The staking query a ballot by `caller` needs answered, unless the
    /// ballot is refused before it.
    fn vote_query(&self, caller: &Vec<u8>, proposal_id: u32, now: u64) -> (r: Result<CurrentUserDataCall, FactionError>)
        ensures
            match vote_query_outcome(self@, caller@, proposal_id, now) {
                Ok((pool, address)) => r matches Ok(c) && c.sc_address@ == pool && c.address@ == address,
                Err(e) => r == Err::<CurrentUserDataCall, FactionError>(e),
            },
    ;

    /// Casts the caller's ballot on a proposal; `reply` is the staking pool's
    /// answer to the query of `vote_query`.
    fn vote(&mut self, caller: &Vec<u8>, proposal_id: u32, vote: VoteType, now: u64, reply: &CurrentUserData) -> (r: Result<(), FactionError>)
        ensures
            match vote_outcome(old(self)@, caller@, proposal_id, vote, now, *reply) {
                Ok(s2) => r is Ok && final(self)@ == s2,
                Err(e) => r == Err::<(), FactionError>(e) && final(self)@ == old(self)@,
            },
    ;

    /// Decides a proposal whose voting period is over, and returns the
    /// transfers that pay for it.
    fn conclude_proposal(&mut self, caller: &Vec<u8>, proposal_id: u32, now: u64, balance: u128) -> (r: Result<Vec<Transfer>, FactionError>)
        ensures
            match conclude_outcome(old(self)@, caller@, proposal_id, now, balance) {
                Ok((s2, t)) => r matches Ok(v) && transfer_views(v@) == t && final(self)@ == s2,
                Err(e) => r == Err::<Vec<Transfer>, FactionError>(e) && final(self)@ == old(self)@,
            },
    ;

    /// Deletes a proposal that no one else voted on; proposer only.
    fn remove_proposal(&mut self, caller: &Vec<u8>, proposal_id: u32) -> (r: Result<(), FactionError>)
        ensures
            match remove_proposal_outcome(old(self)@, caller@, proposal_id) {
                Ok(s2) => r is Ok && final(self)@ == s2,
                Err(e) => r == Err::<(), FactionError>(e) && final(self)@ == old(self)@,
            },
    ;

    /// The transfers that split an amount between krogan and the rewards pool.
    fn split_game_revenue_and_send(&self, amount: u128) -> (r: Result<Vec<Transfer>, FactionError>)
        ensures
            match revenue_split(self@, amount) {
                Ok(t) => r matches Ok(v) && transfer_views(v@) == t,
                Err(e) => r == Err::<Vec<Transfer>, FactionError>(e),
            },
    ;

    /// The `currentUserData` query of the staking pool for `address`.
    fn staking_query(&self, address: &Vec<u8>) -> (r: Result<CurrentUserDataCall, FactionError>)
        ensures
            match staking_query_of(self@, address@) {
                Ok((pool, asked)) => r matches Ok(c) && c.sc_address@ == pool && c.address@ == asked,
                Err(e) => r == Err::<CurrentUserDataCall, FactionError>(e),
            },
    ;

    /// The active stake that a `currentUserData` reply reports: the staked
    /// balance plus the rewards earned.
    fn get_staking_amount(&self, reply: &CurrentUserData) -> (r: Result<u128, FactionError>)
        ensures
            r == reply_stake(*reply),
    ;
}

impl Faction {
    /// The storage of a faction not yet initialised.
    pub fn new() -> (r: Self)
        ensures
            r@ == empty_faction(),
    {
        let r = Faction {
            balancer: None,
            platform_currency: Vec::new(),
            staking_pool: None,
            krogan: None,
            rewards_pool: None,
            minimum_stake: 0,
            user_count: 0,
            registered: LinearMap::new(),
            dao_index: 0,
            dao_items: LinearMap::new(),
            user_vote_weight: LinearMap::new(),
            proposal_type_cost: LinearMap::new(),
        };
        assert(r@.registered =~= Set::<Seq<u8>>::empty());
        assert(r@.platform_currency =~= Seq::<u8>::empty());
        r
    }

    fn check_balancer(&self, caller: &Vec<u8>) -> (r: Result<(), FactionError>)
        ensures
            r == balancer_check(self@, caller@),
    {
        match &self.balancer {
            None => Err(FactionError::NotConfigured),
            Some(b) => if !bytes_eq(b, caller) {
                Err(FactionError::NotBalancer)
            } else {
                Ok(())
            },
        }
    }

    fn store_vote_weight(&mut self, address: &Vec<u8>, id: u32, weight: u128)
        ensures
            final(self)@ == (FactionView {
                user_vote_weight: store_amount(old(self)@.user_vote_weight, (address@, id), weight),
                ..old(self)@
            }),
    {
        if weight == 0 {
            let _ = self.user_vote_weight.remove(&(copy_bytes(address), id));
        } else {
            self.user_vote_weight.insert((copy_bytes(address), id), weight);
        }
    }
}

impl FactionContract for Faction {
    fn init(
        &mut self,
        staking_pool: &Vec<u8>,
        platform_currency: &Vec<u8>,
        krogan: &Vec<u8>,
        rewards_pool: &Vec<u8>,
        minimum_stake: u128,
    ) {
        if self.staking_pool.is_none() {
            self.staking_pool = Some(copy_bytes(staking_pool));
        }
        if self.platform_currency.len() == 0 {
            self.platform_currency = copy_bytes(platform_currency);
        }
        if self.krogan.is_none() {
            self.krogan = Some(copy_bytes(krogan));
        }
        if self.rewards_pool.is_none() {
            self.rewards_pool = Some(copy_bytes(rewards_pool));
        }
        if self.minimum_stake == 0 {
            self.minimum_stake = minimum_stake;
        }
    }

    fn register_balancer(&mut self, address: &Vec<u8>) {
        if self.balancer.is_none() {
            self.balancer = Some(copy_bytes(address));
        }
    }

    fn register_proposal_type(&mut self, caller: &Vec<u8>, proposal_type: &Vec<u8>, cost: u128) -> Result<(), FactionError> {
        match self.check_balancer(caller) {
            Err(e) => return Err(e),
            Ok(()) => {},
        }
        if cost == 0 {
            let _ = self.proposal_type_cost.remove(proposal_type);
        } else {
            self.proposal_type_cost.insert(copy_bytes(proposal_type), cost);
        }
        Ok(())
    }

    fn register_user(&mut self, caller: &Vec<u8>, address: &Vec<u8>) -> Result<(), FactionError> {
        match self.check_balancer(caller) {
            Err(e) => return Err(e),
            Ok(()) => {},
        }
        let count = match self.user_count.checked_add(1) {
            None => return Err(FactionError::Overflow),
            Some(c) => c,
        };
        self.registered.insert(copy_bytes(address), ());
        self.user_count = count;
        Ok(())
    }

    fn swap_user(&mut self, caller: &Vec<u8>, address: &Vec<u8>, with_address: &Vec<u8>) -> Result<(), FactionError> {
        match self.check_balancer(caller) {
            Err(e) => return Err(e),
            Ok(()) => {},
        }
        let _ = self.registered.remove(address);
        self.registered.insert(copy_bytes(with_address), ());
        Ok(())
    }

    fn remove_user(&mut self, caller: &Vec<u8>, address: &Vec<u8>) -> Result<(), FactionError> {
        match self.check_balancer(caller) {
            Err(e) => return Err(e),
            Ok(()) => {},
        }
        let _ = self.registered.remove(address);
        Ok(())
    }

    fn propose_query(&self, caller: &Vec<u8>) -> Result<CurrentUserDataCall, FactionError> {
        if !self.registered.contains_key(caller) {
            return Err(FactionError::NotPartOfFaction);
        }
        self.staking_query(caller)
    }

    fn propose(
        &mut self,
        caller: &Vec<u8>,
        now: u64,
        reply: &CurrentUserData,
        description: Vec<u8>,
        proposal_type: Vec<u8>,
        args: Vec<u8>,
    ) -> Result<u32, FactionError> {
        if !self.registered.contains_key(caller) {
            return Err(FactionError::NotPartOfFaction);
        }
        if let Err(e) = self.staking_query(caller) {
            return Err(e);
        }
        let caller_staking = match self.get_staking_amount(reply) {
            Err(e) => return Err(e),
            Ok(v) => v,
        };
        if caller_staking < self.minimum_stake {
            return Err(FactionError::InsufficientStake);
        }
        let index = match self.dao_index.checked_add(1) {
            None => return Err(FactionError::Overflow),
            Some(i) => i,
        };
        let deadline = match now.checked_add(VOTING_PERIOD) {
            None => return Err(FactionError::Overflow),
            Some(d) => d,
        };
        self.dao_index = index;
        let item = DaoItem {
            id: index,
            owner: copy_bytes(caller),
            deadline,
            proposal: description,
            proposal_type,
            args,
            up_votes: caller_staking,
            down_votes: 0,
            abstain_votes: 0,
            votes: 1,
            status: ProposalStatus::Pending,
        };
        self.dao_items.insert(index, item);
        self.store_vote_weight(caller, index, caller_staking);
        Ok(index)
    }

    fn vote_query(&self, caller: &Vec<u8>, proposal_id: u32, now: u64) -> Result<CurrentUserDataCall, FactionError> {
        let item = match self.dao_items.get(&proposal_id) {
            None => return Err(FactionError::ProposalNotFound),
            Some(i) => i,
        };
        if !self.registered.contains_key(caller) {
            return Err(FactionError::NotPartOfFaction);
        }
        if self.user_vote_weight.contains_key(&(copy_bytes(caller), proposal_id)) {
            return Err(FactionError::AlreadyVoted);
        }
        if !(item.deadline > now) {
            return Err(FactionError::ProposalExpired);
        }
        self.staking_query(caller)
    }

    fn vote(&mut self, caller: &Vec<u8>, proposal_id: u32, vote: VoteType, now: u64, reply: &CurrentUserData) -> Result<(), FactionError> {
        let (updated, caller_staking) = {
            let item = match self.dao_items.get(&proposal_id) {
                None => return Err(FactionError::ProposalNotFound),
                Some(i) => i,
            };
            if !self.registered.contains_key(caller) {
                return Err(FactionError::NotPartOfFaction);
            }
            if self.user_vote_weight.contains_key(&(copy_bytes(caller), proposal_id)) {
                return Err(FactionError::AlreadyVoted);
            }
            if !(item.deadline > now) {
                return Err(FactionError::ProposalExpired);
            }
            if let Err(e) = self.staking_query(caller) {
                return Err(e);
            }
            let caller_staking = match self.get_staking_amount(reply) {
                Err(e) => return Err(e),
                Ok(v) => v,
            };
            if caller_staking == 0 {
                return Err(FactionError::NoActiveStaking);
            }
            let votes = match item.votes.checked_add(1) {
                None => return Err(FactionError::Overflow),
                Some(v) => v,
            };
            let mut updated = item.duplicate();
            updated.votes = votes;
            match vote {
                VoteType::UpVote => match item.up_votes.checked_add(caller_staking) {
                    None => return Err(FactionError::Overflow),
                    Some(v) => updated.up_votes = v,
                },
                VoteType::DownVote => match item.down_votes.checked_add(caller_staking) {
                    None => return Err(FactionError::Overflow),
                    Some(v) => updated.down_votes = v,
                },
                VoteType::AbstainVote => match item.abstain_votes.checked_add(caller_staking) {
                    None => return Err(FactionError::Overflow),
                    Some(v) => updated.abstain_votes = v,
                },
            }
            (updated, caller_staking)
        };
        self.dao_items.insert(proposal_id, updated);
        self.user_vote_weight.insert((copy_bytes(caller), proposal_id), caller_staking);
        Ok(())
    }

    fn conclude_proposal(&mut self, caller: &Vec<u8>, proposal_id: u32, now: u64, balance: u128) -> Result<Vec<Transfer>, FactionError> {
        let (updated, transfers) = {
            let item = match self.dao_items.get(&proposal_id) {
                None => return Err(FactionError::ProposalNotFound),
                Some(i) => i,
            };
            if !self.registered.contains_key(caller) {
                return Err(FactionError::NotPartOfFaction);
            }
            if !(item.deadline < now) {
                return Err(FactionError::ProposalActive);
            }
            if item.abstain_votes == 0 && item.up_votes == 0 && item.down_votes == 0 {
                return Err(FactionError::DivisionByZero);
            }
            let up_votes = scaled_share(SHARE_SCALE, item.up_votes, item.abstain_votes, item.up_votes, item.down_votes);
            let down_votes = scaled_share(SHARE_SCALE, item.down_votes, item.abstain_votes, item.up_votes, item.down_votes);
            let mut updated = item.duplicate();
            if up_votes > down_votes {
                let cost = match self.proposal_type_cost.get(&item.proposal_type) {
                    Some(c) => *c,
                    None => 0,
                };
                let mut transfers: Vec<Transfer> = Vec::new();
                if cost > 0 {
                    if balance < cost {
                        return Err(FactionError::InsufficientFunds);
                    }
                    transfers = match self.split_game_revenue_and_send(cost) {
                        Err(e) => return Err(e),
                        Ok(t) => t,
                    };
                } else {
                    assert(transfer_views(transfers@) =~= Seq::<TransferView>::empty());
                }
                updated.status = ProposalStatus::Succeeded;
                (updated, transfers)
            } else {
                updated.status = ProposalStatus::Failed;
                let transfers: Vec<Transfer> = Vec::new();
                assert(transfer_views(transfers@) =~= Seq::<TransferView>::empty());
                (updated, transfers)
            }
        };
        self.dao_items.insert(proposal_id, updated);
        Ok(transfers)
    }

    fn remove_proposal(&mut self, caller: &Vec<u8>, proposal_id: u32) -> Result<(), FactionError> {
        match self.dao_items.get(&proposal_id) {
            None => return Err(FactionError::ProposalNotFound),
            Some(item) => {
                if !bytes_eq(&item.owner, caller) {
                    return Err(FactionError::NotProposalOwner);
                }
                if item.votes != 1 {
                    return Err(FactionError::PeopleAlreadyVoted);
                }
            },
        }
        let _ = self.dao_items.remove(&proposal_id);
        Ok(())
    }

    fn split_game_revenue_and_send(&self, amount: u128) -> Result<Vec<Transfer>, FactionError> {
        match (&self.krogan, &self.rewards_pool) {
            (Some(k), Some(p)) => {
                if self.platform_currency.len() == 0 {
                    return Err(FactionError::NotConfigured);
                }
                let mut v: Vec<Transfer> = Vec::new();
                v.push(Transfer::new(k, &self.platform_currency, 0, amount / 2));
                v.push(Transfer::new(p, &self.platform_currency, 0, amount / 2));
                assert(transfer_views(v@) =~= revenue_split(self@, amount)->Ok_0);
                Ok(v)
            },
            _ => Err(FactionError::NotConfigured),
        }
    }

    fn staking_query(&self, address: &Vec<u8>) -> Result<CurrentUserDataCall, FactionError> {
        match &self.staking_pool {
            None => Err(FactionError::NotConfigured),
            Some(pool) => {
                let contract = StakingContract { sc_address: copy_bytes(pool) };
                Ok(contract.current_user_data(address))
            },
        }
    }

    fn get_staking_amount(&self, reply: &CurrentUserData) -> Result<u128, FactionError> {
        match reply.user_balance.checked_add(reply.earned) {
            None => Err(FactionError::Overflow),
            Some(v) => Ok(v),
        }
    }
}

} // verus!
