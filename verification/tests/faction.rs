use game_contracts::chain::Transfer;
use game_contracts::game_faction::models::{ProposalStatus, VoteType};
use game_contracts::game_faction::staking_proxy::{CurrentUserData, CurrentUserDataCall};
use game_contracts::game_faction::storage::{FactionError, StorageModule};
use game_contracts::game_faction::{Faction, FactionContract};

fn addr(b: u8) -> Vec<u8> {
    vec![b; 32]
}

const BALANCER: u8 = 0xBA;
const KROGAN: u8 = 0x4B;
const POOL: u8 = 0x50;
const STAKING: u8 = 0x53;

fn stake(user_balance: u128) -> CurrentUserData {
    CurrentUserData { value0: 0, value1: 0, value2: 0, value3: false, earned: 0, user_balance }
}

fn currency() -> Vec<u8> {
    b"KRO-123456".to_vec()
}

fn setup(minimum_stake: u128) -> Faction {
    let mut f = Faction::new();
    f.init(&addr(STAKING), &currency(), &addr(KROGAN), &addr(POOL), minimum_stake);
    f.register_balancer(&addr(BALANCER));
    f
}

fn with_members(minimum_stake: u128, members: &[u8]) -> Faction {
    let mut f = setup(minimum_stake);
    for m in members {
        f.register_user(&addr(BALANCER), &addr(*m)).unwrap();
    }
    f
}

#[test]
fn init_sets_values_once() {
    let mut f = setup(30);
    f.init(&addr(1), &b"OTHER-000000".to_vec(), &addr(2), &addr(3), 99);
    f.register_balancer(&addr(4));
    assert_eq!(f.get_balancer(), Some(addr(BALANCER)));
    assert_eq!(f.get_staking_pool(), Some(addr(STAKING)));
    assert_eq!(f.staking_contract().unwrap().sc_address, addr(STAKING));
    let split = f.split_game_revenue_and_send(10).unwrap();
    assert_eq!(split[0], Transfer { to: addr(KROGAN), token: currency(), nonce: 0, amount: 5, data: Vec::new() });
    assert_eq!(split[1], Transfer { to: addr(POOL), token: currency(), nonce: 0, amount: 5, data: Vec::new() });
}

#[test]
fn only_balancer_manages_members() {
    let mut f = setup(0);
    assert_eq!(f.register_user(&addr(7), &addr(1)), Err(FactionError::NotBalancer));
    assert!(!f.is_registered(&addr(1)));
    assert_eq!(f.get_user_count(), 0);
    f.register_user(&addr(BALANCER), &addr(1)).unwrap();
    assert!(f.is_registered(&addr(1)));
    assert_eq!(f.get_user_count(), 1);
    assert_eq!(f.remove_user(&addr(7), &addr(1)), Err(FactionError::NotBalancer));
    assert_eq!(f.swap_user(&addr(7), &addr(1), &addr(2)), Err(FactionError::NotBalancer));
    assert_eq!(f.register_proposal_type(&addr(7), &b"starbase".to_vec(), 5), Err(FactionError::NotBalancer));
}

#[test]
fn balancer_unset_refuses_registration() {
    let mut f = Faction::new();
    assert_eq!(f.register_user(&addr(BALANCER), &addr(1)), Err(FactionError::NotConfigured));
}

#[test]
fn count_grows_on_every_registration_and_stays_on_removal() {
    let mut f = with_members(0, &[1, 1]);
    assert_eq!(f.get_user_count(), 2);
    f.remove_user(&addr(BALANCER), &addr(1)).unwrap();
    assert!(!f.is_registered(&addr(1)));
    assert_eq!(f.get_user_count(), 2);
}

#[test]
fn swap_moves_membership() {
    let mut f = with_members(0, &[1]);
    f.swap_user(&addr(BALANCER), &addr(1), &addr(2)).unwrap();
    assert!(!f.is_registered(&addr(1)));
    assert!(f.is_registered(&addr(2)));
    f.swap_user(&addr(BALANCER), &addr(2), &addr(2)).unwrap();
    assert!(f.is_registered(&addr(2)));
}

#[test]
fn proposal_type_cost_zero_clears() {
    let mut f = setup(0);
    let t = b"starbase".to_vec();
    f.register_proposal_type(&addr(BALANCER), &t, 500).unwrap();
    assert_eq!(f.get_proposal_type_cost(&t), 500);
    f.register_proposal_type(&addr(BALANCER), &t, 0).unwrap();
    assert_eq!(f.get_proposal_type_cost(&t), 0);
}

#[test]
fn propose_requires_membership_and_stake() {
    let mut f = with_members(30, &[1]);
    assert_eq!(
        f.propose(&addr(2), 1000, &stake(50), b"d".to_vec(), b"t".to_vec(), b"a".to_vec()),
        Err(FactionError::NotPartOfFaction)
    );
    assert_eq!(
        f.propose(&addr(1), 1000, &stake(29), b"d".to_vec(), b"t".to_vec(), b"a".to_vec()),
        Err(FactionError::InsufficientStake)
    );
    assert_eq!(f.get_dao_index(), 0);
}

#[test]
fn propose_creates_item_with_next_id() {
    let mut f = with_members(30, &[1]);
    let id = f.propose(&addr(1), 1000, &stake(40), b"build".to_vec(), b"starbase".to_vec(), b"x:1;".to_vec()).unwrap();
    assert_eq!(id, 1);
    let item = f.get_dao_item(1).unwrap();
    assert_eq!(item.id, 1);
    assert_eq!(item.owner, addr(1));
    assert_eq!(item.deadline, 1000 + 3 * 24 * 3600);
    assert_eq!(item.proposal, b"build".to_vec());
    assert_eq!(item.proposal_type, b"starbase".to_vec());
    assert_eq!(item.args, b"x:1;".to_vec());
    assert_eq!(item.up_votes, 40);
    assert_eq!(item.down_votes, 0);
    assert_eq!(item.abstain_votes, 0);
    assert_eq!(item.votes, 1);
    assert_eq!(item.status, ProposalStatus::Pending);
    assert_eq!(f.get_user_voted(&addr(1), 1), 40);
    let id2 = f.propose(&addr(1), 1000, &stake(40), b"b".to_vec(), b"s".to_vec(), b"".to_vec()).unwrap();
    assert_eq!(id2, 2);
    assert_eq!(f.get_dao_index(), 2);
}

#[test]
fn propose_deadline_overflow_fails() {
    let mut f = with_members(0, &[1]);
    assert_eq!(
        f.propose(&addr(1), u64::MAX - 10, &stake(1), b"d".to_vec(), b"t".to_vec(), b"a".to_vec()),
        Err(FactionError::Overflow)
    );
    assert_eq!(f.get_dao_index(), 0);
}

#[test]
fn vote_counts_stake_once() {
    let mut f = with_members(0, &[1, 2]);
    let id = f.propose(&addr(1), 1000, &stake(10), b"d".to_vec(), b"t".to_vec(), b"a".to_vec()).unwrap();
    f.vote(&addr(2), id, VoteType::DownVote, 2000, &stake(25)).unwrap();
    let item = f.get_dao_item(id).unwrap();
    assert_eq!(item.down_votes, 25);
    assert_eq!(item.up_votes, 10);
    assert_eq!(item.votes, 2);
    assert_eq!(f.get_user_voted(&addr(2), id), 25);
    assert_eq!(f.vote(&addr(2), id, VoteType::UpVote, 2001, &stake(25)), Err(FactionError::AlreadyVoted));
    assert_eq!(f.vote(&addr(1), id, VoteType::UpVote, 2001, &stake(10)), Err(FactionError::AlreadyVoted));
    assert_eq!(f.get_dao_item(id).unwrap().votes, 2);
}

#[test]
fn vote_refusals() {
    let mut f = with_members(0, &[1, 2]);
    assert_eq!(f.vote(&addr(2), 1, VoteType::UpVote, 10, &stake(5)), Err(FactionError::ProposalNotFound));
    let id = f.propose(&addr(1), 1000, &stake(10), b"d".to_vec(), b"t".to_vec(), b"a".to_vec()).unwrap();
    assert_eq!(f.vote(&addr(3), id, VoteType::UpVote, 10, &stake(5)), Err(FactionError::NotPartOfFaction));
    assert_eq!(f.vote(&addr(2), id, VoteType::UpVote, 1000 + 259200, &stake(5)), Err(FactionError::ProposalExpired));
    assert_eq!(f.vote(&addr(2), id, VoteType::AbstainVote, 1001, &stake(0)), Err(FactionError::NoActiveStaking));
    f.vote(&addr(2), id, VoteType::AbstainVote, 1001, &stake(7)).unwrap();
    assert_eq!(f.get_dao_item(id).unwrap().abstain_votes, 7);
}

#[test]
fn proposer_with_zero_stake_may_vote_again() {
    let mut f = with_members(0, &[1]);
    let id = f.propose(&addr(1), 1000, &stake(0), b"d".to_vec(), b"t".to_vec(), b"a".to_vec()).unwrap();
    assert_eq!(f.get_user_voted(&addr(1), id), 0);
    f.vote(&addr(1), id, VoteType::UpVote, 1001, &stake(3)).unwrap();
    assert_eq!(f.get_dao_item(id).unwrap().votes, 2);
}

#[test]
fn conclude_success_pays_cost() {
    let mut f = with_members(0, &[1, 2]);
    f.register_proposal_type(&addr(BALANCER), &b"starbase".to_vec(), 101).unwrap();
    let id = f.propose(&addr(1), 1000, &stake(60), b"d".to_vec(), b"starbase".to_vec(), b"a".to_vec()).unwrap();
    f.vote(&addr(2), id, VoteType::DownVote, 1001, &stake(40)).unwrap();
    assert_eq!(f.conclude_proposal(&addr(2), id, 1000 + 259200, 1000), Err(FactionError::ProposalActive));
    assert_eq!(f.conclude_proposal(&addr(3), id, 1000 + 259201, 1000), Err(FactionError::NotPartOfFaction));
    assert_eq!(f.conclude_proposal(&addr(2), id, 1000 + 259201, 100), Err(FactionError::InsufficientFunds));
    assert_eq!(f.get_dao_item(id).unwrap().status, ProposalStatus::Pending);
    let t = f.conclude_proposal(&addr(2), id, 1000 + 259201, 101).unwrap();
    assert_eq!(
        t,
        vec![
            Transfer { to: addr(KROGAN), token: currency(), nonce: 0, amount: 50, data: Vec::new() },
            Transfer { to: addr(POOL), token: currency(), nonce: 0, amount: 50, data: Vec::new() },
        ]
    );
    assert_eq!(f.get_dao_item(id).unwrap().status, ProposalStatus::Succeeded);
}

#[test]
fn conclude_tie_fails() {
    let mut f = with_members(0, &[1, 2]);
    let id = f.propose(&addr(1), 1000, &stake(50), b"d".to_vec(), b"t".to_vec(), b"a".to_vec()).unwrap();
    f.vote(&addr(2), id, VoteType::DownVote, 1001, &stake(50)).unwrap();
    let t = f.conclude_proposal(&addr(1), id, 300000, 0).unwrap();
    assert!(t.is_empty());
    assert_eq!(f.get_dao_item(id).unwrap().status, ProposalStatus::Failed);
}

#[test]
fn conclude_shares_are_rounded() {
    // 10000 * 1 / 3 == 3333 and 10000 * 1 / 3 == 3333: a tie after rounding.
    let mut f = with_members(0, &[1, 2, 3]);
    let id = f.propose(&addr(1), 1000, &stake(1), b"d".to_vec(), b"t".to_vec(), b"a".to_vec()).unwrap();
    f.vote(&addr(2), id, VoteType::DownVote, 1001, &stake(1)).unwrap();
    f.vote(&addr(3), id, VoteType::AbstainVote, 1001, &stake(1)).unwrap();
    f.conclude_proposal(&addr(1), id, 300000, 0).unwrap();
    assert_eq!(f.get_dao_item(id).unwrap().status, ProposalStatus::Failed);
}

#[test]
fn conclude_without_cost_sends_nothing() {
    let mut f = with_members(0, &[1]);
    let id = f.propose(&addr(1), 1000, &stake(5), b"d".to_vec(), b"free".to_vec(), b"a".to_vec()).unwrap();
    assert_eq!(f.conclude_proposal(&addr(1), id, 300000, 0), Ok(vec![]));
    assert_eq!(f.get_dao_item(id).unwrap().status, ProposalStatus::Succeeded);
}

#[test]
fn conclude_zero_votes_fails() {
    let mut f = with_members(0, &[1]);
    let id = f.propose(&addr(1), 1000, &stake(0), b"d".to_vec(), b"t".to_vec(), b"a".to_vec()).unwrap();
    assert_eq!(f.conclude_proposal(&addr(1), id, 300000, 0), Err(FactionError::DivisionByZero));
}

#[test]
fn remove_proposal_rules() {
    let mut f = with_members(0, &[1, 2]);
    let id = f.propose(&addr(1), 1000, &stake(5), b"d".to_vec(), b"t".to_vec(), b"a".to_vec()).unwrap();
    assert_eq!(f.remove_proposal(&addr(2), id), Err(FactionError::NotProposalOwner));
    let id2 = f.propose(&addr(1), 1000, &stake(5), b"d".to_vec(), b"t".to_vec(), b"a".to_vec()).unwrap();
    f.vote(&addr(2), id2, VoteType::UpVote, 1001, &stake(1)).unwrap();
    assert_eq!(f.remove_proposal(&addr(1), id2), Err(FactionError::PeopleAlreadyVoted));
    f.remove_proposal(&addr(1), id).unwrap();
    assert!(f.get_dao_item(id).is_none());
    assert_eq!(f.remove_proposal(&addr(1), id), Err(FactionError::ProposalNotFound));
}

#[test]
fn staking_amount_adds_balance_and_rewards() {
    let f = setup(0);
    let reply = CurrentUserData { value0: 9, value1: 8, value2: 7, value3: true, earned: 5, user_balance: 30 };
    assert_eq!(f.get_staking_amount(&reply), Ok(35));
    let big = CurrentUserData { value0: 0, value1: 0, value2: 0, value3: false, earned: u128::MAX, user_balance: 1 };
    assert_eq!(f.get_staking_amount(&big), Err(FactionError::Overflow));
}

#[test]
fn revenue_split_needs_addresses() {
    let f = Faction::new();
    assert_eq!(f.split_game_revenue_and_send(4), Err(FactionError::NotConfigured));
}

#[test]
fn revenue_split_needs_currency() {
    let mut f = Faction::new();
    f.init(&addr(STAKING), &Vec::new(), &addr(KROGAN), &addr(POOL), 0);
    assert_eq!(f.split_game_revenue_and_send(4), Err(FactionError::NotConfigured));
}

#[test]
fn staking_query_goes_to_the_pool() {
    let f = setup(0);
    assert_eq!(f.staking_query(&addr(7)), Ok(CurrentUserDataCall { sc_address: addr(STAKING), address: addr(7) }));
    assert_eq!(Faction::new().staking_query(&addr(7)), Err(FactionError::NotConfigured));
}

#[test]
fn propose_query_checks_membership_first() {
    let f = with_members(0, &[1]);
    assert_eq!(f.propose_query(&addr(2)), Err(FactionError::NotPartOfFaction));
    assert_eq!(f.propose_query(&addr(1)), Ok(CurrentUserDataCall { sc_address: addr(STAKING), address: addr(1) }));
}

#[test]
fn vote_query_checks_ballot_first() {
    let mut f = with_members(0, &[1, 2]);
    assert_eq!(f.vote_query(&addr(2), 1, 1001), Err(FactionError::ProposalNotFound));
    let id = f.propose(&addr(1), 1000, &stake(5), b"d".to_vec(), b"t".to_vec(), b"a".to_vec()).unwrap();
    assert_eq!(f.vote_query(&addr(3), id, 1001), Err(FactionError::NotPartOfFaction));
    assert_eq!(f.vote_query(&addr(1), id, 1001), Err(FactionError::AlreadyVoted));
    assert_eq!(f.vote_query(&addr(2), id, 1000 + 259200), Err(FactionError::ProposalExpired));
    assert_eq!(f.vote_query(&addr(2), id, 1001), Ok(CurrentUserDataCall { sc_address: addr(STAKING), address: addr(2) }));
}

#[test]
fn propose_without_staking_pool_is_refused() {
    let mut f = Faction::new();
    f.register_balancer(&addr(BALANCER));
    f.register_user(&addr(BALANCER), &addr(1)).unwrap();
    assert_eq!(
        f.propose(&addr(1), 1000, &stake(5), b"d".to_vec(), b"t".to_vec(), b"a".to_vec()),
        Err(FactionError::NotConfigured)
    );
}

#[test]
fn proposal_stake_counts_rewards_earned() {
    let mut f = with_members(30, &[1, 2]);
    let reply = CurrentUserData { value0: 1, value1: 2, value2: 3, value3: true, earned: 12, user_balance: 20 };
    let id = f.propose(&addr(1), 1000, &reply, b"d".to_vec(), b"t".to_vec(), b"a".to_vec()).unwrap();
    assert_eq!(f.get_dao_item(id).unwrap().up_votes, 32);
    let overflow = CurrentUserData { value0: 0, value1: 0, value2: 0, value3: false, earned: u128::MAX, user_balance: 1 };
    assert_eq!(f.vote(&addr(2), id, VoteType::UpVote, 1001, &overflow), Err(FactionError::Overflow));
}

#[test]
fn second_ballot_refused_after_other_calls() {
    let mut f = with_members(0, &[1, 2, 3]);
    let id = f.propose(&addr(1), 1000, &stake(5), b"d".to_vec(), b"t".to_vec(), b"a".to_vec()).unwrap();
    f.vote(&addr(2), id, VoteType::UpVote, 1001, &stake(4)).unwrap();
    let other = f.propose(&addr(3), 1002, &stake(2), b"e".to_vec(), b"t".to_vec(), b"a".to_vec()).unwrap();
    f.vote(&addr(2), other, VoteType::DownVote, 1003, &stake(4)).unwrap();
    f.register_user(&addr(BALANCER), &addr(4)).unwrap();
    assert_eq!(f.vote(&addr(2), id, VoteType::DownVote, 1004, &stake(9)), Err(FactionError::AlreadyVoted));
    assert_eq!(f.vote(&addr(1), id, VoteType::DownVote, 1004, &stake(9)), Err(FactionError::AlreadyVoted));
}

#[test]
fn proposal_ids_are_not_reused() {
    let mut f = with_members(0, &[1]);
    let id1 = f.propose(&addr(1), 1000, &stake(5), b"d".to_vec(), b"t".to_vec(), b"a".to_vec()).unwrap();
    f.remove_proposal(&addr(1), id1).unwrap();
    let id2 = f.propose(&addr(1), 1000, &stake(5), b"d".to_vec(), b"t".to_vec(), b"a".to_vec()).unwrap();
    assert_eq!(id2, id1 + 1);
    assert!(f.get_dao_item(id1).is_none());
}

#[test]
fn tallies_add_up_to_recorded_weights() {
    let mut f = with_members(0, &[1, 2, 3]);
    let id = f.propose(&addr(1), 1000, &stake(5), b"d".to_vec(), b"t".to_vec(), b"a".to_vec()).unwrap();
    f.vote(&addr(2), id, VoteType::DownVote, 1001, &stake(7)).unwrap();
    f.vote(&addr(3), id, VoteType::AbstainVote, 1001, &stake(11)).unwrap();
    let item = f.get_dao_item(id).unwrap();
    let weights = f.get_user_voted(&addr(1), id) + f.get_user_voted(&addr(2), id) + f.get_user_voted(&addr(3), id);
    assert_eq!(item.up_votes + item.down_votes + item.abstain_votes, weights);
    assert_eq!(weights, 23);
    assert_eq!(item.votes, 3);
}

#[test]
fn conclude_with_tallies_near_the_limit() {
    let mut f = with_members(0, &[1, 2, 3]);
    let id = f.propose(&addr(1), 1000, &stake(u128::MAX), b"d".to_vec(), b"free".to_vec(), b"a".to_vec()).unwrap();
    f.vote(&addr(2), id, VoteType::DownVote, 1001, &stake(u128::MAX / 2)).unwrap();
    f.vote(&addr(3), id, VoteType::AbstainVote, 1001, &stake(u128::MAX)).unwrap();
    assert_eq!(f.conclude_proposal(&addr(1), id, 300000, 0), Ok(vec![]));
    assert_eq!(f.get_dao_item(id).unwrap().status, ProposalStatus::Succeeded);

    let id2 = f.propose(&addr(1), 1000, &stake(u128::MAX / 3), b"d".to_vec(), b"free".to_vec(), b"a".to_vec()).unwrap();
    f.vote(&addr(2), id2, VoteType::DownVote, 1001, &stake(u128::MAX / 3)).unwrap();
    f.vote(&addr(3), id2, VoteType::AbstainVote, 1001, &stake(u128::MAX / 3)).unwrap();
    f.conclude_proposal(&addr(1), id2, 300000, 0).unwrap();
    assert_eq!(f.get_dao_item(id2).unwrap().status, ProposalStatus::Failed);
}
