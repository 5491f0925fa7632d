//! What holds of the faction contract across calls.

use vstd::prelude::*;
use super::models::{ProposalStatus, VoteType};
use super::staking_proxy::CurrentUserData;
use super::models::DaoItemView;
use super::storage::{FactionError, FactionView, amount_at};
use crate::chain::TransferView;
use super::{
    VOTING_PERIOD, conclude_outcome, empty_faction, init_outcome, propose_outcome, register_proposal_type_outcome,
    register_user_outcome, remove_proposal_outcome, remove_user_outcome, reply_stake, swap_user_outcome, vote_outcome,
    revenue_split, vote_share,
};

verus! {

/// A call of a faction endpoint, with its arguments and environment.
pub enum FactionOp {
    Init { staking_pool: Seq<u8>, platform_currency: Seq<u8>, krogan: Seq<u8>, rewards_pool: Seq<u8>, minimum_stake: u128 },
    RegisterBalancer { address: Seq<u8> },
    RegisterProposalType { caller: Seq<u8>, proposal_type: Seq<u8>, cost: u128 },
    RegisterUser { caller: Seq<u8>, address: Seq<u8> },
    SwapUser { caller: Seq<u8>, address: Seq<u8>, with_address: Seq<u8> },
    RemoveUser { caller: Seq<u8>, address: Seq<u8> },
    Propose { caller: Seq<u8>, now: u64, reply: CurrentUserData, description: Seq<u8>, proposal_type: Seq<u8>, args: Seq<u8> },
    Vote { caller: Seq<u8>, proposal_id: u32, vote: VoteType, now: u64, reply: CurrentUserData },
    Conclude { caller: Seq<u8>, proposal_id: u32, now: u64, balance: u128 },
    RemoveProposal { caller: Seq<u8>, proposal_id: u32 },
}

/// The storage after a call: the new storage when the call succeeds, the old
/// one when it fails.
pub open spec fn faction_step(s: FactionView, op: FactionOp) -> FactionView {
    match op {
        FactionOp::Init { staking_pool, platform_currency, krogan, rewards_pool, minimum_stake } =>
            init_outcome(s, staking_pool, platform_currency, krogan, rewards_pool, minimum_stake),
        FactionOp::RegisterBalancer { address } =>
            FactionView { balancer: if s.balancer is None { Some(address) } else { s.balancer }, ..s },
        FactionOp::RegisterProposalType { caller, proposal_type, cost } =>
            match register_proposal_type_outcome(s, caller, proposal_type, cost) { Ok(s1) => s1, Err(_) => s },
        FactionOp::RegisterUser { caller, address } =>
            match register_user_outcome(s, caller, address) { Ok(s1) => s1, Err(_) => s },
        FactionOp::SwapUser { caller, address, with_address } =>
            match swap_user_outcome(s, caller, address, with_address) { Ok(s1) => s1, Err(_) => s },
        FactionOp::RemoveUser { caller, address } =>
            match remove_user_outcome(s, caller, address) { Ok(s1) => s1, Err(_) => s },
        FactionOp::Propose { caller, now, reply, description, proposal_type, args } =>
            match propose_outcome(s, caller, now, reply, description, proposal_type, args) {
                Ok((s1, _)) => s1,
                Err(_) => s,
            },
        FactionOp::Vote { caller, proposal_id, vote, now, reply } =>
            match vote_outcome(s, caller, proposal_id, vote, now, reply) { Ok(s1) => s1, Err(_) => s },
        FactionOp::Conclude { caller, proposal_id, now, balance } =>
            match conclude_outcome(s, caller, proposal_id, now, balance) { Ok((s1, _)) => s1, Err(_) => s },
        FactionOp::RemoveProposal { caller, proposal_id } =>
            match remove_proposal_outcome(s, caller, proposal_id) { Ok(s1) => s1, Err(_) => s },
    }
}

/// The shape of every storage the contract reaches: each proposal is stored
/// under its own id, which is at most the last id handed out, vote weights
/// are recorded only for ids handed out, and no vote weight or proposal cost
/// is stored as zero.
pub open spec fn faction_wf(s: FactionView) -> bool {
    &&& forall|id: u32| #[trigger] s.dao_items.contains_key(id) ==> 1 <= id <= s.dao_index && s.dao_items[id].id == id
    &&& forall|k: (Seq<u8>, u32)| #[trigger] s.user_vote_weight.contains_key(k) ==> s.user_vote_weight[k] > 0
        && k.1 <= s.dao_index
    &&& s.user_vote_weight.dom().finite()
    &&& forall|t: Seq<u8>| #[trigger] s.proposal_type_cost.contains_key(t) ==> s.proposal_type_cost[t] > 0
}

/// A new faction's storage has the shape of `faction_wf`.
pub proof fn lemma_empty_faction_wf()
    ensures
        faction_wf(empty_faction()),
        tallies_match(empty_faction()),
{
    assert(empty_faction().user_vote_weight.dom() =~= Set::<(Seq<u8>, u32)>::empty());
}

/// Every call keeps the shape of `faction_wf`.
pub proof fn lemma_step_keeps_wf(s: FactionView, op: FactionOp)
    requires
        faction_wf(s),
    ensures
        faction_wf(faction_step(s, op)),
{
    let s1 = faction_step(s, op);
    match op {
        FactionOp::Propose { caller, now, reply, description, proposal_type, args } => {
            if let Ok((t, index)) = propose_outcome(s, caller, now, reply, description, proposal_type, args) {
                assert forall|id: u32| #[trigger] t.dao_items.contains_key(id) implies 1 <= id <= t.dao_index
                    && t.dao_items[id].id == id by {
                    if id != index {
                        assert(s.dao_items.contains_key(id));
                    }
                }
                assert forall|k: (Seq<u8>, u32)| #[trigger] t.user_vote_weight.contains_key(k) implies t.user_vote_weight[k] > 0
                    && k.1 <= t.dao_index by {
                    if k != (caller, index) {
                        assert(s.user_vote_weight.contains_key(k));
                    }
                }
            }
        },
        FactionOp::Vote { caller, proposal_id, vote, now, reply } => {
            if let Ok(t) = vote_outcome(s, caller, proposal_id, vote, now, reply) {
                assert forall|id: u32| #[trigger] t.dao_items.contains_key(id) implies 1 <= id <= t.dao_index
                    && t.dao_items[id].id == id by {
                    assert(s.dao_items.contains_key(id));
                }
                assert forall|k: (Seq<u8>, u32)| #[trigger] t.user_vote_weight.contains_key(k) implies t.user_vote_weight[k] > 0
                    && k.1 <= t.dao_index by {
                    if k != (caller, proposal_id) {
                        assert(s.user_vote_weight.contains_key(k));
                    }
                }
            }
        },
        FactionOp::Conclude { caller, proposal_id, now, balance } => {
            if let Ok((t, _)) = conclude_outcome(s, caller, proposal_id, now, balance) {
                assert forall|id: u32| #[trigger] t.dao_items.contains_key(id) implies 1 <= id <= t.dao_index
                    && t.dao_items[id].id == id by {
                    assert(s.dao_items.contains_key(id));
                }
            }
        },
        _ => {},
    }
}

/// The weight that `m` records at `k`, when `k` is a ballot on proposal `id`.
pub open spec fn weight_on(m: Map<(Seq<u8>, u32), u128>, k: (Seq<u8>, u32), id: u32) -> int {
    if k.1 == id { m[k] as int } else { 0 }
}

/// The weights that `m` records on proposal `id` under the keys `keys`,
/// summed.
pub open spec fn weight_sum(keys: Set<(Seq<u8>, u32)>, m: Map<(Seq<u8>, u32), u128>, id: u32) -> int
    decreases keys.len(),
    when keys.finite()
{
    if keys.len() == 0 {
        0
    } else {
        let k = keys.choose();
        weight_sum(keys.remove(k), m, id) + weight_on(m, k, id)
    }
}

/// The sum may take out any of its keys first.
proof fn lemma_weight_sum_remove(keys: Set<(Seq<u8>, u32)>, m: Map<(Seq<u8>, u32), u128>, id: u32, y: (Seq<u8>, u32))
    requires
        keys.finite(),
        keys.contains(y),
    ensures
        weight_sum(keys, m, id) == weight_sum(keys.remove(y), m, id) + weight_on(m, y, id),
    decreases keys.len(),
{
    let c = keys.choose();
    if c != y {
        let rest = keys.remove(c).remove(y);
        lemma_weight_sum_remove(keys.remove(c), m, id, y);
        lemma_weight_sum_remove(keys.remove(y), m, id, c);
        assert(keys.remove(y).remove(c) =~= rest);
    }
}

/// Adding a new key adds its weight.
proof fn lemma_weight_sum_insert(keys: Set<(Seq<u8>, u32)>, m: Map<(Seq<u8>, u32), u128>, id: u32, x: (Seq<u8>, u32))
    requires
        keys.finite(),
        !keys.contains(x),
    ensures
        weight_sum(keys.insert(x), m, id) == weight_sum(keys, m, id) + weight_on(m, x, id),
{
    lemma_weight_sum_remove(keys.insert(x), m, id, x);
    assert(keys.insert(x).remove(x) =~= keys);
}

/// The sum only reads the weights of its keys.
proof fn lemma_weight_sum_agree(
    keys: Set<(Seq<u8>, u32)>,
    m1: Map<(Seq<u8>, u32), u128>,
    m2: Map<(Seq<u8>, u32), u128>,
    id: u32,
)
    requires
        keys.finite(),
        forall|k: (Seq<u8>, u32)| keys.contains(k) ==> m1[k] == m2[k],
    ensures
        weight_sum(keys, m1, id) == weight_sum(keys, m2, id),
    decreases keys.len(),
{
    if keys.len() > 0 {
        lemma_weight_sum_agree(keys.remove(keys.choose()), m1, m2, id);
    }
}

/// A sum of keys none of which is a ballot on `id` is zero.
proof fn lemma_weight_sum_none(keys: Set<(Seq<u8>, u32)>, m: Map<(Seq<u8>, u32), u128>, id: u32)
    requires
        keys.finite(),
        forall|k: (Seq<u8>, u32)| keys.contains(k) ==> k.1 != id,
    ensures
        weight_sum(keys, m, id) == 0,
    decreases keys.len(),
{
    if keys.len() > 0 {
        lemma_weight_sum_none(keys.remove(keys.choose()), m, id);
    }
}

/// Recording a weight under a new key adds it to the sum of its proposal.
proof fn lemma_weight_sum_record(m: Map<(Seq<u8>, u32), u128>, x: (Seq<u8>, u32), w: u128, id: u32)
    requires
        m.dom().finite(),
        !m.dom().contains(x),
    ensures
        weight_sum(m.insert(x, w).dom(), m.insert(x, w), id) == weight_sum(m.dom(), m, id) + (if x.1 == id { w as int } else { 0 }),
{
    let m2 = m.insert(x, w);
    assert(m2.dom() =~= m.dom().insert(x));
    lemma_weight_sum_insert(m.dom(), m2, id, x);
    lemma_weight_sum_agree(m.dom(), m2, m, id);
}

/// The tallies of every stored proposal add up to the weights recorded on
/// it: the up-, down- and abstain-votes together are the sum of the stakes
/// its proposer and voters were counted with.
pub open spec fn tallies_match(s: FactionView) -> bool {
    forall|id: u32| #[trigger] s.dao_items.contains_key(id) ==> s.dao_items[id].up_votes + s.dao_items[id].down_votes
        + s.dao_items[id].abstain_votes == weight_sum(s.user_vote_weight.dom(), s.user_vote_weight, id)
}

/// Every call keeps the tallies of the stored proposals equal to the weights
/// recorded on them.
pub proof fn lemma_step_keeps_tallies(s: FactionView, op: FactionOp)
    requires
        faction_wf(s),
        tallies_match(s),
    ensures
        tallies_match(faction_step(s, op)),
{
    let m = s.user_vote_weight;
    match op {
        FactionOp::Propose { caller, now, reply, description, proposal_type, args } => {
            if let Ok((t, index)) = propose_outcome(s, caller, now, reply, description, proposal_type, args) {
                let x = (caller, index);
                let w = reply_stake(reply)->Ok_0;
                assert(!m.dom().contains(x));
                lemma_weight_sum_none(m.dom(), m, index);
                if w > 0 {
                    assert forall|id: u32| #[trigger] t.dao_items.contains_key(id) implies t.dao_items[id].up_votes
                        + t.dao_items[id].down_votes + t.dao_items[id].abstain_votes
                        == weight_sum(t.user_vote_weight.dom(), t.user_vote_weight, id) by {
                        lemma_weight_sum_record(m, x, w, id);
                        if id != index {
                            assert(s.dao_items.contains_key(id));
                        }
                    }
                } else {
                    assert(t.user_vote_weight =~= m);
                    assert forall|id: u32| #[trigger] t.dao_items.contains_key(id) implies t.dao_items[id].up_votes
                        + t.dao_items[id].down_votes + t.dao_items[id].abstain_votes
                        == weight_sum(t.user_vote_weight.dom(), t.user_vote_weight, id) by {
                        if id != index {
                            assert(s.dao_items.contains_key(id));
                        }
                    }
                }
            }
        },
        FactionOp::Vote { caller, proposal_id, vote, now, reply } => {
            if let Ok(t) = vote_outcome(s, caller, proposal_id, vote, now, reply) {
                let x = (caller, proposal_id);
                let w = reply_stake(reply)->Ok_0;
                assert forall|id: u32| #[trigger] t.dao_items.contains_key(id) implies t.dao_items[id].up_votes
                    + t.dao_items[id].down_votes + t.dao_items[id].abstain_votes
                    == weight_sum(t.user_vote_weight.dom(), t.user_vote_weight, id) by {
                    lemma_weight_sum_record(m, x, w, id);
                    assert(s.dao_items.contains_key(id));
                }
            }
        },
        FactionOp::Conclude { caller, proposal_id, now, balance } => {
            if let Ok((t, _)) = conclude_outcome(s, caller, proposal_id, now, balance) {
                assert forall|id: u32| #[trigger] t.dao_items.contains_key(id) implies t.dao_items[id].up_votes
                    + t.dao_items[id].down_votes + t.dao_items[id].abstain_votes
                    == weight_sum(t.user_vote_weight.dom(), t.user_vote_weight, id) by {
                    assert(s.dao_items.contains_key(id));
                }
            }
        },
        FactionOp::RemoveProposal { caller, proposal_id } => {
            if let Ok(t) = remove_proposal_outcome(s, caller, proposal_id) {
                assert forall|id: u32| #[trigger] t.dao_items.contains_key(id) implies t.dao_items[id].up_votes
                    + t.dao_items[id].down_votes + t.dao_items[id].abstain_votes
                    == weight_sum(t.user_vote_weight.dom(), t.user_vote_weight, id) by {
                    assert(s.dao_items.contains_key(id));
                }
            }
        },
        _ => {},
    }
}

/// The storage after the calls `ops`, made in order.
pub open spec fn faction_run(s: FactionView, ops: Seq<FactionOp>) -> FactionView
    decreases ops.len(),
{
    if ops.len() == 0 {
        s
    } else {
        faction_step(faction_run(s, ops.drop_last()), ops.last())
    }
}

/// The id that a call returns, when it is a proposal that is accepted.
pub open spec fn proposed_id(s: FactionView, op: FactionOp) -> Option<u32> {
    match op {
        FactionOp::Propose { caller, now, reply, description, proposal_type, args } =>
            match propose_outcome(s, caller, now, reply, description, proposal_type, args) {
                Ok((_, id)) => Some(id),
                Err(_) => None,
            },
        _ => None,
    }
}

/// Whether a call records the weight of `voter` on proposal `id`: an
/// accepted ballot of `voter` on `id`, or an accepted proposal of `voter`
/// that gets `id` and is made with a stake above zero.
pub open spec fn records_weight(s: FactionView, op: FactionOp, voter: Seq<u8>, id: u32) -> bool {
    match op {
        FactionOp::Vote { caller, proposal_id, vote, now, reply } =>
            caller == voter && proposal_id == id && vote_outcome(s, caller, proposal_id, vote, now, reply) is Ok,
        FactionOp::Propose { caller, now, reply, description, proposal_type, args } =>
            caller == voter && proposed_id(s, op) == Some(id) && reply_stake(reply)->Ok_0 > 0,
        _ => false,
    }
}

/// Every sequence of calls keeps the shape of `faction_wf`.
pub proof fn lemma_run_keeps_wf(s: FactionView, ops: Seq<FactionOp>)
    requires
        faction_wf(s),
    ensures
        faction_wf(faction_run(s, ops)),
    decreases ops.len(),
{
    if ops.len() > 0 {
        lemma_run_keeps_wf(s, ops.drop_last());
        lemma_step_keeps_wf(faction_run(s, ops.drop_last()), ops.last());
    }
}

/// A call never lowers the last id handed out, raises it only when it is an
/// accepted proposal, and never forgets a recorded vote weight.
proof fn lemma_step_monotone(s: FactionView, op: FactionOp)
    requires
        faction_wf(s),
    ensures
        faction_step(s, op).dao_index == (if proposed_id(s, op) is Some { s.dao_index + 1 } else { s.dao_index as int }),
        s.user_vote_weight.dom().subset_of(faction_step(s, op).user_vote_weight.dom()),
{
    match op {
        FactionOp::Propose { caller, now, reply, description, proposal_type, args } => {
            if let Ok((t, index)) = propose_outcome(s, caller, now, reply, description, proposal_type, args) {
                assert(!s.user_vote_weight.contains_key((caller, index)));
            }
        },
        _ => {},
    }
}

/// Calls never lower the last id handed out, raise it only through accepted
/// proposals, and never forget a recorded vote weight.
proof fn lemma_run_monotone(s: FactionView, ops: Seq<FactionOp>)
    requires
        faction_wf(s),
    ensures
        faction_run(s, ops).dao_index >= s.dao_index,
        (forall|i: int| 0 <= i < ops.len() ==> #[trigger] proposed_id(faction_run(s, ops.take(i)), ops[i]) is None)
            ==> faction_run(s, ops).dao_index == s.dao_index,
        s.user_vote_weight.dom().subset_of(faction_run(s, ops).user_vote_weight.dom()),
    decreases ops.len(),
{
    if ops.len() > 0 {
        let prefix = ops.drop_last();
        lemma_run_monotone(s, prefix);
        lemma_run_keeps_wf(s, prefix);
        lemma_step_monotone(faction_run(s, prefix), ops.last());
        if forall|i: int| 0 <= i < ops.len() ==> #[trigger] proposed_id(faction_run(s, ops.take(i)), ops[i]) is None {
            assert forall|i: int| 0 <= i < prefix.len() implies #[trigger] proposed_id(faction_run(s, prefix.take(i)), prefix[i]) is None by {
                assert(prefix.take(i) =~= ops.take(i));
                assert(proposed_id(faction_run(s, ops.take(i)), ops[i]) is None);
            }
            assert(ops.take(prefix.len() as int) =~= prefix);
            assert(proposed_id(faction_run(s, ops.take(prefix.len() as int)), ops[prefix.len() as int]) is None);
        }
    }
}

/// Proposal ids increase: a proposal accepted after another, whatever calls
/// came between, gets a larger id, one that no stored proposal has; when no
/// other proposal was accepted between them, it gets the next id.
pub proof fn lemma_proposal_ids_increase(s: FactionView, first: FactionOp, ops: Seq<FactionOp>, second: FactionOp)
    requires
        faction_wf(s),
        proposed_id(s, first) is Some,
        proposed_id(faction_run(faction_step(s, first), ops), second) is Some,
    ensures
        ({
            let s1 = faction_step(s, first);
            let s2 = faction_run(s1, ops);
            let id1 = proposed_id(s, first)->Some_0;
            let id2 = proposed_id(s2, second)->Some_0;
            &&& id2 > id1
            &&& !s2.dao_items.contains_key(id2)
            &&& (forall|i: int| 0 <= i < ops.len() ==> #[trigger] proposed_id(faction_run(s1, ops.take(i)), ops[i]) is None)
                ==> id2 == id1 + 1
        }),
{
    let s1 = faction_step(s, first);
    lemma_step_keeps_wf(s, first);
    lemma_step_monotone(s, first);
    lemma_run_monotone(s1, ops);
    lemma_run_keeps_wf(s1, ops);
}

/// A member votes at most once on a proposal: once a call records the
/// member's weight on it (an accepted ballot, or the member's own proposal
/// made with a stake), every later ballot of the member on it is refused,
/// whatever calls came between; while the proposal exists and the member
/// belongs to the faction, it is refused as a second ballot.
pub proof fn lemma_vote_once(
    s: FactionView,
    first: FactionOp,
    ops: Seq<FactionOp>,
    voter: Seq<u8>,
    proposal_id: u32,
    vote: VoteType,
    now: u64,
    reply: CurrentUserData,
)
    requires
        faction_wf(s),
        records_weight(s, first, voter, proposal_id),
    ensures
        ({
            let s2 = faction_run(faction_step(s, first), ops);
            &&& vote_outcome(s2, voter, proposal_id, vote, now, reply) is Err
            &&& s2.dao_items.contains_key(proposal_id) && s2.registered.contains(voter) ==> vote_outcome(
                s2,
                voter,
                proposal_id,
                vote,
                now,
                reply,
            ) == Err::<FactionView, FactionError>(FactionError::AlreadyVoted)
        }),
{
    let s1 = faction_step(s, first);
    lemma_step_keeps_wf(s, first);
    assert(s1.user_vote_weight.contains_key((voter, proposal_id)));
    lemma_run_monotone(s1, ops);
    assert(faction_run(s1, ops).user_vote_weight.contains_key((voter, proposal_id)));
}

/// Every sequence of calls keeps the tallies of the stored proposals equal
/// to the weights recorded on them.
pub proof fn lemma_run_keeps_tallies(s: FactionView, ops: Seq<FactionOp>)
    requires
        faction_wf(s),
        tallies_match(s),
    ensures
        tallies_match(faction_run(s, ops)),
    decreases ops.len(),
{
    if ops.len() > 0 {
        lemma_run_keeps_tallies(s, ops.drop_last());
        lemma_run_keeps_wf(s, ops.drop_last());
        lemma_step_keeps_tallies(faction_run(s, ops.drop_last()), ops.last());
    }
}

/// Whether a call is an accepted ballot on proposal `id`.
pub open spec fn ballot_on(s: FactionView, op: FactionOp, id: u32) -> bool {
    match op {
        FactionOp::Vote { caller, proposal_id, vote, now, reply } =>
            proposal_id == id && vote_outcome(s, caller, proposal_id, vote, now, reply) is Ok,
        _ => false,
    }
}

/// The accepted ballots on proposal `id` among the calls `ops` made in order
/// from `s`.
pub open spec fn ballots_on(s: FactionView, ops: Seq<FactionOp>, id: u32) -> nat
    decreases ops.len(),
{
    if ops.len() == 0 {
        0
    } else {
        ballots_on(s, ops.drop_last(), id) + if ballot_on(faction_run(s, ops.drop_last()), ops.last(), id) {
            1nat
        } else {
            0nat
        }
    }
}

/// A call keeps a proposal id that was handed out from being stored anew,
/// and counts one more ballot on it exactly when it is an accepted ballot
/// on it.
proof fn lemma_step_ballots(s: FactionView, op: FactionOp, id: u32)
    requires
        faction_wf(s),
        id <= s.dao_index,
    ensures
        faction_step(s, op).dao_items.contains_key(id) ==> s.dao_items.contains_key(id)
            && faction_step(s, op).dao_items[id].votes == s.dao_items[id].votes + if ballot_on(s, op, id) { 1int } else { 0int },
{
}

/// Calls after a proposal id was handed out never store it anew, and count
/// one more ballot on it for each accepted ballot on it.
proof fn lemma_run_ballots(s: FactionView, ops: Seq<FactionOp>, id: u32)
    requires
        faction_wf(s),
        id <= s.dao_index,
    ensures
        faction_run(s, ops).dao_items.contains_key(id) ==> s.dao_items.contains_key(id)
            && faction_run(s, ops).dao_items[id].votes == s.dao_items[id].votes + ballots_on(s, ops, id),
    decreases ops.len(),
{
    if ops.len() > 0 {
        let prefix = ops.drop_last();
        lemma_run_ballots(s, prefix, id);
        lemma_run_keeps_wf(s, prefix);
        lemma_run_monotone(s, prefix);
        lemma_step_ballots(faction_run(s, prefix), ops.last(), id);
    }
}

/// A proposal counts its proposer's ballot and one per accepted ballot on
/// it: whatever calls come after it was made, while it is stored, its
/// ballot count is one more than the ballots on it that were accepted.
pub proof fn lemma_ballot_count(s: FactionView, first: FactionOp, ops: Seq<FactionOp>)
    requires
        faction_wf(s),
        proposed_id(s, first) is Some,
    ensures
        ({
            let id = proposed_id(s, first)->Some_0;
            let s1 = faction_step(s, first);
            let s2 = faction_run(s1, ops);
            s2.dao_items.contains_key(id) ==> s2.dao_items[id].votes == 1 + ballots_on(s1, ops, id)
        }),
{
    let id = proposed_id(s, first)->Some_0;
    let s1 = faction_step(s, first);
    lemma_step_keeps_wf(s, first);
    lemma_run_ballots(s1, ops, id);
}

/// The balancer's address is set once: a second registration leaves the
/// first address in place.
pub proof fn lemma_balancer_set_once(s: FactionView, first: Seq<u8>, second: Seq<u8>)
    requires
        s.balancer is None,
    ensures
        faction_step(
            faction_step(s, FactionOp::RegisterBalancer { address: first }),
            FactionOp::RegisterBalancer { address: second },
        ).balancer == Some(first),
{
}

/// A new proposal gets the id after the last one handed out, an id that no
/// stored proposal has: proposals never overwrite one another.
pub proof fn lemma_propose_fresh_id(
    s: FactionView,
    caller: Seq<u8>,
    now: u64,
    reply: CurrentUserData,
    description: Seq<u8>,
    proposal_type: Seq<u8>,
    args: Seq<u8>,
)
    requires
        faction_wf(s),
        propose_outcome(s, caller, now, reply, description, proposal_type, args) is Ok,
    ensures
        ({
            let (s1, id) = propose_outcome(s, caller, now, reply, description, proposal_type, args)->Ok_0;
            &&& id == s.dao_index + 1
            &&& !s.dao_items.contains_key(id)
            &&& s1.dao_items.dom() == s.dao_items.dom().insert(id)
            &&& s1.dao_items[id].owner == caller
            &&& s1.dao_items[id].votes == 1
            &&& s1.dao_items[id].up_votes == reply_stake(reply)->Ok_0
            &&& s1.dao_items[id].status == ProposalStatus::Pending
        }),
{
    let (s1, id) = propose_outcome(s, caller, now, reply, description, proposal_type, args)->Ok_0;
    assert(s1.dao_items.dom() =~= s.dao_items.dom().insert(id));
}

/// An accepted ballot adds the voter's stake to the tally it chose, leaves
/// the other tallies as they were, counts one more ballot and records the
/// stake as the voter's weight.
pub proof fn lemma_vote_tally(
    s: FactionView,
    caller: Seq<u8>,
    proposal_id: u32,
    vote: VoteType,
    now: u64,
    reply: CurrentUserData,
)
    requires
        vote_outcome(s, caller, proposal_id, vote, now, reply) is Ok,
    ensures
        ({
            let s1 = vote_outcome(s, caller, proposal_id, vote, now, reply)->Ok_0;
            let before = s.dao_items[proposal_id];
            let after = s1.dao_items[proposal_id];
            &&& after.votes == before.votes + 1
            &&& after.up_votes + after.down_votes + after.abstain_votes
                == before.up_votes + before.down_votes + before.abstain_votes + reply_stake(reply)->Ok_0
            &&& (vote == VoteType::UpVote ==> after.up_votes == before.up_votes + reply_stake(reply)->Ok_0)
            &&& (vote != VoteType::UpVote ==> after.up_votes == before.up_votes)
            &&& (vote == VoteType::DownVote ==> after.down_votes == before.down_votes + reply_stake(reply)->Ok_0)
            &&& (vote != VoteType::DownVote ==> after.down_votes == before.down_votes)
            &&& s1.user_vote_weight[(caller, proposal_id)] == reply_stake(reply)->Ok_0
            &&& reply_stake(reply)->Ok_0 > 0
        }),
{
}

/// A concluded proposal succeeds exactly when its up-vote share is above its
/// down-vote share; a failed one pays nothing, and a succeeded one pays at
/// most its cost, in two halves.
pub proof fn lemma_conclude_decision(s: FactionView, caller: Seq<u8>, proposal_id: u32, now: u64, balance: u128)
    requires
        conclude_outcome(s, caller, proposal_id, now, balance) is Ok,
    ensures
        ({
            let (s1, transfers) = conclude_outcome(s, caller, proposal_id, now, balance)->Ok_0;
            let item = s.dao_items[proposal_id];
            let total = item.abstain_votes + item.up_votes + item.down_votes;
            let up = vote_share(item.up_votes, total);
            let down = vote_share(item.down_votes, total);
            &&& total > 0
            &&& (s1.dao_items[proposal_id].status == ProposalStatus::Succeeded) == (up > down)
            &&& (s1.dao_items[proposal_id].status == ProposalStatus::Succeeded
                || s1.dao_items[proposal_id].status == ProposalStatus::Failed)
            &&& (up <= down ==> transfers.len() == 0)
            &&& (transfers.len() == 0 || transfers.len() == 2)
            &&& (transfers.len() == 2 ==> transfers[0].amount + transfers[1].amount <= balance
                && transfers[0].amount == transfers[1].amount)
        }),
{
}

/// The proposer may withdraw a new proposal, and no longer once another
/// member has voted on it.
pub proof fn lemma_withdraw_before_votes(
    s: FactionView,
    caller: Seq<u8>,
    now: u64,
    reply: CurrentUserData,
    description: Seq<u8>,
    proposal_type: Seq<u8>,
    args: Seq<u8>,
    voter: Seq<u8>,
    vote: VoteType,
    vote_time: u64,
    voter_reply: CurrentUserData,
)
    requires
        propose_outcome(s, caller, now, reply, description, proposal_type, args) is Ok,
    ensures
        ({
            let (s1, id) = propose_outcome(s, caller, now, reply, description, proposal_type, args)->Ok_0;
            &&& remove_proposal_outcome(s1, caller, id) is Ok
            &&& vote_outcome(s1, voter, id, vote, vote_time, voter_reply) is Ok ==> remove_proposal_outcome(
                vote_outcome(s1, voter, id, vote, vote_time, voter_reply)->Ok_0,
                caller,
                id,
            ) == Err::<FactionView, FactionError>(FactionError::PeopleAlreadyVoted)
        }),
{
}

/// The balancer sets a proposal type's cost: its call is accepted, and
/// afterwards the type costs exactly what it asked (zero meaning no cost),
/// whatever it cost before, while every other type and setting keeps its
/// value. Anyone else is refused and changes nothing.
pub proof fn lemma_proposal_type_cost_set(s: FactionView, caller: Seq<u8>, proposal_type: Seq<u8>, cost: u128, other: Seq<u8>)
    ensures
        s.balancer == Some(caller) ==> {
            let r = register_proposal_type_outcome(s, caller, proposal_type, cost);
            &&& r is Ok
            &&& amount_at(r->Ok_0.proposal_type_cost, proposal_type) == cost
            &&& other != proposal_type ==> amount_at(r->Ok_0.proposal_type_cost, other) == amount_at(
                s.proposal_type_cost,
                other,
            )
            &&& r->Ok_0 == (FactionView { proposal_type_cost: r->Ok_0.proposal_type_cost, ..s })
        },
        s.balancer != Some(caller) ==> register_proposal_type_outcome(s, caller, proposal_type, cost) is Err,
{
}

/// A ballot is counted whatever the faction's minimum stake: a member with
/// an active stake `w` above zero, who has no weight recorded on an existing
/// proposal whose deadline is still ahead, has the ballot accepted when no
/// count overflows. Exactly the chosen tally grows by `w`, the ballot count
/// by one, the member's weight on the proposal is recorded as `w`, and
/// nothing else changes.
pub proof fn lemma_ballot_counted(
    s: FactionView,
    caller: Seq<u8>,
    proposal_id: u32,
    vote: VoteType,
    now: u64,
    reply: CurrentUserData,
)
    requires
        s.dao_items.contains_key(proposal_id),
        s.registered.contains(caller),
        !s.user_vote_weight.contains_key((caller, proposal_id)),
        now < s.dao_items[proposal_id].deadline,
        s.staking_pool is Some,
        0 < reply.user_balance + reply.earned <= u128::MAX,
        s.dao_items[proposal_id].votes < u32::MAX,
        s.dao_items[proposal_id].up_votes + reply.user_balance + reply.earned <= u128::MAX,
        s.dao_items[proposal_id].down_votes + reply.user_balance + reply.earned <= u128::MAX,
        s.dao_items[proposal_id].abstain_votes + reply.user_balance + reply.earned <= u128::MAX,
    ensures
        ({
            let r = vote_outcome(s, caller, proposal_id, vote, now, reply);
            let w = reply.user_balance + reply.earned;
            let a = s.dao_items[proposal_id];
            let b = r->Ok_0.dao_items[proposal_id];
            &&& r is Ok
            &&& b.votes == a.votes + 1
            &&& b.up_votes == a.up_votes + if vote == VoteType::UpVote { w } else { 0 }
            &&& b.down_votes == a.down_votes + if vote == VoteType::DownVote { w } else { 0 }
            &&& b.abstain_votes == a.abstain_votes + if vote == VoteType::AbstainVote { w } else { 0 }
            &&& b == (DaoItemView {
                up_votes: b.up_votes,
                down_votes: b.down_votes,
                abstain_votes: b.abstain_votes,
                votes: b.votes,
                ..a
            })
            &&& r->Ok_0 == (FactionView {
                dao_items: s.dao_items.insert(proposal_id, b),
                user_vote_weight: s.user_vote_weight.insert((caller, proposal_id), w as u128),
                ..s
            })
        }),
{
}

/// A ballot with no active stake is refused as such once the checks before
/// the staking query pass, and no ballot counts more than the voter's
/// active stake.
pub proof fn lemma_ballot_weight(
    s: FactionView,
    caller: Seq<u8>,
    proposal_id: u32,
    vote: VoteType,
    now: u64,
    reply: CurrentUserData,
)
    ensures
        vote_outcome(s, caller, proposal_id, vote, now, reply) is Ok ==> {
            let s1 = vote_outcome(s, caller, proposal_id, vote, now, reply)->Ok_0;
            &&& 0 < reply.user_balance + reply.earned
            &&& s1.user_vote_weight[(caller, proposal_id)] == reply.user_balance + reply.earned
            &&& s1.registered == s.registered
            &&& s1.minimum_stake == s.minimum_stake
        },
        s.dao_items.contains_key(proposal_id) && s.registered.contains(caller) && !s.user_vote_weight.contains_key(
            (caller, proposal_id),
        ) && now < s.dao_items[proposal_id].deadline && s.staking_pool is Some && reply.user_balance
            + reply.earned == 0 ==> vote_outcome(s, caller, proposal_id, vote, now, reply) == Err::<
            FactionView,
            FactionError,
        >(FactionError::NoActiveStaking),
{
}

/// A member with an active stake `w` of at least the minimum stake opens a
/// proposal when the id and deadline fit: it gets the id after the last
/// one, is owned by the proposer, ends three days after the call, and
/// starts with `w` up-votes and one ballot; a stake below the minimum is
/// refused.
pub proof fn lemma_proposal_opened(
    s: FactionView,
    caller: Seq<u8>,
    now: u64,
    reply: CurrentUserData,
    description: Seq<u8>,
    proposal_type: Seq<u8>,
    args: Seq<u8>,
)
    requires
        s.registered.contains(caller),
        s.staking_pool is Some,
        reply.user_balance + reply.earned <= u128::MAX,
    ensures
        ({
            let w = reply.user_balance + reply.earned;
            let r = propose_outcome(s, caller, now, reply, description, proposal_type, args);
            &&& w < s.minimum_stake ==> r == Err::<(FactionView, u32), FactionError>(FactionError::InsufficientStake)
            &&& w >= s.minimum_stake && s.dao_index < u32::MAX && now + 259200 <= u64::MAX ==> {
                &&& r is Ok
                &&& r->Ok_0.1 == s.dao_index + 1
                &&& r->Ok_0.0.dao_index == s.dao_index + 1
                &&& r->Ok_0.0.dao_items[r->Ok_0.1] == (DaoItemView {
                    id: r->Ok_0.1,
                    owner: caller,
                    deadline: (now + 259200) as u64,
                    proposal: description,
                    proposal_type,
                    args,
                    up_votes: w as u128,
                    down_votes: 0,
                    abstain_votes: 0,
                    votes: 1,
                    status: ProposalStatus::Pending,
                })
                &&& amount_at(r->Ok_0.0.user_vote_weight, (caller, r->Ok_0.1)) == w
                &&& r->Ok_0.0.registered == s.registered
            }
        }),
{
    assert(VOTING_PERIOD == 259200);
}

/// A concluded proposal that succeeds pays exactly its type's cost, whatever
/// the faction holds beyond it: when the cost `c` is above zero the faction
/// held at least `c`, and the transfers are `c / 2` of the platform currency
/// to krogan and `c / 2` to the rewards pool; a failed proposal, or one of no
/// cost, pays nothing. Only the proposal's status changes.
pub proof fn lemma_conclude_pays_cost(s: FactionView, caller: Seq<u8>, proposal_id: u32, now: u64, balance: u128)
    requires
        conclude_outcome(s, caller, proposal_id, now, balance) is Ok,
    ensures
        ({
            let (s1, transfers) = conclude_outcome(s, caller, proposal_id, now, balance)->Ok_0;
            let item = s.dao_items[proposal_id];
            let cost = amount_at(s.proposal_type_cost, item.proposal_type);
            let status = s1.dao_items[proposal_id].status;
            &&& s.dao_items.contains_key(proposal_id)
            &&& s.registered.contains(caller)
            &&& item.deadline < now
            &&& status == ProposalStatus::Succeeded && cost > 0 ==> {
                &&& balance >= cost
                &&& transfers == seq![
                    TransferView { to: s.krogan->Some_0, token: s.platform_currency, nonce: 0, amount: cost / 2, data: Seq::empty() },
                    TransferView { to: s.rewards_pool->Some_0, token: s.platform_currency, nonce: 0, amount: cost / 2, data: Seq::empty() },
                ]
            }
            &&& status == ProposalStatus::Failed || cost == 0 ==> transfers.len() == 0
            &&& s1 == (FactionView { dao_items: s.dao_items.insert(proposal_id, DaoItemView { status, ..item }), ..s })
        }),
{
}

/// A proposal whose decision is to succeed and whose cost `c` is above zero
/// is concluded exactly when the faction holds at least `c` and its payees
/// and currency are set; it is refused for want of funds otherwise, whatever
/// the balance above or below.
pub proof fn lemma_conclude_needs_funds(s: FactionView, caller: Seq<u8>, proposal_id: u32, now: u64, balance: u128)
    requires
        s.dao_items.contains_key(proposal_id),
        s.registered.contains(caller),
        s.dao_items[proposal_id].deadline < now,
        vote_share(s.dao_items[proposal_id].up_votes, s.dao_items[proposal_id].abstain_votes + s.dao_items[proposal_id].up_votes
            + s.dao_items[proposal_id].down_votes) > vote_share(
            s.dao_items[proposal_id].down_votes,
            s.dao_items[proposal_id].abstain_votes + s.dao_items[proposal_id].up_votes + s.dao_items[proposal_id].down_votes,
        ),
        amount_at(s.proposal_type_cost, s.dao_items[proposal_id].proposal_type) > 0,
        s.krogan is Some,
        s.rewards_pool is Some,
        s.platform_currency.len() > 0,
    ensures
        balance >= amount_at(s.proposal_type_cost, s.dao_items[proposal_id].proposal_type) ==> conclude_outcome(
            s,
            caller,
            proposal_id,
            now,
            balance,
        ) is Ok,
        balance < amount_at(s.proposal_type_cost, s.dao_items[proposal_id].proposal_type) ==> conclude_outcome(
            s,
            caller,
            proposal_id,
            now,
            balance,
        ) == Err::<(FactionView, Seq<TransferView>), FactionError>(FactionError::InsufficientFunds),
{
    let item = s.dao_items[proposal_id];
    let total = item.abstain_votes + item.up_votes + item.down_votes;
    if total == 0 {
        assert(vote_share(item.up_votes, total) == vote_share(item.down_votes, total));
    }
}

/// The balancer manages the members: registering makes an address a member
/// and counts one more registration, removing takes it out, and a swap puts
/// the second address in place of the first; nothing else changes. Anyone
/// but the stored balancer is refused.
pub proof fn lemma_membership_by_balancer(s: FactionView, caller: Seq<u8>, address: Seq<u8>, with_address: Seq<u8>)
    ensures
        s.balancer == Some(caller) && s.user_count < u32::MAX ==> register_user_outcome(s, caller, address) == Ok::<
            FactionView,
            FactionError,
        >(FactionView { registered: s.registered.insert(address), user_count: (s.user_count + 1) as u32, ..s }),
        s.balancer == Some(caller) ==> remove_user_outcome(s, caller, address) == Ok::<FactionView, FactionError>(
            FactionView { registered: s.registered.remove(address), ..s },
        ),
        s.balancer == Some(caller) ==> {
            let r = swap_user_outcome(s, caller, address, with_address);
            &&& r is Ok
            &&& r->Ok_0.registered.contains(with_address)
            &&& address != with_address ==> !r->Ok_0.registered.contains(address)
            &&& forall|u: Seq<u8>| u != address && u != with_address ==> (r->Ok_0.registered.contains(u)
                == s.registered.contains(u))
            &&& r->Ok_0 == (FactionView { registered: r->Ok_0.registered, ..s })
        },
        s.balancer != Some(caller) ==> {
            &&& register_user_outcome(s, caller, address) is Err
            &&& remove_user_outcome(s, caller, address) is Err
            &&& swap_user_outcome(s, caller, address, with_address) is Err
        },
{
}

/// A proposal is withdrawn only by its proposer and only while no one else
/// has voted on it; withdrawing deletes it and nothing else.
pub proof fn lemma_remove_proposal(s: FactionView, caller: Seq<u8>, proposal_id: u32)
    ensures
        remove_proposal_outcome(s, caller, proposal_id) is Ok <==> (s.dao_items.contains_key(proposal_id)
            && s.dao_items[proposal_id].owner == caller && s.dao_items[proposal_id].votes == 1),
        remove_proposal_outcome(s, caller, proposal_id) is Ok ==> remove_proposal_outcome(s, caller, proposal_id)->Ok_0
            == (FactionView { dao_items: s.dao_items.remove(proposal_id), ..s }),
{
}

/// A concluded proposal succeeds exactly when the up-votes' share of all
/// votes, in ten-thousandths rounded down, is above the down-votes' share;
/// it is refused when no stake voted at all.
pub proof fn lemma_conclude_rule(s: FactionView, caller: Seq<u8>, proposal_id: u32, now: u64, balance: u128)
    ensures
        conclude_outcome(s, caller, proposal_id, now, balance) is Ok ==> {
            let item = s.dao_items[proposal_id];
            let total = item.up_votes + item.down_votes + item.abstain_votes;
            let succeeded = (10000 * item.up_votes) / total > (10000 * item.down_votes) / total;
            &&& total > 0
            &&& conclude_outcome(s, caller, proposal_id, now, balance)->Ok_0.0.dao_items[proposal_id].status == if succeeded {
                ProposalStatus::Succeeded
            } else {
                ProposalStatus::Failed
            }
        },
        s.dao_items.contains_key(proposal_id) && s.registered.contains(caller) && s.dao_items[proposal_id].deadline < now
            && s.dao_items[proposal_id].up_votes == 0 && s.dao_items[proposal_id].down_votes == 0
            && s.dao_items[proposal_id].abstain_votes == 0 ==> conclude_outcome(s, caller, proposal_id, now, balance)
            == Err::<(FactionView, Seq<TransferView>), FactionError>(FactionError::DivisionByZero),
        s.dao_items.contains_key(proposal_id) && s.registered.contains(caller) && !(s.dao_items[proposal_id].deadline
            < now) ==> conclude_outcome(s, caller, proposal_id, now, balance) == Err::<
            (FactionView, Seq<TransferView>),
            FactionError,
        >(FactionError::ProposalActive),
{
}

/// The active stake a staking reply reports is the staked balance plus the
/// rewards earned.
pub proof fn lemma_reply_stake(reply: CurrentUserData)
    ensures
        reply.user_balance + reply.earned <= u128::MAX ==> reply_stake(reply) == Ok::<u128, FactionError>(
            (reply.user_balance + reply.earned) as u128,
        ),
        reply.user_balance + reply.earned > u128::MAX ==> reply_stake(reply) is Err,
{
}

/// Revenue is split in two equal halves of the amount, rounded down, of the
/// platform currency: the first to krogan, the second to the rewards pool.
pub proof fn lemma_revenue_split(s: FactionView, amount: u128)
    ensures
        s.krogan is Some && s.rewards_pool is Some && s.platform_currency.len() > 0 ==> revenue_split(s, amount)
            == Ok::<Seq<TransferView>, FactionError>(
            seq![
                TransferView { to: s.krogan->Some_0, token: s.platform_currency, nonce: 0, amount: amount / 2, data: Seq::empty() },
                TransferView { to: s.rewards_pool->Some_0, token: s.platform_currency, nonce: 0, amount: amount / 2, data: Seq::empty() },
            ],
        ),
        !(s.krogan is Some && s.rewards_pool is Some && s.platform_currency.len() > 0) ==> revenue_split(s, amount) is Err,
{
}

/// `init` sets each setting only while it is unset, and touches nothing else.
pub proof fn lemma_init_sets_once(
    s: FactionView,
    staking_pool: Seq<u8>,
    platform_currency: Seq<u8>,
    krogan: Seq<u8>,
    rewards_pool: Seq<u8>,
    minimum_stake: u128,
)
    ensures
        ({
            let t = init_outcome(s, staking_pool, platform_currency, krogan, rewards_pool, minimum_stake);
            &&& t.staking_pool == (if s.staking_pool is Some { s.staking_pool } else { Some(staking_pool) })
            &&& t.krogan == (if s.krogan is Some { s.krogan } else { Some(krogan) })
            &&& t.rewards_pool == (if s.rewards_pool is Some { s.rewards_pool } else { Some(rewards_pool) })
            &&& t.platform_currency == (if s.platform_currency.len() > 0 { s.platform_currency } else { platform_currency })
            &&& t.minimum_stake == (if s.minimum_stake > 0 { s.minimum_stake } else { minimum_stake })
            &&& t.balancer == s.balancer && t.registered == s.registered && t.dao_items == s.dao_items
            &&& t.user_vote_weight == s.user_vote_weight && t.dao_index == s.dao_index
            &&& t.proposal_type_cost == s.proposal_type_cost && t.user_count == s.user_count
        }),
{
}

} // verus!
