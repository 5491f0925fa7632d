//! What holds of the airdrop contract across calls.

use vstd::prelude::*;
use crate::chain::TransferView;
use crate::encoding::{decimal_digits, lemma_decimal_roundtrip};
use super::validation::signed_message;
use super::rewards::{add_checkpoint_outcome, remove_checkpoint_outcome, reward_amount};
use super::storage::{AirdropView, whitelist_outcome};
use super::models::{CheckpointView, EsdtTokenType, PaymentView, valid_esdt_identifier};
use super::storage::AirdropError;
use super::models::{new_payment, no_payment_view, payment_type};
use super::{Payout, add_reward, final_payments};
use super::{ClaimData, claim_all, claim_rewards_outcome, claim_step, init_outcome, withdraw_all_outcome};

verus! {

/// A claim's progress keeps every pair already claimed, and records the
/// caller's pair for each entry.
pub proof fn lemma_claim_records(s: AirdropView, caller: Seq<u8>, items: Seq<ClaimData>)
    requires
        claim_all(s, caller, items) is Ok,
    ensures
        s.rewards_claimed.subset_of(claim_all(s, caller, items)->Ok_0.claimed),
        forall|j: int| 0 <= j < items.len() ==> claim_all(s, caller, items)->Ok_0.claimed.contains(
            (caller, #[trigger] items[j].root_hash@),
        ),
    decreases items.len(),
{
    if items.len() > 0 {
        let prefix = items.drop_last();
        lemma_claim_records(s, caller, prefix);
        let p = claim_all(s, caller, prefix)->Ok_0;
        assert forall|j: int| 0 <= j < items.len() implies claim_all(s, caller, items)->Ok_0.claimed.contains(
            (caller, #[trigger] items[j].root_hash@),
        ) by {
            if j < items.len() - 1 {
                assert(prefix[j] == items[j]);
            }
        }
    }
}

/// An accepted claim only has entries whose pair was not yet claimed.
pub proof fn lemma_claim_fresh(s: AirdropView, caller: Seq<u8>, items: Seq<ClaimData>)
    requires
        claim_all(s, caller, items) is Ok,
    ensures
        forall|j: int| 0 <= j < items.len() ==> !s.rewards_claimed.contains((caller, #[trigger] items[j].root_hash@)),
    decreases items.len(),
{
    if items.len() > 0 {
        let prefix = items.drop_last();
        lemma_claim_fresh(s, caller, prefix);
        lemma_claim_records(s, caller, prefix);
        assert forall|j: int| 0 <= j < items.len() implies !s.rewards_claimed.contains(
            (caller, #[trigger] items[j].root_hash@),
        ) by {
            if j < items.len() - 1 {
                assert(prefix[j] == items[j]);
            }
        }
    }
}

/// The shape of every storage the contract reaches: a depositor is recorded
/// only for a root hash that has a checkpoint.
pub open spec fn airdrop_wf(s: AirdropView) -> bool {
    s.rewards_owner.dom().subset_of(s.rewards_checkpoints.dom())
}

/// A call of an airdrop endpoint, with its arguments and environment.
pub enum AirdropOp {
    Init { signer: Seq<u8> },
    SetWhitelisted { address: Seq<u8>, allowed: bool },
    ClaimRewards { caller: Seq<u8>, items: Seq<ClaimData> },
    AddRewardsCheckpoint {
        caller: Seq<u8>,
        root_hash: Seq<u8>,
        total_nft_supply: u128,
        reward_token: Seq<u8>,
        reward_nonce: u64,
        reward_supply: u128,
    },
    RemoveRewardsCheckpoint {
        caller: Seq<u8>,
        contract_owner: Seq<u8>,
        root_hash: Seq<u8>,
        nft_supply_left: u32,
        signature_valid: bool,
    },
}

/// The storage after a call: the new storage when the call succeeds, the old
/// one when it fails.
pub open spec fn airdrop_step(s: AirdropView, op: AirdropOp) -> AirdropView {
    match op {
        AirdropOp::Init { signer } => init_outcome(s, signer),
        AirdropOp::SetWhitelisted { address, allowed } => whitelist_outcome(s, address, allowed),
        AirdropOp::ClaimRewards { caller, items } => match claim_rewards_outcome(s, caller, items) {
            Ok((s1, _, _)) => s1,
            Err(_) => s,
        },
        AirdropOp::AddRewardsCheckpoint { caller, root_hash, total_nft_supply, reward_token, reward_nonce, reward_supply } =>
            match add_checkpoint_outcome(s, caller, root_hash, total_nft_supply, reward_token, reward_nonce, reward_supply) {
                Ok(s1) => s1,
                Err(_) => s,
            },
        AirdropOp::RemoveRewardsCheckpoint { caller, contract_owner, root_hash, nft_supply_left, signature_valid } =>
            match remove_checkpoint_outcome(s, caller, contract_owner, root_hash, nft_supply_left, signature_valid) {
                Ok((s1, _)) => s1,
                Err(_) => s,
            },
    }
}

/// Every call keeps the shape of `airdrop_wf`.
pub proof fn lemma_step_keeps_wf(s: AirdropView, op: AirdropOp)
    requires
        airdrop_wf(s),
    ensures
        airdrop_wf(airdrop_step(s, op)),
{
}

/// The storage after the calls `ops`, made in order.
pub open spec fn airdrop_run(s: AirdropView, ops: Seq<AirdropOp>) -> AirdropView
    decreases ops.len(),
{
    if ops.len() == 0 {
        s
    } else {
        airdrop_step(airdrop_run(s, ops.drop_last()), ops.last())
    }
}

/// Every sequence of calls keeps the shape of `airdrop_wf`.
pub proof fn lemma_run_keeps_wf(s: AirdropView, ops: Seq<AirdropOp>)
    requires
        airdrop_wf(s),
    ensures
        airdrop_wf(airdrop_run(s, ops)),
    decreases ops.len(),
{
    if ops.len() > 0 {
        lemma_run_keeps_wf(s, ops.drop_last());
        lemma_step_keeps_wf(airdrop_run(s, ops.drop_last()), ops.last());
    }
}

/// No sequence of calls forgets a (holder, root hash) pair already paid.
pub proof fn lemma_run_keeps_claimed(s: AirdropView, ops: Seq<AirdropOp>)
    ensures
        s.rewards_claimed.subset_of(airdrop_run(s, ops).rewards_claimed),
    decreases ops.len(),
{
    if ops.len() > 0 {
        let prefix = ops.drop_last();
        let s1 = airdrop_run(s, prefix);
        lemma_run_keeps_claimed(s, prefix);
        if let AirdropOp::ClaimRewards { caller, items } = ops.last() {
            if claim_all(s1, caller, items) is Ok {
                lemma_claim_records(s1, caller, items);
            }
        }
    }
}

/// A holder is paid at most once per root hash: after an accepted claim,
/// whatever calls come next (the pool of that root hash withdrawn and
/// deposited again among them), every claim of the same caller with an entry
/// of one of its root hashes is refused.
pub proof fn lemma_claim_once(
    s: AirdropView,
    caller: Seq<u8>,
    items: Seq<ClaimData>,
    j: int,
    ops: Seq<AirdropOp>,
    items2: Seq<ClaimData>,
    k: int,
)
    requires
        claim_rewards_outcome(s, caller, items) is Ok,
        0 <= j < items.len(),
        0 <= k < items2.len(),
        items2[k].root_hash@ == items[j].root_hash@,
    ensures
        claim_rewards_outcome(airdrop_run(claim_rewards_outcome(s, caller, items)->Ok_0.0, ops), caller, items2) is Err,
{
    let s1 = claim_rewards_outcome(s, caller, items)->Ok_0.0;
    let s2 = airdrop_run(s1, ops);
    lemma_claim_records(s, caller, items);
    assert(s1.rewards_claimed.contains((caller, items[j].root_hash@)));
    lemma_run_keeps_claimed(s1, ops);
    assert(s2.rewards_claimed.contains((caller, items2[k].root_hash@)));
    if claim_all(s2, caller, items2) is Ok {
        lemma_claim_fresh(s2, caller, items2);
    }
}

/// Depositing a pool and withdrawing it whole gives the depositor the whole
/// deposit back and clears the root hash's checkpoint and depositor, so that
/// a storage of the shape `airdrop_wf` is left as it was before the deposit.
pub proof fn lemma_deposit_withdraw(
    s: AirdropView,
    depositor: Seq<u8>,
    contract_owner: Seq<u8>,
    root_hash: Seq<u8>,
    total_nft_supply: u32,
    reward_token: Seq<u8>,
    reward_nonce: u64,
    reward_supply: u128,
)
    requires
        s.signer is Some,
        total_nft_supply > 0,
        add_checkpoint_outcome(s, depositor, root_hash, total_nft_supply as u128, reward_token, reward_nonce, reward_supply) is Ok,
    ensures
        remove_checkpoint_outcome(
            add_checkpoint_outcome(s, depositor, root_hash, total_nft_supply as u128, reward_token, reward_nonce, reward_supply)->Ok_0,
            depositor,
            contract_owner,
            root_hash,
            total_nft_supply,
            true,
        ) == Ok::<(AirdropView, TransferView), super::storage::AirdropError>((
            AirdropView { rewards_owner: s.rewards_owner.remove(root_hash), ..s },
            TransferView { to: depositor, token: reward_token, nonce: reward_nonce, amount: reward_supply, data: Seq::empty() },
        )),
        airdrop_wf(s) ==> (AirdropView { rewards_owner: s.rewards_owner.remove(root_hash), ..s }) == s,
{
    let s1 = add_checkpoint_outcome(s, depositor, root_hash, total_nft_supply as u128, reward_token, reward_nonce, reward_supply)->Ok_0;
    lemma_full_share(reward_supply, total_nft_supply);
    assert(s1.rewards_checkpoints.remove(root_hash) =~= s.rewards_checkpoints);
    assert(s1.rewards_owner.remove(root_hash) =~= s.rewards_owner.remove(root_hash));
    if airdrop_wf(s) {
        assert(!s.rewards_owner.contains_key(root_hash));
        assert(s.rewards_owner.remove(root_hash) =~= s.rewards_owner);
    }
}

/// All the NFTs of a pool earn the whole pool.
pub proof fn lemma_full_share(rewards_supply: u128, total: u32)
    requires
        total > 0,
    ensures
        reward_amount(rewards_supply, total, total as u128) == Ok::<u128, super::storage::AirdropError>(rewards_supply),
{
    assert((rewards_supply * total) / (total as int) == rewards_supply) by (nonlinear_arith)
        requires
            total > 0,
    ;
}

/// A share is never more than the pool when the NFTs counted are at most the
/// collection, and more NFTs never earn less.
pub proof fn lemma_share_bounds(rewards_supply: u128, n: u32, m: u32, total: u128)
    requires
        n <= m,
        m <= total,
        total > 0,
    ensures
        reward_amount(rewards_supply, n, total) is Ok,
        reward_amount(rewards_supply, m, total) is Ok,
        reward_amount(rewards_supply, n, total)->Ok_0 <= reward_amount(rewards_supply, m, total)->Ok_0,
        reward_amount(rewards_supply, m, total)->Ok_0 <= rewards_supply,
{
    assert(rewards_supply * n <= rewards_supply * m) by (nonlinear_arith)
        requires
            n <= m,
    ;
    assert((rewards_supply * n) / (total as int) <= (rewards_supply * m) / (total as int)) by (nonlinear_arith)
        requires
            rewards_supply * n <= rewards_supply * m,
            total > 0,
    ;
    assert((rewards_supply * m) / (total as int) <= rewards_supply) by (nonlinear_arith)
        requires
            m <= total,
            total > 0,
    ;
    assert((rewards_supply * n) / (total as int) >= 0) by (nonlinear_arith)
        requires
            total > 0,
    ;
}

/// The NFTs of a list of holdings, in all.
pub open spec fn nft_total(ns: Seq<u32>) -> int
    decreases ns.len(),
{
    if ns.len() == 0 {
        0
    } else {
        nft_total(ns.drop_last()) + ns.last()
    }
}

/// What the shares of a pool of `rewards_supply` that the holdings `ns` of a
/// collection of `total_nft_supply` NFTs earn pay in all; a share that cannot
/// be computed pays nothing, since its claim is refused.
pub open spec fn shares_paid(rewards_supply: u128, ns: Seq<u32>, total_nft_supply: u128) -> int
    decreases ns.len(),
{
    if ns.len() == 0 {
        0
    } else {
        shares_paid(rewards_supply, ns.drop_last(), total_nft_supply) + match reward_amount(
            rewards_supply,
            ns.last(),
            total_nft_supply,
        ) {
            Ok(a) => a as int,
            Err(_) => 0,
        }
    }
}

/// The shares paid for some holdings are at most the share that their total
/// earns, and nothing when the collection is empty.
proof fn lemma_shares_below_total_share(rewards_supply: u128, ns: Seq<u32>, total_nft_supply: u128)
    ensures
        nft_total(ns) >= 0,
        total_nft_supply > 0 ==> shares_paid(rewards_supply, ns, total_nft_supply)
            <= (rewards_supply * nft_total(ns)) / (total_nft_supply as int),
        total_nft_supply == 0 ==> shares_paid(rewards_supply, ns, total_nft_supply) == 0,
    decreases ns.len(),
{
    if ns.len() > 0 {
        let prefix = ns.drop_last();
        let n = ns.last();
        lemma_shares_below_total_share(rewards_supply, prefix, total_nft_supply);
        if total_nft_supply > 0 {
            let t = total_nft_supply as int;
            let a = rewards_supply * nft_total(prefix);
            let b = rewards_supply * n;
            assert(a >= 0 && b >= 0) by (nonlinear_arith)
                requires
                    nft_total(prefix) >= 0,
                    a == rewards_supply * nft_total(prefix),
                    b == rewards_supply * n,
            ;
            assert(a / t + b / t <= (a + b) / t) by (nonlinear_arith)
                requires
                    a >= 0,
                    b >= 0,
                    t > 0,
            ;
            assert(a + b == rewards_supply * nft_total(ns)) by (nonlinear_arith)
                requires
                    a == rewards_supply * nft_total(prefix),
                    b == rewards_supply * n,
                    nft_total(ns) == nft_total(prefix) + n,
            ;
        }
    }
}

/// The shares of one pool never pay out more than the pool: however the NFTs
/// of the collection are split among holders, the shares they earn add up to
/// at most the pool.
pub proof fn lemma_shares_within_pool(rewards_supply: u128, ns: Seq<u32>, total_nft_supply: u128)
    requires
        nft_total(ns) <= total_nft_supply,
    ensures
        shares_paid(rewards_supply, ns, total_nft_supply) <= rewards_supply,
{
    lemma_shares_below_total_share(rewards_supply, ns, total_nft_supply);
    if total_nft_supply > 0 {
        let t = total_nft_supply as int;
        let m = nft_total(ns);
        assert((rewards_supply * m) / t <= rewards_supply) by (nonlinear_arith)
            requires
                0 <= m <= t,
                t > 0,
        ;
    }
}

/// Signed messages name their claim: with addresses of one length and
/// hashes of one length, equal messages are messages of the same holder,
/// root hash and NFT count.
pub proof fn lemma_signed_message_injective(a1: Seq<u8>, h1: Seq<u8>, n1: u32, a2: Seq<u8>, h2: Seq<u8>, n2: u32)
    requires
        signed_message(a1, h1, n1) == signed_message(a2, h2, n2),
        a1.len() == a2.len(),
        h1.len() == h2.len(),
    ensures
        a1 == a2,
        h1 == h2,
        n1 == n2,
{
    let m = signed_message(a1, h1, n1);
    let m2 = signed_message(a2, h2, n2);
    let start: int = (a1.len() + h1.len() + 1) as int;
    assert(m.subrange(0, a1.len() as int) =~= a1);
    assert(m2.subrange(0, a2.len() as int) =~= a2);
    assert(m.subrange(a1.len() as int, (a1.len() + h1.len()) as int) =~= h1);
    assert(m2.subrange(a2.len() as int, (a2.len() + h2.len()) as int) =~= h2);
    assert(m.subrange(start, m.len() as int) =~= decimal_digits(n1 as nat));
    assert(m2.subrange(start, m2.len() as int) =~= decimal_digits(n2 as nat));
    lemma_decimal_roundtrip(n1 as nat);
    lemma_decimal_roundtrip(n2 as nat);
}

/// A share is the pool times the NFTs counted over the collection, rounded
/// down: whenever the collection is not empty and that fits in a `u128`, it
/// is the result; it always fits when the NFTs counted are at most the
/// collection.
pub proof fn lemma_reward_formula(rewards_supply: u128, n: u32, total: u128)
    ensures
        total > 0 && (rewards_supply * n) / (total as int) <= u128::MAX ==> reward_amount(rewards_supply, n, total)
            == Ok::<u128, AirdropError>(((rewards_supply * n) / (total as int)) as u128),
        total > 0 && n <= total ==> reward_amount(rewards_supply, n, total) is Ok,
        total == 0 ==> reward_amount(rewards_supply, n, total) == Err::<u128, AirdropError>(AirdropError::DivisionByZero),
        reward_amount(rewards_supply, n, total) is Ok ==> reward_amount(rewards_supply, n, total)->Ok_0 * total
            <= rewards_supply * n < (reward_amount(rewards_supply, n, total)->Ok_0 + 1) * total,
{
    if total > 0 && n <= total {
        assert((rewards_supply * n) / (total as int) <= rewards_supply) by (nonlinear_arith)
            requires
                n <= total,
                total > 0,
        ;
    }
    if total > 0 {
        let q = (rewards_supply * n) / (total as int);
        assert(q * total <= rewards_supply * n < (q + 1) * total) by (nonlinear_arith)
            requires
                q == (rewards_supply * n) / (total as int),
                total > 0,
                rewards_supply * n >= 0,
        ;
    }
}

/// The owner's emergency withdrawal sends the owner the contract's whole
/// balance of the chosen token (EGLD when none is chosen, with nonce zero for
/// EGLD or when no nonce is given), carrying the note "Emergency
/// withdraw"; anyone else, or an empty balance, is refused.
pub proof fn lemma_withdraw_all(
    caller: Seq<u8>,
    contract_owner: Seq<u8>,
    opt_token: Option<Seq<u8>>,
    opt_nonce: Option<u64>,
    balance: u128,
)
    ensures
        withdraw_all_outcome(caller, contract_owner, opt_token, opt_nonce, balance) is Ok <==> (caller
            == contract_owner && balance > 0),
        caller != contract_owner ==> withdraw_all_outcome(caller, contract_owner, opt_token, opt_nonce, balance)
            == Err::<TransferView, AirdropError>(AirdropError::OnlyOwner),
        withdraw_all_outcome(caller, contract_owner, opt_token, opt_nonce, balance) is Ok ==> {
            let t = withdraw_all_outcome(caller, contract_owner, opt_token, opt_nonce, balance)->Ok_0;
            let token = if opt_token is Some { opt_token->Some_0 } else { Seq::empty() };
            &&& t.to == contract_owner
            &&& t.amount == balance
            &&& t.token == token
            &&& t.nonce == (if token.len() > 0 && opt_nonce is Some { opt_nonce->Some_0 } else { 0 })
            &&& t.data == seq![69u8, 109, 101, 114, 103, 101, 110, 99, 121, 32, 119, 105, 116, 104, 100, 114, 97, 119]
        },
{
}

/// A whitelisted project deposits a pool under a new root hash: the
/// deposit is accepted exactly when the hash has no pool yet, the caller is
/// whitelisted and the amount is above zero, and then the hash's pool is
/// the payment, for the collection given, and the caller is its depositor;
/// nothing else changes.
pub proof fn lemma_deposit(
    s: AirdropView,
    caller: Seq<u8>,
    root_hash: Seq<u8>,
    total_nft_supply: u128,
    reward_token: Seq<u8>,
    reward_nonce: u64,
    reward_supply: u128,
)
    ensures
        add_checkpoint_outcome(s, caller, root_hash, total_nft_supply, reward_token, reward_nonce, reward_supply) is Ok
            <==> (!s.rewards_checkpoints.contains_key(root_hash) && s.whitelisted.contains(caller) && reward_supply > 0),
        add_checkpoint_outcome(s, caller, root_hash, total_nft_supply, reward_token, reward_nonce, reward_supply) is Ok
            ==> add_checkpoint_outcome(s, caller, root_hash, total_nft_supply, reward_token, reward_nonce, reward_supply)->Ok_0
            == (AirdropView {
            rewards_checkpoints: s.rewards_checkpoints.insert(
                root_hash,
                CheckpointView { total_nft_supply, reward_token, reward_supply, reward_nonce },
            ),
            rewards_owner: s.rewards_owner.insert(root_hash, caller),
            ..s
        }),
{
}

/// Withdrawing a pool returns its unclaimed share to the caller: with a
/// valid signature, by the pool's depositor (or the contract owner for a
/// pool with no depositor), the caller gets the pool times the NFTs left
/// over the collection, rounded down, in the pool's token, and the pool and
/// its depositor are cleared; claims already recorded stay.
pub proof fn lemma_withdraw_pool(
    s: AirdropView,
    caller: Seq<u8>,
    contract_owner: Seq<u8>,
    root_hash: Seq<u8>,
    nft_supply_left: u32,
    signature_valid: bool,
)
    ensures
        remove_checkpoint_outcome(s, caller, contract_owner, root_hash, nft_supply_left, signature_valid) is Ok ==> {
            let (s1, t) = remove_checkpoint_outcome(s, caller, contract_owner, root_hash, nft_supply_left, signature_valid)->Ok_0;
            let c = s.rewards_checkpoints[root_hash];
            &&& s.rewards_checkpoints.contains_key(root_hash)
            &&& (if s.rewards_owner.contains_key(root_hash) { s.rewards_owner[root_hash] == caller } else { caller
                == contract_owner })
            &&& s.signer is Some && signature_valid
            &&& c.total_nft_supply > 0
            &&& t == (TransferView {
                to: caller,
                token: c.reward_token,
                nonce: c.reward_nonce,
                amount: ((c.reward_supply * nft_supply_left) / (c.total_nft_supply as int)) as u128,
                data: Seq::empty(),
            })
            &&& s1 == (AirdropView {
                rewards_checkpoints: s.rewards_checkpoints.remove(root_hash),
                rewards_owner: s.rewards_owner.remove(root_hash),
                ..s
            })
        },
{
}

/// A claim of one entry pays the entry's share of its pool: when the pool
/// exists, its depositor (if any) is whitelisted, the signature is good and
/// the caller has not claimed it, the caller is paid the pool times the
/// caller's NFTs over the collection, rounded down, as EGLD for an EGLD pool
/// or as one fungible payment for a pool of a valid ESDT with nonce zero, a
/// zero share paying nothing; and the pair is recorded as claimed.
pub proof fn lemma_single_claim(s: AirdropView, caller: Seq<u8>, item: ClaimData)
    requires
        s.rewards_checkpoints.contains_key(item.root_hash@),
        s.rewards_owner.contains_key(item.root_hash@) ==> s.whitelisted.contains(s.rewards_owner[item.root_hash@]),
        s.signer is Some,
        item.signature_valid,
        !s.rewards_claimed.contains((caller, item.root_hash@)),
        s.rewards_checkpoints[item.root_hash@].total_nft_supply > 0,
        item.user_nft_amount <= s.rewards_checkpoints[item.root_hash@].total_nft_supply,
    ensures
        ({
            let c = s.rewards_checkpoints[item.root_hash@];
            let share = ((c.reward_supply * item.user_nft_amount) / (c.total_nft_supply as int)) as u128;
            let r = claim_rewards_outcome(s, caller, seq![item]);
            &&& r is Ok
            &&& r->Ok_0.0 == (AirdropView { rewards_claimed: s.rewards_claimed.insert((caller, item.root_hash@)), ..s })
            &&& c.reward_token.len() == 0 ==> {
                &&& r->Ok_0.1 == (if share > 0 { Some(share) } else { None::<u128> })
                &&& r->Ok_0.2 is None
            }
            &&& valid_esdt_identifier(c.reward_token) && c.reward_nonce == 0 ==> {
                &&& r->Ok_0.1 is None
                &&& r->Ok_0.2 == (if share > 0 {
                    Some(seq![PaymentView { token_type: EsdtTokenType::Fungible, token_identifier: c.reward_token, token_nonce: 0, amount: share }])
                } else {
                    None::<Seq<PaymentView>>
                })
            }
        }),
{
    let c = s.rewards_checkpoints[item.root_hash@];
    lemma_share_bounds(c.reward_supply, item.user_nft_amount, item.user_nft_amount, c.total_nft_supply);
    let items = seq![item];
    assert(items.drop_last() =~= Seq::<ClaimData>::empty());
    assert(items.last() == item);
    let p0 = claim_all(s, caller, items.drop_last())->Ok_0;
    assert(p0.claimed == s.rewards_claimed);
    assert(p0.payout.last == no_payment_view());
    assert(p0.payout.payments =~= Seq::<PaymentView>::empty());
    assert(claim_all(s, caller, items) == claim_step(s, caller, p0, item));
    if valid_esdt_identifier(c.reward_token) {
        assert(c.reward_token.len() > 0);
        assert(c.reward_token != p0.payout.last.token_identifier);
    }
}

/// The EGLD that the entries of a claim are owed: for each entry on an EGLD
/// pool, the pool times the caller's NFTs over the collection, rounded down.
pub open spec fn egld_owed(s: AirdropView, items: Seq<ClaimData>) -> int
    decreases items.len(),
{
    if items.len() == 0 {
        0
    } else {
        let c = s.rewards_checkpoints[items.last().root_hash@];
        egld_owed(s, items.drop_last()) + if c.reward_token.len() == 0 {
            (c.reward_supply * items.last().user_nft_amount) / (c.total_nft_supply as int)
        } else {
            0
        }
    }
}

/// A claim pays in EGLD exactly what its entries on EGLD pools are owed,
/// added up.
pub proof fn lemma_claim_pays_egld_owed(s: AirdropView, caller: Seq<u8>, items: Seq<ClaimData>)
    requires
        claim_all(s, caller, items) is Ok,
    ensures
        claim_all(s, caller, items)->Ok_0.payout.egld == egld_owed(s, items),
    decreases items.len(),
{
    if items.len() > 0 {
        lemma_claim_pays_egld_owed(s, caller, items.drop_last());
    }
}

/// Setting a project's whitelist flag makes it allowed to deposit exactly
/// when the flag is set, and changes no other project or value.
pub proof fn lemma_whitelist(s: AirdropView, address: Seq<u8>, allowed: bool, other: Seq<u8>)
    ensures
        whitelist_outcome(s, address, allowed).whitelisted.contains(address) == allowed,
        other != address ==> whitelist_outcome(s, address, allowed).whitelisted.contains(other) == s.whitelisted.contains(other),
        whitelist_outcome(s, address, allowed) == (AirdropView { whitelisted: whitelist_outcome(s, address, allowed).whitelisted, ..s }),
{
}

/// `init` stores the signer only while none is stored.
pub proof fn lemma_init_signer_once(s: AirdropView, signer: Seq<u8>)
    ensures
        init_outcome(s, signer) == (AirdropView { signer: if s.signer is Some { s.signer } else { Some(signer) }, ..s }),
{
}

/// How a claim gathers its rewards into payments: EGLD adds to the EGLD
/// total; a reward of a token with a nonce becomes a payment of its own
/// after the open fungible payment, if any, of another token is closed; a
/// fungible reward of the open payment's token adds to it; and a fungible
/// reward of another token closes the open payment and opens its own.
pub proof fn lemma_reward_grouping(p: Payout, token: Seq<u8>, nonce: u64, amount: u128)
    ensures
        token.len() == 0 && p.egld + amount <= u128::MAX ==> add_reward(p, token, nonce, amount) == Ok::<Payout, AirdropError>(
            Payout { egld: (p.egld + amount) as u128, ..p },
        ),
        token.len() > 0 && nonce != 0 && token != p.last.token_identifier && p.last.token_type != EsdtTokenType::Invalid
            ==> add_reward(p, token, nonce, amount) == Ok::<Payout, AirdropError>(
            Payout { egld: p.egld, payments: p.payments.push(p.last).push(new_payment(token, nonce, amount)), last: no_payment_view() },
        ),
        token.len() > 0 && nonce == 0 && token == p.last.token_identifier && p.last.amount + amount <= u128::MAX
            ==> add_reward(p, token, nonce, amount) == Ok::<Payout, AirdropError>(
            Payout { last: PaymentView { amount: (p.last.amount + amount) as u128, ..p.last }, ..p },
        ),
        token.len() > 0 && nonce == 0 && token != p.last.token_identifier && p.last.token_type != EsdtTokenType::Invalid
            ==> add_reward(p, token, nonce, amount) == Ok::<Payout, AirdropError>(
            Payout { egld: p.egld, payments: p.payments.push(p.last), last: new_payment(token, 0, amount) },
        ),
        add_reward(p, token, nonce, amount) is Ok ==> add_reward(p, token, nonce, amount)->Ok_0.egld == p.egld + if token.len()
            == 0 { amount as int } else { 0 },
{
}

/// The payments a claim makes are the closed ones, then the open one when
/// it is a valid payment.
pub proof fn lemma_final_payments(p: Payout)
    ensures
        p.last.token_type != EsdtTokenType::Invalid ==> final_payments(p) == p.payments.push(p.last),
        p.last.token_type == EsdtTokenType::Invalid ==> final_payments(p) == p.payments,
{
}

/// A payment's kind: invalid for a zero amount or a token that is no valid
/// ESDT identifier; otherwise fungible with nonce zero, non-fungible for one
/// unit with a nonce, and semi-fungible for more units with a nonce.
pub proof fn lemma_payment_kind(token: Seq<u8>, nonce: u64, amount: u128)
    ensures
        (payment_type(token, nonce, amount) == EsdtTokenType::Invalid) == (amount == 0 || !valid_esdt_identifier(token)),
        payment_type(token, nonce, amount) == EsdtTokenType::Fungible <==> (amount > 0 && valid_esdt_identifier(token)
            && nonce == 0),
        payment_type(token, nonce, amount) == EsdtTokenType::NonFungible <==> (amount == 1 && valid_esdt_identifier(token)
            && nonce != 0),
        payment_type(token, nonce, amount) == EsdtTokenType::SemiFungible <==> (amount > 1 && valid_esdt_identifier(token)
            && nonce != 0),
{
}

/// A valid ESDT identifier is 10 to 17 bytes: a ticker of upper-case
/// letters and digits, a dash, then six lower-case letters and digits.
pub proof fn lemma_identifier_shape(token: Seq<u8>)
    ensures
        valid_esdt_identifier(token) ==> {
            &&& 10 <= token.len() <= 17
            &&& token[token.len() - 7] == 45u8
            &&& forall|i: int| 0 <= i < token.len() - 7 ==> (65 <= #[trigger] token[i] <= 90 || 48 <= token[i] <= 57)
            &&& forall|i: int| token.len() - 6 <= i < token.len() ==> (97 <= #[trigger] token[i] <= 122 || 48 <= token[i] <= 57)
        },
{
}

} // verus!
