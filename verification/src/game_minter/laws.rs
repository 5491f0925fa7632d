//! What holds of the minter contract across calls.

use vstd::prelude::*;
use crate::chain::TransferView;
use super::storage::{MinterError, MinterView, owner_check, planet_is_claimed};
use super::tokens::{MinterActionView, material_token, mint_and_send, revenue_split};
use super::validation::signature_outcome;
use super::{init_outcome, mint_tokens_outcome, withdraw_profits_outcome};
use super::{TokenClaim, claim_actions, claim_entry_error, claim_planet_outcome, claim_tokens_outcome, first_claim_error};

verus! {

/// A call of a minter endpoint that writes storage, with its arguments; the
/// other endpoints, and an issue callback that reports a failure, write none.
pub enum MinterOp {
    Init { signer: Seq<u8>, platform_currency: Seq<u8>, planet_price: u128, krogan: Seq<u8>, rewards_pool: Seq<u8> },
    ChangeSigner { caller: Seq<u8>, owner: Seq<u8>, new_signer: Seq<u8> },
    ChangeKroganAddress { caller: Seq<u8>, owner: Seq<u8>, address: Seq<u8> },
    ChangeRewardsPoolAddress { caller: Seq<u8>, owner: Seq<u8>, address: Seq<u8> },
    ChangePlanetTokenId { caller: Seq<u8>, owner: Seq<u8>, new_token_id: Seq<u8> },
    ResetPlanetClaim { caller: Seq<u8>, owner: Seq<u8>, nonce: u32 },
    TokenIssued { key: Seq<u8>, token_id: Seq<u8> },
    ClaimTokens { caller: Seq<u8>, player_nonce: u32, items: Seq<TokenClaim> },
    ClaimPlanet {
        caller: Seq<u8>,
        nonce: u32,
        token_id: Seq<u8>,
        amount: u128,
        payments: Seq<(Seq<u8>, u64, u128)>,
        signature_valid: bool,
    },
}

/// The storage after a call: the new storage when the call succeeds, the old
/// one when it fails.
pub open spec fn minter_step(s: MinterView, op: MinterOp) -> MinterView {
    match op {
        MinterOp::Init { signer, platform_currency, planet_price, krogan, rewards_pool } =>
            init_outcome(s, signer, platform_currency, planet_price, krogan, rewards_pool),
        MinterOp::ChangeSigner { caller, owner, new_signer } =>
            if owner_check(caller, owner) is Ok { MinterView { signer: Some(new_signer), ..s } } else { s },
        MinterOp::ChangeKroganAddress { caller, owner, address } =>
            if owner_check(caller, owner) is Ok { MinterView { krogan: Some(address), ..s } } else { s },
        MinterOp::ChangeRewardsPoolAddress { caller, owner, address } =>
            if owner_check(caller, owner) is Ok { MinterView { rewards_pool: Some(address), ..s } } else { s },
        MinterOp::ChangePlanetTokenId { caller, owner, new_token_id } =>
            if owner_check(caller, owner) is Ok { MinterView { planet_token_id: new_token_id, ..s } } else { s },
        MinterOp::ResetPlanetClaim { caller, owner, nonce } => if owner_check(caller, owner) is Ok {
            MinterView { planet_claimed: s.planet_claimed.remove((s.planet_token_id, nonce)), ..s }
        } else {
            s
        },
        MinterOp::TokenIssued { key, token_id } =>
            MinterView { material_token_id: s.material_token_id.insert(key, token_id), ..s },
        MinterOp::ClaimTokens { caller, player_nonce, items } =>
            match claim_tokens_outcome(s, caller, player_nonce, items) {
                Ok((s1, _)) => s1,
                Err(_) => s,
            },
        MinterOp::ClaimPlanet { caller, nonce, token_id, amount, payments, signature_valid } =>
            match claim_planet_outcome(s, caller, nonce, token_id, amount, payments, signature_valid) {
                Ok((s1, _)) => s1,
                Err(_) => s,
            },
    }
}

/// The storage after the calls `ops`, made in order.
pub open spec fn minter_run(s: MinterView, ops: Seq<MinterOp>) -> MinterView
    decreases ops.len(),
{
    if ops.len() == 0 {
        s
    } else {
        minter_step(minter_run(s, ops.drop_last()), ops.last())
    }
}

/// Whether a call can make planet `nonce` claimable again: a reset of its
/// claim, or a change of the planet token.
pub open spec fn reopens_planet(op: MinterOp, nonce: u32) -> bool {
    match op {
        MinterOp::ResetPlanetClaim { nonce: n, .. } => n == nonce,
        MinterOp::ChangePlanetTokenId { .. } => true,
        _ => false,
    }
}

/// No sequence of calls forgets a claimed player nonce.
proof fn lemma_run_keeps_token_claims(s: MinterView, ops: Seq<MinterOp>)
    ensures
        s.tokens_claimed.subset_of(minter_run(s, ops).tokens_claimed),
    decreases ops.len(),
{
    if ops.len() > 0 {
        lemma_run_keeps_token_claims(s, ops.drop_last());
    }
}

/// A claimed planet stays claimed through calls that neither reset its claim
/// nor change the planet token.
proof fn lemma_run_keeps_planet_claim(s: MinterView, ops: Seq<MinterOp>, nonce: u32)
    requires
        planet_is_claimed(s, nonce),
        forall|i: int| 0 <= i < ops.len() ==> !reopens_planet(#[trigger] ops[i], nonce),
    ensures
        planet_is_claimed(minter_run(s, ops), nonce),
    decreases ops.len(),
{
    if ops.len() > 0 {
        let prefix = ops.drop_last();
        assert forall|i: int| 0 <= i < prefix.len() implies !reopens_planet(#[trigger] prefix[i], nonce) by {
            assert(prefix[i] == ops[i]);
        }
        lemma_run_keeps_planet_claim(s, prefix, nonce);
        assert(!reopens_planet(ops[ops.len() - 1], nonce));
    }
}

/// A planet is sold once per planet token: after a sale, whatever calls come
/// next, as long as none resets that planet's claim or changes the planet
/// token, every request for the same planet is refused; the owner's reset
/// makes it claimable again.
pub proof fn lemma_planet_sold_once(
    s: MinterView,
    caller: Seq<u8>,
    nonce: u32,
    token_id: Seq<u8>,
    amount: u128,
    payments: Seq<(Seq<u8>, u64, u128)>,
    signature_valid: bool,
    ops: Seq<MinterOp>,
    caller2: Seq<u8>,
    token_id2: Seq<u8>,
    amount2: u128,
    payments2: Seq<(Seq<u8>, u64, u128)>,
    signature_valid2: bool,
)
    requires
        claim_planet_outcome(s, caller, nonce, token_id, amount, payments, signature_valid) is Ok,
        forall|i: int| 0 <= i < ops.len() ==> !reopens_planet(#[trigger] ops[i], nonce),
    ensures
        ({
            let s1 = claim_planet_outcome(s, caller, nonce, token_id, amount, payments, signature_valid)->Ok_0.0;
            &&& planet_is_claimed(minter_run(s1, ops), nonce)
            &&& claim_planet_outcome(minter_run(s1, ops), caller2, nonce, token_id2, amount2, payments2, signature_valid2)
                == Err::<(MinterView, Seq<TransferView>), MinterError>(MinterError::PlanetAlreadyClaimed)
            &&& !planet_is_claimed(
                MinterView { planet_claimed: s1.planet_claimed.remove((s1.planet_token_id, nonce)), ..s1 },
                nonce,
            )
        }),
{
    let s1 = claim_planet_outcome(s, caller, nonce, token_id, amount, payments, signature_valid)->Ok_0.0;
    lemma_run_keeps_planet_claim(s1, ops, nonce);
}

/// A sold planet goes to the buyer, and its price is split in two equal
/// halves that together are at most the price.
pub proof fn lemma_planet_payout(
    s: MinterView,
    caller: Seq<u8>,
    nonce: u32,
    token_id: Seq<u8>,
    amount: u128,
    payments: Seq<(Seq<u8>, u64, u128)>,
    signature_valid: bool,
)
    requires
        claim_planet_outcome(s, caller, nonce, token_id, amount, payments, signature_valid) is Ok,
    ensures
        ({
            let t = claim_planet_outcome(s, caller, nonce, token_id, amount, payments, signature_valid)->Ok_0.1;
            &&& t.len() == 3
            &&& t[0].amount == t[1].amount
            &&& t[0].amount + t[1].amount <= s.planet_price
            &&& t[2] == (TransferView { to: caller, token: s.planet_token_id, nonce: nonce as u64, amount: 1, data: Seq::empty() })
        }),
{
}

/// A claim whose first entry is refused is refused.
proof fn lemma_first_entry_refused(s: MinterView, caller: Seq<u8>, player_nonce: u32, items: Seq<TokenClaim>)
    requires
        items.len() > 0,
        claim_entry_error(s, caller, player_nonce, items[0]) is Some,
    ensures
        first_claim_error(s, caller, player_nonce, items) is Some,
    decreases items.len(),
{
    if items.len() > 1 {
        let prefix = items.drop_last();
        assert(prefix[0] == items[0]);
        lemma_first_entry_refused(s, caller, player_nonce, prefix);
    } else {
        assert(items.drop_last() =~= Seq::<TokenClaim>::empty());
    }
}

/// The materials of a player nonce are claimed once: after an accepted
/// claim, whatever calls come next, every further claim of the same player
/// and nonce with entries is refused.
pub proof fn lemma_materials_claimed_once(
    s: MinterView,
    caller: Seq<u8>,
    player_nonce: u32,
    items: Seq<TokenClaim>,
    ops: Seq<MinterOp>,
    items2: Seq<TokenClaim>,
)
    requires
        claim_tokens_outcome(s, caller, player_nonce, items) is Ok,
        items2.len() > 0,
    ensures
        claim_tokens_outcome(
            minter_run(claim_tokens_outcome(s, caller, player_nonce, items)->Ok_0.0, ops),
            caller,
            player_nonce,
            items2,
        ) is Err,
{
    let s1 = claim_tokens_outcome(s, caller, player_nonce, items)->Ok_0.0;
    assert(s1.tokens_claimed.contains((caller, player_nonce)));
    lemma_run_keeps_token_claims(s1, ops);
    lemma_first_entry_refused(minter_run(s1, ops), caller, player_nonce, items2);
}

/// A claim mints exactly what its entries ask, in order: for each entry, its
/// amount of its material, then the same amount sent to the caller.
pub proof fn lemma_claim_mints_entries(s: MinterView, caller: Seq<u8>, items: Seq<TokenClaim>)
    ensures
        claim_actions(s, caller, items).len() == 2 * items.len(),
        forall|j: int| 0 <= j < items.len() ==> {
            &&& #[trigger] claim_actions(s, caller, items)[2 * j] == MinterActionView::LocalMint {
                token: material_token(s, items[j].token_key@),
                amount: items[j].amount,
            }
            &&& claim_actions(s, caller, items)[2 * j + 1] == MinterActionView::Send(TransferView {
                to: caller,
                token: material_token(s, items[j].token_key@),
                nonce: 0,
                amount: items[j].amount,
                data: Seq::empty(),
            })
        },
    decreases items.len(),
{
    if items.len() > 0 {
        let prefix = items.drop_last();
        lemma_claim_mints_entries(s, caller, prefix);
        assert forall|j: int| 0 <= j < items.len() implies {
            &&& #[trigger] claim_actions(s, caller, items)[2 * j] == MinterActionView::LocalMint {
                token: material_token(s, items[j].token_key@),
                amount: items[j].amount,
            }
            &&& claim_actions(s, caller, items)[2 * j + 1] == MinterActionView::Send(TransferView {
                to: caller,
                token: material_token(s, items[j].token_key@),
                nonce: 0,
                amount: items[j].amount,
                data: Seq::empty(),
            })
        } by {
            if j < items.len() - 1 {
                assert(prefix[j] == items[j]);
                assert(claim_actions(s, caller, prefix)[2 * j] == claim_actions(s, caller, items)[2 * j]);
                assert(claim_actions(s, caller, prefix)[2 * j + 1] == claim_actions(s, caller, items)[2 * j + 1]);
            }
        }
    }
}

/// Revenue is split in two equal halves that together are at most the amount,
/// and exactly the amount when it is even.
pub proof fn lemma_revenue_halves(s: MinterView, amount: u128)
    requires
        revenue_split(s, amount) is Ok,
    ensures
        ({
            let t = revenue_split(s, amount)->Ok_0;
            &&& t.len() == 2
            &&& t[0].amount == t[1].amount
            &&& t[0].amount + t[1].amount <= amount
            &&& amount % 2 == 0 ==> t[0].amount + t[1].amount == amount
        }),
{
}

/// A planet is sold only for exactly its price: an accepted purchase came
/// with one payment of the platform currency, nonce zero, of exactly the
/// stored price, for an unsold planet of the planet token, with a valid
/// signature; the price goes half to krogan and half to the rewards pool,
/// the planet to the buyer, and only the planet's claim is recorded. A
/// single payment of any other amount, for an unsold planet asked for
/// correctly, is refused as an invalid payment.
pub proof fn lemma_planet_price_paid(
    s: MinterView,
    caller: Seq<u8>,
    nonce: u32,
    token_id: Seq<u8>,
    amount: u128,
    payments: Seq<(Seq<u8>, u64, u128)>,
    signature_valid: bool,
)
    ensures
        claim_planet_outcome(s, caller, nonce, token_id, amount, payments, signature_valid) is Ok ==> {
            let (s1, transfers) = claim_planet_outcome(s, caller, nonce, token_id, amount, payments, signature_valid)->Ok_0;
            &&& payments.len() == 1
            &&& payments[0] == (s.platform_currency, 0u64, s.planet_price)
            &&& token_id == s.planet_token_id
            &&& amount == 1
            &&& !planet_is_claimed(s, nonce)
            &&& s.signer is Some
            &&& signature_valid
            &&& transfers == seq![
                TransferView { to: s.krogan->Some_0, token: s.platform_currency, nonce: 0, amount: s.planet_price / 2, data: Seq::empty() },
                TransferView { to: s.rewards_pool->Some_0, token: s.platform_currency, nonce: 0, amount: s.planet_price / 2, data: Seq::empty() },
                TransferView { to: caller, token: s.planet_token_id, nonce: nonce as u64, amount: 1, data: Seq::empty() },
            ]
            &&& s1 == (MinterView { planet_claimed: s.planet_claimed.insert((s.planet_token_id, nonce)), ..s })
        },
        !planet_is_claimed(s, nonce) && token_id == s.planet_token_id && amount == 1 && payments.len() == 1
            && payments[0].2 != s.planet_price ==> claim_planet_outcome(
            s,
            caller,
            nonce,
            token_id,
            amount,
            payments,
            signature_valid,
        ) == Err::<(MinterView, Seq<TransferView>), MinterError>(MinterError::InvalidPayment),
{
}

/// No entry of a claim in which every entry is fine on its own is refused.
proof fn lemma_entries_fine(s: MinterView, caller: Seq<u8>, player_nonce: u32, items: Seq<TokenClaim>)
    requires
        s.signer is Some,
        !s.tokens_claimed.contains((caller, player_nonce)),
        forall|j: int| 0 <= j < items.len() ==> {
            &&& (#[trigger] items[j]).signature_valid
            &&& items[j].amount <= 180000000000000000000
            &&& items[j].index == player_nonce
            &&& s.material_token_id.contains_key(items[j].token_key@)
        },
    ensures
        first_claim_error(s, caller, player_nonce, items) is None,
    decreases items.len(),
{
    if items.len() > 0 {
        let prefix = items.drop_last();
        assert forall|j: int| 0 <= j < prefix.len() implies {
            &&& (#[trigger] prefix[j]).signature_valid
            &&& prefix[j].amount <= 180000000000000000000
            &&& prefix[j].index == player_nonce
            &&& s.material_token_id.contains_key(prefix[j].token_key@)
        } by {
            assert(prefix[j] == items[j]);
        }
        lemma_entries_fine(s, caller, player_nonce, prefix);
        assert(items.last() == items[items.len() - 1]);
    }
}

/// A claim is judged entry by entry: when each entry is signed, asks at
/// most 180 tokens, carries the player's nonce and names an issued
/// material, and the nonce is not claimed yet, the claim is accepted
/// whatever its entries add up to. It mints and sends every entry and
/// records only the nonce as claimed.
pub proof fn lemma_claim_accepted(s: MinterView, caller: Seq<u8>, player_nonce: u32, items: Seq<TokenClaim>)
    requires
        s.signer is Some,
        !s.tokens_claimed.contains((caller, player_nonce)),
        forall|j: int| 0 <= j < items.len() ==> {
            &&& (#[trigger] items[j]).signature_valid
            &&& items[j].amount <= 180000000000000000000
            &&& items[j].index == player_nonce
            &&& s.material_token_id.contains_key(items[j].token_key@)
        },
    ensures
        claim_tokens_outcome(s, caller, player_nonce, items) is Ok,
        claim_tokens_outcome(s, caller, player_nonce, items)->Ok_0.0 == (MinterView {
            tokens_claimed: s.tokens_claimed.insert((caller, player_nonce)),
            ..s
        }),
        claim_tokens_outcome(s, caller, player_nonce, items)->Ok_0.1.len() == 2 * items.len(),
{
    lemma_entries_fine(s, caller, player_nonce, items);
    lemma_claim_mints_entries(s, caller, items);
}

/// An entry asking more than 180 tokens refuses the whole claim, when the
/// entries before it are fine and its signature is good.
pub proof fn lemma_claim_entry_limit(s: MinterView, caller: Seq<u8>, player_nonce: u32, e: TokenClaim)
    requires
        s.signer is Some,
        e.signature_valid,
        e.amount > 180000000000000000000,
    ensures
        claim_tokens_outcome(s, caller, player_nonce, seq![e]) == Err::<(MinterView, Seq<MinterActionView>), MinterError>(
            MinterError::InvalidAmount,
        ),
{
    let items = seq![e];
    assert(items.drop_last() =~= Seq::<TokenClaim>::empty());
    assert(items.last() == e);
    assert(first_claim_error(s, caller, player_nonce, items.drop_last()) is None);
    assert(claim_entry_error(s, caller, player_nonce, e) == Some(MinterError::InvalidAmount));
}

/// Minting a material sends what is minted: for an issued material, the
/// amount is minted of the token issued for it, then that same amount of
/// that token goes to the recipient, with no data.
pub proof fn lemma_mint_and_send(s: MinterView, address: Seq<u8>, key: Seq<u8>, amount: u128)
    requires
        s.material_token_id.contains_key(key),
    ensures
        mint_and_send(s, address, key, amount) == seq![
            MinterActionView::LocalMint { token: s.material_token_id[key], amount },
            MinterActionView::Send(TransferView {
                to: address,
                token: s.material_token_id[key],
                nonce: 0,
                amount,
                data: Seq::empty(),
            }),
        ],
{
}

/// Revenue is split in two equal halves of the amount, rounded down, of the
/// platform currency: the first to krogan, the second to the rewards pool;
/// without both addresses and the currency it is refused.
pub proof fn lemma_revenue_split(s: MinterView, amount: u128)
    ensures
        s.krogan is Some && s.rewards_pool is Some && s.platform_currency.len() > 0 ==> revenue_split(s, amount)
            == Ok::<Seq<TransferView>, MinterError>(
            seq![
                TransferView { to: s.krogan->Some_0, token: s.platform_currency, nonce: 0, amount: amount / 2, data: Seq::empty() },
                TransferView { to: s.rewards_pool->Some_0, token: s.platform_currency, nonce: 0, amount: amount / 2, data: Seq::empty() },
            ],
        ),
        !(s.krogan is Some && s.rewards_pool is Some && s.platform_currency.len() > 0) ==> revenue_split(s, amount) is Err,
{
}

/// A signature is accepted exactly when a signer is stored and the chain
/// found it valid.
pub proof fn lemma_minter_signature(s: MinterView, signature_valid: bool)
    ensures
        signature_outcome(s, signature_valid) is Ok <==> (s.signer is Some && signature_valid),
{
}

/// A claim entry is refused for any one of its own faults: a bad signature,
/// more than 180 tokens, another nonce than the player's, an already
/// claimed nonce, or an unknown material; an entry with none of these is
/// fine.
pub proof fn lemma_claim_entry_faults(s: MinterView, caller: Seq<u8>, player_nonce: u32, e: TokenClaim)
    ensures
        claim_entry_error(s, caller, player_nonce, e) is None <==> {
            &&& s.signer is Some
            &&& e.signature_valid
            &&& e.amount <= 180000000000000000000
            &&& e.index == player_nonce
            &&& !s.tokens_claimed.contains((caller, player_nonce))
            &&& s.material_token_id.contains_key(e.token_key@)
        },
{
}

/// An accepted materials claim was one whose nonce was not yet claimed and
/// whose every entry was fine.
pub proof fn lemma_claim_tokens_accepted_only_if(s: MinterView, caller: Seq<u8>, player_nonce: u32, items: Seq<TokenClaim>)
    ensures
        claim_tokens_outcome(s, caller, player_nonce, items) is Ok ==> forall|j: int|
            0 <= j < items.len() ==> claim_entry_error(s, caller, player_nonce, #[trigger] items[j]) is None,
    decreases items.len(),
{
    if items.len() > 0 {
        let prefix = items.drop_last();
        lemma_claim_tokens_accepted_only_if(s, caller, player_nonce, prefix);
        if claim_tokens_outcome(s, caller, player_nonce, items) is Ok {
            assert(first_claim_error(s, caller, player_nonce, prefix) is None);
            assert forall|j: int| 0 <= j < items.len() implies claim_entry_error(s, caller, player_nonce, #[trigger] items[j]) is None by {
                if j < items.len() - 1 {
                    assert(prefix[j] == items[j]);
                }
            }
        }
    }
}

/// Only the owner passes the owner check.
pub proof fn lemma_owner_check(caller: Seq<u8>, owner: Seq<u8>)
    ensures
        owner_check(caller, owner) is Ok <==> caller == owner,
        caller != owner ==> owner_check(caller, owner) == Err::<(), MinterError>(MinterError::OnlyOwner),
{
}

/// The owner mints an issued material to itself: `amount` of the token
/// issued for it is minted and sent to the owner; an unknown material, or
/// anyone but the owner, is refused.
pub proof fn lemma_owner_mints(s: MinterView, caller: Seq<u8>, owner: Seq<u8>, key: Seq<u8>, amount: u128)
    ensures
        mint_tokens_outcome(s, caller, owner, key, amount) is Ok <==> (caller == owner && s.material_token_id.contains_key(key)),
        mint_tokens_outcome(s, caller, owner, key, amount) is Ok ==> mint_tokens_outcome(s, caller, owner, key, amount)->Ok_0
            == seq![
            MinterActionView::LocalMint { token: s.material_token_id[key], amount },
            MinterActionView::Send(TransferView {
                to: owner,
                token: s.material_token_id[key],
                nonce: 0,
                amount,
                data: Seq::empty(),
            }),
        ],
{
}

/// The owner withdraws the contract's whole balance of a token, EGLD when
/// none is given, with nonce zero; anyone else is refused.
pub proof fn lemma_owner_withdraws(caller: Seq<u8>, owner: Seq<u8>, opt_token: Option<Seq<u8>>, balance: u128)
    ensures
        withdraw_profits_outcome(caller, owner, opt_token, balance) is Ok <==> caller == owner,
        withdraw_profits_outcome(caller, owner, opt_token, balance) is Ok ==> withdraw_profits_outcome(
            caller,
            owner,
            opt_token,
            balance,
        )->Ok_0 == (TransferView {
            to: owner,
            token: if opt_token is Some { opt_token->Some_0 } else { Seq::empty() },
            nonce: 0,
            amount: balance,
            data: Seq::empty(),
        }),
{
}

/// `init` sets each setting only while it is unset, and touches nothing
/// else.
pub proof fn lemma_init_sets_once(
    s: MinterView,
    signer: Seq<u8>,
    platform_currency: Seq<u8>,
    planet_price: u128,
    krogan: Seq<u8>,
    rewards_pool: Seq<u8>,
)
    ensures
        ({
            let t = init_outcome(s, signer, platform_currency, planet_price, krogan, rewards_pool);
            &&& t.signer == (if s.signer is Some { s.signer } else { Some(signer) })
            &&& t.krogan == (if s.krogan is Some { s.krogan } else { Some(krogan) })
            &&& t.rewards_pool == (if s.rewards_pool is Some { s.rewards_pool } else { Some(rewards_pool) })
            &&& t.platform_currency == (if s.platform_currency.len() > 0 { s.platform_currency } else { platform_currency })
            &&& t.planet_price == (if s.planet_price > 0 { s.planet_price } else { planet_price })
            &&& t.tokens_claimed == s.tokens_claimed && t.material_token_id == s.material_token_id
            &&& t.planet_token_id == s.planet_token_id && t.planet_claimed == s.planet_claimed
        }),
{
}

} // verus!
