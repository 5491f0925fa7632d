//! What holds of the balancer contract across calls.

use vstd::prelude::*;
use super::storage::{BalancerError, BalancerView, FactionCallView, FactionEndpointView, owner_check};
use crate::encoding::{lemma_u64_nested_injective, u64_nested};
use crate::game_faction::storage::{FactionError, FactionView};
use super::validation::{signature_outcome, signed_data};
use super::{
    REQUEST_LIFETIME, call, freshness, proposal_type_calls, register_balancer_calls, register_user_outcome,
    remove_user_outcome, swap_user_outcome,
};

verus! {

/// A call of a balancer endpoint that writes storage, with its arguments
/// and environment; the other endpoints write none.
pub enum BalancerOp {
    Init { factions: Seq<Seq<u8>> },
    ChangeSigner { caller: Seq<u8>, owner: Seq<u8>, new_signer: Seq<u8> },
    RegisterUser { caller: Seq<u8>, now: u64, faction_address: Seq<u8>, timestamp: u64, signature_valid: bool },
    SwapUser { caller: Seq<u8>, now: u64, with_address: Seq<u8>, timestamp: u64, signature_valid: bool },
    VerifySignature { caller: Seq<u8>, timestamp: u64, signature_valid: bool },
}

/// The storage after a call: the new storage when the call succeeds, the old
/// one when it fails.
pub open spec fn balancer_step(s: BalancerView, op: BalancerOp) -> BalancerView {
    match op {
        BalancerOp::Init { factions } =>
            BalancerView { factions: if s.factions.len() == 0 { factions } else { s.factions }, ..s },
        BalancerOp::ChangeSigner { caller, owner, new_signer } =>
            if owner_check(caller, owner) is Ok { BalancerView { signer: Some(new_signer), ..s } } else { s },
        BalancerOp::RegisterUser { caller, now, faction_address, timestamp, signature_valid } =>
            match register_user_outcome(s, caller, now, faction_address, timestamp, signature_valid) {
                Ok((s1, _)) => s1,
                Err(_) => s,
            },
        BalancerOp::SwapUser { caller, now, with_address, timestamp, signature_valid } =>
            match swap_user_outcome(s, caller, now, with_address, timestamp, signature_valid) {
                Ok((s1, _)) => s1,
                Err(_) => s,
            },
        BalancerOp::VerifySignature { caller, timestamp, signature_valid } =>
            match signature_outcome(s, caller, timestamp, signature_valid) {
                Ok(s1) => s1,
                Err(_) => s,
            },
    }
}

/// The storage after the calls `ops`, made in order.
pub open spec fn balancer_run(s: BalancerView, ops: Seq<BalancerOp>) -> BalancerView
    decreases ops.len(),
{
    if ops.len() == 0 {
        s
    } else {
        balancer_step(balancer_run(s, ops.drop_last()), ops.last())
    }
}

/// Whether a call accepts a signature of `player` for `timestamp`: a join,
/// a swap or a bare signature check by that player with that timestamp that
/// succeeds.
pub open spec fn accepts_signature(s: BalancerView, op: BalancerOp, player: Seq<u8>, time: u64) -> bool {
    match op {
        BalancerOp::RegisterUser { caller, now, faction_address, timestamp, signature_valid } =>
            caller == player && timestamp == time
                && register_user_outcome(s, caller, now, faction_address, timestamp, signature_valid) is Ok,
        BalancerOp::SwapUser { caller, now, with_address, timestamp, signature_valid } =>
            caller == player && timestamp == time
                && swap_user_outcome(s, caller, now, with_address, timestamp, signature_valid) is Ok,
        BalancerOp::VerifySignature { caller, timestamp, signature_valid } =>
            caller == player && timestamp == time && signature_outcome(s, caller, timestamp, signature_valid) is Ok,
        _ => false,
    }
}

/// No sequence of calls forgets a used signature or clears a set signer.
proof fn lemma_run_keeps_signed(s: BalancerView, ops: Seq<BalancerOp>)
    ensures
        s.signed.subset_of(balancer_run(s, ops).signed),
        s.signer is Some ==> balancer_run(s, ops).signer is Some,
    decreases ops.len(),
{
    if ops.len() > 0 {
        lemma_run_keeps_signed(s, ops.drop_last());
    }
}

/// A signed request is used once: after a call accepts a player's signature
/// for a timestamp, whatever calls come next, every further request of that
/// player with that timestamp, to join, to swap or to check the signature,
/// is refused; once the request is fresh, it is refused as a used signature.
pub proof fn lemma_signature_used_once(
    s: BalancerView,
    first: BalancerOp,
    ops: Seq<BalancerOp>,
    player: Seq<u8>,
    timestamp: u64,
    now: u64,
    address: Seq<u8>,
    signature_valid: bool,
)
    requires
        accepts_signature(s, first, player, timestamp),
    ensures
        ({
            let s2 = balancer_run(balancer_step(s, first), ops);
            &&& signature_outcome(s2, player, timestamp, signature_valid)
                == Err::<BalancerView, BalancerError>(BalancerError::SignatureUsed)
            &&& register_user_outcome(s2, player, now, address, timestamp, signature_valid) is Err
            &&& swap_user_outcome(s2, player, now, address, timestamp, signature_valid) is Err
            &&& freshness(now, timestamp) is Ok ==> {
                &&& register_user_outcome(s2, player, now, address, timestamp, signature_valid)
                    == Err::<(BalancerView, Seq<FactionCallView>), BalancerError>(BalancerError::SignatureUsed)
                &&& swap_user_outcome(s2, player, now, address, timestamp, signature_valid)
                    == Err::<(BalancerView, Seq<FactionCallView>), BalancerError>(BalancerError::SignatureUsed)
            }
        }),
{
    let s1 = balancer_step(s, first);
    assert(s1.signed.contains((player, timestamp)));
    assert(s1.signer is Some);
    lemma_run_keeps_signed(s1, ops);
}

/// An accepted request was signed at most an hour before the block, and not
/// after it.
pub proof fn lemma_accepted_requests_are_fresh(
    s: BalancerView,
    caller: Seq<u8>,
    now: u64,
    address: Seq<u8>,
    timestamp: u64,
    signature_valid: bool,
)
    requires
        register_user_outcome(s, caller, now, address, timestamp, signature_valid) is Ok
            || swap_user_outcome(s, caller, now, address, timestamp, signature_valid) is Ok,
    ensures
        timestamp <= now < timestamp + REQUEST_LIFETIME,
{
}

/// After joining a faction, the player is recorded in it, and the faction is
/// asked to register the player after the old faction, if any, was asked to
/// remove it.
pub proof fn lemma_join_records_faction(
    s: BalancerView,
    caller: Seq<u8>,
    now: u64,
    faction_address: Seq<u8>,
    timestamp: u64,
    signature_valid: bool,
)
    requires
        register_user_outcome(s, caller, now, faction_address, timestamp, signature_valid) is Ok,
    ensures
        ({
            let (s1, calls) = register_user_outcome(s, caller, now, faction_address, timestamp, signature_valid)->Ok_0;
            &&& s1.user_faction.contains_key(caller)
            &&& s1.user_faction[caller] == faction_address
            &&& calls.last() == call(faction_address, FactionEndpointView::RegisterUser { address: caller })
            &&& calls.len() == (if s.user_faction.contains_key(caller) { 2int } else { 1int })
            &&& s.user_faction.contains_key(caller) ==> calls[0] == call(
                s.user_faction[caller],
                FactionEndpointView::RemoveUser { address: caller },
            )
        }),
{
}

/// A swap asks the two different factions of the players to trade them, and
/// changes no player's recorded faction.
pub proof fn lemma_swap_calls(
    s: BalancerView,
    caller: Seq<u8>,
    now: u64,
    with_address: Seq<u8>,
    timestamp: u64,
    signature_valid: bool,
)
    requires
        swap_user_outcome(s, caller, now, with_address, timestamp, signature_valid) is Ok,
    ensures
        ({
            let (s1, calls) = swap_user_outcome(s, caller, now, with_address, timestamp, signature_valid)->Ok_0;
            &&& s.user_faction[caller] != s.user_faction[with_address]
            &&& s1.user_faction == s.user_faction
            &&& calls == seq![
                call(s.user_faction[caller], FactionEndpointView::SwapUser { address: caller, with_address }),
                call(s.user_faction[with_address], FactionEndpointView::SwapUser { address: with_address, with_address: caller }),
            ]
        }),
{
}

/// Signed messages name their request: with addresses of one length, equal
/// messages are messages of the same timestamp, player and faction, so a
/// signature for one request is no signature for another.
pub proof fn lemma_signed_data_injective(t1: u64, c1: Seq<u8>, f1: Seq<u8>, t2: u64, c2: Seq<u8>, f2: Seq<u8>)
    requires
        signed_data(t1, c1, f1) == signed_data(t2, c2, f2),
        c1.len() == c2.len(),
    ensures
        t1 == t2,
        c1 == c2,
        f1 == f2,
{
    let m = signed_data(t1, c1, f1);
    assert(m.subrange(0, 8) =~= u64_nested(t1));
    assert(signed_data(t2, c2, f2).subrange(0, 8) =~= u64_nested(t2));
    lemma_u64_nested_injective(t1, t2);
    assert(m.subrange(8, (8 + c1.len()) as int) =~= c1);
    assert(signed_data(t2, c2, f2).subrange(8, (8 + c2.len()) as int) =~= c2);
    assert(m.subrange((8 + c1.len()) as int, m.len() as int) =~= f1);
    assert(signed_data(t2, c2, f2).subrange((8 + c2.len()) as int, m.len() as int) =~= f2);
}

/// What a faction does with a call that the balancer, at `balancer_address`,
/// makes to it.
pub open spec fn faction_call_outcome(f: FactionView, balancer_address: Seq<u8>, endpoint: FactionEndpointView) -> Result<FactionView, FactionError> {
    match endpoint {
        FactionEndpointView::RegisterBalancer { address } => Ok(FactionView {
            balancer: if f.balancer is None { Some(address) } else { f.balancer },
            ..f
        }),
        FactionEndpointView::RegisterProposalType { proposal_type, cost } =>
            crate::game_faction::register_proposal_type_outcome(f, balancer_address, proposal_type, cost),
        FactionEndpointView::RegisterUser { address } =>
            crate::game_faction::register_user_outcome(f, balancer_address, address),
        FactionEndpointView::SwapUser { address, with_address } =>
            crate::game_faction::swap_user_outcome(f, balancer_address, address, with_address),
        FactionEndpointView::RemoveUser { address } =>
            crate::game_faction::remove_user_outcome(f, balancer_address, address),
    }
}

/// Joining a faction moves the player: once the factions carry out the
/// balancer's calls, the player is a member of the faction it joined, and no
/// longer of the one it was in, when that was another.
pub proof fn lemma_join_moves_membership(
    s: BalancerView,
    caller: Seq<u8>,
    now: u64,
    faction_address: Seq<u8>,
    timestamp: u64,
    signature_valid: bool,
    balancer_address: Seq<u8>,
    new_faction: FactionView,
    old_faction: FactionView,
)
    requires
        register_user_outcome(s, caller, now, faction_address, timestamp, signature_valid) is Ok,
        new_faction.balancer == Some(balancer_address),
        new_faction.user_count < u32::MAX,
        old_faction.balancer == Some(balancer_address),
    ensures
        ({
            let calls = register_user_outcome(s, caller, now, faction_address, timestamp, signature_valid)->Ok_0.1;
            &&& calls.last().faction == faction_address
            &&& faction_call_outcome(new_faction, balancer_address, calls.last().endpoint) is Ok
            &&& faction_call_outcome(new_faction, balancer_address, calls.last().endpoint)->Ok_0.registered.contains(caller)
            &&& s.user_faction.contains_key(caller) ==> {
                &&& calls[0].faction == s.user_faction[caller]
                &&& faction_call_outcome(old_faction, balancer_address, calls[0].endpoint) is Ok
                &&& !faction_call_outcome(old_faction, balancer_address, calls[0].endpoint)->Ok_0.registered.contains(caller)
            }
        }),
{
}

/// A swap trades the players: once both factions carry out the balancer's
/// calls, each player is a member of the other's faction and no longer of its
/// own.
pub proof fn lemma_swap_trades_membership(
    s: BalancerView,
    caller: Seq<u8>,
    now: u64,
    with_address: Seq<u8>,
    timestamp: u64,
    signature_valid: bool,
    balancer_address: Seq<u8>,
    first: FactionView,
    second: FactionView,
)
    requires
        swap_user_outcome(s, caller, now, with_address, timestamp, signature_valid) is Ok,
        first.balancer == Some(balancer_address),
        second.balancer == Some(balancer_address),
    ensures
        ({
            let calls = swap_user_outcome(s, caller, now, with_address, timestamp, signature_valid)->Ok_0.1;
            let f1 = faction_call_outcome(first, balancer_address, calls[0].endpoint);
            let f2 = faction_call_outcome(second, balancer_address, calls[1].endpoint);
            &&& calls[0].faction == s.user_faction[caller]
            &&& calls[1].faction == s.user_faction[with_address]
            &&& f1 is Ok && f2 is Ok
            &&& f1->Ok_0.registered.contains(with_address)
            &&& (caller != with_address ==> !f1->Ok_0.registered.contains(caller))
            &&& f2->Ok_0.registered.contains(caller)
            &&& (caller != with_address ==> !f2->Ok_0.registered.contains(with_address))
        }),
{
}

/// A request is fresh exactly when it was signed at most an hour, 3600
/// seconds, before the block, and not after it.
pub proof fn lemma_freshness_window(now: u64, timestamp: u64)
    ensures
        freshness(now, timestamp) is Ok <==> (timestamp <= now && now < timestamp + 3600),
{
}

/// A player joins a faction on a fresh request whose signature by the stored
/// signer is valid and unused: exactly then is it accepted. The player's
/// faction becomes the one asked for, the signature is marked used, and the
/// calls are, in order, the removal from the player's old faction when it
/// had one, then the registration in the new one.
pub proof fn lemma_join(
    s: BalancerView,
    caller: Seq<u8>,
    now: u64,
    faction_address: Seq<u8>,
    timestamp: u64,
    signature_valid: bool,
)
    ensures
        register_user_outcome(s, caller, now, faction_address, timestamp, signature_valid) is Ok <==> (timestamp <= now
            && now < timestamp + 3600 && s.signer is Some && !s.signed.contains((caller, timestamp)) && signature_valid),
        register_user_outcome(s, caller, now, faction_address, timestamp, signature_valid) is Ok ==> {
            let (s1, calls) = register_user_outcome(s, caller, now, faction_address, timestamp, signature_valid)->Ok_0;
            let join = FactionCallView { faction: faction_address, endpoint: FactionEndpointView::RegisterUser { address: caller } };
            &&& s1 == (BalancerView {
                signed: s.signed.insert((caller, timestamp)),
                user_faction: s.user_faction.insert(caller, faction_address),
                ..s
            })
            &&& calls == if s.user_faction.contains_key(caller) {
                seq![
                    FactionCallView { faction: s.user_faction[caller], endpoint: FactionEndpointView::RemoveUser { address: caller } },
                    join,
                ]
            } else {
                seq![join]
            }
        },
{
}

/// Two players trade factions on a fresh, valid, unused request of the
/// caller, when both have factions and these differ: each faction is asked
/// to swap its player for the other; only the signature is marked used.
pub proof fn lemma_swap(
    s: BalancerView,
    caller: Seq<u8>,
    now: u64,
    with_address: Seq<u8>,
    timestamp: u64,
    signature_valid: bool,
)
    ensures
        swap_user_outcome(s, caller, now, with_address, timestamp, signature_valid) is Ok <==> (timestamp <= now
            && now < timestamp + 3600 && s.signer is Some && !s.signed.contains((caller, timestamp)) && signature_valid
            && s.user_faction.contains_key(caller) && s.user_faction.contains_key(with_address)
            && s.user_faction[caller] != s.user_faction[with_address]),
        swap_user_outcome(s, caller, now, with_address, timestamp, signature_valid) is Ok ==> swap_user_outcome(
            s,
            caller,
            now,
            with_address,
            timestamp,
            signature_valid,
        )->Ok_0 == (
            BalancerView { signed: s.signed.insert((caller, timestamp)), ..s },
            seq![
                FactionCallView {
                    faction: s.user_faction[caller],
                    endpoint: FactionEndpointView::SwapUser { address: caller, with_address },
                },
                FactionCallView {
                    faction: s.user_faction[with_address],
                    endpoint: FactionEndpointView::SwapUser { address: with_address, with_address: caller },
                },
            ],
        ),
{
}

/// The owner removes a player by asking the player's faction to remove it;
/// anyone else is refused, and so is a player with no faction.
pub proof fn lemma_owner_removes(s: BalancerView, caller: Seq<u8>, owner: Seq<u8>, address: Seq<u8>)
    ensures
        remove_user_outcome(s, caller, owner, address) is Ok <==> (caller == owner && s.user_faction.contains_key(address)),
        remove_user_outcome(s, caller, owner, address) is Ok ==> remove_user_outcome(s, caller, owner, address)->Ok_0
            == (FactionCallView { faction: s.user_faction[address], endpoint: FactionEndpointView::RemoveUser { address } }),
        caller != owner ==> remove_user_outcome(s, caller, owner, address) == Err::<FactionCallView, BalancerError>(
            BalancerError::OnlyOwner,
        ),
{
}

/// Settings reach every faction, in the stored order: the i-th call goes
/// to the i-th faction and carries the same setting.
pub proof fn lemma_calls_reach_every_faction(factions: Seq<Seq<u8>>, sc_address: Seq<u8>, proposal_type: Seq<u8>, cost: u128)
    ensures
        register_balancer_calls(factions, sc_address).len() == factions.len(),
        proposal_type_calls(factions, proposal_type, cost).len() == factions.len(),
        forall|i: int| 0 <= i < factions.len() ==> #[trigger] register_balancer_calls(factions, sc_address)[i]
            == (FactionCallView { faction: factions[i], endpoint: FactionEndpointView::RegisterBalancer { address: sc_address } }),
        forall|i: int| 0 <= i < factions.len() ==> #[trigger] proposal_type_calls(factions, proposal_type, cost)[i]
            == (FactionCallView {
                faction: factions[i],
                endpoint: FactionEndpointView::RegisterProposalType { proposal_type, cost },
            }),
{
}

} // verus!
