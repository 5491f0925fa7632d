//! The balancer contract: it assigns players to faction contracts on the
//! strength of the game server's signatures, and relays its owner's settings
//! to every faction.

pub mod laws;
pub mod storage;
pub mod validation;

use vstd::prelude::*;
use crate::store::{LinearMap, bytes_eq, copy_bytes};
use storage::{
    BalancerError, BalancerView, FactionCall, FactionCallView, FactionEndpoint, FactionEndpointView,
    bytes_views, call_views, copy_bytes_list, opt_bytes, owner_check,
};
use validation::{ValidationModule, signature_outcome};

verus! {

/// How long a signed request stays valid: one hour, in seconds.
pub const REQUEST_LIFETIME: u64 = 3600;

/// The storage of the balancer contract.
pub struct Balancer {
    signer: Option<Vec<u8>>,
    signed: LinearMap<(Vec<u8>, u64), ()>,
    factions: Vec<Vec<u8>>,
    user_faction: LinearMap<Vec<u8>, Vec<u8>>,
}

impl View for Balancer {
    type V = BalancerView;

    closed spec fn view(&self) -> BalancerView {
        BalancerView {
            signer: opt_bytes(self.signer),
            signed: self.signed@.dom(),
            factions: bytes_views(self.factions@),
            user_faction: self.user_faction@,
        }
    }
}

/// Succeeds when a request signed at `timestamp` is less than an hour old at
/// `now`; a timestamp after `now` underflows.
pub open spec fn freshness(now: u64, timestamp: u64) -> Result<(), BalancerError> {
    if timestamp > now {
        Err(BalancerError::Overflow)
    } else if now - timestamp >= REQUEST_LIFETIME {
        Err(BalancerError::InvalidRequest)
    } else {
        Ok(())
    }
}

/// A call of `endpoint` on the faction at `faction`.
pub open spec fn call(faction: Seq<u8>, endpoint: FactionEndpointView) -> FactionCallView {
    FactionCallView { faction, endpoint }
}

/// The calls that tell each faction in `factions` the balancer's address.
pub open spec fn register_balancer_calls(factions: Seq<Seq<u8>>, sc_address: Seq<u8>) -> Seq<FactionCallView> {
    factions.map_values(|f: Seq<u8>| call(f, FactionEndpointView::RegisterBalancer { address: sc_address }))
}

/// The calls that tell each faction in `factions` a proposal type's cost.
pub open spec fn proposal_type_calls(factions: Seq<Seq<u8>>, proposal_type: Seq<u8>, cost: u128) -> Seq<FactionCallView> {
    factions.map_values(|f: Seq<u8>| call(f, FactionEndpointView::RegisterProposalType { proposal_type, cost }))
}

/// What a player's signed request to join the faction `faction_address` does:
/// the player leaves the faction it was in, if any, and joins the new one.
pub open spec fn register_user_outcome(
    s: BalancerView,
    caller: Seq<u8>,
    now: u64,
    faction_address: Seq<u8>,
    timestamp: u64,
    signature_valid: bool,
) -> Result<(BalancerView, Seq<FactionCallView>), BalancerError> {
    match freshness(now, timestamp) {
        Err(e) => Err(e),
        Ok(()) => match signature_outcome(s, caller, timestamp, signature_valid) {
            Err(e) => Err(e),
            Ok(s1) => {
                let leave = if s.user_faction.contains_key(caller) {
                    seq![call(s.user_faction[caller], FactionEndpointView::RemoveUser { address: caller })]
                } else {
                    Seq::empty()
                };
                Ok((
                    BalancerView { user_faction: s1.user_faction.insert(caller, faction_address), ..s1 },
                    leave.push(call(faction_address, FactionEndpointView::RegisterUser { address: caller })),
                ))
            },
        },
    }
}

/// What a player's signed request to trade places with `with_address` does:
/// each of their factions replaces one by the other.
pub open spec fn swap_user_outcome(
    s: BalancerView,
    caller: Seq<u8>,
    now: u64,
    with_address: Seq<u8>,
    timestamp: u64,
    signature_valid: bool,
) -> Result<(BalancerView, Seq<FactionCallView>), BalancerError> {
    match freshness(now, timestamp) {
        Err(e) => Err(e),
        Ok(()) => match signature_outcome(s, caller, timestamp, signature_valid) {
            Err(e) => Err(e),
            Ok(s1) => if !s.user_faction.contains_key(caller) || !s.user_faction.contains_key(with_address) {
                Err(BalancerError::FactionNotSet)
            } else if s.user_faction[caller] == s.user_faction[with_address] {
                Err(BalancerError::SameFaction)
            } else {
                Ok((
                    s1,
                    seq![
                        call(s.user_faction[caller], FactionEndpointView::SwapUser { address: caller, with_address }),
                        call(s.user_faction[with_address], FactionEndpointView::SwapUser { address: with_address, with_address: caller }),
                    ],
                ))
            },
        },
    }
}

/// The call with which the owner removes a player from its faction.
pub open spec fn remove_user_outcome(s: BalancerView, caller: Seq<u8>, owner: Seq<u8>, address: Seq<u8>) -> Result<FactionCallView, BalancerError> {
    if caller != owner {
        Err(BalancerError::OnlyOwner)
    } else if !s.user_faction.contains_key(address) {
        Err(BalancerError::FactionNotSet)
    } else {
        Ok(call(s.user_faction[address], FactionEndpointView::RemoveUser { address }))
    }
}

/// The endpoints of the balancer contract. `caller` signs the transaction,
/// `owner` is the contract's owner and `now` the block timestamp.
pub trait BalancerContract: View<V = BalancerView> + Sized {
    /// Stores the factions unless some are stored already, and returns the
    /// calls that tell each given faction the balancer's address `sc_address`.
    fn init(&mut self, sc_address: &Vec<u8>, factions: &Vec<Vec<u8>>) -> (r: Vec<FactionCall>)
        ensures
            final(self)@ == (BalancerView {
                factions: if old(self)@.factions.len() == 0 { bytes_views(factions@) } else { old(self)@.factions },
                ..old(self)@
            }),
            call_views(r@) == register_balancer_calls(bytes_views(factions@), sc_address@),
    ;

    /// The calls that set a proposal type's cost in every faction; owner only.
    fn register_proposal_type(&self, caller: &Vec<u8>, owner: &Vec<u8>, proposal_type: &Vec<u8>, cost: u128) -> (r: Result<Vec<FactionCall>, BalancerError>)
        ensures
            match owner_check(caller@, owner@) {
                Ok(()) => r matches Ok(v) && call_views(v@) == proposal_type_calls(self@.factions, proposal_type@, cost),
                Err(e) => r == Err::<Vec<FactionCall>, BalancerError>(e),
            },
    ;

    /// Moves the caller into the faction `faction_address`.
    fn register_user(
        &mut self,
        caller: &Vec<u8>,
        now: u64,
        faction_address: &Vec<u8>,
        timestamp: u64,
        signature_valid: bool,
    ) -> (r: Result<Vec<FactionCall>, BalancerError>)
        ensures
            match register_user_outcome(old(self)@, caller@, now, faction_address@, timestamp, signature_valid) {
                Ok((s2, calls)) => r matches Ok(v) && call_views(v@) == calls && final(self)@ == s2,
                Err(e) => r == Err::<Vec<FactionCall>, BalancerError>(e) && final(self)@ == old(self)@,
            },
    ;

    /// Trades the factions of the caller and `with_address`.
    fn swap_user(
        &mut self,
        caller: &Vec<u8>,
        now: u64,
        with_address: &Vec<u8>,
        timestamp: u64,
        signature_valid: bool,
    ) -> (r: Result<Vec<FactionCall>, BalancerError>)
        ensures
            match swap_user_outcome(old(self)@, caller@, now, with_address@, timestamp, signature_valid) {
                Ok((s2, calls)) => r matches Ok(v) && call_views(v@) == calls && final(self)@ == s2,
                Err(e) => r == Err::<Vec<FactionCall>, BalancerError>(e) && final(self)@ == old(self)@,
            },
    ;

    /// Removes a player from its faction; owner only.
    fn remove_user(&self, caller: &Vec<u8>, owner: &Vec<u8>, address: &Vec<u8>) -> (r: Result<FactionCall, BalancerError>)
        ensures
            match remove_user_outcome(self@, caller@, owner@, address@) {
                Ok(c) => r matches Ok(v) && v@ == c,
                Err(e) => r == Err::<FactionCall, BalancerError>(e),
            },
    ;
}

impl Balancer {
    /// The storage of a balancer not yet initialised.
    pub fn new() -> (r: Self)
        ensures
            r@ == (BalancerView { signer: None, signed: Set::empty(), factions: Seq::empty(), user_faction: Map::empty() }),
    {
        let r = Balancer { signer: None, signed: LinearMap::new(), factions: Vec::new(), user_faction: LinearMap::new() };
        assert(r@.signed =~= Set::<(Seq<u8>, u64)>::empty());
        assert(r@.factions =~= Seq::<Seq<u8>>::empty());
        r
    }

    fn check_freshness(now: u64, timestamp: u64) -> (r: Result<(), BalancerError>)
        ensures
            r == freshness(now, timestamp),
    {
        if timestamp > now {
            Err(BalancerError::Overflow)
        } else if now - timestamp >= REQUEST_LIFETIME {
            Err(BalancerError::InvalidRequest)
        } else {
            Ok(())
        }
    }
}

impl BalancerContract for Balancer {
    fn init(&mut self, sc_address: &Vec<u8>, factions: &Vec<Vec<u8>>) -> Vec<FactionCall> {
        if self.factions.len() == 0 {
            self.factions = copy_bytes_list(factions);
        }
        let mut calls: Vec<FactionCall> = Vec::new();
        let mut i: usize = 0;
        while i < factions.len()
            invariant
                i <= factions@.len(),
                call_views(calls@) == register_balancer_calls(bytes_views(factions@.take(i as int)), sc_address@),
            decreases factions@.len() - i,
        {
            let ghost prev = calls@;
            let c = FactionCall {
                faction: copy_bytes(&factions[i]),
                endpoint: FactionEndpoint::RegisterBalancer { address: copy_bytes(sc_address) },
            };
            calls.push(c);
            assert(call_views(calls@) =~= call_views(prev).push(c@));
            assert(bytes_views(factions@.take(i + 1)) =~= bytes_views(factions@.take(i as int)).push(factions@[i as int]@));
            assert(register_balancer_calls(bytes_views(factions@.take(i + 1)), sc_address@) =~= register_balancer_calls(
                bytes_views(factions@.take(i as int)),
                sc_address@,
            ).push(c@));
            i = i + 1;
        }
        assert(factions@.take(factions@.len() as int) =~= factions@);
        calls
    }

    fn register_proposal_type(&self, caller: &Vec<u8>, owner: &Vec<u8>, proposal_type: &Vec<u8>, cost: u128) -> Result<Vec<FactionCall>, BalancerError> {
        match Balancer::check_owner(caller, owner) {
            Err(e) => return Err(e),
            Ok(()) => {},
        }
        let mut calls: Vec<FactionCall> = Vec::new();
        let mut i: usize = 0;
        while i < self.factions.len()
            invariant
                i <= self.factions@.len(),
                call_views(calls@) == proposal_type_calls(bytes_views(self.factions@.take(i as int)), proposal_type@, cost),
            decreases self.factions@.len() - i,
        {
            let ghost prev = calls@;
            let c = FactionCall {
                faction: copy_bytes(&self.factions[i]),
                endpoint: FactionEndpoint::RegisterProposalType { proposal_type: copy_bytes(proposal_type), cost },
            };
            calls.push(c);
            assert(call_views(calls@) =~= call_views(prev).push(c@));
            assert(bytes_views(self.factions@.take(i + 1)) =~= bytes_views(self.factions@.take(i as int)).push(
                self.factions@[i as int]@,
            ));
            assert(proposal_type_calls(bytes_views(self.factions@.take(i + 1)), proposal_type@, cost) =~= proposal_type_calls(
                bytes_views(self.factions@.take(i as int)),
                proposal_type@,
                cost,
            ).push(c@));
            i = i + 1;
        }
        assert(self.factions@.take(self.factions@.len() as int) =~= self.factions@);
        Ok(calls)
    }

    fn register_user(
        &mut self,
        caller: &Vec<u8>,
        now: u64,
        faction_address: &Vec<u8>,
        timestamp: u64,
        signature_valid: bool,
    ) -> Result<Vec<FactionCall>, BalancerError> {
        match Balancer::check_freshness(now, timestamp) {
            Err(e) => return Err(e),
            Ok(()) => {},
        }
        let mut calls: Vec<FactionCall> = Vec::new();
        match self.user_faction.get(caller) {
            Some(old_faction) => {
                calls.push(FactionCall {
                    faction: copy_bytes(old_faction),
                    endpoint: FactionEndpoint::RemoveUser { address: copy_bytes(caller) },
                });
            },
            None => {},
        }
        let ghost leave = calls@;
        match self.verify_signature(timestamp, caller, signature_valid) {
            Err(e) => return Err(e),
            Ok(()) => {},
        }
        let join = FactionCall {
            faction: copy_bytes(faction_address),
            endpoint: FactionEndpoint::RegisterUser { address: copy_bytes(caller) },
        };
        calls.push(join);
        assert(call_views(calls@) =~= call_views(leave).push(join@));
        self.user_faction.insert(copy_bytes(caller), copy_bytes(faction_address));
        Ok(calls)
    }

    fn swap_user(
        &mut self,
        caller: &Vec<u8>,
        now: u64,
        with_address: &Vec<u8>,
        timestamp: u64,
        signature_valid: bool,
    ) -> Result<Vec<FactionCall>, BalancerError> {
        match Balancer::check_freshness(now, timestamp) {
            Err(e) => return Err(e),
            Ok(()) => {},
        }
        match self.check_signature(timestamp, caller, signature_valid) {
            Err(e) => return Err(e),
            Ok(()) => {},
        }
        let (faction1, faction2) = match (self.user_faction.get(caller), self.user_faction.get(with_address)) {
            (Some(f1), Some(f2)) => (copy_bytes(f1), copy_bytes(f2)),
            _ => return Err(BalancerError::FactionNotSet),
        };
        if bytes_eq(&faction1, &faction2) {
            return Err(BalancerError::SameFaction);
        }
        match self.verify_signature(timestamp, caller, signature_valid) {
            Err(e) => return Err(e),
            Ok(()) => {},
        }
        let mut calls: Vec<FactionCall> = Vec::new();
        let c1 = FactionCall {
            faction: faction1,
            endpoint: FactionEndpoint::SwapUser { address: copy_bytes(caller), with_address: copy_bytes(with_address) },
        };
        let c2 = FactionCall {
            faction: faction2,
            endpoint: FactionEndpoint::SwapUser { address: copy_bytes(with_address), with_address: copy_bytes(caller) },
        };
        calls.push(c1);
        calls.push(c2);
        assert(call_views(calls@) =~= seq![c1@, c2@]);
        Ok(calls)
    }

    fn remove_user(&self, caller: &Vec<u8>, owner: &Vec<u8>, address: &Vec<u8>) -> Result<FactionCall, BalancerError> {
        match Balancer::check_owner(caller, owner) {
            Err(e) => return Err(e),
            Ok(()) => {},
        }
        match self.user_faction.get(address) {
            None => Err(BalancerError::FactionNotSet),
            Some(f) => Ok(FactionCall {
                faction: copy_bytes(f),
                endpoint: FactionEndpoint::RemoveUser { address: copy_bytes(address) },
            }),
        }
    }
}

} // verus!
