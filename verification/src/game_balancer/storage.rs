//! The storage of the balancer contract, the calls it makes to the faction
//! contracts, its owner-only setter and its views.

use vstd::prelude::*;
use crate::store::{bytes_eq, copy_bytes};
use super::Balancer;

verus! {

/// Why a balancer call fails; a failed call changes nothing.
#[derive(Clone, Copy, Debug, PartialEq, Eq, Structural)]
pub enum BalancerError {
    /// "Endpoint can only be called by owner"
    OnlyOwner,
    /// "Invalid request!": the request is an hour old or older.
    InvalidRequest,
    /// "Invalid signature!": the caller already used a signature of this timestamp.
    SignatureUsed,
    /// "Invalid signature"
    InvalidSignature,
    /// "Cannot swap with the same faction"
    SameFaction,
    /// A player's faction is read while the storage holds none.
    FactionNotSet,
    /// The signer is read while the storage holds none.
    SignerNotSet,
    /// The request's timestamp lies after the block's: the age underflows.
    Overflow,
}

/// An endpoint of a faction contract, with its arguments.
#[derive(Debug, PartialEq, Eq)]
pub enum FactionEndpoint {
    RegisterBalancer { address: Vec<u8> },
    RegisterProposalType { proposal_type: Vec<u8>, cost: u128 },
    RegisterUser { address: Vec<u8> },
    SwapUser { address: Vec<u8>, with_address: Vec<u8> },
    RemoveUser { address: Vec<u8> },
}

/// A call the balancer makes to the faction contract at `faction`.
#[derive(Debug, PartialEq, Eq)]
pub struct FactionCall {
    pub faction: Vec<u8>,
    pub endpoint: FactionEndpoint,
}

/// An endpoint call, as values.
pub enum FactionEndpointView {
    RegisterBalancer { address: Seq<u8> },
    RegisterProposalType { proposal_type: Seq<u8>, cost: u128 },
    RegisterUser { address: Seq<u8> },
    SwapUser { address: Seq<u8>, with_address: Seq<u8> },
    RemoveUser { address: Seq<u8> },
}

/// A faction call, as values.
pub struct FactionCallView {
    pub faction: Seq<u8>,
    pub endpoint: FactionEndpointView,
}

impl View for FactionEndpoint {
    type V = FactionEndpointView;

    open spec fn view(&self) -> FactionEndpointView {
        match self {
            FactionEndpoint::RegisterBalancer { address } => FactionEndpointView::RegisterBalancer { address: address@ },
            FactionEndpoint::RegisterProposalType { proposal_type, cost } => FactionEndpointView::RegisterProposalType {
                proposal_type: proposal_type@,
                cost: *cost,
            },
            FactionEndpoint::RegisterUser { address } => FactionEndpointView::RegisterUser { address: address@ },
            FactionEndpoint::SwapUser { address, with_address } => FactionEndpointView::SwapUser {
                address: address@,
                with_address: with_address@,
            },
            FactionEndpoint::RemoveUser { address } => FactionEndpointView::RemoveUser { address: address@ },
        }
    }
}

impl View for FactionCall {
    type V = FactionCallView;

    open spec fn view(&self) -> FactionCallView {
        FactionCallView { faction: self.faction@, endpoint: self.endpoint@ }
    }
}

/// The views of a list of calls.
pub open spec fn call_views(v: Seq<FactionCall>) -> Seq<FactionCallView> {
    v.map_values(|c: FactionCall| c@)
}

/// The storage of the balancer contract, as values.
#[verifier::ext_equal]
pub struct BalancerView {
    pub signer: Option<Seq<u8>>,
    /// The (player, timestamp) pairs whose signatures were used.
    pub signed: Set<(Seq<u8>, u64)>,
    /// The faction contracts' addresses.
    pub factions: Seq<Seq<u8>>,
    /// The faction of each player.
    pub user_faction: Map<Seq<u8>, Seq<u8>>,
}

/// An optional byte string, as values.
pub open spec fn opt_bytes(o: Option<Vec<u8>>) -> Option<Seq<u8>> {
    match o {
        Some(v) => Some(v@),
        None => None,
    }
}

/// The views of a list of byte strings.
pub open spec fn bytes_views(v: Seq<Vec<u8>>) -> Seq<Seq<u8>> {
    v.map_values(|b: Vec<u8>| b@)
}

/// Succeeds when the caller is the contract's owner.
pub open spec fn owner_check(caller: Seq<u8>, owner: Seq<u8>) -> Result<(), BalancerError> {
    if caller != owner { Err(BalancerError::OnlyOwner) } else { Ok(()) }
}

/// The owner-only setter and the views of the balancer contract.
pub trait StorageModule: View<V = BalancerView> + Sized {
    /// Replaces the signer; owner only.
    fn change_signer(&mut self, caller: &Vec<u8>, owner: &Vec<u8>, new_signer: &Vec<u8>) -> (r: Result<(), BalancerError>)
        ensures
            match owner_check(caller@, owner@) {
                Ok(()) => r is Ok && final(self)@ == (BalancerView { signer: Some(new_signer@), ..old(self)@ }),
                Err(e) => r == Err::<(), BalancerError>(e) && final(self)@ == old(self)@,
            },
    ;

    /// The faction contracts' addresses.
    fn get_factions(&self) -> (r: Vec<Vec<u8>>)
        ensures
            bytes_views(r@) == self@.factions,
    ;

    /// The faction of a player.
    fn get_user_faction(&self, address: &Vec<u8>) -> (r: Option<Vec<u8>>)
        ensures
            match r {
                Some(f) => self@.user_faction.contains_key(address@) && self@.user_faction[address@] == f@,
                None => !self@.user_faction.contains_key(address@),
            },
    ;
}

impl Balancer {
    pub(crate) fn check_owner(caller: &Vec<u8>, owner: &Vec<u8>) -> (r: Result<(), BalancerError>)
        ensures
            r == owner_check(caller@, owner@),
    {
        if bytes_eq(caller, owner) { Ok(()) } else { Err(BalancerError::OnlyOwner) }
    }
}

/// A copy of a list of byte strings.
pub fn copy_bytes_list(v: &Vec<Vec<u8>>) -> (r: Vec<Vec<u8>>)
    ensures
        bytes_views(r@) == bytes_views(v@),
{
    let mut r: Vec<Vec<u8>> = Vec::new();
    let mut i: usize = 0;
    while i < v.len()
        invariant
            i <= v@.len(),
            bytes_views(r@) == bytes_views(v@.take(i as int)),
        decreases v@.len() - i,
    {
        let ghost prev = r@;
        r.push(copy_bytes(&v[i]));
        assert(bytes_views(r@) =~= bytes_views(prev).push(v@[i as int]@));
        assert(bytes_views(v@.take(i + 1)) =~= bytes_views(v@.take(i as int)).push(v@[i as int]@));
        i = i + 1;
    }
    assert(v@.take(v@.len() as int) =~= v@);
    r
}

impl StorageModule for Balancer {
    fn change_signer(&mut self, caller: &Vec<u8>, owner: &Vec<u8>, new_signer: &Vec<u8>) -> Result<(), BalancerError> {
        match Balancer::check_owner(caller, owner) {
            Err(e) => Err(e),
            Ok(()) => {
                self.signer = Some(copy_bytes(new_signer));
                Ok(())
            },
        }
    }

    fn get_factions(&self) -> Vec<Vec<u8>> {
        copy_bytes_list(&self.factions)
    }

    fn get_user_faction(&self, address: &Vec<u8>) -> Option<Vec<u8>> {
        match self.user_faction.get(address) {
            Some(f) => Some(copy_bytes(f)),
            None => None,
        }
    }
}

} // verus!
