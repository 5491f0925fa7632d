//! The storage of the minter contract, its owner-only setters and its views.

use vstd::prelude::*;
use crate::store::{bytes_eq, copy_bytes};
use super::Minter;

verus! {

/// Why a minter call fails; a failed call changes nothing.
#[derive(Clone, Copy, Debug, PartialEq, Eq, Structural)]
pub enum MinterError {
    /// "Endpoint can only be called by owner"
    OnlyOwner,
    /// "Invalid signature"
    InvalidSignature,
    /// "Invalid amount."
    InvalidAmount,
    /// "Something went wrong."
    WrongNonce,
    /// "Already claimed these materials."
    AlreadyClaimed,
    /// "Invalid material."
    InvalidMaterial,
    /// "Planet already claimed."
    PlanetAlreadyClaimed,
    /// "Invalid data."
    InvalidData,
    /// "Invalid payment."
    InvalidPayment,
    /// The call does not come with exactly one ESDT payment.
    NotSingleEsdtPayment,
    /// "Token already issued."
    TokenAlreadyIssued,
    /// A setting that the call reads (the signer, krogan or the rewards pool
    /// address, the platform currency, or a material's token) is not stored.
    NotConfigured,
}

/// The storage of the minter contract, as values. Token identifiers read as
/// empty and the price as zero while not stored.
#[verifier::ext_equal]
pub struct MinterView {
    pub signer: Option<Seq<u8>>,
    pub krogan: Option<Seq<u8>>,
    pub rewards_pool: Option<Seq<u8>>,
    /// The (player, nonce) pairs whose materials were claimed.
    pub tokens_claimed: Set<(Seq<u8>, u32)>,
    /// The token issued for each material key.
    pub material_token_id: Map<Seq<u8>, Seq<u8>>,
    pub planet_token_id: Seq<u8>,
    /// The (planet token, nonce) pairs already claimed.
    pub planet_claimed: Set<(Seq<u8>, u32)>,
    pub planet_price: u128,
    pub platform_currency: Seq<u8>,
}

/// An optional byte string, as values.
pub open spec fn opt_bytes(o: Option<Vec<u8>>) -> Option<Seq<u8>> {
    match o {
        Some(v) => Some(v@),
        None => None,
    }
}

/// Succeeds when the caller is the contract's owner.
pub open spec fn owner_check(caller: Seq<u8>, owner: Seq<u8>) -> Result<(), MinterError> {
    if caller != owner { Err(MinterError::OnlyOwner) } else { Ok(()) }
}

/// Whether the current planet token's planet `nonce` is claimed.
pub open spec fn planet_is_claimed(s: MinterView, nonce: u32) -> bool {
    s.planet_claimed.contains((s.planet_token_id, nonce))
}

/// The owner-only setters and the views of the minter contract.
pub trait StorageModule: View<V = MinterView> + Sized {
    fn change_signer(&mut self, caller: &Vec<u8>, owner: &Vec<u8>, new_signer: &Vec<u8>) -> (r: Result<(), MinterError>)
        ensures
            match owner_check(caller@, owner@) {
                Ok(()) => r is Ok && final(self)@ == (MinterView { signer: Some(new_signer@), ..old(self)@ }),
                Err(e) => r == Err::<(), MinterError>(e) && final(self)@ == old(self)@,
            },
    ;

    fn change_krogan_address(&mut self, caller: &Vec<u8>, owner: &Vec<u8>, address: &Vec<u8>) -> (r: Result<(), MinterError>)
        ensures
            match owner_check(caller@, owner@) {
                Ok(()) => r is Ok && final(self)@ == (MinterView { krogan: Some(address@), ..old(self)@ }),
                Err(e) => r == Err::<(), MinterError>(e) && final(self)@ == old(self)@,
            },
    ;

    fn change_rewards_pool_address(&mut self, caller: &Vec<u8>, owner: &Vec<u8>, address: &Vec<u8>) -> (r: Result<(), MinterError>)
        ensures
            match owner_check(caller@, owner@) {
                Ok(()) => r is Ok && final(self)@ == (MinterView { rewards_pool: Some(address@), ..old(self)@ }),
                Err(e) => r == Err::<(), MinterError>(e) && final(self)@ == old(self)@,
            },
    ;

    fn change_planet_token_id(&mut self, caller: &Vec<u8>, owner: &Vec<u8>, new_token_id: &Vec<u8>) -> (r: Result<(), MinterError>)
        ensures
            match owner_check(caller@, owner@) {
                Ok(()) => r is Ok && final(self)@ == (MinterView { planet_token_id: new_token_id@, ..old(self)@ }),
                Err(e) => r == Err::<(), MinterError>(e) && final(self)@ == old(self)@,
            },
    ;

    /// Whether the current planet token's planet `nonce` is claimed.
    fn get_planet_claimed(&self, nonce: u32) -> (r: bool)
        ensures
            r == planet_is_claimed(self@, nonce),
    ;

    /// Makes the current planet token's planet `nonce` claimable again.
    fn reset_planet_claim(&mut self, caller: &Vec<u8>, owner: &Vec<u8>, nonce: u32) -> (r: Result<(), MinterError>)
        ensures
            match owner_check(caller@, owner@) {
                Ok(()) => r is Ok && final(self)@ == (MinterView { planet_claimed: old(self)@.planet_claimed.remove((old(self)@.planet_token_id, nonce)), ..old(self)@ }),
                Err(e) => r == Err::<(), MinterError>(e) && final(self)@ == old(self)@,
            },
    ;

    /// Whether the player claimed the materials of `index`.
    fn get_tokens_claimed(&self, user: &Vec<u8>, index: u32) -> (r: bool)
        ensures
            r == self@.tokens_claimed.contains((user@, index)),
    ;

    /// The token issued for a material key; empty if none.
    fn get_material_token_id(&self, key: &Vec<u8>) -> (r: Vec<u8>)
        ensures
            r@ == (if self@.material_token_id.contains_key(key@) { self@.material_token_id[key@] } else { Seq::empty() }),
    ;

    /// The price of a planet in the platform currency.
    fn get_planet_price(&self) -> (r: u128)
        ensures
            r == self@.planet_price,
    ;

    /// The platform currency's token identifier.
    fn get_platform_currency(&self) -> (r: Vec<u8>)
        ensures
            r@ == self@.platform_currency,
    ;
}

impl Minter {
    pub(crate) fn check_owner(caller: &Vec<u8>, owner: &Vec<u8>) -> (r: Result<(), MinterError>)
        ensures
            r == owner_check(caller@, owner@),
    {
        if bytes_eq(caller, owner) { Ok(()) } else { Err(MinterError::OnlyOwner) }
    }
}

impl StorageModule for Minter {
    fn change_signer(&mut self, caller: &Vec<u8>, owner: &Vec<u8>, new_signer: &Vec<u8>) -> Result<(), MinterError> {
        match Minter::check_owner(caller, owner) {
            Err(e) => Err(e),
            Ok(()) => {
                self.signer = Some(copy_bytes(new_signer));
                Ok(())
            },
        }
    }

    fn change_krogan_address(&mut self, caller: &Vec<u8>, owner: &Vec<u8>, address: &Vec<u8>) -> Result<(), MinterError> {
        match Minter::check_owner(caller, owner) {
            Err(e) => Err(e),
            Ok(()) => {
                self.krogan = Some(copy_bytes(address));
                Ok(())
            },
        }
    }

    fn change_rewards_pool_address(&mut self, caller: &Vec<u8>, owner: &Vec<u8>, address: &Vec<u8>) -> Result<(), MinterError> {
        match Minter::check_owner(caller, owner) {
            Err(e) => Err(e),
            Ok(()) => {
                self.rewards_pool = Some(copy_bytes(address));
                Ok(())
            },
        }
    }

    fn change_planet_token_id(&mut self, caller: &Vec<u8>, owner: &Vec<u8>, new_token_id: &Vec<u8>) -> Result<(), MinterError> {
        match Minter::check_owner(caller, owner) {
            Err(e) => Err(e),
            Ok(()) => {
                self.planet_token_id = copy_bytes(new_token_id);
                Ok(())
            },
        }
    }

    fn get_planet_claimed(&self, nonce: u32) -> bool {
        self.planet_claimed.contains_key(&(copy_bytes(&self.planet_token_id), nonce))
    }

    fn reset_planet_claim(&mut self, caller: &Vec<u8>, owner: &Vec<u8>, nonce: u32) -> Result<(), MinterError> {
        match Minter::check_owner(caller, owner) {
            Err(e) => Err(e),
            Ok(()) => {
                let key = (copy_bytes(&self.planet_token_id), nonce);
                let _ = self.planet_claimed.remove(&key);
                Ok(())
            },
        }
    }

    fn get_tokens_claimed(&self, user: &Vec<u8>, index: u32) -> bool {
        self.tokens_claimed.contains_key(&(copy_bytes(user), index))
    }

    fn get_material_token_id(&self, key: &Vec<u8>) -> Vec<u8> {
        match self.material_token_id.get(key) {
            Some(t) => copy_bytes(t),
            None => {
                let r: Vec<u8> = Vec::new();
                assert(r@ =~= Seq::<u8>::empty());
                r
            },
        }
    }

    fn get_planet_price(&self) -> u128 {
        self.planet_price
    }

    fn get_platform_currency(&self) -> Vec<u8> {
        copy_bytes(&self.platform_currency)
    }
}

} // verus!
