//! The storage of the airdrop contract.

use vstd::prelude::*;
use crate::store::{LinearMap, copy_bytes};
use super::Airdrop;
use super::models::{RewardsCheckpoint, CheckpointView};

verus! {

/// Why an airdrop call fails; a failed call changes nothing.
#[derive(Clone, Copy, Debug, PartialEq, Eq, Structural)]
pub enum AirdropError {
    /// "Not allowed to claim rewards from this project!"
    NotWhitelistedProject,
    /// "Invalid signature"
    InvalidSignature,
    /// "Already claimed rewards for this week"
    AlreadyClaimed,
    /// "Invalid root hash"
    InvalidRootHash,
    /// "Checkpoint already exists"
    CheckpointAlreadyExists,
    /// "Not allowed to deposit!"
    NotAllowedToDeposit,
    /// "Amount must be higher than 0"
    ZeroAmount,
    /// "Checkpoint does not exist"
    CheckpointDoesNotExist,
    /// "Not allowed to remove rewards from this project"
    NotAllowedToRemove,
    /// "Endpoint can only be called by owner"
    OnlyOwner,
    /// "Nothing to withdraw."
    NothingToWithdraw,
    /// The signer address is read while the storage holds none.
    SignerNotSet,
    /// A reward is computed for a checkpoint of zero NFTs.
    DivisionByZero,
    /// An amount exceeds what a `u128` holds.
    Overflow,
}

/// The storage of the airdrop contract, as values.
pub struct AirdropView {
    /// The address whose signatures the contract accepts.
    pub signer: Option<Seq<u8>>,
    /// The projects allowed to deposit rewards.
    pub whitelisted: Set<Seq<u8>>,
    /// The depositor of each checkpoint, by root hash.
    pub rewards_owner: Map<Seq<u8>, Seq<u8>>,
    /// The (holder, root hash) pairs already paid.
    pub rewards_claimed: Set<(Seq<u8>, Seq<u8>)>,
    /// The checkpoints, by root hash.
    pub rewards_checkpoints: Map<Seq<u8>, CheckpointView>,
}

/// An optional byte string, as values.
pub open spec fn opt_bytes(o: Option<Vec<u8>>) -> Option<Seq<u8>> {
    match o {
        Some(v) => Some(v@),
        None => None,
    }
}

/// What writing the whitelist flag of a project address does.
pub open spec fn whitelist_outcome(s: AirdropView, address: Seq<u8>, allowed: bool) -> AirdropView {
    AirdropView {
        whitelisted: if allowed { s.whitelisted.insert(address) } else { s.whitelisted.remove(address) },
        ..s
    }
}

impl Airdrop {
    /// The storage of a contract not yet initialised: everything empty.
    pub fn new() -> (r: Self)
        ensures
            r@.signer is None,
            r@.whitelisted == Set::<Seq<u8>>::empty(),
            r@.rewards_owner == Map::<Seq<u8>, Seq<u8>>::empty(),
            r@.rewards_claimed == Set::<(Seq<u8>, Seq<u8>)>::empty(),
            r@.rewards_checkpoints == Map::<Seq<u8>, CheckpointView>::empty(),
    {
        let r = Airdrop {
            signer: None,
            whitelisted: LinearMap::new(),
            rewards_owner: LinearMap::new(),
            rewards_claimed: LinearMap::new(),
            rewards_checkpoints: LinearMap::new(),
        };
        assert(r@.whitelisted =~= Set::<Seq<u8>>::empty());
        assert(r@.rewards_claimed =~= Set::<(Seq<u8>, Seq<u8>)>::empty());
        r
    }

    /// Writes the whitelist flag of a project address.
    pub fn set_whitelisted(&mut self, address: &Vec<u8>, allowed: bool)
        ensures
            final(self)@ == whitelist_outcome(old(self)@, address@, allowed),
    {
        if allowed {
            self.whitelisted.insert(copy_bytes(address), ());
        } else {
            let _ = self.whitelisted.remove(address);
        }
        assert(self@.whitelisted =~= if allowed {
            old(self)@.whitelisted.insert(address@)
        } else {
            old(self)@.whitelisted.remove(address@)
        });
    }

    /// The signer address, if set.
    pub fn signer(&self) -> (r: Option<&Vec<u8>>)
        ensures
            match r {
                Some(v) => self@.signer == Some(v@),
                None => self@.signer is None,
            },
    {
        match &self.signer {
            Some(v) => Some(v),
            None => None,
        }
    }

    /// Whether the project address may deposit rewards.
    pub fn whitelisted(&self, address: &Vec<u8>) -> (r: bool)
        ensures
            r == self@.whitelisted.contains(address@),
    {
        self.whitelisted.contains_key(address)
    }

    /// The depositor of a checkpoint, if recorded.
    pub fn rewards_owner(&self, root_hash: &Vec<u8>) -> (r: Option<&Vec<u8>>)
        ensures
            match r {
                Some(v) => self@.rewards_owner.contains_key(root_hash@)
                    && self@.rewards_owner[root_hash@] == v@,
                None => !self@.rewards_owner.contains_key(root_hash@),
            },
    {
        self.rewards_owner.get(root_hash)
    }

    /// Whether the holder has claimed the rewards of this root hash.
    pub fn rewards_claimed(&self, holder: &Vec<u8>, root_hash: &Vec<u8>) -> (r: bool)
        ensures
            r == self@.rewards_claimed.contains((holder@, root_hash@)),
    {
        self.rewards_claimed.contains_key(&(copy_bytes(holder), copy_bytes(root_hash)))
    }

    /// The checkpoint of a root hash, if any.
    pub fn rewards_checkpoint(&self, root_hash: &Vec<u8>) -> (r: Option<&RewardsCheckpoint>)
        ensures
            match r {
                Some(c) => self@.rewards_checkpoints.contains_key(root_hash@)
                    && self@.rewards_checkpoints[root_hash@] == c@,
                None => !self@.rewards_checkpoints.contains_key(root_hash@),
            },
    {
        self.rewards_checkpoints.get(root_hash)
    }
}

} // verus!
