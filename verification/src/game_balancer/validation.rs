//! Checks that a faction request was signed by the balancer's signer, once.

use vstd::prelude::*;
use crate::chain::{SignatureCheck, append_bytes};
use crate::encoding::{push_u64_nested, u64_nested};
use crate::store::copy_bytes;
use super::Balancer;
use super::storage::{BalancerError, BalancerView};

verus! {

/// The message that the signer signs for a request: the nested encoding of
/// the timestamp, then the caller's and the faction's addresses.
pub open spec fn signed_data(timestamp: u64, caller: Seq<u8>, faction: Seq<u8>) -> Seq<u8> {
    u64_nested(timestamp) + caller + faction
}

/// What checking a signature, whose ed25519 verification against the stored
/// signer gave `signature_valid`, does: a signature is good for one use per
/// caller and timestamp.
pub open spec fn signature_outcome(s: BalancerView, caller: Seq<u8>, timestamp: u64, signature_valid: bool) -> Result<BalancerView, BalancerError> {
    if s.signer is None {
        Err(BalancerError::SignerNotSet)
    } else if s.signed.contains((caller, timestamp)) {
        Err(BalancerError::SignatureUsed)
    } else if !signature_valid {
        Err(BalancerError::InvalidSignature)
    } else {
        Ok(BalancerView { signed: s.signed.insert((caller, timestamp)), ..s })
    }
}

/// Signature checks of the balancer. The ed25519 verification runs on the
/// chain, over `signed_data(..)` and against the stored signer; its verdict is
/// handed to `verify_signature`.
pub trait ValidationModule: View<V = BalancerView> + Sized {
    /// Accepts a signature once per caller and timestamp.
    fn verify_signature(&mut self, timestamp: u64, caller: &Vec<u8>, signature_valid: bool) -> (r: Result<(), BalancerError>)
        ensures
            match signature_outcome(old(self)@, caller@, timestamp, signature_valid) {
                Ok(s2) => r is Ok && final(self)@ == s2,
                Err(e) => r == Err::<(), BalancerError>(e) && final(self)@ == old(self)@,
            },
    ;

    /// The message signed for a request.
    fn signed_data(&self, timestamp: u64, caller: &Vec<u8>, faction: &Vec<u8>) -> (r: Vec<u8>)
        ensures
            r@ == signed_data(timestamp, caller@, faction@),
    ;

    /// The verification whose verdict a request of `caller` for `faction`,
    /// signed at `timestamp`, hands to `verify_signature`: its message under
    /// the stored signer.
    fn signature_check(&self, timestamp: u64, caller: &Vec<u8>, faction: &Vec<u8>) -> (r: Result<SignatureCheck, BalancerError>)
        ensures
            match self@.signer {
                Some(signer) => r matches Ok(c) && c@ == (signer, signed_data(timestamp, caller@, faction@)),
                None => r == Err::<SignatureCheck, BalancerError>(BalancerError::SignerNotSet),
            },
    ;
}

impl Balancer {
    /// The verdict of `verify_signature`, without recording the signature's use.
    pub(crate) fn check_signature(&self, timestamp: u64, caller: &Vec<u8>, signature_valid: bool) -> (r: Result<(), BalancerError>)
        ensures
            match signature_outcome(self@, caller@, timestamp, signature_valid) {
                Ok(_) => r is Ok,
                Err(e) => r == Err::<(), BalancerError>(e),
            },
    {
        if self.signer.is_none() {
            return Err(BalancerError::SignerNotSet);
        }
        if self.signed.contains_key(&(copy_bytes(caller), timestamp)) {
            return Err(BalancerError::SignatureUsed);
        }
        if !signature_valid {
            return Err(BalancerError::InvalidSignature);
        }
        Ok(())
    }
}

impl ValidationModule for Balancer {
    fn verify_signature(&mut self, timestamp: u64, caller: &Vec<u8>, signature_valid: bool) -> Result<(), BalancerError> {
        match self.check_signature(timestamp, caller, signature_valid) {
            Err(e) => return Err(e),
            Ok(()) => {},
        }
        self.signed.insert((copy_bytes(caller), timestamp), ());
        Ok(())
    }

    fn signed_data(&self, timestamp: u64, caller: &Vec<u8>, faction: &Vec<u8>) -> Vec<u8> {
        let mut data: Vec<u8> = Vec::new();
        push_u64_nested(&mut data, timestamp);
        append_bytes(&mut data, caller);
        append_bytes(&mut data, faction);
        assert(data@ =~= signed_data(timestamp, caller@, faction@));
        data
    }

    fn signature_check(&self, timestamp: u64, caller: &Vec<u8>, faction: &Vec<u8>) -> Result<SignatureCheck, BalancerError> {
        match &self.signer {
            None => Err(BalancerError::SignerNotSet),
            Some(signer) => Ok(SignatureCheck { signer: copy_bytes(signer), message: self.signed_data(timestamp, caller, faction) }),
        }
    }
}

} // verus!
