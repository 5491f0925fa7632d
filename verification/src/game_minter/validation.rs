//! Checks that a claim was signed by the minter's signer.

use vstd::prelude::*;
use crate::chain::{SignatureCheck, append_bytes};
use crate::store::copy_bytes;
use crate::encoding::{big_uint_nested, push_big_uint_nested, push_u32_nested, u32_nested};
use super::Minter;
use super::storage::{MinterError, MinterView};

verus! {

/// The message that the signer signs for a claim: the nested encodings of the
/// index, then the caller's address and the token key, then the nested
/// encoding of the amount.
pub open spec fn signed_data(index: u32, caller: Seq<u8>, token_key: Seq<u8>, amount: u128) -> Seq<u8> {
    u32_nested(index) + caller + token_key + big_uint_nested(amount)
}

/// The outcome of checking a signature whose ed25519 verification against the
/// stored signer gave `signature_valid`.
pub open spec fn signature_outcome(s: MinterView, signature_valid: bool) -> Result<(), MinterError> {
    if s.signer is None {
        Err(MinterError::NotConfigured)
    } else if !signature_valid {
        Err(MinterError::InvalidSignature)
    } else {
        Ok(())
    }
}

/// Signature checks of the minter. The ed25519 verification runs on the
/// chain, over `signed_data(..)` and against the stored signer; its verdict is
/// handed to `verify_signature`.
pub trait ValidationModule: View<V = MinterView> + Sized {
    /// Fails unless a signer is stored and the chain found the signature valid.
    fn verify_signature(&self, signature_valid: bool) -> (r: Result<(), MinterError>)
        ensures
            r == signature_outcome(self@, signature_valid),
    ;

    /// The message signed for a claim.
    fn signed_data(&self, index: u32, caller: &Vec<u8>, token_key: &Vec<u8>, amount: u128) -> (r: Vec<u8>)
        ensures
            r@ == signed_data(index, caller@, token_key@, amount),
    ;

    /// The verification whose verdict a claim entry (or a planet purchase,
    /// with the planet's nonce, token and amount) hands to
    /// `verify_signature`: its message under the stored signer.
    fn signature_check(&self, index: u32, caller: &Vec<u8>, token_key: &Vec<u8>, amount: u128) -> (r: Result<SignatureCheck, MinterError>)
        ensures
            match self@.signer {
                Some(signer) => r matches Ok(c) && c@ == (signer, signed_data(index, caller@, token_key@, amount)),
                None => r == Err::<SignatureCheck, MinterError>(MinterError::NotConfigured),
            },
    ;
}

impl ValidationModule for Minter {
    fn verify_signature(&self, signature_valid: bool) -> Result<(), MinterError> {
        if self.signer.is_none() {
            Err(MinterError::NotConfigured)
        } else if !signature_valid {
            Err(MinterError::InvalidSignature)
        } else {
            Ok(())
        }
    }

    fn signed_data(&self, index: u32, caller: &Vec<u8>, token_key: &Vec<u8>, amount: u128) -> Vec<u8> {
        let mut data: Vec<u8> = Vec::new();
        push_u32_nested(&mut data, index);
        append_bytes(&mut data, caller);
        append_bytes(&mut data, token_key);
        push_big_uint_nested(&mut data, amount);
        assert(data@ =~= signed_data(index, caller@, token_key@, amount));
        data
    }

    fn signature_check(&self, index: u32, caller: &Vec<u8>, token_key: &Vec<u8>, amount: u128) -> Result<SignatureCheck, MinterError> {
        match &self.signer {
            None => Err(MinterError::NotConfigured),
            Some(signer) => Ok(SignatureCheck {
                signer: copy_bytes(signer),
                message: self.signed_data(index, caller, token_key, amount),
            }),
        }
    }
}

} // verus!
