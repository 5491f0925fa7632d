//! Checks that a claim or a withdrawal was signed by the contract's signer.

use vstd::prelude::*;
use crate::chain::{SignatureCheck, append_bytes};
use crate::store::copy_bytes;
use crate::encoding::decimal_digits;
use super::Airdrop;
use super::storage::{AirdropError, AirdropView};

verus! {

/// The message that the signer signs for a holder, a root hash and an NFT
/// count: the holder's address, the hash, an underscore, and the count in
/// decimal digits.
pub open spec fn signed_message(address: Seq<u8>, root_hash: Seq<u8>, amount: u32) -> Seq<u8> {
    address + root_hash + seq![95u8] + decimal_digits(amount as nat)
}

/// The outcome of checking a signature whose ed25519 verification against the
/// stored signer gave `signature_valid`.
pub open spec fn signature_outcome(s: AirdropView, signature_valid: bool) -> Result<(), AirdropError> {
    if s.signer is None {
        Err(AirdropError::SignerNotSet)
    } else if !signature_valid {
        Err(AirdropError::InvalidSignature)
    } else {
        Ok(())
    }
}

/// Signature checks of the airdrop contract. The ed25519 verification itself
/// runs on the chain: it checks the signature over `create_hash(..)` against
/// the stored signer, and hands its verdict to `verify_signature`.
pub trait ValidationModule: View<V = AirdropView> + Sized {
    /// Fails unless a signer is stored and the chain found the signature valid.
    fn verify_signature(&self, signature_valid: bool) -> (r: Result<(), AirdropError>)
        ensures
            r == signature_outcome(self@, signature_valid),
    ;

    /// The message signed for a holder, a root hash and an NFT count.
    fn create_hash(&self, address: &Vec<u8>, hash: &Vec<u8>, amount: u32) -> (r: Vec<u8>)
        ensures
            r@ == signed_message(address@, hash@, amount),
    ;

    /// The decimal digits of a number, in ASCII.
    fn decimal_to_ascii(&self, number: u32) -> (r: Vec<u8>)
        ensures
            r@ == decimal_digits(number as nat),
    ;

    /// The verification whose verdict a claim entry, or a withdrawal with
    /// the NFTs left, hands to `verify_signature`: its message under the
    /// stored signer.
    fn signature_check(&self, address: &Vec<u8>, hash: &Vec<u8>, amount: u32) -> (r: Result<SignatureCheck, AirdropError>)
        ensures
            match self@.signer {
                Some(signer) => r matches Ok(c) && c@ == (signer, signed_message(address@, hash@, amount)),
                None => r == Err::<SignatureCheck, AirdropError>(AirdropError::SignerNotSet),
            },
    ;
}

impl ValidationModule for Airdrop {
    fn verify_signature(&self, signature_valid: bool) -> Result<(), AirdropError> {
        match self.signer() {
            None => Err(AirdropError::SignerNotSet),
            Some(_) => {
                if !signature_valid {
                    Err(AirdropError::InvalidSignature)
                } else {
                    Ok(())
                }
            },
        }
    }

    fn create_hash(&self, address: &Vec<u8>, hash: &Vec<u8>, amount: u32) -> Vec<u8> {
        let mut buffer: Vec<u8> = Vec::new();
        append_bytes(&mut buffer, address);
        append_bytes(&mut buffer, hash);
        buffer.push(95u8);
        let digits = self.decimal_to_ascii(amount);
        append_bytes(&mut buffer, &digits);
        assert(buffer@ =~= signed_message(address@, hash@, amount));
        buffer
    }

    fn decimal_to_ascii(&self, number: u32) -> Vec<u8> {
        crate::encoding::decimal_to_ascii(number)
    }

    fn signature_check(&self, address: &Vec<u8>, hash: &Vec<u8>, amount: u32) -> Result<SignatureCheck, AirdropError> {
        match self.signer() {
            None => Err(AirdropError::SignerNotSet),
            Some(signer) => Ok(SignatureCheck { signer: copy_bytes(signer), message: self.create_hash(address, hash, amount) }),
        }
    }
}

} // verus!
