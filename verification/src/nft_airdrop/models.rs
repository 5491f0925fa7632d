//! The values that the airdrop contract stores and pays out.

use vstd::prelude::*;
use crate::store::copy_bytes;

verus! {

/// The kind of an ESDT payment.
#[derive(Clone, Copy, Debug, PartialEq, Eq, Structural)]
pub enum EsdtTokenType {
    Fungible,
    NonFungible,
    SemiFungible,
    Invalid,
}

/// A payment of an ESDT token; the empty identifier stands for EGLD.
#[derive(Debug, PartialEq, Eq)]
pub struct EsdtTokenPayment {
    pub token_type: EsdtTokenType,
    pub token_identifier: Vec<u8>,
    pub token_nonce: u64,
    pub amount: u128,
}

/// A payment, as values.
pub struct PaymentView {
    pub token_type: EsdtTokenType,
    pub token_identifier: Seq<u8>,
    pub token_nonce: u64,
    pub amount: u128,
}

impl View for EsdtTokenPayment {
    type V = PaymentView;

    open spec fn view(&self) -> PaymentView {
        PaymentView {
            token_type: self.token_type,
            token_identifier: self.token_identifier@,
            token_nonce: self.token_nonce,
            amount: self.amount,
        }
    }
}

/// Whether `b` is an upper-case ASCII letter or a digit.
pub open spec fn ticker_char(b: u8) -> bool {
    (65 <= b <= 90) || (48 <= b <= 57)
}

/// Whether `b` is a lower-case ASCII letter or a digit.
pub open spec fn random_char(b: u8) -> bool {
    (97 <= b <= 122) || (48 <= b <= 57)
}

/// Whether `token` is a valid ESDT identifier: a ticker of 3 to 10
/// upper-case letters and digits, a dash, and 6 lower-case letters and
/// digits.
pub open spec fn valid_esdt_identifier(token: Seq<u8>) -> bool {
    &&& 10 <= token.len() <= 17
    &&& forall|i: int| 0 <= i < token.len() - 7 ==> ticker_char(#[trigger] token[i])
    &&& token[token.len() - 7] == 45
    &&& forall|i: int| token.len() - 6 <= i < token.len() ==> random_char(#[trigger] token[i])
}

/// Whether `token` is a valid ESDT identifier.
pub fn is_valid_esdt_identifier(token: &Vec<u8>) -> (r: bool)
    ensures
        r == valid_esdt_identifier(token@),
{
    let n = token.len();
    if n < 10 || n > 17 {
        return false;
    }
    let ticker_len = n - 7;
    let mut i: usize = 0;
    while i < ticker_len
        invariant
            n == token@.len(),
            ticker_len == n - 7,
            i <= ticker_len,
            forall|j: int| 0 <= j < i ==> ticker_char(#[trigger] token@[j]),
        decreases ticker_len - i,
    {
        let b = token[i];
        if !((65 <= b && b <= 90) || (48 <= b && b <= 57)) {
            return false;
        }
        i = i + 1;
    }
    if token[ticker_len] != 45 {
        return false;
    }
    let mut k: usize = n - 6;
    while k < n
        invariant
            n == token@.len(),
            n - 6 <= k <= n,
            forall|j: int| n - 6 <= j < k ==> random_char(#[trigger] token@[j]),
        decreases n - k,
    {
        let b = token[k];
        if !((97 <= b && b <= 122) || (48 <= b && b <= 57)) {
            return false;
        }
        k = k + 1;
    }
    true
}

/// The kind that a payment of these values has: invalid for a zero amount or
/// for a token that is no valid ESDT identifier (EGLD among them), fungible
/// for nonce zero, non-fungible for a single unit, and semi-fungible
/// otherwise.
pub open spec fn payment_type(token: Seq<u8>, nonce: u64, amount: u128) -> EsdtTokenType {
    if amount != 0 && valid_esdt_identifier(token) {
        if nonce == 0 {
            EsdtTokenType::Fungible
        } else if amount == 1 {
            EsdtTokenType::NonFungible
        } else {
            EsdtTokenType::SemiFungible
        }
    } else {
        EsdtTokenType::Invalid
    }
}

/// The payment that `EsdtTokenPayment::new` builds from these values.
pub open spec fn new_payment(token: Seq<u8>, nonce: u64, amount: u128) -> PaymentView {
    PaymentView {
        token_type: payment_type(token, nonce, amount),
        token_identifier: token,
        token_nonce: nonce,
        amount,
    }
}

/// The placeholder for "no payment": an invalid EGLD payment of zero.
pub open spec fn no_payment_view() -> PaymentView {
    PaymentView {
        token_type: EsdtTokenType::Invalid,
        token_identifier: Seq::empty(),
        token_nonce: 0,
        amount: 0,
    }
}

impl EsdtTokenPayment {
    /// A payment of these values, with its kind computed from them.
    pub fn new(token_identifier: &Vec<u8>, token_nonce: u64, amount: u128) -> (r: Self)
        ensures
            r@ == new_payment(token_identifier@, token_nonce, amount),
    {
        let token_type = if amount != 0 && is_valid_esdt_identifier(token_identifier) {
            if token_nonce == 0 {
                EsdtTokenType::Fungible
            } else if amount == 1 {
                EsdtTokenType::NonFungible
            } else {
                EsdtTokenType::SemiFungible
            }
        } else {
            EsdtTokenType::Invalid
        };
        EsdtTokenPayment {
            token_type,
            token_identifier: copy_bytes(token_identifier),
            token_nonce,
            amount,
        }
    }

    /// The placeholder for "no payment".
    pub fn no_payment() -> (r: Self)
        ensures
            r@ == no_payment_view(),
    {
        let r = EsdtTokenPayment {
            token_type: EsdtTokenType::Invalid,
            token_identifier: Vec::new(),
            token_nonce: 0,
            amount: 0,
        };
        assert(r@.token_identifier =~= Seq::<u8>::empty());
        r
    }

    /// A copy of this payment.
    pub fn duplicate(&self) -> (r: Self)
        ensures
            r@ == self@,
    {
        EsdtTokenPayment {
            token_type: self.token_type,
            token_identifier: copy_bytes(&self.token_identifier),
            token_nonce: self.token_nonce,
            amount: self.amount,
        }
    }

    /// Whether the payment is of the invalid kind.
    pub fn is_invalid(&self) -> (r: bool)
        ensures
            r == (self.token_type == EsdtTokenType::Invalid),
    {
        match self.token_type {
            EsdtTokenType::Invalid => true,
            _ => false,
        }
    }
}

/// A reward pool for the holders of an NFT collection, identified by the root
/// hash of the holders' snapshot.
#[derive(Debug, PartialEq, Eq)]
pub struct RewardsCheckpoint {
    pub total_nft_supply: u128,
    pub reward_token: Vec<u8>,
    pub reward_supply: u128,
    pub reward_nonce: u64,
}

/// A rewards checkpoint, as values.
pub struct CheckpointView {
    pub total_nft_supply: u128,
    pub reward_token: Seq<u8>,
    pub reward_supply: u128,
    pub reward_nonce: u64,
}

impl View for RewardsCheckpoint {
    type V = CheckpointView;

    open spec fn view(&self) -> CheckpointView {
        CheckpointView {
            total_nft_supply: self.total_nft_supply,
            reward_token: self.reward_token@,
            reward_supply: self.reward_supply,
            reward_nonce: self.reward_nonce,
        }
    }
}

} // verus!
