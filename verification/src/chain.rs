//! What the contracts ask the chain to do: token transfers.

use vstd::prelude::*;
use crate::store::copy_bytes;

verus! {

/// A transfer of `amount` units of token `token` (empty for EGLD) with
/// nonce `nonce` to the address `to`, carrying the bytes `data` along.
#[derive(Debug, PartialEq, Eq)]
pub struct Transfer {
    pub to: Vec<u8>,
    pub token: Vec<u8>,
    pub nonce: u64,
    pub amount: u128,
    pub data: Vec<u8>,
}

/// A transfer, as values.
pub struct TransferView {
    pub to: Seq<u8>,
    pub token: Seq<u8>,
    pub nonce: u64,
    pub amount: u128,
    pub data: Seq<u8>,
}

impl View for Transfer {
    type V = TransferView;

    open spec fn view(&self) -> TransferView {
        TransferView {
            to: self.to@,
            token: self.token@,
            nonce: self.nonce,
            amount: self.amount,
            data: self.data@,
        }
    }
}

/// A transfer that carries no data.
pub open spec fn plain_transfer(to: Seq<u8>, token: Seq<u8>, nonce: u64, amount: u128) -> TransferView {
    TransferView { to, token, nonce, amount, data: Seq::empty() }
}

impl Transfer {
    /// A transfer to `to` of `amount` units of `token` with nonce `nonce`,
    /// carrying no data.
    pub fn new(to: &Vec<u8>, token: &Vec<u8>, nonce: u64, amount: u128) -> (r: Transfer)
        ensures
            r@ == plain_transfer(to@, token@, nonce, amount),
    {
        Transfer { to: copy_bytes(to), token: copy_bytes(token), nonce, amount, data: Vec::new() }
    }

    /// A transfer to `to` of `amount` units of `token` with nonce `nonce`,
    /// carrying the bytes `data`.
    pub fn with_data(to: &Vec<u8>, token: &Vec<u8>, nonce: u64, amount: u128, data: Vec<u8>) -> (r: Transfer)
        ensures
            r@ == (TransferView { to: to@, token: token@, nonce, amount, data: data@ }),
    {
        Transfer { to: copy_bytes(to), token: copy_bytes(token), nonce, amount, data }
    }
}

/// A payment received with a call: `amount` units of `token` with nonce
/// `nonce`.
#[derive(Debug, PartialEq, Eq)]
pub struct Payment {
    pub token: Vec<u8>,
    pub nonce: u64,
    pub amount: u128,
}

impl View for Payment {
    type V = (Seq<u8>, u64, u128);

    open spec fn view(&self) -> (Seq<u8>, u64, u128) {
        (self.token@, self.nonce, self.amount)
    }
}

/// An ed25519 verification that a contract asks the chain to make: that
/// `message` is signed by the key of the address `signer`. The chain's
/// verdict comes back to the contract as a `bool`.
#[derive(Debug, PartialEq, Eq)]
pub struct SignatureCheck {
    pub signer: Vec<u8>,
    pub message: Vec<u8>,
}

impl View for SignatureCheck {
    type V = (Seq<u8>, Seq<u8>);

    open spec fn view(&self) -> (Seq<u8>, Seq<u8>) {
        (self.signer@, self.message@)
    }
}

/// Appends the bytes of `b` to `out`.
pub fn append_bytes(out: &mut Vec<u8>, b: &Vec<u8>)
    ensures
        final(out)@ == old(out)@ + b@,
{
    let ghost start = out@;
    let mut i: usize = 0;
    while i < b.len()
        invariant
            i <= b@.len(),
            out@ == start + b@.subrange(0, i as int),
        decreases b@.len() - i,
    {
        out.push(b[i]);
        i = i + 1;
        assert(out@ =~= start + b@.subrange(0, i as int));
    }
    assert(b@.subrange(0, b@.len() as int) =~= b@);
}

} // verus!
