//! The NFT airdrop contract: projects deposit a reward pool for the holders
//! of a collection, and each holder claims a share proportional to the NFTs
//! that a signed snapshot credits them with.

pub mod laws;
pub mod models;
pub mod storage;
pub mod rewards;
pub mod validation;

use vstd::prelude::*;
use crate::chain::{Transfer, TransferView};
use crate::store::{LinearMap, bytes_eq, copy_bytes};
use models::{EsdtTokenPayment, EsdtTokenType, PaymentView, RewardsCheckpoint, new_payment, no_payment_view};
use rewards::{RewardsModule, reward_amount};
use storage::{AirdropError, AirdropView, opt_bytes};
use validation::{ValidationModule, signature_outcome};

verus! {

/// The storage of the airdrop contract.
pub struct Airdrop {
    signer: Option<Vec<u8>>,
    whitelisted: LinearMap<Vec<u8>, ()>,
    rewards_owner: LinearMap<Vec<u8>, Vec<u8>>,
    rewards_claimed: LinearMap<(Vec<u8>, Vec<u8>), ()>,
    rewards_checkpoints: LinearMap<Vec<u8>, RewardsCheckpoint>,
}

impl View for Airdrop {
    type V = AirdropView;

    closed spec fn view(&self) -> AirdropView {
        AirdropView {
            signer: opt_bytes(self.signer),
            whitelisted: self.whitelisted@.dom(),
            rewards_owner: self.rewards_owner@,
            rewards_claimed: self.rewards_claimed@.dom(),
            rewards_checkpoints: self.rewards_checkpoints@,
        }
    }
}


/// One entry of a claim: a root hash, the NFTs that the snapshot credits the
/// caller with, and the chain's verdict on the ed25519 signature of
/// `create_hash(caller, root_hash, user_nft_amount)` by the stored signer.
#[derive(Debug, PartialEq, Eq)]
pub struct ClaimData {
    pub root_hash: Vec<u8>,
    pub user_nft_amount: u32,
    pub signature_valid: bool,
}

/// What a claim pays: EGLD if any, and the ESDT payments if any.
#[derive(Debug, PartialEq, Eq)]
pub struct ClaimedRewards {
    pub egld_amount: Option<u128>,
    pub esdt_payments: Option<Vec<EsdtTokenPayment>>,
}

/// The payout that a claim has gathered so far: the EGLD total, the ESDT
/// payments already closed, and the fungible payment still open.
#[verifier::ext_equal]
pub struct Payout {
    pub egld: u128,
    pub payments: Seq<PaymentView>,
    pub last: PaymentView,
}

/// The state of a claim after some of its entries.
#[verifier::ext_equal]
pub struct ClaimProgress {
    pub claimed: Set<(Seq<u8>, Seq<u8>)>,
    pub payout: Payout,
}

/// The views of a list of payments.
pub open spec fn payment_views(v: Seq<EsdtTokenPayment>) -> Seq<PaymentView> {
    v.map_values(|p: EsdtTokenPayment| p@)
}

/// Adds a reward of `amount` units of `token` with nonce `nonce` to a payout.
/// EGLD adds to the EGLD total. An ESDT closes the open payment when it is of
/// another token and valid; with a nonzero nonce it becomes a payment of its
/// own and leaves nothing open; otherwise it adds to the open payment when
/// that is of the same token, and opens a new payment when not.
pub open spec fn add_reward(p: Payout, token: Seq<u8>, nonce: u64, amount: u128) -> Result<Payout, AirdropError> {
    if token.len() == 0 {
        if p.egld + amount > u128::MAX {
            Err(AirdropError::Overflow)
        } else {
            Ok(Payout { egld: (p.egld + amount) as u128, ..p })
        }
    } else {
        let closes = token != p.last.token_identifier && p.last.token_type != EsdtTokenType::Invalid;
        let payments = if closes { p.payments.push(p.last) } else { p.payments };
        let last = if closes { no_payment_view() } else { p.last };
        if nonce != 0 {
            Ok(Payout {
                egld: p.egld,
                payments: payments.push(new_payment(token, nonce, amount)),
                last: no_payment_view(),
            })
        } else if token == last.token_identifier {
            if last.amount + amount > u128::MAX {
                Err(AirdropError::Overflow)
            } else {
                Ok(Payout {
                    egld: p.egld,
                    payments,
                    last: PaymentView { amount: (last.amount + amount) as u128, ..last },
                })
            }
        } else {
            Ok(Payout { egld: p.egld, payments, last: new_payment(token, 0, amount) })
        }
    }
}

/// What one claim entry does to the claim's progress.
pub open spec fn claim_step(s: AirdropView, caller: Seq<u8>, p: ClaimProgress, item: ClaimData) -> Result<ClaimProgress, AirdropError> {
    let h = item.root_hash@;
    if s.rewards_owner.contains_key(h) && !s.whitelisted.contains(s.rewards_owner[h]) {
        Err(AirdropError::NotWhitelistedProject)
    } else if signature_outcome(s, item.signature_valid) is Err {
        Err(signature_outcome(s, item.signature_valid)->Err_0)
    } else if p.claimed.contains((caller, h)) {
        Err(AirdropError::AlreadyClaimed)
    } else if !s.rewards_checkpoints.contains_key(h) {
        Err(AirdropError::InvalidRootHash)
    } else {
        let c = s.rewards_checkpoints[h];
        match reward_amount(c.reward_supply, item.user_nft_amount, c.total_nft_supply) {
            Err(e) => Err(e),
            Ok(amount) => match add_reward(p.payout, c.reward_token, c.reward_nonce, amount) {
                Err(e) => Err(e),
                Ok(payout) => Ok(ClaimProgress { claimed: p.claimed.insert((caller, h)), payout }),
            },
        }
    }
}

/// The progress of a claim after all of `items`, taken in order.
pub open spec fn claim_all(s: AirdropView, caller: Seq<u8>, items: Seq<ClaimData>) -> Result<ClaimProgress, AirdropError>
    decreases items.len(),
{
    if items.len() == 0 {
        Ok(ClaimProgress {
            claimed: s.rewards_claimed,
            payout: Payout { egld: 0, payments: Seq::empty(), last: no_payment_view() },
        })
    } else {
        match claim_all(s, caller, items.drop_last()) {
            Err(e) => Err(e),
            Ok(p) => claim_step(s, caller, p, items.last()),
        }
    }
}

/// The ESDT payments of a payout: the closed ones, then the open one if valid.
pub open spec fn final_payments(p: Payout) -> Seq<PaymentView> {
    if p.last.token_type != EsdtTokenType::Invalid {
        p.payments.push(p.last)
    } else {
        p.payments
    }
}

/// What a claim does: the storage after it, the EGLD it pays when that is not
/// zero, and the ESDT payments it makes when there are any.
pub open spec fn claim_rewards_outcome(s: AirdropView, caller: Seq<u8>, items: Seq<ClaimData>) -> Result<
    (AirdropView, Option<u128>, Option<Seq<PaymentView>>),
    AirdropError,
> {
    match claim_all(s, caller, items) {
        Err(e) => Err(e),
        Ok(p) => Ok((
            AirdropView { rewards_claimed: p.claimed, ..s },
            if p.payout.egld > 0 { Some(p.payout.egld) } else { None },
            if final_payments(p.payout).len() > 0 { Some(final_payments(p.payout)) } else { None },
        )),
    }
}

/// The views of an optional list of payments.
pub open spec fn opt_payment_views(o: Option<Vec<EsdtTokenPayment>>) -> Option<Seq<PaymentView>> {
    match o {
        Some(v) => Some(payment_views(v@)),
        None => None,
    }
}

/// The token and nonce that a withdrawal takes: EGLD unless a token is given,
/// and nonce zero for EGLD or when none is given.
pub open spec fn withdraw_target_of(opt_token: Option<Seq<u8>>, opt_nonce: Option<u64>) -> (Seq<u8>, u64) {
    let token = match opt_token {
        Some(t) => t,
        None => Seq::empty(),
    };
    let nonce = if token.len() == 0 {
        0
    } else {
        match opt_nonce {
            Some(n) => n,
            None => 0,
        }
    };
    (token, nonce)
}

/// What a withdrawal of the contract's balance `balance` of the target token does.
pub open spec fn withdraw_all_outcome(
    caller: Seq<u8>,
    contract_owner: Seq<u8>,
    opt_token: Option<Seq<u8>>,
    opt_nonce: Option<u64>,
    balance: u128,
) -> Result<TransferView, AirdropError> {
    if caller != contract_owner {
        Err(AirdropError::OnlyOwner)
    } else if balance == 0 {
        Err(AirdropError::NothingToWithdraw)
    } else {
        let (token, nonce) = withdraw_target_of(opt_token, opt_nonce);
        Ok(TransferView { to: contract_owner, token, nonce, amount: balance, data: emergency_withdraw_note() })
    }
}

/// The data an owner's withdrawal carries: the ASCII bytes of
/// "Emergency withdraw".
pub open spec fn emergency_withdraw_note() -> Seq<u8> {
    seq![69u8, 109, 101, 114, 103, 101, 110, 99, 121, 32, 119, 105, 116, 104, 100, 114, 97, 119]
}

/// The bytes of [`emergency_withdraw_note`].
pub fn emergency_withdraw_note_bytes() -> (r: Vec<u8>)
    ensures
        r@ == emergency_withdraw_note(),
{
    let mut v: Vec<u8> = Vec::new();
    v.push(69); v.push(109); v.push(101); v.push(114); v.push(103); v.push(101);
    v.push(110); v.push(99); v.push(121); v.push(32); v.push(119); v.push(105);
    v.push(116); v.push(104); v.push(100); v.push(114); v.push(97); v.push(119);
    assert(v@ =~= emergency_withdraw_note());
    v
}

/// What `init` stores: the signer, unless one is stored already.
pub open spec fn init_outcome(s: AirdropView, signer: Seq<u8>) -> AirdropView {
    AirdropView { signer: if s.signer is None { Some(signer) } else { s.signer }, ..s }
}

/// The payout being gathered by a claim.
struct PayoutBuilder {
    egld: u128,
    payments: Vec<EsdtTokenPayment>,
    last: EsdtTokenPayment,
}

impl View for PayoutBuilder {
    type V = Payout;

    closed spec fn view(&self) -> Payout {
        Payout { egld: self.egld, payments: payment_views(self.payments@), last: self.last@ }
    }
}

impl PayoutBuilder {
    fn push_payment(&mut self, p: EsdtTokenPayment)
        ensures
            final(self)@ == (Payout { payments: old(self)@.payments.push(p@), ..old(self)@ }),
    {
        self.payments.push(p);
        assert(payment_views(self.payments@) =~= payment_views(old(self).payments@).push(p@));
    }

    fn add_reward(&mut self, token: &Vec<u8>, nonce: u64, amount: u128) -> (r: Result<(), AirdropError>)
        ensures
            match add_reward(old(self)@, token@, nonce, amount) {
                Ok(p) => r is Ok && final(self)@ == p,
                Err(e) => r == Err::<(), AirdropError>(e),
            },
    {
        if token.len() == 0 {
            match self.egld.checked_add(amount) {
                None => Err(AirdropError::Overflow),
                Some(e) => {
                    self.egld = e;
                    Ok(())
                },
            }
        } else {
            if !bytes_eq(token, &self.last.token_identifier) && !self.last.is_invalid() {
                let closed = self.last.duplicate();
                self.push_payment(closed);
                self.last = EsdtTokenPayment::no_payment();
            }
            if nonce != 0 {
                self.push_payment(EsdtTokenPayment::new(token, nonce, amount));
                self.last = EsdtTokenPayment::no_payment();
                Ok(())
            } else if bytes_eq(token, &self.last.token_identifier) {
                match self.last.amount.checked_add(amount) {
                    None => Err(AirdropError::Overflow),
                    Some(a) => {
                        self.last.amount = a;
                        Ok(())
                    },
                }
            } else {
                self.last = EsdtTokenPayment::new(token, 0, amount);
                Ok(())
            }
        }
    }
}

/// The (caller, root hash) pairs of the hashes in `hashes`.
pub open spec fn claimed_pairs(caller: Seq<u8>, hashes: Seq<Vec<u8>>) -> Set<(Seq<u8>, Seq<u8>)> {
    Set::new(|k: (Seq<u8>, Seq<u8>)| k.0 == caller && exists|j: int| 0 <= j < hashes.len() && #[trigger] hashes[j]@ == k.1)
}

/// Whether `hashes` holds a byte string equal to `h`.
fn holds_bytes(hashes: &Vec<Vec<u8>>, h: &Vec<u8>) -> (r: bool)
    ensures
        r == exists|j: int| 0 <= j < hashes@.len() && #[trigger] hashes@[j]@ == h@,
{
    let mut i: usize = 0;
    while i < hashes.len()
        invariant
            i <= hashes@.len(),
            forall|j: int| 0 <= j < i ==> hashes@[j]@ != h@,
        decreases hashes@.len() - i,
    {
        if bytes_eq(&hashes[i], h) {
            return true;
        }
        i = i + 1;
    }
    false
}

/// The airdrop contract's own endpoints.
pub trait NftAirdrop: View<V = AirdropView> + Sized {
    /// Stores the signer address unless one is stored already.
    fn init(&mut self, signer: &Vec<u8>)
        ensures
            final(self)@ == init_outcome(old(self)@, signer@),
    ;

    /// Pays the caller the rewards of each entry of `data`.
    fn claim_rewards(&mut self, caller: &Vec<u8>, data: &Vec<ClaimData>) -> (r: Result<ClaimedRewards, AirdropError>)
        ensures
            match claim_rewards_outcome(old(self)@, caller@, data@) {
                Ok((s2, egld, esdt)) => r matches Ok(c) && final(self)@ == s2 && c.egld_amount == egld
                    && opt_payment_views(c.esdt_payments) == esdt,
                Err(e) => r == Err::<ClaimedRewards, AirdropError>(e) && final(self)@ == old(self)@,
            },
    ;

    /// Sends the contract owner the contract's whole balance `balance` of the
    /// token and nonce that `withdraw_target` names for the same options.
    fn withdraw_all(
        &self,
        caller: &Vec<u8>,
        contract_owner: &Vec<u8>,
        opt_token_identifier: &Option<Vec<u8>>,
        opt_token_nonce: Option<u64>,
        balance: u128,
    ) -> (r: Result<Transfer, AirdropError>)
        ensures
            match withdraw_all_outcome(
                caller@, contract_owner@, opt_bytes(*opt_token_identifier), opt_token_nonce, balance,
            ) {
                Ok(t) => r matches Ok(tr) && tr@ == t,
                Err(e) => r == Err::<Transfer, AirdropError>(e),
            },
    ;

    /// The token and nonce that `withdraw_all` takes.
    fn withdraw_target(&self, opt_token_identifier: &Option<Vec<u8>>, opt_token_nonce: Option<u64>) -> (r: (Vec<u8>, u64))
        ensures
            (r.0@, r.1) == withdraw_target_of(opt_bytes(*opt_token_identifier), opt_token_nonce),
    ;
}

impl Airdrop {
    fn claim_entry(
        &self,
        caller: &Vec<u8>,
        item: &ClaimData,
        hashes: &mut Vec<Vec<u8>>,
        payout: &mut PayoutBuilder,
    ) -> (r: Result<(), AirdropError>)
        ensures
            match claim_step(
                self@,
                caller@,
                ClaimProgress {
                    claimed: self@.rewards_claimed.union(claimed_pairs(caller@, old(hashes)@)),
                    payout: old(payout)@,
                },
                *item,
            ) {
                Ok(p) => r is Ok && p == (ClaimProgress {
                    claimed: self@.rewards_claimed.union(claimed_pairs(caller@, final(hashes)@)),
                    payout: final(payout)@,
                }),
                Err(e) => r == Err::<(), AirdropError>(e),
            },
    {
        let h = &item.root_hash;
        match self.rewards_owner.get(h) {
            Some(owner) => {
                if !self.whitelisted.contains_key(owner) {
                    return Err(AirdropError::NotWhitelistedProject);
                }
            },
            None => {},
        }
        match self.verify_signature(item.signature_valid) {
            Err(e) => return Err(e),
            Ok(()) => {},
        }
        let pair = (copy_bytes(caller), copy_bytes(h));
        if self.rewards_claimed.contains_key(&pair) || holds_bytes(hashes, h) {
            return Err(AirdropError::AlreadyClaimed);
        }
        let checkpoint = match self.rewards_checkpoints.get(h) {
            None => return Err(AirdropError::InvalidRootHash),
            Some(c) => c,
        };
        let amount = match self.calculate_reward_amount(
            checkpoint.reward_supply,
            item.user_nft_amount,
            checkpoint.total_nft_supply,
        ) {
            Err(e) => return Err(e),
            Ok(a) => a,
        };
        match payout.add_reward(&checkpoint.reward_token, checkpoint.reward_nonce, amount) {
            Err(e) => return Err(e),
            Ok(()) => {},
        }
        let ghost before = hashes@;
        hashes.push(copy_bytes(h));
        proof {
            let base = self@.rewards_claimed;
            assert(claimed_pairs(caller@, hashes@) =~= claimed_pairs(caller@, before).insert((caller@, h@))) by {
                assert forall|k: (Seq<u8>, Seq<u8>)| claimed_pairs(caller@, hashes@).contains(k) implies
                    claimed_pairs(caller@, before).insert((caller@, h@)).contains(k) by {
                    let j = choose|j: int| 0 <= j < hashes@.len() && #[trigger] hashes@[j]@ == k.1;
                    if j < before.len() {
                        assert(before[j]@ == k.1);
                    }
                }
                assert forall|k: (Seq<u8>, Seq<u8>)| claimed_pairs(caller@, before).insert((caller@, h@)).contains(k) implies
                    claimed_pairs(caller@, hashes@).contains(k) by {
                    if k == (caller@, h@) {
                        assert(hashes@[before.len() as int]@ == h@);
                    } else {
                        let j = choose|j: int| 0 <= j < before.len() && #[trigger] before[j]@ == k.1;
                        assert(hashes@[j]@ == k.1);
                    }
                }
            }
            assert(base.union(claimed_pairs(caller@, hashes@)) =~= base.union(claimed_pairs(caller@, before)).insert((caller@, h@)));
        }
        Ok(())
    }
}

impl NftAirdrop for Airdrop {
    fn init(&mut self, signer: &Vec<u8>) {
        if self.signer.is_none() {
            self.signer = Some(copy_bytes(signer));
        }
    }

    fn claim_rewards(&mut self, caller: &Vec<u8>, data: &Vec<ClaimData>) -> Result<ClaimedRewards, AirdropError> {
        let ghost s = self@;
        let mut hashes: Vec<Vec<u8>> = Vec::new();
        let mut payout = PayoutBuilder {
            egld: 0,
            payments: Vec::new(),
            last: EsdtTokenPayment::no_payment(),
        };
        assert(claimed_pairs(caller@, hashes@) =~= Set::<(Seq<u8>, Seq<u8>)>::empty());
        assert(s.rewards_claimed.union(claimed_pairs(caller@, hashes@)) =~= s.rewards_claimed);
        assert(payment_views(payout.payments@) =~= Seq::<PaymentView>::empty());
        let mut i: usize = 0;
        while i < data.len()
            invariant
                i <= data@.len(),
                self@ == s,
                claim_all(s, caller@, data@.take(i as int)) == Ok::<ClaimProgress, AirdropError>(ClaimProgress {
                    claimed: s.rewards_claimed.union(claimed_pairs(caller@, hashes@)),
                    payout: payout@,
                }),
            decreases data@.len() - i,
        {
            assert(data@.take(i + 1).drop_last() =~= data@.take(i as int));
            match self.claim_entry(caller, &data[i], &mut hashes, &mut payout) {
                Err(e) => {
                    proof {
                        lemma_claim_all_fails(s, caller@, data@, (i + 1) as int);
                    }
                    return Err(e);
                },
                Ok(()) => {},
            }
            i = i + 1;
        }
        assert(data@.take(data@.len() as int) =~= data@);
        assert(claimed_pairs(caller@, hashes@.take(0)) =~= Set::<(Seq<u8>, Seq<u8>)>::empty());
        assert(s.rewards_claimed.union(claimed_pairs(caller@, hashes@.take(0))) =~= s.rewards_claimed);
        assert(self@ == (AirdropView {
            rewards_claimed: s.rewards_claimed.union(claimed_pairs(caller@, hashes@.take(0))),
            ..s
        }));
        let mut j: usize = 0;
        while j < hashes.len()
            invariant
                j <= hashes@.len(),
                self@ == (AirdropView {
                    rewards_claimed: s.rewards_claimed.union(claimed_pairs(caller@, hashes@.take(j as int))),
                    ..s
                }),
            decreases hashes@.len() - j,
        {
            proof {
                let before = hashes@.take(j as int);
                let after = hashes@.take(j + 1);
                assert forall|k: (Seq<u8>, Seq<u8>)| claimed_pairs(caller@, after).contains(k) == claimed_pairs(caller@, before).insert((caller@, hashes@[j as int]@)).contains(k) by {
                    if claimed_pairs(caller@, after).contains(k) {
                        let w = choose|w: int| 0 <= w < after.len() && #[trigger] after[w]@ == k.1;
                        if w < j {
                            assert(before[w]@ == k.1);
                        }
                    }
                    if claimed_pairs(caller@, before).contains(k) {
                        let w = choose|w: int| 0 <= w < before.len() && #[trigger] before[w]@ == k.1;
                        assert(after[w]@ == k.1);
                    }
                    if k == (caller@, hashes@[j as int]@) {
                        assert(after[j as int]@ == k.1);
                    }
                }
                assert(claimed_pairs(caller@, after) =~= claimed_pairs(caller@, before).insert((caller@, hashes@[j as int]@)));
            }
            self.rewards_claimed.insert((copy_bytes(caller), copy_bytes(&hashes[j])), ());
            j = j + 1;
            assert(self@.rewards_claimed =~= s.rewards_claimed.union(claimed_pairs(caller@, hashes@.take(j as int))));
        }
        assert(hashes@.take(hashes@.len() as int) =~= hashes@);
        let egld_amount = if payout.egld > 0 { Some(payout.egld) } else { None };
        let PayoutBuilder { egld: _, payments: mut payments, last } = payout;
        let ghost closed = payments@;
        if !last.is_invalid() {
            payments.push(last);
            assert(payment_views(payments@) =~= payment_views(closed).push(last@));
        }
        let esdt_payments = if payments.len() > 0 { Some(payments) } else { None };
        Ok(ClaimedRewards { egld_amount, esdt_payments })
    }

    fn withdraw_all(
        &self,
        caller: &Vec<u8>,
        contract_owner: &Vec<u8>,
        opt_token_identifier: &Option<Vec<u8>>,
        opt_token_nonce: Option<u64>,
        balance: u128,
    ) -> Result<Transfer, AirdropError> {
        if !bytes_eq(caller, contract_owner) {
            return Err(AirdropError::OnlyOwner);
        }
        let (token, nonce) = self.withdraw_target(opt_token_identifier, opt_token_nonce);
        if balance == 0 {
            return Err(AirdropError::NothingToWithdraw);
        }
        Ok(Transfer::with_data(contract_owner, &token, nonce, balance, emergency_withdraw_note_bytes()))
    }

    fn withdraw_target(&self, opt_token_identifier: &Option<Vec<u8>>, opt_token_nonce: Option<u64>) -> (Vec<u8>, u64) {
        let token = match opt_token_identifier {
            Some(t) => copy_bytes(t),
            None => Vec::new(),
        };
        let nonce = if token.len() == 0 {
            0
        } else {
            match opt_token_nonce {
                Some(n) => n,
                None => 0,
            }
        };
        assert(opt_token_identifier is None ==> token@ =~= Seq::<u8>::empty());
        (token, nonce)
    }
}

/// Once a prefix of the entries fails, the whole claim fails.
proof fn lemma_claim_all_fails(s: AirdropView, caller: Seq<u8>, items: Seq<ClaimData>, n: int)
    requires
        0 <= n <= items.len(),
        claim_all(s, caller, items.take(n)) is Err,
    ensures
        claim_all(s, caller, items) is Err,
        claim_all(s, caller, items) == claim_all(s, caller, items.take(n)),
    decreases items.len() - n,
{
    if n < items.len() {
        assert(items.take(n + 1).drop_last() =~= items.take(n));
        lemma_claim_all_fails(s, caller, items, n + 1);
    } else {
        assert(items.take(n) =~= items);
    }
}

} // verus!
