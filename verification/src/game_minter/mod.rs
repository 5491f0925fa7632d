//! The game minter contract: players claim the materials they earned in the
//! game and buy planets, on the strength of the game server's signatures.

pub mod laws;
pub mod storage;
pub mod tokens;
pub mod validation;

use vstd::prelude::*;
use crate::chain::{Payment, Transfer, TransferView};
use crate::store::{LinearMap, bytes_eq, copy_bytes};
use storage::{MinterError, MinterView, opt_bytes, owner_check, planet_is_claimed};
use tokens::{MinterAction, MinterActionView, TokensModule, action_views, mint_and_send, revenue_split, transfer_views};
use validation::{ValidationModule, signature_outcome};

verus! {

/// The most that one claim entry may mint: 180 tokens of 18 decimals.
pub const MAX_CLAIM_AMOUNT: u128 = 180000000000000000000;

/// The storage of the minter contract.
pub struct Minter {
    signer: Option<Vec<u8>>,
    krogan: Option<Vec<u8>>,
    rewards_pool: Option<Vec<u8>>,
    tokens_claimed: LinearMap<(Vec<u8>, u32), ()>,
    material_token_id: LinearMap<Vec<u8>, Vec<u8>>,
    planet_token_id: Vec<u8>,
    planet_claimed: LinearMap<(Vec<u8>, u32), ()>,
    planet_price: u128,
    platform_currency: Vec<u8>,
}

impl View for Minter {
    type V = MinterView;

    closed spec fn view(&self) -> MinterView {
        MinterView {
            signer: opt_bytes(self.signer),
            krogan: opt_bytes(self.krogan),
            rewards_pool: opt_bytes(self.rewards_pool),
            tokens_claimed: self.tokens_claimed@.dom(),
            material_token_id: self.material_token_id@,
            planet_token_id: self.planet_token_id@,
            planet_claimed: self.planet_claimed@.dom(),
            planet_price: self.planet_price,
            platform_currency: self.platform_currency@,
        }
    }
}

/// One entry of a materials claim: the claim's index, the material's key, the
/// amount, and the chain's verdict on the ed25519 signature of
/// `signed_data(index, caller, token_key, amount)` by the stored signer.
#[derive(Debug, PartialEq, Eq)]
pub struct TokenClaim {
    pub index: u32,
    pub token_key: Vec<u8>,
    pub amount: u128,
    pub signature_valid: bool,
}

/// The reason one claim entry is refused, if any.
pub open spec fn claim_entry_error(s: MinterView, caller: Seq<u8>, player_nonce: u32, e: TokenClaim) -> Option<MinterError> {
    if signature_outcome(s, e.signature_valid) is Err {
        Some(signature_outcome(s, e.signature_valid)->Err_0)
    } else if !(e.amount <= MAX_CLAIM_AMOUNT) {
        Some(MinterError::InvalidAmount)
    } else if e.index != player_nonce {
        Some(MinterError::WrongNonce)
    } else if s.tokens_claimed.contains((caller, e.index)) {
        Some(MinterError::AlreadyClaimed)
    } else if !s.material_token_id.contains_key(e.token_key@) {
        Some(MinterError::InvalidMaterial)
    } else {
        None
    }
}

/// The reason of the first refused entry, if any.
pub open spec fn first_claim_error(s: MinterView, caller: Seq<u8>, player_nonce: u32, items: Seq<TokenClaim>) -> Option<MinterError>
    decreases items.len(),
{
    if items.len() == 0 {
        None
    } else {
        match first_claim_error(s, caller, player_nonce, items.drop_last()) {
            Some(e) => Some(e),
            None => claim_entry_error(s, caller, player_nonce, items.last()),
        }
    }
}

/// The token operations of a claim: for each entry in order, minting its
/// amount of its material and sending it to the caller.
pub open spec fn claim_actions(s: MinterView, caller: Seq<u8>, items: Seq<TokenClaim>) -> Seq<MinterActionView>
    decreases items.len(),
{
    if items.len() == 0 {
        Seq::empty()
    } else {
        claim_actions(s, caller, items.drop_last()) + mint_and_send(s, caller, items.last().token_key@, items.last().amount)
    }
}

/// What a materials claim does: it mints and sends every entry, and marks the
/// player's nonce as claimed.
pub open spec fn claim_tokens_outcome(s: MinterView, caller: Seq<u8>, player_nonce: u32, items: Seq<TokenClaim>) -> Result<
    (MinterView, Seq<MinterActionView>),
    MinterError,
> {
    match first_claim_error(s, caller, player_nonce, items) {
        Some(e) => Err(e),
        None => Ok((
            MinterView { tokens_claimed: s.tokens_claimed.insert((caller, player_nonce)), ..s },
            claim_actions(s, caller, items),
        )),
    }
}

/// What buying planet `nonce` of token `token_id` with the ESDT payments
/// `payments` does: the price is split between krogan and the rewards pool,
/// and the planet is sent to the caller.
pub open spec fn claim_planet_outcome(
    s: MinterView,
    caller: Seq<u8>,
    nonce: u32,
    token_id: Seq<u8>,
    amount: u128,
    payments: Seq<(Seq<u8>, u64, u128)>,
    signature_valid: bool,
) -> Result<(MinterView, Seq<TransferView>), MinterError> {
    if planet_is_claimed(s, nonce) {
        Err(MinterError::PlanetAlreadyClaimed)
    } else if token_id != s.planet_token_id || amount != 1 {
        Err(MinterError::InvalidData)
    } else if payments.len() != 1 {
        Err(MinterError::NotSingleEsdtPayment)
    } else if payments[0].0 != s.platform_currency || payments[0].1 != 0 || payments[0].2 != s.planet_price {
        Err(MinterError::InvalidPayment)
    } else {
        match revenue_split(s, payments[0].2) {
            Err(e) => Err(e),
            Ok(split) => match signature_outcome(s, signature_valid) {
                Err(e) => Err(e),
                Ok(()) => Ok((
                    MinterView { planet_claimed: s.planet_claimed.insert((s.planet_token_id, nonce)), ..s },
                    split.push(TransferView { to: caller, token: token_id, nonce: nonce as u64, amount, data: Seq::empty() }),
                )),
            },
        }
    }
}

/// What `init` stores: each setting unless one is stored already.
pub open spec fn init_outcome(
    s: MinterView,
    signer: Seq<u8>,
    platform_currency: Seq<u8>,
    planet_price: u128,
    krogan: Seq<u8>,
    rewards_pool: Seq<u8>,
) -> MinterView {
    MinterView {
        signer: if s.signer is None { Some(signer) } else { s.signer },
        platform_currency: if s.platform_currency.len() == 0 { platform_currency } else { s.platform_currency },
        planet_price: if s.planet_price == 0 { planet_price } else { s.planet_price },
        krogan: if s.krogan is None { Some(krogan) } else { s.krogan },
        rewards_pool: if s.rewards_pool is None { Some(rewards_pool) } else { s.rewards_pool },
        ..s
    }
}

/// What the owner's minting of `amount` of the material `key` does.
pub open spec fn mint_tokens_outcome(s: MinterView, caller: Seq<u8>, owner: Seq<u8>, key: Seq<u8>, amount: u128) -> Result<
    Seq<MinterActionView>,
    MinterError,
> {
    match owner_check(caller, owner) {
        Err(e) => Err(e),
        Ok(()) => if s.material_token_id.contains_key(key) {
            Ok(mint_and_send(s, caller, key, amount))
        } else {
            Err(MinterError::NotConfigured)
        },
    }
}

/// What the owner's withdrawal of the contract's balance `balance` of a
/// token (EGLD when none is given) does.
pub open spec fn withdraw_profits_outcome(caller: Seq<u8>, owner: Seq<u8>, opt_token: Option<Seq<u8>>, balance: u128) -> Result<
    TransferView,
    MinterError,
> {
    match owner_check(caller, owner) {
        Err(e) => Err(e),
        Ok(()) => Ok(TransferView {
            to: owner,
            token: match opt_token {
                Some(t) => t,
                None => Seq::empty(),
            },
            nonce: 0,
            amount: balance,
            data: Seq::empty(),
        }),
    }
}

/// The endpoints of the minter contract. `caller` signs the transaction and
/// `owner` is the contract's owner.
pub trait GameMinter: View<V = MinterView> + Sized {
    /// Stores the settings, each unless one is stored already.
    fn init(
        &mut self,
        signer: &Vec<u8>,
        platform_currency: &Vec<u8>,
        planet_price: u128,
        krogan: &Vec<u8>,
        rewards_pool: &Vec<u8>,
    )
        ensures
            final(self)@ == init_outcome(old(self)@, signer@, platform_currency@, planet_price, krogan@, rewards_pool@),
    ;

    /// Mints `amount` of a material and sends it to the owner; owner only.
    fn mint_tokens(&self, caller: &Vec<u8>, owner: &Vec<u8>, token_key: &Vec<u8>, amount: u128) -> (r: Result<Vec<MinterAction>, MinterError>)
        ensures
            match mint_tokens_outcome(self@, caller@, owner@, token_key@, amount) {
                Ok(actions) => r matches Ok(v) && action_views(v@) == actions,
                Err(e) => r == Err::<Vec<MinterAction>, MinterError>(e),
            },
    ;

    /// Mints and sends the caller the materials of every entry of `data`;
    /// `starbase_nonce` is read by the game's backend only.
    fn claim_tokens(
        &mut self,
        caller: &Vec<u8>,
        starbase_nonce: u32,
        player_nonce: u32,
        data: &Vec<TokenClaim>,
    ) -> (r: Result<Vec<MinterAction>, MinterError>)
        ensures
            match claim_tokens_outcome(old(self)@, caller@, player_nonce, data@) {
                Ok((s2, actions)) => r matches Ok(v) && action_views(v@) == actions && final(self)@ == s2,
                Err(e) => r == Err::<Vec<MinterAction>, MinterError>(e) && final(self)@ == old(self)@,
            },
    ;

    /// Sells the caller planet `nonce` for the ESDT payments that come with the call.
    fn claim_planet(
        &mut self,
        caller: &Vec<u8>,
        nonce: u32,
        token_id: &Vec<u8>,
        amount: u128,
        payments: &Vec<Payment>,
        signature_valid: bool,
    ) -> (r: Result<Vec<Transfer>, MinterError>)
        ensures
            match claim_planet_outcome(old(self)@, caller@, nonce, token_id@, amount, payment_values(payments@), signature_valid) {
                Ok((s2, t)) => r matches Ok(v) && transfer_views(v@) == t && final(self)@ == s2,
                Err(e) => r == Err::<Vec<Transfer>, MinterError>(e) && final(self)@ == old(self)@,
            },
    ;

    /// Sends the owner the contract's whole balance `balance` of the given
    /// token, EGLD when none is given; owner only.
    fn withdraw_profits(&self, caller: &Vec<u8>, owner: &Vec<u8>, opt_payment_token: &Option<Vec<u8>>, balance: u128) -> (r: Result<Transfer, MinterError>)
        ensures
            match withdraw_profits_outcome(caller@, owner@, opt_bytes(*opt_payment_token), balance) {
                Ok(t) => r matches Ok(tr) && tr@ == t,
                Err(e) => r == Err::<Transfer, MinterError>(e),
            },
    ;
}

/// The views of a list of payments.
pub open spec fn payment_values(v: Seq<Payment>) -> Seq<(Seq<u8>, u64, u128)> {
    v.map_values(|p: Payment| p@)
}

impl Minter {
    /// The storage of a minter not yet initialised.
    pub fn new() -> (r: Self)
        ensures
            r@ == (MinterView {
                signer: None,
                krogan: None,
                rewards_pool: None,
                tokens_claimed: Set::empty(),
                material_token_id: Map::empty(),
                planet_token_id: Seq::empty(),
                planet_claimed: Set::empty(),
                planet_price: 0,
                platform_currency: Seq::empty(),
            }),
    {
        let r = Minter {
            signer: None,
            krogan: None,
            rewards_pool: None,
            tokens_claimed: LinearMap::new(),
            material_token_id: LinearMap::new(),
            planet_token_id: Vec::new(),
            planet_claimed: LinearMap::new(),
            planet_price: 0,
            platform_currency: Vec::new(),
        };
        assert(r@.tokens_claimed =~= Set::<(Seq<u8>, u32)>::empty());
        assert(r@.planet_claimed =~= Set::<(Seq<u8>, u32)>::empty());
        assert(r@.planet_token_id =~= Seq::<u8>::empty());
        assert(r@.platform_currency =~= Seq::<u8>::empty());
        r
    }

    fn check_claim_entry(&self, caller: &Vec<u8>, player_nonce: u32, e: &TokenClaim) -> (r: Option<MinterError>)
        ensures
            r == claim_entry_error(self@, caller@, player_nonce, *e),
    {
        match self.verify_signature(e.signature_valid) {
            Err(err) => return Some(err),
            Ok(()) => {},
        }
        if !(e.amount <= MAX_CLAIM_AMOUNT) {
            return Some(MinterError::InvalidAmount);
        }
        if e.index != player_nonce {
            return Some(MinterError::WrongNonce);
        }
        if self.tokens_claimed.contains_key(&(copy_bytes(caller), e.index)) {
            return Some(MinterError::AlreadyClaimed);
        }
        if !self.material_token_id.contains_key(&e.token_key) {
            return Some(MinterError::InvalidMaterial);
        }
        None
    }
}

/// Moves the operations of `more` to the end of `actions`.
fn append_actions(actions: &mut Vec<MinterAction>, more: Vec<MinterAction>)
    ensures
        action_views(final(actions)@) == action_views(old(actions)@) + action_views(more@),
{
    let mut rest = more;
    let ghost start = actions@;
    while rest.len() > 0
        invariant
            action_views(actions@) + action_views(rest@) == action_views(start) + action_views(more@),
        decreases rest@.len(),
    {
        let ghost r0 = rest@;
        let ghost a0 = actions@;
        let a = rest.remove(0);
        assert(action_views(r0) =~= seq![a@] + action_views(rest@));
        actions.push(a);
        assert(action_views(actions@) =~= action_views(a0).push(a@));
        assert(action_views(actions@) + action_views(rest@) =~= action_views(a0) + action_views(r0));
    }
    assert(action_views(rest@) =~= Seq::<MinterActionView>::empty());
    assert(action_views(actions@) =~= action_views(actions@) + action_views(rest@));
}

/// Once a prefix of the entries is refused, the whole claim is refused for
/// the same reason.
proof fn lemma_first_error_extends(s: MinterView, caller: Seq<u8>, player_nonce: u32, items: Seq<TokenClaim>, n: int)
    requires
        0 <= n <= items.len(),
        first_claim_error(s, caller, player_nonce, items.take(n)) is Some,
    ensures
        first_claim_error(s, caller, player_nonce, items) == first_claim_error(s, caller, player_nonce, items.take(n)),
    decreases items.len() - n,
{
    if n < items.len() {
        assert(items.take(n + 1).drop_last() =~= items.take(n));
        lemma_first_error_extends(s, caller, player_nonce, items, n + 1);
    } else {
        assert(items.take(n) =~= items);
    }
}

impl GameMinter for Minter {
    fn init(
        &mut self,
        signer: &Vec<u8>,
        platform_currency: &Vec<u8>,
        planet_price: u128,
        krogan: &Vec<u8>,
        rewards_pool: &Vec<u8>,
    ) {
        if self.signer.is_none() {
            self.signer = Some(copy_bytes(signer));
        }
        if self.platform_currency.len() == 0 {
            self.platform_currency = copy_bytes(platform_currency);
        }
        if self.planet_price == 0 {
            self.planet_price = planet_price;
        }
        if self.krogan.is_none() {
            self.krogan = Some(copy_bytes(krogan));
        }
        if self.rewards_pool.is_none() {
            self.rewards_pool = Some(copy_bytes(rewards_pool));
        }
    }

    fn mint_tokens(&self, caller: &Vec<u8>, owner: &Vec<u8>, token_key: &Vec<u8>, amount: u128) -> Result<Vec<MinterAction>, MinterError> {
        match Minter::check_owner(caller, owner) {
            Err(e) => Err(e),
            Ok(()) => self.mint_and_send_token(caller, token_key, amount),
        }
    }

    fn claim_tokens(
        &mut self,
        caller: &Vec<u8>,
        starbase_nonce: u32,
        player_nonce: u32,
        data: &Vec<TokenClaim>,
    ) -> Result<Vec<MinterAction>, MinterError> {
        let ghost s = self@;
        let mut actions: Vec<MinterAction> = Vec::new();
        assert(action_views(actions@) =~= Seq::<MinterActionView>::empty());
        let mut i: usize = 0;
        while i < data.len()
            invariant
                i <= data@.len(),
                self@ == s,
                first_claim_error(s, caller@, player_nonce, data@.take(i as int)) is None,
                action_views(actions@) == claim_actions(s, caller@, data@.take(i as int)),
            decreases data@.len() - i,
        {
            assert(data@.take(i + 1).drop_last() =~= data@.take(i as int));
            match self.check_claim_entry(caller, player_nonce, &data[i]) {
                Some(e) => {
                    proof {
                        lemma_first_error_extends(s, caller@, player_nonce, data@, (i + 1) as int);
                    }
                    return Err(e);
                },
                None => {},
            }
            let more = match self.mint_and_send_token(caller, &data[i].token_key, data[i].amount) {
                Ok(v) => v,
                Err(e) => return Err(e),
            };
            append_actions(&mut actions, more);
            i = i + 1;
        }
        assert(data@.take(data@.len() as int) =~= data@);
        self.tokens_claimed.insert((copy_bytes(caller), player_nonce), ());
        Ok(actions)
    }

    fn claim_planet(
        &mut self,
        caller: &Vec<u8>,
        nonce: u32,
        token_id: &Vec<u8>,
        amount: u128,
        payments: &Vec<Payment>,
        signature_valid: bool,
    ) -> Result<Vec<Transfer>, MinterError> {
        if self.planet_claimed.contains_key(&(copy_bytes(&self.planet_token_id), nonce)) {
            return Err(MinterError::PlanetAlreadyClaimed);
        }
        if !bytes_eq(token_id, &self.planet_token_id) || amount != 1 {
            return Err(MinterError::InvalidData);
        }
        if payments.len() != 1 {
            return Err(MinterError::NotSingleEsdtPayment);
        }
        let payment = &payments[0];
        assert(payment_values(payments@)[0] == payment@);
        if !bytes_eq(&payment.token, &self.platform_currency) || payment.nonce != 0 || payment.amount != self.planet_price {
            return Err(MinterError::InvalidPayment);
        }
        let mut transfers = match self.split_game_revenue_and_send(payment.amount) {
            Err(e) => return Err(e),
            Ok(t) => t,
        };
        match self.verify_signature(signature_valid) {
            Err(e) => return Err(e),
            Ok(()) => {},
        }
        let ghost split = transfers@;
        let key = (copy_bytes(&self.planet_token_id), nonce);
        self.planet_claimed.insert(key, ());
        let planet = Transfer::new(caller, token_id, nonce as u64, amount);
        transfers.push(planet);
        assert(transfer_views(transfers@) =~= transfer_views(split).push(planet@));
        Ok(transfers)
    }

    fn withdraw_profits(&self, caller: &Vec<u8>, owner: &Vec<u8>, opt_payment_token: &Option<Vec<u8>>, balance: u128) -> Result<Transfer, MinterError> {
        match Minter::check_owner(caller, owner) {
            Err(e) => return Err(e),
            Ok(()) => {},
        }
        let token = match opt_payment_token {
            Some(t) => copy_bytes(t),
            None => {
                let t: Vec<u8> = Vec::new();
                assert(t@ =~= Seq::<u8>::empty());
                t
            },
        };
        Ok(Transfer::new(owner, &token, 0, balance))
    }
}

} // verus!
