//! Issuing the material tokens, and minting and sending them.

use vstd::prelude::*;
use crate::chain::{Transfer, TransferView};
use crate::store::copy_bytes;
use super::Minter;
use super::storage::{MinterError, MinterView, owner_check};

verus! {

/// A token operation of the minter: minting on the contract's account, or
/// sending.
#[derive(Debug, PartialEq, Eq)]
pub enum MinterAction {
    LocalMint { token: Vec<u8>, amount: u128 },
    Send(Transfer),
}

/// A token operation, as values.
pub enum MinterActionView {
    LocalMint { token: Seq<u8>, amount: u128 },
    Send(TransferView),
}

impl View for MinterAction {
    type V = MinterActionView;

    open spec fn view(&self) -> MinterActionView {
        match self {
            MinterAction::LocalMint { token, amount } => MinterActionView::LocalMint { token: token@, amount: *amount },
            MinterAction::Send(t) => MinterActionView::Send(t@),
        }
    }
}

/// The views of a list of token operations.
pub open spec fn action_views(v: Seq<MinterAction>) -> Seq<MinterActionView> {
    v.map_values(|a: MinterAction| a@)
}

/// The properties that the issued material tokens get.
#[derive(Debug, PartialEq, Eq)]
pub struct FungibleTokenProperties {
    pub num_decimals: u32,
    pub can_freeze: bool,
    pub can_wipe: bool,
    pub can_pause: bool,
    pub can_mint: bool,
    pub can_burn: bool,
    pub can_change_owner: bool,
    pub can_upgrade: bool,
    pub can_add_special_roles: bool,
}

/// A request to the system contract to issue a fungible token; its result
/// goes to `issue_callback` with `callback_key`.
#[derive(Debug, PartialEq, Eq)]
pub struct IssueFungible {
    pub issue_cost: u128,
    pub token_name: Vec<u8>,
    pub token_ticker: Vec<u8>,
    pub initial_supply: u128,
    pub properties: FungibleTokenProperties,
    pub callback_key: Vec<u8>,
}

/// A role that the contract takes on a token.
#[derive(Clone, Copy, Debug, PartialEq, Eq, Structural)]
pub enum EsdtLocalRole {
    Mint,
    Burn,
}

/// A request to the system contract to give `address` roles on `token`.
#[derive(Debug, PartialEq, Eq)]
pub struct SetSpecialRoles {
    pub address: Vec<u8>,
    pub token: Vec<u8>,
    pub roles: Vec<EsdtLocalRole>,
}

/// The result of an issue request: the new token's identifier, or a failure.
#[derive(Debug, PartialEq, Eq)]
pub enum IssueResult {
    Issued(Vec<u8>),
    Failed,
}

/// What the issue callback asks for next.
#[derive(Debug, PartialEq, Eq)]
pub enum CallbackAction {
    /// Take the mint and burn roles on the new token.
    SetRoles(SetSpecialRoles),
    /// Send back to the owner the EGLD that the failed issue returned.
    Refund(Transfer),
    /// Nothing.
    Nothing,
}

/// The material token stored for a key; empty if none.
pub open spec fn material_token(s: MinterView, key: Seq<u8>) -> Seq<u8> {
    if s.material_token_id.contains_key(key) { s.material_token_id[key] } else { Seq::empty() }
}

/// Minting `amount` of the key's material token and sending it to `address`.
pub open spec fn mint_and_send(s: MinterView, address: Seq<u8>, key: Seq<u8>, amount: u128) -> Seq<MinterActionView> {
    seq![
        MinterActionView::LocalMint { token: material_token(s, key), amount },
        MinterActionView::Send(TransferView { to: address, token: material_token(s, key), nonce: 0, amount, data: Seq::empty() }),
    ]
}

/// The transfers that split `amount` of the platform currency in two halves,
/// rounded down, to krogan and to the rewards pool.
pub open spec fn revenue_split(s: MinterView, amount: u128) -> Result<Seq<TransferView>, MinterError> {
    match (s.krogan, s.rewards_pool) {
        (Some(k), Some(p)) => if s.platform_currency.len() == 0 {
            Err(MinterError::NotConfigured)
        } else {
            Ok(seq![
            TransferView { to: k, token: s.platform_currency, nonce: 0, amount: amount / 2, data: Seq::empty() },
            TransferView { to: p, token: s.platform_currency, nonce: 0, amount: amount / 2, data: Seq::empty() },
        ])
        },
        _ => Err(MinterError::NotConfigured),
    }
}

/// The transfer views of a list of transfers.
pub open spec fn transfer_views(v: Seq<Transfer>) -> Seq<TransferView> {
    v.map_values(|t: Transfer| t@)
}

/// The issuing of material tokens and the token operations of the minter.
pub trait TokensModule: View<V = MinterView> + Sized {
    /// Asks the system contract to issue the material token `token_name`,
    /// paying `issue_cost` EGLD; owner only. Unless `opt_replace` is true, a
    /// material already issued under that name is refused.
    fn issue_token(
        &self,
        caller: &Vec<u8>,
        owner: &Vec<u8>,
        issue_cost: u128,
        token_name: &Vec<u8>,
        token_ticker: &Vec<u8>,
        opt_replace: Option<bool>,
    ) -> (r: Result<IssueFungible, MinterError>)
        ensures
            owner_check(caller@, owner@) is Err ==> r == Err::<IssueFungible, MinterError>(MinterError::OnlyOwner),
            owner_check(caller@, owner@) is Ok && opt_replace != Some(true)
                && self@.material_token_id.contains_key(token_name@)
                ==> r == Err::<IssueFungible, MinterError>(MinterError::TokenAlreadyIssued),
            owner_check(caller@, owner@) is Ok && (opt_replace == Some(true)
                || !self@.material_token_id.contains_key(token_name@)) ==> (r matches Ok(req) && {
                &&& req.issue_cost == issue_cost
                &&& req.token_name@ == token_name@
                &&& req.token_ticker@ == token_ticker@
                &&& req.initial_supply == 0
                &&& material_properties(req.properties)
                &&& req.callback_key@ == token_name@
            }),
    ;

    /// Records the issued token under `key` and takes roles on it, or refunds
    /// the EGLD `returned_amount` that a failed issue returned
    /// (`returned_token` is empty for EGLD).
    fn issue_callback(
        &mut self,
        key: &Vec<u8>,
        result: &IssueResult,
        owner: &Vec<u8>,
        sc_address: &Vec<u8>,
        returned_token: &Vec<u8>,
        returned_amount: u128,
    ) -> (r: CallbackAction)
        ensures
            match result {
                IssueResult::Issued(token_id) => {
                    &&& final(self)@ == (MinterView {
                        material_token_id: old(self)@.material_token_id.insert(key@, token_id@),
                        ..old(self)@
                    })
                    &&& r matches CallbackAction::SetRoles(req)
                    &&& req.address@ == sc_address@
                    &&& req.token@ == token_id@
                    &&& req.roles@ == seq![EsdtLocalRole::Mint, EsdtLocalRole::Burn]
                },
                IssueResult::Failed => final(self)@ == old(self)@ && if returned_token@.len() == 0 && returned_amount > 0 {
                    r matches CallbackAction::Refund(t) && t@ == (TransferView {
                        to: owner@,
                        token: returned_token@,
                        nonce: 0,
                        amount: returned_amount,
                        data: Seq::empty(),
                    })
                } else {
                    r matches CallbackAction::Nothing
                },
            },
    ;

    /// The request that gives the contract the mint and burn roles on a token.
    fn set_local_roles(&self, sc_address: &Vec<u8>, token_id: &Vec<u8>) -> (r: SetSpecialRoles)
        ensures
            r.address@ == sc_address@,
            r.token@ == token_id@,
            r.roles@ == seq![EsdtLocalRole::Mint, EsdtLocalRole::Burn],
    ;

    /// Mints `amount` of the key's material token and sends it to `address`.
    fn mint_and_send_token(&self, address: &Vec<u8>, token_key: &Vec<u8>, amount: u128) -> (r: Result<Vec<MinterAction>, MinterError>)
        ensures
            if self@.material_token_id.contains_key(token_key@) {
                r matches Ok(v) && action_views(v@) == mint_and_send(self@, address@, token_key@, amount)
            } else {
                r == Err::<Vec<MinterAction>, MinterError>(MinterError::NotConfigured)
            },
    ;

    /// The transfers that split an amount between krogan and the rewards pool.
    fn split_game_revenue_and_send(&self, amount: u128) -> (r: Result<Vec<Transfer>, MinterError>)
        ensures
            match revenue_split(self@, amount) {
                Ok(t) => r matches Ok(v) && transfer_views(v@) == t,
                Err(e) => r == Err::<Vec<Transfer>, MinterError>(e),
            },
    ;
}

/// The properties of the material tokens: 18 decimals and every capability.
pub open spec fn material_properties(p: FungibleTokenProperties) -> bool {
    &&& p.num_decimals == 18
    &&& p.can_freeze && p.can_wipe && p.can_pause && p.can_mint && p.can_burn
    &&& p.can_change_owner && p.can_upgrade && p.can_add_special_roles
}

impl TokensModule for Minter {
    fn issue_token(
        &self,
        caller: &Vec<u8>,
        owner: &Vec<u8>,
        issue_cost: u128,
        token_name: &Vec<u8>,
        token_ticker: &Vec<u8>,
        opt_replace: Option<bool>,
    ) -> Result<IssueFungible, MinterError> {
        match Minter::check_owner(caller, owner) {
            Err(e) => return Err(e),
            Ok(()) => {},
        }
        let replace = match opt_replace {
            Some(b) => b,
            None => false,
        };
        if !replace {
            if self.material_token_id.contains_key(token_name) {
                return Err(MinterError::TokenAlreadyIssued);
            }
        }
        Ok(IssueFungible {
            issue_cost,
            token_name: copy_bytes(token_name),
            token_ticker: copy_bytes(token_ticker),
            initial_supply: 0,
            properties: FungibleTokenProperties {
                num_decimals: 18,
                can_freeze: true,
                can_wipe: true,
                can_pause: true,
                can_mint: true,
                can_burn: true,
                can_change_owner: true,
                can_upgrade: true,
                can_add_special_roles: true,
            },
            callback_key: copy_bytes(token_name),
        })
    }

    fn issue_callback(
        &mut self,
        key: &Vec<u8>,
        result: &IssueResult,
        owner: &Vec<u8>,
        sc_address: &Vec<u8>,
        returned_token: &Vec<u8>,
        returned_amount: u128,
    ) -> CallbackAction {
        match result {
            IssueResult::Issued(token_id) => {
                self.material_token_id.insert(copy_bytes(key), copy_bytes(token_id));
                CallbackAction::SetRoles(self.set_local_roles(sc_address, token_id))
            },
            IssueResult::Failed => {
                if returned_token.len() == 0 && returned_amount > 0 {
                    CallbackAction::Refund(Transfer::new(owner, returned_token, 0, returned_amount))
                } else {
                    CallbackAction::Nothing
                }
            },
        }
    }

    fn set_local_roles(&self, sc_address: &Vec<u8>, token_id: &Vec<u8>) -> SetSpecialRoles {
        let mut roles: Vec<EsdtLocalRole> = Vec::new();
        roles.push(EsdtLocalRole::Mint);
        roles.push(EsdtLocalRole::Burn);
        assert(roles@ =~= seq![EsdtLocalRole::Mint, EsdtLocalRole::Burn]);
        SetSpecialRoles { address: copy_bytes(sc_address), token: copy_bytes(token_id), roles }
    }

    fn mint_and_send_token(&self, address: &Vec<u8>, token_key: &Vec<u8>, amount: u128) -> Result<Vec<MinterAction>, MinterError> {
        let token_id = match self.material_token_id.get(token_key) {
            Some(t) => copy_bytes(t),
            None => return Err(MinterError::NotConfigured),
        };
        let mut actions: Vec<MinterAction> = Vec::new();
        actions.push(MinterAction::LocalMint { token: copy_bytes(&token_id), amount });
        actions.push(MinterAction::Send(Transfer::new(address, &token_id, 0, amount)));
        assert(action_views(actions@) =~= mint_and_send(self@, address@, token_key@, amount));
        Ok(actions)
    }

    fn split_game_revenue_and_send(&self, amount: u128) -> Result<Vec<Transfer>, MinterError> {
        match (&self.krogan, &self.rewards_pool) {
            (Some(k), Some(p)) => {
                if self.platform_currency.len() == 0 {
                    return Err(MinterError::NotConfigured);
                }
                let mut v: Vec<Transfer> = Vec::new();
                v.push(Transfer::new(k, &self.platform_currency, 0, amount / 2));
                v.push(Transfer::new(p, &self.platform_currency, 0, amount / 2));
                assert(transfer_views(v@) =~= revenue_split(self@, amount)->Ok_0);
                Ok(v)
            },
            _ => Err(MinterError::NotConfigured),
        }
    }
}

} // verus!
