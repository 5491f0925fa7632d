use game_contracts::chain::{Payment, Transfer};
use game_contracts::game_minter::storage::{MinterError, StorageModule};
use game_contracts::game_minter::tokens::{CallbackAction, EsdtLocalRole, IssueResult, MinterAction, TokensModule};
use game_contracts::game_minter::validation::ValidationModule;
use game_contracts::game_minter::{GameMinter, Minter, TokenClaim, MAX_CLAIM_AMOUNT};

fn addr(b: u8) -> Vec<u8> {
    vec![b; 32]
}

const OWNER: u8 = 0x0F;
const SIGNER: u8 = 0x51;
const KROGAN: u8 = 0x4B;
const POOL: u8 = 0x50;
const PLAYER: u8 = 0x48;
const SC: u8 = 0x5C;

fn currency() -> Vec<u8> {
    b"KRO-123456".to_vec()
}

fn planet() -> Vec<u8> {
    b"PLANET-abcdef".to_vec()
}

fn setup() -> Minter {
    let mut m = Minter::new();
    m.init(&addr(SIGNER), &currency(), 1000, &addr(KROGAN), &addr(POOL));
    m.change_planet_token_id(&addr(OWNER), &addr(OWNER), &planet()).unwrap();
    let _ = m.issue_callback(&b"iron".to_vec(), &IssueResult::Issued(b"IRON-111111".to_vec()), &addr(OWNER), &addr(SC), &Vec::new(), 0);
    m
}

fn claim(index: u32, key: &[u8], amount: u128) -> TokenClaim {
    TokenClaim { index, token_key: key.to_vec(), amount, signature_valid: true }
}

fn pay(token: &[u8], nonce: u64, amount: u128) -> Vec<Payment> {
    vec![Payment { token: token.to_vec(), nonce, amount }]
}

#[test]
fn issue_token_request() {
    let m = setup();
    assert_eq!(
        m.issue_token(&addr(1), &addr(OWNER), 50, &b"gold".to_vec(), &b"GOLD".to_vec(), None),
        Err(MinterError::OnlyOwner)
    );
    let req = m.issue_token(&addr(OWNER), &addr(OWNER), 50, &b"gold".to_vec(), &b"GOLD".to_vec(), None).unwrap();
    assert_eq!(req.issue_cost, 50);
    assert_eq!(req.token_name, b"gold".to_vec());
    assert_eq!(req.token_ticker, b"GOLD".to_vec());
    assert_eq!(req.initial_supply, 0);
    assert_eq!(req.properties.num_decimals, 18);
    assert!(req.properties.can_mint && req.properties.can_add_special_roles);
    assert_eq!(req.callback_key, b"gold".to_vec());
    assert_eq!(
        m.issue_token(&addr(OWNER), &addr(OWNER), 50, &b"iron".to_vec(), &b"IRON".to_vec(), Some(false)),
        Err(MinterError::TokenAlreadyIssued)
    );
    assert!(m.issue_token(&addr(OWNER), &addr(OWNER), 50, &b"iron".to_vec(), &b"IRON".to_vec(), Some(true)).is_ok());
}

#[test]
fn issue_callback_records_and_takes_roles() {
    let mut m = Minter::new();
    let r = m.issue_callback(&b"iron".to_vec(), &IssueResult::Issued(b"IRON-111111".to_vec()), &addr(OWNER), &addr(SC), &Vec::new(), 0);
    match r {
        CallbackAction::SetRoles(req) => {
            assert_eq!(req.address, addr(SC));
            assert_eq!(req.token, b"IRON-111111".to_vec());
            assert_eq!(req.roles, vec![EsdtLocalRole::Mint, EsdtLocalRole::Burn]);
        },
        _ => panic!("expected a roles request"),
    }
    assert_eq!(m.get_material_token_id(&b"iron".to_vec()), b"IRON-111111".to_vec());
}

#[test]
fn issue_callback_failure_refunds_egld() {
    let mut m = Minter::new();
    assert_eq!(
        m.issue_callback(&b"x".to_vec(), &IssueResult::Failed, &addr(OWNER), &addr(SC), &Vec::new(), 50),
        CallbackAction::Refund(Transfer { to: addr(OWNER), token: Vec::new(), nonce: 0, amount: 50, data: Vec::new() })
    );
    assert_eq!(m.issue_callback(&b"x".to_vec(), &IssueResult::Failed, &addr(OWNER), &addr(SC), &Vec::new(), 0), CallbackAction::Nothing);
    assert_eq!(
        m.issue_callback(&b"x".to_vec(), &IssueResult::Failed, &addr(OWNER), &addr(SC), &b"TOK-1".to_vec(), 5),
        CallbackAction::Nothing
    );
    assert_eq!(m.get_material_token_id(&b"x".to_vec()), Vec::<u8>::new());
}

#[test]
fn claim_tokens_mints_each_entry() {
    let mut m = setup();
    let iron = b"IRON-111111".to_vec();
    let r = m.claim_tokens(&addr(PLAYER), 0, 4, &vec![claim(4, b"iron", 10), claim(4, b"iron", 20)]).unwrap();
    assert_eq!(
        r,
        vec![
            MinterAction::LocalMint { token: iron.clone(), amount: 10 },
            MinterAction::Send(Transfer { to: addr(PLAYER), token: iron.clone(), nonce: 0, amount: 10, data: Vec::new() }),
            MinterAction::LocalMint { token: iron.clone(), amount: 20 },
            MinterAction::Send(Transfer { to: addr(PLAYER), token: iron.clone(), nonce: 0, amount: 20, data: Vec::new() }),
        ]
    );
    assert!(m.get_tokens_claimed(&addr(PLAYER), 4));
    assert_eq!(m.claim_tokens(&addr(PLAYER), 0, 4, &vec![claim(4, b"iron", 10)]), Err(MinterError::AlreadyClaimed));
}

#[test]
fn claim_tokens_refusals() {
    let mut m = setup();
    let unsigned = TokenClaim { index: 1, token_key: b"iron".to_vec(), amount: 1, signature_valid: false };
    assert_eq!(m.claim_tokens(&addr(PLAYER), 0, 1, &vec![unsigned]), Err(MinterError::InvalidSignature));
    assert_eq!(m.claim_tokens(&addr(PLAYER), 0, 1, &vec![claim(1, b"iron", MAX_CLAIM_AMOUNT + 1)]), Err(MinterError::InvalidAmount));
    assert!(m.claim_tokens(&addr(PLAYER), 0, 1, &vec![claim(1, b"iron", MAX_CLAIM_AMOUNT)]).is_ok());
    assert_eq!(MAX_CLAIM_AMOUNT, 180_000_000_000_000_000_000);
    assert_eq!(m.claim_tokens(&addr(PLAYER), 0, 2, &vec![claim(3, b"iron", 1)]), Err(MinterError::WrongNonce));
    assert_eq!(m.claim_tokens(&addr(PLAYER), 0, 2, &vec![claim(2, b"wood", 1)]), Err(MinterError::InvalidMaterial));
    assert!(!m.get_tokens_claimed(&addr(PLAYER), 2));
}

#[test]
fn claim_tokens_empty_marks_nonce() {
    let mut m = setup();
    assert_eq!(m.claim_tokens(&addr(PLAYER), 0, 9, &vec![]), Ok(vec![]));
    assert!(m.get_tokens_claimed(&addr(PLAYER), 9));
}

#[test]
fn claim_planet_sells_once() {
    let mut m = setup();
    let t = m.claim_planet(&addr(PLAYER), 3, &planet(), 1, &pay(&currency(), 0, 1000), true).unwrap();
    assert_eq!(
        t,
        vec![
            Transfer { to: addr(KROGAN), token: currency(), nonce: 0, amount: 500, data: Vec::new() },
            Transfer { to: addr(POOL), token: currency(), nonce: 0, amount: 500, data: Vec::new() },
            Transfer { to: addr(PLAYER), token: planet(), nonce: 3, amount: 1, data: Vec::new() },
        ]
    );
    assert!(m.get_planet_claimed(3));
    assert_eq!(
        m.claim_planet(&addr(PLAYER), 3, &planet(), 1, &pay(&currency(), 0, 1000), true),
        Err(MinterError::PlanetAlreadyClaimed)
    );
    assert_eq!(m.reset_planet_claim(&addr(1), &addr(OWNER), 3), Err(MinterError::OnlyOwner));
    m.reset_planet_claim(&addr(OWNER), &addr(OWNER), 3).unwrap();
    assert!(!m.get_planet_claimed(3));
}

#[test]
fn claim_planet_refusals() {
    let mut m = setup();
    assert_eq!(m.claim_planet(&addr(PLAYER), 3, &b"X-1".to_vec(), 1, &pay(&currency(), 0, 1000), true), Err(MinterError::InvalidData));
    assert_eq!(m.claim_planet(&addr(PLAYER), 3, &planet(), 2, &pay(&currency(), 0, 1000), true), Err(MinterError::InvalidData));
    assert_eq!(m.claim_planet(&addr(PLAYER), 3, &planet(), 1, &vec![], true), Err(MinterError::NotSingleEsdtPayment));
    assert_eq!(m.claim_planet(&addr(PLAYER), 3, &planet(), 1, &pay(b"OTHER-1", 0, 1000), true), Err(MinterError::InvalidPayment));
    assert_eq!(m.claim_planet(&addr(PLAYER), 3, &planet(), 1, &pay(&currency(), 1, 1000), true), Err(MinterError::InvalidPayment));
    assert_eq!(m.claim_planet(&addr(PLAYER), 3, &planet(), 1, &pay(&currency(), 0, 999), true), Err(MinterError::InvalidPayment));
    assert_eq!(m.claim_planet(&addr(PLAYER), 3, &planet(), 1, &pay(&currency(), 0, 1000), false), Err(MinterError::InvalidSignature));
    assert!(!m.get_planet_claimed(3));
}

#[test]
fn changing_planet_token_changes_claim_key() {
    let mut m = setup();
    m.claim_planet(&addr(PLAYER), 3, &planet(), 1, &pay(&currency(), 0, 1000), true).unwrap();
    m.change_planet_token_id(&addr(OWNER), &addr(OWNER), &b"PLANET-2".to_vec()).unwrap();
    assert!(!m.get_planet_claimed(3));
}

#[test]
fn mint_tokens_owner_only() {
    let m = setup();
    assert_eq!(m.mint_tokens(&addr(1), &addr(OWNER), &b"iron".to_vec(), 5), Err(MinterError::OnlyOwner));
    let r = m.mint_tokens(&addr(OWNER), &addr(OWNER), &b"iron".to_vec(), 5).unwrap();
    assert_eq!(r[0], MinterAction::LocalMint { token: b"IRON-111111".to_vec(), amount: 5 });
    assert_eq!(r[1], MinterAction::Send(Transfer { to: addr(OWNER), token: b"IRON-111111".to_vec(), nonce: 0, amount: 5, data: Vec::new() }));
}

#[test]
fn withdraw_profits_defaults_to_egld() {
    let m = setup();
    assert_eq!(m.withdraw_profits(&addr(1), &addr(OWNER), &None, 7), Err(MinterError::OnlyOwner));
    assert_eq!(m.withdraw_profits(&addr(OWNER), &addr(OWNER), &None, 7), Ok(Transfer { to: addr(OWNER), token: Vec::new(), nonce: 0, amount: 7, data: Vec::new() }));
    assert_eq!(
        m.withdraw_profits(&addr(OWNER), &addr(OWNER), &Some(currency()), 0),
        Ok(Transfer { to: addr(OWNER), token: currency(), nonce: 0, amount: 0, data: Vec::new() })
    );
}

#[test]
fn setters_are_owner_only() {
    let mut m = setup();
    assert_eq!(m.change_signer(&addr(1), &addr(OWNER), &addr(2)), Err(MinterError::OnlyOwner));
    assert_eq!(m.change_krogan_address(&addr(1), &addr(OWNER), &addr(2)), Err(MinterError::OnlyOwner));
    assert_eq!(m.change_rewards_pool_address(&addr(1), &addr(OWNER), &addr(2)), Err(MinterError::OnlyOwner));
    m.change_krogan_address(&addr(OWNER), &addr(OWNER), &addr(2)).unwrap();
    m.change_rewards_pool_address(&addr(OWNER), &addr(OWNER), &addr(3)).unwrap();
    let t = m.split_game_revenue_and_send(7).unwrap();
    assert_eq!(t[0], Transfer { to: addr(2), token: currency(), nonce: 0, amount: 3, data: Vec::new() });
    assert_eq!(t[1], Transfer { to: addr(3), token: currency(), nonce: 0, amount: 3, data: Vec::new() });
    assert_eq!(m.get_planet_price(), 1000);
    assert_eq!(m.get_platform_currency(), currency());
}

#[test]
fn signer_needed_for_signatures() {
    let m = Minter::new();
    assert_eq!(m.verify_signature(true), Err(MinterError::NotConfigured));
}

#[test]
fn signed_data_layout() {
    let m = Minter::new();
    let d = m.signed_data(0x01020304, &vec![9, 9], &b"ab".to_vec(), 0x0100);
    assert_eq!(d, vec![1, 2, 3, 4, 9, 9, b'a', b'b', 0, 0, 0, 2, 1, 0]);
    let z = m.signed_data(0, &vec![], &vec![], 0);
    assert_eq!(z, vec![0, 0, 0, 0, 0, 0, 0, 0]);
}

#[test]
fn mint_tokens_unknown_material() {
    let m = setup();
    assert_eq!(m.mint_tokens(&addr(OWNER), &addr(OWNER), &b"wood".to_vec(), 5), Err(MinterError::NotConfigured));
}

#[test]
fn planet_stays_sold_through_other_calls() {
    let mut m = setup();
    m.claim_planet(&addr(PLAYER), 3, &planet(), 1, &pay(&currency(), 0, 1000), true).unwrap();
    m.claim_planet(&addr(2), 4, &planet(), 1, &pay(&currency(), 0, 1000), true).unwrap();
    m.reset_planet_claim(&addr(OWNER), &addr(OWNER), 4).unwrap();
    m.claim_tokens(&addr(PLAYER), 0, 1, &vec![claim(1, b"iron", 5)]).unwrap();
    m.change_krogan_address(&addr(OWNER), &addr(OWNER), &addr(9)).unwrap();
    assert_eq!(
        m.claim_planet(&addr(2), 3, &planet(), 1, &pay(&currency(), 0, 1000), true),
        Err(MinterError::PlanetAlreadyClaimed)
    );
    assert!(m.claim_planet(&addr(2), 4, &planet(), 1, &pay(&currency(), 0, 1000), true).is_ok());
}

#[test]
fn materials_stay_claimed_through_other_calls() {
    let mut m = setup();
    m.claim_tokens(&addr(PLAYER), 0, 1, &vec![claim(1, b"iron", 5)]).unwrap();
    m.claim_tokens(&addr(PLAYER), 0, 2, &vec![claim(2, b"iron", 5)]).unwrap();
    m.claim_planet(&addr(PLAYER), 3, &planet(), 1, &pay(&currency(), 0, 1000), true).unwrap();
    assert_eq!(m.claim_tokens(&addr(PLAYER), 0, 1, &vec![claim(1, b"iron", 7)]), Err(MinterError::AlreadyClaimed));
}

#[test]
fn minter_signature_check_names_signer_and_message() {
    let m = setup();
    let c = m.signature_check(3, &addr(PLAYER), &planet(), 1).unwrap();
    assert_eq!(c.signer, addr(SIGNER));
    assert_eq!(c.message, m.signed_data(3, &addr(PLAYER), &planet(), 1));
    assert_eq!(Minter::new().signature_check(3, &addr(PLAYER), &planet(), 1), Err(MinterError::NotConfigured));
}
