use game_contracts::chain::Transfer;
use game_contracts::nft_airdrop::models::{EsdtTokenPayment, EsdtTokenType, RewardsCheckpoint};
use game_contracts::nft_airdrop::rewards::RewardsModule;
use game_contracts::nft_airdrop::storage::AirdropError;
use game_contracts::nft_airdrop::validation::ValidationModule;
use game_contracts::nft_airdrop::{Airdrop, ClaimData, NftAirdrop};

fn addr(b: u8) -> Vec<u8> {
    vec![b; 32]
}

fn hash(b: u8) -> Vec<u8> {
    vec![b; 32]
}

const SIGNER: u8 = 0x51;
const OWNER: u8 = 0x0F;
const PROJECT: u8 = 0x70;
const HOLDER: u8 = 0x48;

fn egld() -> Vec<u8> {
    Vec::new()
}

fn setup() -> Airdrop {
    let mut a = Airdrop::new();
    a.init(&addr(SIGNER));
    a.set_whitelisted(&addr(PROJECT), true);
    a
}

fn deposit(a: &mut Airdrop, h: u8, total: u128, token: &[u8], nonce: u64, supply: u128) {
    a.add_rewards_checkpoint(&addr(PROJECT), &hash(h), total, &token.to_vec(), nonce, supply).unwrap();
}

fn entry(h: u8, n: u32) -> ClaimData {
    ClaimData { root_hash: hash(h), user_nft_amount: n, signature_valid: true }
}

fn fungible(token: &[u8], amount: u128) -> EsdtTokenPayment {
    EsdtTokenPayment { token_type: EsdtTokenType::Fungible, token_identifier: token.to_vec(), token_nonce: 0, amount }
}

#[test]
fn decimal_to_ascii_values() {
    let a = Airdrop::new();
    assert_eq!(a.decimal_to_ascii(0), b"0".to_vec());
    assert_eq!(a.decimal_to_ascii(7), b"7".to_vec());
    assert_eq!(a.decimal_to_ascii(10), b"10".to_vec());
    assert_eq!(a.decimal_to_ascii(1234), b"1234".to_vec());
    assert_eq!(a.decimal_to_ascii(u32::MAX), b"4294967295".to_vec());
}

#[test]
fn create_hash_layout() {
    let a = Airdrop::new();
    let m = a.create_hash(&vec![1, 2], &vec![3], 42);
    assert_eq!(m, vec![1, 2, 3, b'_', b'4', b'2']);
}

#[test]
fn signed_message_distinguishes_counts() {
    let a = Airdrop::new();
    assert_ne!(a.create_hash(&addr(1), &hash(2), 12), a.create_hash(&addr(1), &hash(2), 1));
}

#[test]
fn reward_amount_rounds_down() {
    let a = Airdrop::new();
    assert_eq!(a.calculate_reward_amount(1000, 1, 3), Ok(333));
    assert_eq!(a.calculate_reward_amount(1000, 3, 3), Ok(1000));
    assert_eq!(a.calculate_reward_amount(1000, 0, 3), Ok(0));
    assert_eq!(a.calculate_reward_amount(1000, 1, 0), Err(AirdropError::DivisionByZero));
    assert_eq!(a.calculate_reward_amount(u128::MAX, 2, 4), Ok(u128::MAX / 2));
    assert_eq!(a.calculate_reward_amount(u128::MAX, 3, 3), Ok(u128::MAX));
    assert_eq!(a.calculate_reward_amount(u128::MAX, 2, 1), Err(AirdropError::Overflow));
    assert_eq!(a.calculate_reward_amount(u128::MAX - 6, u32::MAX, u128::MAX), Ok(u32::MAX as u128 - 1));
}

#[test]
fn add_checkpoint_rules() {
    let mut a = setup();
    assert_eq!(
        a.add_rewards_checkpoint(&addr(9), &hash(1), 10, &b"TOK-000001".to_vec(), 0, 100),
        Err(AirdropError::NotAllowedToDeposit)
    );
    assert_eq!(
        a.add_rewards_checkpoint(&addr(PROJECT), &hash(1), 10, &b"TOK-000001".to_vec(), 0, 0),
        Err(AirdropError::ZeroAmount)
    );
    deposit(&mut a, 1, 10, b"TOK-000001", 0, 100);
    assert_eq!(
        a.add_rewards_checkpoint(&addr(PROJECT), &hash(1), 10, &b"TOK-000001".to_vec(), 0, 100),
        Err(AirdropError::CheckpointAlreadyExists)
    );
    assert_eq!(
        a.rewards_checkpoint(&hash(1)),
        Some(&RewardsCheckpoint { total_nft_supply: 10, reward_token: b"TOK-000001".to_vec(), reward_supply: 100, reward_nonce: 0 })
    );
    assert_eq!(a.rewards_owner(&hash(1)), Some(&addr(PROJECT)));
}

#[test]
fn deposit_then_full_withdraw_returns_deposit() {
    let mut a = setup();
    deposit(&mut a, 1, 10, b"TOK-000001", 0, 100);
    assert_eq!(
        a.remove_rewards_checkpoint(&addr(9), &addr(OWNER), &hash(1), 10, true),
        Err(AirdropError::NotAllowedToRemove)
    );
    assert_eq!(
        a.remove_rewards_checkpoint(&addr(PROJECT), &addr(OWNER), &hash(1), 10, false),
        Err(AirdropError::InvalidSignature)
    );
    let t = a.remove_rewards_checkpoint(&addr(PROJECT), &addr(OWNER), &hash(1), 10, true).unwrap();
    assert_eq!(t, Transfer { to: addr(PROJECT), token: b"TOK-000001".to_vec(), nonce: 0, amount: 100, data: Vec::new() });
    assert!(a.rewards_checkpoint(&hash(1)).is_none());
    assert!(a.rewards_owner(&hash(1)).is_none());
    assert_eq!(
        a.remove_rewards_checkpoint(&addr(PROJECT), &addr(OWNER), &hash(1), 10, true),
        Err(AirdropError::CheckpointDoesNotExist)
    );
}

#[test]
fn partial_withdraw_returns_unclaimed_share() {
    let mut a = setup();
    deposit(&mut a, 1, 4, b"TOK-000001", 0, 100);
    let t = a.remove_rewards_checkpoint(&addr(PROJECT), &addr(OWNER), &hash(1), 1, true).unwrap();
    assert_eq!(t.amount, 25);
}

#[test]
fn claim_pays_once() {
    let mut a = setup();
    deposit(&mut a, 1, 10, b"TOK-000001", 0, 100);
    let r = a.claim_rewards(&addr(HOLDER), &vec![entry(1, 3)]).unwrap();
    assert_eq!(r.egld_amount, None);
    assert_eq!(r.esdt_payments, Some(vec![fungible(b"TOK-000001", 30)]));
    assert!(a.rewards_claimed(&addr(HOLDER), &hash(1)));
    assert_eq!(a.claim_rewards(&addr(HOLDER), &vec![entry(1, 3)]), Err(AirdropError::AlreadyClaimed));
}

#[test]
fn claim_duplicate_entry_fails_whole() {
    let mut a = setup();
    deposit(&mut a, 1, 10, b"TOK-000001", 0, 100);
    assert_eq!(a.claim_rewards(&addr(HOLDER), &vec![entry(1, 3), entry(1, 3)]), Err(AirdropError::AlreadyClaimed));
    assert!(!a.rewards_claimed(&addr(HOLDER), &hash(1)));
}

#[test]
fn claim_refusals() {
    let mut a = setup();
    deposit(&mut a, 1, 10, b"TOK-000001", 0, 100);
    let bad = ClaimData { root_hash: hash(1), user_nft_amount: 1, signature_valid: false };
    assert_eq!(a.claim_rewards(&addr(HOLDER), &vec![bad]), Err(AirdropError::InvalidSignature));
    assert_eq!(a.claim_rewards(&addr(HOLDER), &vec![entry(2, 1)]), Err(AirdropError::InvalidRootHash));
    a.set_whitelisted(&addr(PROJECT), false);
    assert_eq!(a.claim_rewards(&addr(HOLDER), &vec![entry(1, 1)]), Err(AirdropError::NotWhitelistedProject));
    let unsigned = Airdrop::new();
    let mut unsigned = unsigned;
    assert_eq!(unsigned.claim_rewards(&addr(HOLDER), &vec![entry(1, 1)]), Err(AirdropError::SignerNotSet));
}

#[test]
fn claim_empty_pays_nothing() {
    let mut a = setup();
    let r = a.claim_rewards(&addr(HOLDER), &vec![]).unwrap();
    assert_eq!(r.egld_amount, None);
    assert_eq!(r.esdt_payments, None);
}

#[test]
fn claim_aggregates_payments() {
    let mut a = setup();
    deposit(&mut a, 1, 10, &egld(), 0, 1000);
    deposit(&mut a, 2, 10, b"AAA-000001", 0, 100);
    deposit(&mut a, 3, 10, b"AAA-000001", 0, 50);
    deposit(&mut a, 4, 10, &egld(), 0, 500);
    deposit(&mut a, 5, 10, b"BBB-000001", 0, 10);
    deposit(&mut a, 6, 10, b"NFT-000001", 7, 10);
    let items = vec![entry(1, 1), entry(2, 2), entry(4, 2), entry(3, 2), entry(5, 10), entry(6, 1)];
    let r = a.claim_rewards(&addr(HOLDER), &items).unwrap();
    assert_eq!(r.egld_amount, Some(200));
    assert_eq!(
        r.esdt_payments,
        Some(vec![
            fungible(b"AAA-000001", 30),
            fungible(b"BBB-000001", 10),
            EsdtTokenPayment {
                token_type: EsdtTokenType::NonFungible,
                token_identifier: b"NFT-000001".to_vec(),
                token_nonce: 7,
                amount: 1,
            },
        ])
    );
}

#[test]
fn claim_nft_of_open_token_drops_open_amount() {
    // A fungible reward followed by a nonce reward of the same token: the
    // open fungible payment is replaced and never paid.
    let mut a = setup();
    deposit(&mut a, 1, 10, b"TOK-000001", 0, 100);
    deposit(&mut a, 2, 10, b"TOK-000001", 3, 50);
    let r = a.claim_rewards(&addr(HOLDER), &vec![entry(1, 1), entry(2, 2)]).unwrap();
    assert_eq!(
        r.esdt_payments,
        Some(vec![EsdtTokenPayment {
            token_type: EsdtTokenType::SemiFungible,
            token_identifier: b"TOK-000001".to_vec(),
            token_nonce: 3,
            amount: 10,
        }])
    );
}

#[test]
fn claim_zero_reward_is_not_paid() {
    let mut a = setup();
    deposit(&mut a, 1, 10, b"TOK-000001", 0, 100);
    let r = a.claim_rewards(&addr(HOLDER), &vec![entry(1, 0)]).unwrap();
    assert_eq!(r.esdt_payments, None);
    assert!(a.rewards_claimed(&addr(HOLDER), &hash(1)));
}

#[test]
fn withdraw_all_rules() {
    let a = setup();
    assert_eq!(a.withdraw_all(&addr(1), &addr(OWNER), &None, None, 5), Err(AirdropError::OnlyOwner));
    assert_eq!(a.withdraw_all(&addr(OWNER), &addr(OWNER), &None, None, 0), Err(AirdropError::NothingToWithdraw));
    assert_eq!(
        a.withdraw_all(&addr(OWNER), &addr(OWNER), &None, Some(9), 5),
        Ok(Transfer { to: addr(OWNER), token: egld(), nonce: 0, amount: 5, data: b"Emergency withdraw".to_vec() })
    );
    assert_eq!(
        a.withdraw_all(&addr(OWNER), &addr(OWNER), &Some(b"NFT-000001".to_vec()), Some(9), 1),
        Ok(Transfer { to: addr(OWNER), token: b"NFT-000001".to_vec(), nonce: 9, amount: 1, data: b"Emergency withdraw".to_vec() })
    );
    assert_eq!(a.withdraw_target(&Some(b"TOK-000001".to_vec()), None), (b"TOK-000001".to_vec(), 0));
}

#[test]
fn recorded_depositor_alone_removes() {
    let mut a = setup();
    deposit(&mut a, 1, 10, b"TOK-000001", 0, 100);
    // The depositor is the only one allowed while it is recorded.
    assert_eq!(
        a.remove_rewards_checkpoint(&addr(OWNER), &addr(OWNER), &hash(1), 10, true),
        Err(AirdropError::NotAllowedToRemove)
    );
}

#[test]
fn init_keeps_first_signer() {
    let mut a = Airdrop::new();
    a.init(&addr(1));
    a.init(&addr(2));
    assert_eq!(a.signer(), Some(&addr(1)));
    assert!(a.verify_signature(true).is_ok());
    assert_eq!(a.verify_signature(false), Err(AirdropError::InvalidSignature));
}

#[test]
fn claim_refused_after_pool_is_deposited_again() {
    let mut a = setup();
    deposit(&mut a, 1, 10, b"TOK-000001", 0, 100);
    a.claim_rewards(&addr(HOLDER), &vec![entry(1, 3)]).unwrap();
    a.remove_rewards_checkpoint(&addr(PROJECT), &addr(OWNER), &hash(1), 7, true).unwrap();
    deposit(&mut a, 1, 10, b"TOK-000002", 0, 500);
    deposit(&mut a, 2, 10, b"TOK-000002", 0, 500);
    a.claim_rewards(&addr(HOLDER), &vec![entry(2, 1)]).unwrap();
    assert_eq!(a.claim_rewards(&addr(HOLDER), &vec![entry(1, 3)]), Err(AirdropError::AlreadyClaimed));
    assert_eq!(a.claim_rewards(&addr(9), &vec![entry(1, 3)]).unwrap().esdt_payments, Some(vec![fungible(b"TOK-000002", 150)]));
}

#[test]
fn shares_of_a_pool_stay_within_it() {
    let a = Airdrop::new();
    let parts = [1u32, 1, 1];
    let mut paid: u128 = 0;
    for n in parts {
        paid += a.calculate_reward_amount(100, n, 3).unwrap();
    }
    assert_eq!(paid, 99);
    assert!(paid <= 100);
}

#[test]
fn emergency_withdraw_carries_its_note() {
    let a = setup();
    let t = a.withdraw_all(&addr(OWNER), &addr(OWNER), &Some(b"TOK-000001".to_vec()), None, 42).unwrap();
    assert_eq!(t.data, b"Emergency withdraw".to_vec());
    assert_eq!(t.nonce, 0);
    assert_eq!(t.amount, 42);
}

#[test]
fn airdrop_signature_check_names_signer_and_message() {
    let a = setup();
    let c = a.signature_check(&addr(HOLDER), &hash(1), 12).unwrap();
    assert_eq!(c.signer, addr(SIGNER));
    let mut expected = addr(HOLDER);
    expected.extend_from_slice(&hash(1));
    expected.extend_from_slice(b"_12");
    assert_eq!(c.message, expected);
    assert_eq!(Airdrop::new().signature_check(&addr(HOLDER), &hash(1), 12), Err(AirdropError::SignerNotSet));
}

#[test]
fn invalid_token_identifier_is_not_paid_out() {
    let mut a = setup();
    deposit(&mut a, 1, 10, b"TOK-1", 0, 100);
    let r = a.claim_rewards(&addr(HOLDER), &vec![entry(1, 3)]).unwrap();
    assert_eq!(r.egld_amount, None);
    assert_eq!(r.esdt_payments, None);
    let p = EsdtTokenPayment::new(&b"TOK-abc123".to_vec(), 0, 5);
    assert_eq!(p.token_type, EsdtTokenType::Fungible);
    let q = EsdtTokenPayment::new(&b"tok-abc123".to_vec(), 0, 5);
    assert_eq!(q.token_type, EsdtTokenType::Invalid);
    let n = EsdtTokenPayment::new(&b"NFT-ABC123".to_vec(), 2, 1);
    assert_eq!(n.token_type, EsdtTokenType::Invalid);
    let s = EsdtTokenPayment::new(&b"SFT-abc123".to_vec(), 2, 7);
    assert_eq!(s.token_type, EsdtTokenType::SemiFungible);
}

#[test]
fn largest_pool_is_withdrawn_whole() {
    let mut a = setup();
    deposit(&mut a, 1, 2, b"TOK-1", 0, u128::MAX);
    let t = a.remove_rewards_checkpoint(&addr(PROJECT), &addr(OWNER), &hash(1), 2, true).unwrap();
    assert_eq!(t.amount, u128::MAX);
    deposit(&mut a, 2, 3, b"TOK-1", 0, u128::MAX);
    let t2 = a.remove_rewards_checkpoint(&addr(PROJECT), &addr(OWNER), &hash(2), 2, true).unwrap();
    assert_eq!(t2.amount, u128::MAX / 3 * 2);
}
