use game_contracts::game_balancer::storage::{BalancerError, FactionCall, FactionEndpoint, StorageModule};
use game_contracts::game_balancer::validation::ValidationModule;
use game_contracts::game_balancer::{Balancer, BalancerContract};

fn addr(b: u8) -> Vec<u8> {
    vec![b; 32]
}

const OWNER: u8 = 0x0F;
const SIGNER: u8 = 0x51;
const SC: u8 = 0x5C;
const F1: u8 = 0xF1;
const F2: u8 = 0xF2;

fn setup() -> Balancer {
    let mut b = Balancer::new();
    let _ = b.init(&addr(SC), &vec![addr(F1), addr(F2)]);
    b.change_signer(&addr(OWNER), &addr(OWNER), &addr(SIGNER)).unwrap();
    b
}

fn join(faction: u8, player: u8) -> FactionCall {
    FactionCall { faction: addr(faction), endpoint: FactionEndpoint::RegisterUser { address: addr(player) } }
}

fn leave(faction: u8, player: u8) -> FactionCall {
    FactionCall { faction: addr(faction), endpoint: FactionEndpoint::RemoveUser { address: addr(player) } }
}

#[test]
fn init_registers_balancer_in_each_faction() {
    let mut b = Balancer::new();
    let calls = b.init(&addr(SC), &vec![addr(F1), addr(F2)]);
    assert_eq!(
        calls,
        vec![
            FactionCall { faction: addr(F1), endpoint: FactionEndpoint::RegisterBalancer { address: addr(SC) } },
            FactionCall { faction: addr(F2), endpoint: FactionEndpoint::RegisterBalancer { address: addr(SC) } },
        ]
    );
    let again = b.init(&addr(SC), &vec![addr(3)]);
    assert_eq!(again.len(), 1);
    assert_eq!(b.get_factions(), vec![addr(F1), addr(F2)]);
}

#[test]
fn register_proposal_type_in_all_factions() {
    let b = setup();
    assert_eq!(b.register_proposal_type(&addr(1), &addr(OWNER), &b"t".to_vec(), 5), Err(BalancerError::OnlyOwner));
    let calls = b.register_proposal_type(&addr(OWNER), &addr(OWNER), &b"t".to_vec(), 5).unwrap();
    assert_eq!(calls.len(), 2);
    assert_eq!(calls[1], FactionCall { faction: addr(F2), endpoint: FactionEndpoint::RegisterProposalType { proposal_type: b"t".to_vec(), cost: 5 } });
}

#[test]
fn register_user_moves_player() {
    let mut b = setup();
    assert_eq!(b.register_user(&addr(1), 5000, &addr(F1), 4000, true), Ok(vec![join(F1, 1)]));
    assert_eq!(b.get_user_faction(&addr(1)), Some(addr(F1)));
    assert_eq!(b.register_user(&addr(1), 5000, &addr(F2), 4001, true), Ok(vec![leave(F1, 1), join(F2, 1)]));
    assert_eq!(b.get_user_faction(&addr(1)), Some(addr(F2)));
}

#[test]
fn signature_used_once() {
    let mut b = setup();
    b.register_user(&addr(1), 5000, &addr(F1), 4000, true).unwrap();
    assert_eq!(b.register_user(&addr(1), 5000, &addr(F2), 4000, true), Err(BalancerError::SignatureUsed));
    assert_eq!(b.swap_user(&addr(1), 5000, &addr(2), 4000, true), Err(BalancerError::SignatureUsed));
    assert_eq!(b.get_user_faction(&addr(1)), Some(addr(F1)));
}

#[test]
fn request_freshness() {
    let mut b = setup();
    assert_eq!(b.register_user(&addr(1), 7600, &addr(F1), 4000, true), Err(BalancerError::InvalidRequest));
    assert!(b.register_user(&addr(1), 7599, &addr(F1), 4000, true).is_ok());
    assert_eq!(b.register_user(&addr(2), 100, &addr(F1), 101, true), Err(BalancerError::Overflow));
}

#[test]
fn register_user_refusals() {
    let mut b = setup();
    assert_eq!(b.register_user(&addr(1), 5000, &addr(F1), 4000, false), Err(BalancerError::InvalidSignature));
    assert_eq!(b.get_user_faction(&addr(1)), None);
    let mut unsigned = Balancer::new();
    assert_eq!(unsigned.register_user(&addr(1), 5000, &addr(F1), 4000, true), Err(BalancerError::SignerNotSet));
}

#[test]
fn swap_user_calls_both_factions() {
    let mut b = setup();
    b.register_user(&addr(1), 5000, &addr(F1), 4000, true).unwrap();
    b.register_user(&addr(2), 5000, &addr(F2), 4000, true).unwrap();
    let calls = b.swap_user(&addr(1), 5000, &addr(2), 4500, true).unwrap();
    assert_eq!(
        calls,
        vec![
            FactionCall { faction: addr(F1), endpoint: FactionEndpoint::SwapUser { address: addr(1), with_address: addr(2) } },
            FactionCall { faction: addr(F2), endpoint: FactionEndpoint::SwapUser { address: addr(2), with_address: addr(1) } },
        ]
    );
    assert_eq!(b.get_user_faction(&addr(1)), Some(addr(F1)));
}

#[test]
fn swap_user_refusals() {
    let mut b = setup();
    b.register_user(&addr(1), 5000, &addr(F1), 4000, true).unwrap();
    b.register_user(&addr(2), 5000, &addr(F1), 4000, true).unwrap();
    assert_eq!(b.swap_user(&addr(1), 5000, &addr(3), 4500, true), Err(BalancerError::FactionNotSet));
    assert_eq!(b.swap_user(&addr(1), 5000, &addr(2), 4500, true), Err(BalancerError::SameFaction));
    // The refused swaps did not use the signature.
    b.register_user(&addr(2), 5000, &addr(F2), 4001, true).unwrap();
    assert!(b.swap_user(&addr(1), 5000, &addr(2), 4500, true).is_ok());
}

#[test]
fn remove_user_by_owner() {
    let mut b = setup();
    b.register_user(&addr(1), 5000, &addr(F1), 4000, true).unwrap();
    assert_eq!(b.remove_user(&addr(1), &addr(OWNER), &addr(1)), Err(BalancerError::OnlyOwner));
    assert_eq!(b.remove_user(&addr(OWNER), &addr(OWNER), &addr(1)), Ok(leave(F1, 1)));
    assert_eq!(b.remove_user(&addr(OWNER), &addr(OWNER), &addr(2)), Err(BalancerError::FactionNotSet));
}

#[test]
fn signed_data_layout_balancer() {
    let b = Balancer::new();
    assert_eq!(b.signed_data(0x0102, &vec![7], &vec![8, 9]), vec![0, 0, 0, 0, 0, 0, 1, 2, 7, 8, 9]);
}

#[test]
fn change_signer_owner_only() {
    let mut b = Balancer::new();
    assert_eq!(b.change_signer(&addr(1), &addr(OWNER), &addr(2)), Err(BalancerError::OnlyOwner));
}

#[test]
fn signature_stays_used_after_other_calls() {
    let mut b = setup();
    b.register_user(&addr(1), 5000, &addr(F1), 4000, true).unwrap();
    b.register_user(&addr(2), 5000, &addr(F2), 4000, true).unwrap();
    b.change_signer(&addr(OWNER), &addr(OWNER), &addr(7)).unwrap();
    b.register_user(&addr(1), 5001, &addr(F2), 4001, true).unwrap();
    assert_eq!(b.register_user(&addr(1), 5002, &addr(F1), 4000, true), Err(BalancerError::SignatureUsed));
    assert_eq!(b.swap_user(&addr(1), 5002, &addr(2), 4000, true), Err(BalancerError::SignatureUsed));
    assert_eq!(b.verify_signature(4000, &addr(1), true), Err(BalancerError::SignatureUsed));
}

#[test]
fn balancer_signature_check_names_signer_and_message() {
    let b = setup();
    let c = b.signature_check(4000, &addr(1), &addr(F1)).unwrap();
    assert_eq!(c.signer, addr(SIGNER));
    assert_eq!(c.message, b.signed_data(4000, &addr(1), &addr(F1)));
    assert_eq!(Balancer::new().signature_check(4000, &addr(1), &addr(F1)), Err(BalancerError::SignerNotSet));
}
