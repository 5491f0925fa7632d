use game_contracts::game_balancer::storage::{FactionCall, FactionEndpoint, StorageModule as BalancerStorage};
use game_contracts::game_balancer::{Balancer, BalancerContract};
use game_contracts::game_faction::storage::StorageModule as FactionStorage;
use game_contracts::game_faction::{Faction, FactionContract};

fn addr(b: u8) -> Vec<u8> {
    vec![b; 32]
}

const OWNER: u8 = 0x0F;
const SIGNER: u8 = 0x51;
const SC: u8 = 0x5C;
const F1: u8 = 0xF1;
const F2: u8 = 0xF2;

fn deliver(factions: &mut [(u8, Faction)], calls: Vec<FactionCall>) {
    for c in calls {
        let target = factions.iter_mut().find(|(a, _)| addr(*a) == c.faction).map(|(_, f)| f).unwrap();
        match c.endpoint {
            FactionEndpoint::RegisterBalancer { address } => target.register_balancer(&address),
            FactionEndpoint::RegisterProposalType { proposal_type, cost } => {
                target.register_proposal_type(&addr(SC), &proposal_type, cost).unwrap()
            },
            FactionEndpoint::RegisterUser { address } => target.register_user(&addr(SC), &address).unwrap(),
            FactionEndpoint::SwapUser { address, with_address } => {
                target.swap_user(&addr(SC), &address, &with_address).unwrap()
            },
            FactionEndpoint::RemoveUser { address } => target.remove_user(&addr(SC), &address).unwrap(),
        }
    }
}

#[test]
fn balancer_calls_move_players_between_factions() {
    let mut factions = vec![(F1, Faction::new()), (F2, Faction::new())];
    let mut b = Balancer::new();
    let calls = b.init(&addr(SC), &vec![addr(F1), addr(F2)]);
    deliver(&mut factions, calls);
    b.change_signer(&addr(OWNER), &addr(OWNER), &addr(SIGNER)).unwrap();
    assert_eq!(factions[0].1.get_balancer(), Some(addr(SC)));

    let calls = b.register_user(&addr(1), 5000, &addr(F1), 4000, true).unwrap();
    deliver(&mut factions, calls);
    let calls = b.register_user(&addr(2), 5000, &addr(F2), 4000, true).unwrap();
    deliver(&mut factions, calls);
    assert!(factions[0].1.is_registered(&addr(1)));
    assert!(factions[1].1.is_registered(&addr(2)));

    let calls = b.swap_user(&addr(1), 5000, &addr(2), 4100, true).unwrap();
    deliver(&mut factions, calls);
    assert!(factions[0].1.is_registered(&addr(2)));
    assert!(!factions[0].1.is_registered(&addr(1)));
    assert!(factions[1].1.is_registered(&addr(1)));
    assert!(!factions[1].1.is_registered(&addr(2)));

    let calls = b.register_user(&addr(1), 5000, &addr(F1), 4200, true).unwrap();
    deliver(&mut factions, calls);
    assert!(factions[0].1.is_registered(&addr(1)));
    assert_eq!(b.get_user_faction(&addr(1)), Some(addr(F1)));

    let calls = b.register_proposal_type(&addr(OWNER), &addr(OWNER), &b"starbase".to_vec(), 42).unwrap();
    deliver(&mut factions, calls);
    assert_eq!(factions[1].1.get_proposal_type_cost(&b"starbase".to_vec()), 42);
}
