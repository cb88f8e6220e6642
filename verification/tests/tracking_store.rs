use vista::models::{AccountInfo, Address};
use vista::tracking::{AddressSet, TrackOp, TrackingSet};

fn address(n: u8) -> Address {
    Address::new_from_array([n; 32])
}

fn account(pubkey: Address, owner: Address) -> AccountInfo {
    AccountInfo { pubkey, lamports: 1, owner, executable: false, rent_epoch: 0, data: Vec::new() }
}

#[test]
fn a_new_store_tracks_nothing() {
    let store = TrackingSet::new();
    assert!(!store.is_account_tracked(&address(1)));
    assert!(!store.is_program_tracked(&address(1)));
    assert!(store.tracked_accounts().is_empty());
    assert!(store.tracked_programs().is_empty());
}

#[test]
fn tracking_twice_is_tracking_once() {
    let mut store = TrackingSet::new();
    assert!(store.track_account(address(1)));
    assert!(!store.track_account(address(1)));
    assert_eq!(store.tracked_accounts(), vec![address(1)]);
    assert!(store.track_program(address(2)));
    assert!(!store.track_program(address(2)));
    assert_eq!(store.tracked_programs(), vec![address(2)]);
}

#[test]
fn untracking_removes_and_untracking_again_changes_nothing() {
    let mut store = TrackingSet::new();
    store.track_account(address(1));
    store.track_account(address(2));
    assert!(store.untrack_account(&address(1)));
    assert!(!store.untrack_account(&address(1)));
    assert!(!store.is_account_tracked(&address(1)));
    assert!(store.is_account_tracked(&address(2)));
    assert!(!store.untrack_program(&address(2)));
}

#[test]
fn accounts_and_programs_are_tracked_apart() {
    let mut store = TrackingSet::new();
    store.track_account(address(1));
    assert!(!store.is_program_tracked(&address(1)));
    store.track_program(address(1));
    store.untrack_account(&address(1));
    assert!(store.is_program_tracked(&address(1)));
    assert!(!store.is_account_tracked(&address(1)));
}

#[test]
fn the_last_change_to_an_address_decides() {
    let mut store = TrackingSet::new();
    store.apply_all(&vec![
        TrackOp::TrackAccount(address(1)),
        TrackOp::TrackAccount(address(2)),
        TrackOp::UntrackAccount(address(1)),
        TrackOp::TrackProgram(address(3)),
        TrackOp::TrackAccount(address(1)),
        TrackOp::UntrackAccount(address(2)),
        TrackOp::UntrackProgram(address(4)),
        TrackOp::TrackAccount(address(1)),
    ]);
    assert!(store.is_account_tracked(&address(1)));
    assert!(!store.is_account_tracked(&address(2)));
    assert!(store.is_program_tracked(&address(3)));
    assert!(!store.is_program_tracked(&address(4)));
    assert_eq!(store.tracked_accounts(), vec![address(1)]);
}

#[test]
fn changes_one_by_one_and_all_at_once_agree() {
    let ops = vec![
        TrackOp::TrackProgram(address(9)),
        TrackOp::TrackAccount(address(5)),
        TrackOp::UntrackProgram(address(9)),
        TrackOp::TrackProgram(address(8)),
    ];
    let mut at_once = TrackingSet::new();
    at_once.apply_all(&ops);
    let mut stepwise = TrackingSet::new();
    for op in &ops {
        stepwise.apply(*op);
    }
    for n in 0..12u8 {
        assert_eq!(at_once.is_account_tracked(&address(n)), stepwise.is_account_tracked(&address(n)));
        assert_eq!(at_once.is_program_tracked(&address(n)), stepwise.is_program_tracked(&address(n)));
    }
    assert!(at_once.is_program_tracked(&address(8)));
    assert!(!at_once.is_program_tracked(&address(9)));
}

#[test]
fn an_update_matters_by_address_or_by_owner() {
    let mut store = TrackingSet::new();
    store.track_account(address(1));
    store.track_program(address(2));
    assert!(store.matters(&account(address(1), address(7))));
    assert!(store.matters(&account(address(6), address(2))));
    assert!(!store.matters(&account(address(6), address(7))));
    assert!(!store.matters(&account(address(2), address(1))));
}

#[test]
fn addresses_differ_in_any_byte() {
    let mut bytes = [0u8; 32];
    let zero = Address::new_from_array(bytes);
    bytes[31] = 1;
    let last = Address::new_from_array(bytes);
    assert!(zero != last);
    assert!(zero == Address::new_from_array([0u8; 32]));
    let mut set = AddressSet::new();
    assert!(set.insert(zero));
    assert!(set.insert(last));
    assert!(!set.insert(zero));
    assert_eq!(set.len(), 2);
    assert!(set.remove(&zero));
    assert!(!set.contains(&zero));
    assert!(set.contains(&last));
    assert_eq!(set.to_vec(), vec![last]);
}
