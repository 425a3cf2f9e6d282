use poe::claim::{Claim, Error};
use poe::rules::{create, revoke, transfer};
use poe::store::ClaimStore;

fn record(owner: &[u8], recorded_at: u64) -> Claim {
    Claim { owner: owner.to_vec(), recorded_at }
}

#[test]
fn empty_store() {
    let store = ClaimStore::new();
    assert!(store.is_empty());
    assert_eq!(store.len(), 0);
    assert!(!store.contains(&vec![1]));
    assert_eq!(store.get(&vec![1]), None);
}

#[test]
fn insert_then_get() {
    let mut store = ClaimStore::new();
    store.insert(vec![1], record(b"a", 4));
    assert!(store.contains(&vec![1]));
    assert!(!store.contains(&vec![2]));
    assert_eq!(store.get(&vec![1]), Some(record(b"a", 4)));
    assert_eq!(store.get(&vec![2]), None);
    assert_eq!(store.len(), 1);
    assert!(!store.is_empty());
}

#[test]
fn insert_overwrites() {
    let mut store = ClaimStore::new();
    store.insert(vec![1], record(b"a", 4));
    store.insert(vec![2], record(b"b", 5));
    store.insert(vec![1], record(b"c", 6));
    assert_eq!(store.len(), 2);
    assert_eq!(store.get(&vec![1]), Some(record(b"c", 6)));
    assert_eq!(store.get(&vec![2]), Some(record(b"b", 5)));
}

#[test]
fn remove_deletes_only_its_fingerprint() {
    let mut store = ClaimStore::new();
    store.insert(vec![1], record(b"a", 1));
    store.insert(vec![2], record(b"b", 2));
    store.insert(vec![3], record(b"c", 3));
    store.remove(&vec![2]);
    assert_eq!(store.len(), 2);
    assert_eq!(store.get(&vec![1]), Some(record(b"a", 1)));
    assert_eq!(store.get(&vec![2]), None);
    assert_eq!(store.get(&vec![3]), Some(record(b"c", 3)));
    store.remove(&vec![1]);
    store.remove(&vec![3]);
    assert!(store.is_empty());
}

#[test]
fn remove_of_absent_changes_nothing() {
    let mut store = ClaimStore::new();
    store.insert(vec![1], record(b"a", 1));
    store.remove(&vec![7]);
    assert_eq!(store.len(), 1);
    assert_eq!(store.get(&vec![1]), Some(record(b"a", 1)));
}

#[test]
fn mutate_sees_the_slot_and_stores_the_answer() {
    let mut store = ClaimStore::new();
    store.insert(vec![1], record(b"a", 1));
    let mut seen = None;
    store.mutate(vec![1], |slot| {
        seen = slot.clone();
        Some(record(b"b", 2))
    });
    assert_eq!(seen, Some(record(b"a", 1)));
    assert_eq!(store.get(&vec![1]), Some(record(b"b", 2)));
    assert_eq!(store.len(), 1);
}

#[test]
fn mutate_can_fill_and_clear_a_slot() {
    let mut store = ClaimStore::new();
    store.mutate(vec![5], |slot| {
        assert_eq!(slot, None);
        Some(record(b"a", 9))
    });
    assert_eq!(store.get(&vec![5]), Some(record(b"a", 9)));
    store.mutate(vec![5], |_| None);
    assert_eq!(store.get(&vec![5]), None);
    assert!(store.is_empty());
    store.mutate(vec![5], |slot| slot);
    assert!(store.is_empty());
}

#[test]
fn clone_of_a_claim_is_equal() {
    let original = record(b"owner", 77);
    let copy = original.clone();
    assert_eq!(copy, original);
    assert_eq!(copy.owner, b"owner".to_vec());
    assert_eq!(copy.recorded_at, 77);
}

#[test]
fn create_rule_on_both_slots() {
    assert_eq!(create(&None, b"a".to_vec(), 3), Ok(record(b"a", 3)));
    assert_eq!(create(&Some(record(b"a", 3)), b"a".to_vec(), 4), Err(Error::ProofAlreadyExists));
    assert_eq!(create(&Some(record(b"b", 3)), b"a".to_vec(), 4), Err(Error::ProofAlreadyExists));
}

#[test]
fn revoke_rule_on_both_slots() {
    assert_eq!(revoke(&None, &b"a".to_vec()), Err(Error::ClaimNotExist));
    assert_eq!(revoke(&Some(record(b"a", 3)), &b"a".to_vec()), Ok(()));
    assert_eq!(revoke(&Some(record(b"b", 3)), &b"a".to_vec()), Err(Error::NotClaimOwner));
}

#[test]
fn transfer_rule_on_both_slots() {
    assert_eq!(transfer(&None, b"b".to_vec(), 5), Err(Error::ClaimNotExist));
    assert_eq!(transfer(&Some(record(b"a", 3)), b"b".to_vec(), 5), Ok(record(b"b", 5)));
    assert_eq!(transfer(&Some(record(b"b", 3)), b"b".to_vec(), 2), Ok(record(b"b", 2)));
}
