use insurance_claims::address::{Address, AddressKind};
use insurance_claims::holder_index::HolderIndex;

fn account(n: u64) -> Address {
    Address { kind: AddressKind::Account, w0: n, w1: n, w2: n, w3: n }
}

#[test]
fn index_keeps_lists_apart_and_in_order() {
    let mut index = HolderIndex::new();
    assert!(index.get(&account(1)).is_empty());
    index.push(account(1), 10);
    index.push(account(2), 20);
    index.push(account(1), 11);
    index.push(account(1), 10);
    assert_eq!(index.get(&account(1)), vec![10, 11, 10]);
    assert_eq!(index.get(&account(2)), vec![20]);
    assert!(index.get(&account(3)).is_empty());
}

#[test]
fn index_tells_kinds_apart() {
    let mut index = HolderIndex::new();
    let account_key = account(5);
    let contract_key = Address { kind: AddressKind::Contract, ..account_key };
    index.push(account_key, 1);
    assert!(index.get(&contract_key).is_empty());
    assert_eq!(index.get(&account_key), vec![1]);
}
