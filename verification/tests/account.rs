use mintable::{AccountId, Mintable};

#[test]
fn default_account_is_all_zero() {
    assert_eq!(AccountId::default().to_bytes(), [0u8; 32]);
    assert_eq!(AccountId::default(), AccountId::from([0u8; 32]));
}

#[test]
fn account_keeps_its_bytes() {
    let mut bytes = [0u8; 32];
    for (i, b) in bytes.iter_mut().enumerate() {
        *b = i as u8;
    }
    assert_eq!(AccountId::from(bytes).to_bytes(), bytes);
}

#[test]
fn accounts_are_equal_when_all_bytes_are() {
    let a = AccountId::from([1u8; 32]);
    let mut bytes = [1u8; 32];
    assert_eq!(a, AccountId::from(bytes));
    bytes[31] = 2;
    assert_ne!(a, AccountId::from(bytes));
    bytes[31] = 1;
    bytes[0] = 0;
    assert_ne!(a, AccountId::from(bytes));
    bytes[0] = 1;
    bytes[17] = 255;
    assert_ne!(a, AccountId::from(bytes));
}

#[test]
fn accounts_that_differ_in_one_byte_hold_apart() {
    let mut bytes = [9u8; 32];
    let m = AccountId::from(bytes);
    bytes[31] = 8;
    let a = AccountId::from(bytes);
    let (mut ledger, _) = Mintable::new(m, String::from("BTC"));
    assert!(ledger.mint(m, a, 5).is_ok());
    assert!(ledger.mint(m, m, 7).is_ok());
    assert_eq!(ledger.balance_of(a), 5);
    assert_eq!(ledger.balance_of(m), 7);
    assert!(ledger.approve(m, a, 1).is_ok());
    assert_eq!(ledger.allowance(m, a), 1);
    assert_eq!(ledger.allowance(a, m), 0);
}
