use mintable::{AccountId, Balance, LedgerError, Mintable};

fn holder(byte: u8) -> AccountId {
    AccountId::from([byte; 32])
}

fn held_by_all(ledger: &Mintable, accounts: &[AccountId]) -> Balance {
    let mut sum: Balance = 0;
    for a in accounts {
        sum += ledger.balance_of(*a);
    }
    sum
}

#[test]
fn supply_is_the_sum_of_balances_after_every_call() {
    let m = holder(1);
    let a = holder(2);
    let b = holder(3);
    let c = holder(4);
    let all = [m, a, b, c];
    let (mut ledger, _) = Mintable::new(m, String::from("BTC"));
    assert_eq!(ledger.total_supply(), held_by_all(&ledger, &all));

    assert!(ledger.mint(m, a, 300).is_ok());
    assert_eq!(ledger.total_supply(), 300);
    assert_eq!(ledger.total_supply(), held_by_all(&ledger, &all));

    assert!(ledger.mint(m, b, 50).is_ok());
    assert_eq!(ledger.total_supply(), 350);
    assert_eq!(ledger.total_supply(), held_by_all(&ledger, &all));

    assert!(ledger.transfer(a, c, 120).is_ok());
    assert_eq!(ledger.total_supply(), 350);
    assert_eq!(ledger.total_supply(), held_by_all(&ledger, &all));

    assert!(ledger.approve(c, b, 100).is_ok());
    assert!(ledger.transfer_from(b, c, m, 100).is_ok());
    assert_eq!(ledger.total_supply(), 350);
    assert_eq!(ledger.total_supply(), held_by_all(&ledger, &all));

    assert!(ledger.burn(m, 60).is_ok());
    assert_eq!(ledger.total_supply(), 290);
    assert_eq!(ledger.total_supply(), held_by_all(&ledger, &all));

    assert!(ledger.transfer(b, b, 50).is_ok());
    assert_eq!(ledger.total_supply(), held_by_all(&ledger, &all));

    assert_eq!(ledger.balance_of(m), 40);
    assert_eq!(ledger.balance_of(a), 180);
    assert_eq!(ledger.balance_of(b), 50);
    assert_eq!(ledger.balance_of(c), 20);
}

#[test]
fn refused_calls_keep_supply_and_balances() {
    let m = holder(1);
    let a = holder(2);
    let b = holder(3);
    let all = [m, a, b];
    let (mut ledger, _) = Mintable::new(m, String::from("BTC"));
    assert!(ledger.mint(m, a, 300).is_ok());
    assert!(ledger.approve(a, b, 10).is_ok());

    assert_eq!(ledger.mint(a, a, 1), Err(LedgerError::Unauthorized));
    assert_eq!(ledger.burn(b, 1), Err(LedgerError::InsufficientBalance));
    assert_eq!(ledger.transfer(a, b, 301), Err(LedgerError::InsufficientBalance));
    assert_eq!(ledger.transfer_from(b, a, m, 11), Err(LedgerError::InsufficientAllowance));
    assert_eq!(ledger.mint(m, b, Balance::MAX), Err(LedgerError::ArithmeticOverflow));

    assert_eq!(ledger.total_supply(), 300);
    assert_eq!(ledger.balance_of(m), 0);
    assert_eq!(ledger.balance_of(a), 300);
    assert_eq!(ledger.balance_of(b), 0);
    assert_eq!(ledger.allowance(a, b), 10);
    assert_eq!(ledger.total_supply(), held_by_all(&ledger, &all));
}

#[test]
fn many_accounts_are_kept_apart() {
    let m = holder(0);
    let (mut ledger, _) = Mintable::new(m, String::from("BTC"));
    let mut all = vec![m];
    let mut expected: Balance = 0;
    for i in 1..=40u8 {
        let a = holder(i);
        all.push(a);
        assert!(ledger.mint(m, a, Balance::from(i) * 10).is_ok());
        expected += Balance::from(i) * 10;
    }
    for i in 1..=40u8 {
        assert_eq!(ledger.balance_of(holder(i)), Balance::from(i) * 10);
    }
    assert_eq!(ledger.total_supply(), expected);
    assert_eq!(ledger.total_supply(), 8200);
    assert_eq!(ledger.total_supply(), held_by_all(&ledger, &all));
    for i in 1..=40u8 {
        assert!(ledger.transfer(holder(i), m, Balance::from(i)).is_ok());
    }
    assert_eq!(ledger.balance_of(m), 820);
    assert_eq!(ledger.balance_of(holder(40)), 360);
    assert_eq!(ledger.total_supply(), 8200);
    assert_eq!(ledger.total_supply(), held_by_all(&ledger, &all));
}
