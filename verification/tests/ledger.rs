use omnipool_core::error::Error;
use omnipool_core::ledger::Ledger;
use omnipool_core::table::Table;
use omnipool_core::tradability::Tradability;

#[test]
fn a_new_ledger_holds_nothing() {
    let ledger = Ledger::new();
    assert_eq!(ledger.free_balance(0, 0), 0);
    assert_eq!(ledger.free_balance(u32::MAX, u64::MAX), 0);
}

#[test]
fn mint_and_burn() {
    let mut ledger = Ledger::new();
    assert_eq!(ledger.mint_into(1, 10, 100), Ok(()));
    assert_eq!(ledger.mint_into(1, 10, 50), Ok(()));
    assert_eq!(ledger.mint_into(2, 10, 7), Ok(()));
    assert_eq!(ledger.free_balance(1, 10), 150);
    assert_eq!(ledger.free_balance(2, 10), 7);
    assert_eq!(ledger.free_balance(1, 11), 0);
    assert_eq!(ledger.mint_into(1, 10, u128::MAX - 149), Err(Error::Overflow));
    assert_eq!(ledger.free_balance(1, 10), 150);
    assert_eq!(ledger.burn_from(1, 10, 151), Err(Error::InsufficientBalance));
    assert_eq!(ledger.burn_from(1, 10, 150), Ok(()));
    assert_eq!(ledger.free_balance(1, 10), 0);
    assert_eq!(ledger.burn_from(3, 10, 0), Ok(()));
}

#[test]
fn accounts_and_assets_do_not_collide() {
    let mut ledger = Ledger::new();
    assert_eq!(ledger.mint_into(0, 1, 5), Ok(()));
    assert_eq!(ledger.mint_into(u32::MAX, 0, 6), Ok(()));
    assert_eq!(ledger.mint_into(1, 0, 7), Ok(()));
    assert_eq!(ledger.mint_into(u32::MAX, u64::MAX, 8), Ok(()));
    assert_eq!(ledger.free_balance(0, 1), 5);
    assert_eq!(ledger.free_balance(u32::MAX, 0), 6);
    assert_eq!(ledger.free_balance(1, 0), 7);
    assert_eq!(ledger.free_balance(u32::MAX, u64::MAX), 8);
    assert_eq!(ledger.free_balance(0, 0), 0);
}

#[test]
fn transfer_moves_all_or_nothing() {
    let mut ledger = Ledger::new();
    assert_eq!(ledger.mint_into(1, 10, 100), Ok(()));
    assert_eq!(ledger.mint_into(1, 11, u128::MAX - 10), Ok(()));
    assert_eq!(ledger.transfer(1, 10, 12, 30), Ok(()));
    assert_eq!((ledger.free_balance(1, 10), ledger.free_balance(1, 12)), (70, 30));
    assert_eq!(ledger.transfer(1, 10, 12, 71), Err(Error::InsufficientBalance));
    assert_eq!(ledger.transfer(1, 10, 11, 11), Err(Error::Overflow));
    assert_eq!((ledger.free_balance(1, 10), ledger.free_balance(1, 11)), (70, u128::MAX - 10));
    assert_eq!(ledger.transfer(1, 10, 11, 10), Ok(()));
    assert_eq!((ledger.free_balance(1, 10), ledger.free_balance(1, 11)), (60, u128::MAX));
    // To oneself: the balance must suffice and stays.
    assert_eq!(ledger.transfer(1, 11, 11, u128::MAX), Ok(()));
    assert_eq!(ledger.free_balance(1, 11), u128::MAX);
    assert_eq!(ledger.transfer(1, 10, 10, 61), Err(Error::InsufficientBalance));
}

#[test]
fn a_duplicate_is_independent() {
    let mut ledger = Ledger::new();
    assert_eq!(ledger.mint_into(1, 10, 100), Ok(()));
    assert_eq!(ledger.mint_into(2, 11, 5), Ok(()));
    let mut copy = ledger.duplicate();
    assert_eq!(copy.free_balance(1, 10), 100);
    assert_eq!(copy.free_balance(2, 11), 5);
    assert_eq!(copy.burn_from(1, 10, 100), Ok(()));
    assert_eq!(ledger.free_balance(1, 10), 100);
    assert_eq!(copy.free_balance(1, 10), 0);
}

#[test]
fn table_keeps_one_value_per_key_in_order_of_arrival() {
    let mut table: Table<u8> = Table::new();
    assert_eq!(table.len(), 0);
    assert_eq!(table.get(3), None);
    assert_eq!(table.find(3), None);
    table.set(3, 30);
    table.set(1, 10);
    table.set(3, 31);
    assert_eq!(table.len(), 2);
    assert_eq!(table.get(3), Some(31));
    assert_eq!(table.get(1), Some(10));
    assert_eq!(table.get(2), None);
    assert_eq!(table.find(3), Some(0));
    assert_eq!(table.find(1), Some(1));
    assert_eq!(table.entry(0), (3, 31));
    assert_eq!(table.entry(1), (1, 10));
}

#[test]
fn tradability_flags_are_independent() {
    assert_eq!(Tradability::default(), Tradability::all());
    assert!(Tradability::frozen().is_frozen());
    assert!(!Tradability::sell().is_frozen());
    assert_eq!(Tradability::sell().bits(), 1);
    assert_eq!(Tradability::buy().bits(), 2);
    assert_eq!(Tradability::add_liquidity().bits(), 4);
    assert_eq!(Tradability::remove_liquidity().bits(), 8);
    assert_eq!(Tradability::all().bits(), 15);
    assert_eq!(Tradability::frozen().bits(), 0);
    let both = Tradability::sell().union(Tradability::add_liquidity());
    assert_eq!(both.bits(), 5);
    assert!(both.contains(Tradability::sell()));
    assert!(both.contains(Tradability::add_liquidity()));
    assert!(!both.contains(Tradability::buy()));
    assert!(both.contains(Tradability::frozen()));
    assert!(Tradability::all().contains(both));
    assert!(!both.contains(Tradability::all()));
    for bits in 0..16u8 {
        assert_eq!(Tradability::from_bits(bits).unwrap().bits(), bits);
    }
    assert_eq!(Tradability::from_bits(16), None);
    assert_eq!(Tradability::from_bits(255), None);
    assert_eq!(Tradability::from_bits(10), Some(Tradability::buy().union(Tradability::remove_liquidity())));
}
