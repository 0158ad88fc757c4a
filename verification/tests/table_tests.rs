use anchorkit::data::{holds, text, Address, Comparable, Duplicate};
use anchorkit::table::Table;

#[test]
fn table_keeps_the_last_value_and_the_longest_lifetime() {
    let mut table: Table<u64, u32> = Table::new();
    assert_eq!(table.get(&1), None);
    assert_eq!(table.ttl(&1), 0);
    table.set(1, 10, 100);
    table.set(2, 20, 5);
    table.set(1, 11, 50);
    assert_eq!(table.get(&1), Some(11));
    assert_eq!(table.ttl(&1), 100);
    table.set(2, 21, 6);
    assert_eq!((table.get(&2), table.ttl(&2)), (Some(21), 6));
    table.remove(&1);
    assert!(!table.has(&1));
    assert!(table.has(&2));
    table.set(1, 12, 3);
    assert_eq!(table.ttl(&1), 3);
}

#[test]
fn pairs_are_compared_in_both_parts() {
    let mut table: Table<(Address, u64), bool> = Table::new();
    let a = Address { strkey: vec![1] };
    let b = Address { strkey: vec![1, 2] };
    table.set((a.dup(), 1), true, 0);
    assert!(table.has(&(a.dup(), 1)));
    assert!(!table.has(&(a.dup(), 2)));
    assert!(!table.has(&(b.dup(), 1)));
    assert!(!a.same(&b));
}

#[test]
fn text_is_utf8() {
    assert_eq!(text("kyc"), vec![107, 121, 99]);
    assert_eq!(text("\u{e9}"), vec![0xc3, 0xa9]);
    assert!(holds(&vec![3u32, 4], &4));
    assert!(!holds(&vec![3u32, 4], &5));
}
