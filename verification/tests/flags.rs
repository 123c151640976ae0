use litemdb::environment;
use litemdb::transaction;

#[test]
fn environment_flag_bits() {
    assert_eq!(environment::Flags::empty().bits, 0);
    assert_eq!(environment::Flags::write_map().bits, environment::WRITE_MAP);
    assert_eq!(environment::Flags::no_meta_sync().bits, environment::NO_META_SYNC);
    assert_eq!(environment::WRITE_MAP, 0x80000);
    assert_eq!(environment::NO_META_SYNC, 0x40000);
}

#[test]
fn environment_flag_composition() {
    let both = environment::Flags::write_map().union(environment::Flags::no_meta_sync());
    assert_eq!(both.bits, 0xC0000);
    assert!(both.contains(environment::Flags::write_map()));
    assert!(both.contains(environment::Flags::no_meta_sync()));
    assert!(both.contains(environment::Flags::empty()));
    assert!(!environment::Flags::write_map().contains(both));
}

#[test]
fn transaction_flag_bits() {
    assert_eq!(transaction::Flags::empty().bits, 0);
    assert_eq!(transaction::Flags::read_only().bits, transaction::READ_ONLY);
    assert_eq!(transaction::READ_ONLY, 0x20000);
    assert!(transaction::Flags::read_only().has_read_only());
    assert!(!transaction::Flags::empty().has_read_only());
    let united = transaction::Flags::empty().union(transaction::Flags::read_only());
    assert!(united.has_read_only());
    assert!(united.contains(transaction::Flags::read_only()));
}
