use litemdb::environment;
use litemdb::transaction;
use litemdb::Environment;

const MIB: usize = 1024 * 1024;

fn open_env(dir: &tempfile::TempDir, map_size: usize) -> Environment {
    let path = dir.path().to_str().unwrap();
    Environment::open(path, environment::Flags::empty(), map_size, 0o666).unwrap()
}

#[test]
fn scenario_put_get_commit_reread() {
    let dir = tempfile::tempdir().unwrap();
    let path = dir.path().to_str().unwrap();
    let env = Environment::open(path, environment::Flags::empty(), 16 * MIB, 0o666).unwrap();

    let mut txn = env.begin_transaction(transaction::Flags::empty()).unwrap();
    txn.put(b"k", b"v").unwrap();
    {
        let view = txn.get(b"k").unwrap().unwrap();
        assert_eq!(view.as_bytes(), b"v");
    }
    txn.commit().unwrap();

    let txn = env.begin_transaction(transaction::Flags::read_only()).unwrap();
    let view = txn.get(b"k").unwrap().unwrap();
    assert_eq!(view.as_bytes(), b"v");
}

#[test]
fn round_trip_within_one_transaction() {
    let dir = tempfile::tempdir().unwrap();
    let env = open_env(&dir, MIB);
    let mut txn = env.begin_transaction(transaction::Flags::empty()).unwrap();
    txn.put(b"alpha", b"one").unwrap();
    txn.put(b"beta", &[0u8, 255, 7, 0]).unwrap();
    txn.put(b"gamma", b"").unwrap();
    assert_eq!(txn.get(b"alpha").unwrap().unwrap().as_bytes(), b"one");
    assert_eq!(txn.get(b"beta").unwrap().unwrap().as_bytes(), &[0u8, 255, 7, 0]);
    assert_eq!(txn.get(b"gamma").unwrap().unwrap().as_bytes(), b"");
}

#[test]
fn put_overwrites_by_default() {
    let dir = tempfile::tempdir().unwrap();
    let env = open_env(&dir, MIB);
    let mut txn = env.begin_transaction(transaction::Flags::empty()).unwrap();
    txn.put(b"k", b"first").unwrap();
    txn.put(b"k", b"second").unwrap();
    assert_eq!(txn.get(b"k").unwrap().unwrap().as_bytes(), b"second");
    txn.commit().unwrap();

    let mut txn = env.begin_transaction(transaction::Flags::empty()).unwrap();
    txn.put(b"k", b"third").unwrap();
    assert_eq!(txn.get(b"k").unwrap().unwrap().as_bytes(), b"third");
}

#[test]
fn absent_key_gets_none_and_del_false() {
    let dir = tempfile::tempdir().unwrap();
    let env = open_env(&dir, MIB);
    let mut txn = env.begin_transaction(transaction::Flags::empty()).unwrap();
    assert!(txn.get(b"never").unwrap().is_none());
    assert!(!txn.del(b"never").unwrap());
}

#[test]
fn delete_hits_exactly_once() {
    let dir = tempfile::tempdir().unwrap();
    let env = open_env(&dir, MIB);

    let mut txn = env.begin_transaction(transaction::Flags::empty()).unwrap();
    txn.put(b"k", b"v").unwrap();
    txn.commit().unwrap();

    let mut txn = env.begin_transaction(transaction::Flags::empty()).unwrap();
    assert!(txn.del(b"k").unwrap());
    assert!(!txn.del(b"k").unwrap());
    assert!(txn.get(b"k").unwrap().is_none());
    txn.commit().unwrap();

    let mut txn = env.begin_transaction(transaction::Flags::empty()).unwrap();
    assert!(!txn.del(b"k").unwrap());
}

#[test]
fn abort_leaves_key_absent() {
    let dir = tempfile::tempdir().unwrap();
    let env = open_env(&dir, MIB);

    let mut txn = env.begin_transaction(transaction::Flags::empty()).unwrap();
    txn.put(b"k", b"v").unwrap();
    txn.abort();

    let txn = env.begin_transaction(transaction::Flags::read_only()).unwrap();
    assert!(txn.get(b"k").unwrap().is_none());
}

#[test]
fn drop_without_finishing_aborts() {
    let dir = tempfile::tempdir().unwrap();
    let env = open_env(&dir, MIB);

    {
        let mut txn = env.begin_transaction(transaction::Flags::empty()).unwrap();
        txn.put(b"k", b"v").unwrap();
        // Dropped here without commit or abort: the destructor aborts it.
    }

    let txn = env.begin_transaction(transaction::Flags::read_only()).unwrap();
    assert!(txn.get(b"k").unwrap().is_none());
}

#[test]
fn commit_is_durable_across_reopen() {
    let dir = tempfile::tempdir().unwrap();
    let path_owned = dir.path().to_str().unwrap().to_string();

    {
        let env = Environment::open(&path_owned, environment::Flags::empty(), MIB, 0o666).unwrap();
        let mut txn = env.begin_transaction(transaction::Flags::empty()).unwrap();
        txn.put(b"k", b"v").unwrap();
        txn.commit().unwrap();
    }

    let env = Environment::open(&path_owned, environment::Flags::empty(), MIB, 0o666).unwrap();
    let txn = env.begin_transaction(transaction::Flags::read_only()).unwrap();
    assert_eq!(txn.get(b"k").unwrap().unwrap().as_bytes(), b"v");
}

#[test]
fn read_only_transaction_refuses_writes() {
    let dir = tempfile::tempdir().unwrap();
    let env = open_env(&dir, MIB);

    let mut txn = env.begin_transaction(transaction::Flags::read_only()).unwrap();
    let err = txn.put(b"k", b"v").unwrap_err();
    assert_eq!(err.code(), 13);
    assert!(!err.message().is_empty());
    let err = txn.del(b"k").unwrap_err();
    assert_eq!(err.code(), 13);
    // The refused writes changed nothing and the transaction still works.
    assert!(txn.get(b"k").unwrap().is_none());
    txn.commit().unwrap();
}

#[test]
fn ro_transaction_sees_snapshot_not_later_commits() {
    let dir = tempfile::tempdir().unwrap();
    let env = open_env(&dir, MIB);

    let mut txn = env.begin_transaction(transaction::Flags::empty()).unwrap();
    txn.put(b"k", b"v").unwrap();
    txn.commit().unwrap();

    let txn = env.begin_transaction(transaction::Flags::read_only()).unwrap();
    assert_eq!(txn.get(b"k").unwrap().unwrap().as_bytes(), b"v");
    txn.abort();
}

#[test]
fn put_reports_map_full() {
    let dir = tempfile::tempdir().unwrap();
    // A map too small for the value: the engine refuses the write.
    let env = open_env(&dir, 16 * 4096);
    let mut txn = env.begin_transaction(transaction::Flags::empty()).unwrap();
    let big = vec![0u8; MIB];
    let err = txn.put(b"k", &big).unwrap_err();
    assert_eq!(err.code(), -30792);
    assert!(err.message().contains("MDB_MAP_FULL"));
}

#[test]
fn open_rejects_missing_directory() {
    let dir = tempfile::tempdir().unwrap();
    let bad = format!("{}/no-such-subdir", dir.path().to_str().unwrap());
    let err = Environment::open(&bad, environment::Flags::empty(), MIB, 0o666).unwrap_err();
    assert!(err.code() != 0);
    assert!(!err.message().is_empty());
}

#[test]
fn open_with_flags_works() {
    let dir = tempfile::tempdir().unwrap();
    let path = dir.path().to_str().unwrap();
    let flags = environment::Flags::write_map().union(environment::Flags::no_meta_sync());
    let env = Environment::open(path, flags, MIB, 0o666).unwrap();
    let mut txn = env.begin_transaction(transaction::Flags::empty()).unwrap();
    txn.put(b"k", b"v").unwrap();
    txn.commit().unwrap();
    let txn = env.begin_transaction(transaction::Flags::read_only()).unwrap();
    assert_eq!(txn.get(b"k").unwrap().unwrap().as_bytes(), b"v");
}
