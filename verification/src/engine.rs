//! The trusted boundary with the storage engine.
//!
//! Every call into the engine crate goes through one of the wrappers below.
//! Each wrapper's contract states what the engine's documentation and source
//! promise of that call, over the uninterpreted contents functions; nothing
//! in this module is verified, everything outside it is.

use lmdb::Environment as LmdbEnvironment;
use vstd::prelude::*;

verus! {

/// The engine's status code for success.
pub const SUCCESS: i32 = 0;

/// The engine's sentinel status for a key that is not in the table. In
/// `get` and `del` it is a valid outcome, not an error.
pub const NOT_FOUND: i32 = -30798;

/// The operating system's status for a write attempted through a read-only
/// transaction.
pub const ACCESS_DENIED: i32 = 13;

/// The key-value pairs a read-only transaction's snapshot holds.
pub uninterp spec fn ro_contents(txn: lmdb::RoTransaction) -> Map<Seq<u8>, Seq<u8>>;

/// The key-value pairs a read-write transaction observes: its snapshot plus
/// its own uncommitted writes.
pub uninterp spec fn rw_contents(txn: lmdb::RwTransaction) -> Map<Seq<u8>, Seq<u8>>;

/// The flag bits an environment builder has recorded for the later open
/// call.
pub uninterp spec fn builder_flag_bits(b: lmdb::EnvironmentBuilder) -> u32;

/// The map-size bound an environment builder has recorded for the later
/// open call, if one was set.
pub uninterp spec fn builder_map_size_bound(b: lmdb::EnvironmentBuilder) -> Option<usize>;

#[verifier::external_type_specification]
#[verifier::external_body]
pub struct ExEnvironment(LmdbEnvironment);

#[verifier::external_type_specification]
#[verifier::external_body]
pub struct ExEnvironmentBuilder(lmdb::EnvironmentBuilder);

#[verifier::external_type_specification]
#[verifier::external_body]
pub struct ExDatabase(lmdb::Database);

#[verifier::external_type_specification]
#[verifier::external_body]
pub struct ExRoTransaction<'env>(lmdb::RoTransaction<'env>);

#[verifier::external_type_specification]
#[verifier::external_body]
pub struct ExRwTransaction<'env>(lmdb::RwTransaction<'env>);

/// Relies on `lmdb::Error::from_err_code` and the `Display` impl of
/// `lmdb::Error`: the engine keeps static message strings for its own
/// status codes but falls back to the system's message for system codes,
/// whose text can depend on the process locale — so nothing is promised of
/// the text; it is informational only.
#[verifier::external_body]
pub(crate) fn strerror(code: i32) -> String {
    let e = lmdb::Error::from_err_code(code);
    format!("{}", e)
}

/// Relies on `lmdb::Environment::new`: a fresh builder with default
/// options — no flag bits set, no map-size bound recorded.
#[verifier::external_body]
pub(crate) fn builder_new() -> (r: lmdb::EnvironmentBuilder)
    ensures
        builder_flag_bits(r) == 0,
        builder_map_size_bound(r) is None,
{
    lmdb::Environment::new()
}

/// Relies on `lmdb::EnvironmentBuilder::set_flags`: records the flag bits
/// that the later open call hands to the engine. The binding keeps only
/// the bits of the flags it defines — the mask below is the union of its
/// environment flag constants — and silently drops the rest, so unknown
/// bits do not reach the engine.
#[verifier::external_body]
pub(crate) fn builder_set_flags(b: &mut lmdb::EnvironmentBuilder, bits: u32)
    ensures
        builder_flag_bits(*final(b)) == bits & 0x1ff4001u32,
        builder_map_size_bound(*final(b)) == builder_map_size_bound(*old(b)),
{
    b.set_flags(lmdb::EnvironmentFlags::from_bits_truncate(bits));
}

/// Relies on `lmdb::EnvironmentBuilder::set_map_size`: records the maximum
/// total size, in bytes, the engine may memory-map for this environment.
#[verifier::external_body]
pub(crate) fn builder_set_map_size(b: &mut lmdb::EnvironmentBuilder, map_size: usize)
    ensures
        builder_map_size_bound(*final(b)) == Some(map_size),
        builder_flag_bits(*final(b)) == builder_flag_bits(*old(b)),
{
    b.set_map_size(map_size);
}

/// Relies on `lmdb::EnvironmentBuilder::open_with_permissions`: creates an
/// engine instance, applies the recorded map-size bound, and opens it
/// against the directory with the recorded flag bits and the given mode;
/// on every failing engine step after creation it closes the instance
/// handle before returning. (Its one non-engine failure, a path with an
/// embedded null byte, would return the engine's invalid status with the
/// handle left open; this library rules such paths out by contract, so
/// that path is unreachable.) Every failure carries a nonzero status code.
#[verifier::external_body]
pub(crate) fn builder_open(
    b: &lmdb::EnvironmentBuilder,
    path: &str,
    mode: u32,
) -> (r: Result<lmdb::Environment, i32>)
    ensures
        r matches Err(c) ==> c != 0,
{
    match b.open_with_permissions(std::path::Path::new(path), mode) {
        Ok(env) => Ok(env),
        Err(e) => Err(lmdb::Error::to_err_code(&e)),
    }
}

/// Relies on `lmdb::Environment::open_db` with no name: opens the single
/// default table inside a short-lived read-only bootstrap transaction and
/// commits that transaction before returning.
#[verifier::external_body]
pub(crate) fn open_default_db(env: &lmdb::Environment) -> (r: Result<lmdb::Database, i32>)
    ensures
        r matches Err(c) ==> c != 0,
{
    match env.open_db(None) {
        Ok(db) => Ok(db),
        Err(e) => Err(lmdb::Error::to_err_code(&e)),
    }
}

/// Relies on `lmdb::Environment::begin_ro_txn`: begins a read-only
/// transaction whose snapshot is consistent for its whole lifetime.
#[verifier::external_body]
pub(crate) fn begin_ro<'env>(
    env: &'env lmdb::Environment,
) -> (r: Result<lmdb::RoTransaction<'env>, i32>)
    ensures
        r matches Err(c) ==> c != 0,
{
    match env.begin_ro_txn() {
        Ok(txn) => Ok(txn),
        Err(e) => Err(lmdb::Error::to_err_code(&e)),
    }
}

/// Relies on `lmdb::Environment::begin_rw_txn`: begins a read-write
/// transaction; it observes a consistent snapshot plus its own writes.
#[verifier::external_body]
pub(crate) fn begin_rw<'env>(
    env: &'env lmdb::Environment,
) -> (r: Result<lmdb::RwTransaction<'env>, i32>)
    ensures
        r matches Err(c) ==> c != 0,
{
    match env.begin_rw_txn() {
        Ok(txn) => Ok(txn),
        Err(e) => Err(lmdb::Error::to_err_code(&e)),
    }
}

/// Relies on `lmdb::Transaction::get`: returns the data stored under `key`,
/// borrowed from the engine's memory map, and reports the not-found status
/// only for a key absent from the transaction's view. An absent key is not
/// always reported as not-found: the engine answers differently for, say,
/// an empty key or a transaction already in its error state, so no status
/// is promised for absence.
#[verifier::external_body]
pub(crate) fn ro_get<'a>(
    txn: &'a lmdb::RoTransaction,
    db: &lmdb::Database,
    key: &[u8],
) -> (r: Result<&'a [u8], i32>)
    ensures
        r matches Ok(data) ==> ro_contents(*txn).contains_key(key@) && data@ == ro_contents(
            *txn,
        )[key@],
        r matches Err(c) ==> c != 0 && (c == NOT_FOUND ==> !ro_contents(*txn).contains_key(key@)),
        !ro_contents(*txn).contains_key(key@) ==> r matches Err(_),
{
    match lmdb::Transaction::get(txn, *db, &key) {
        Ok(data) => Ok(data),
        Err(e) => Err(lmdb::Error::to_err_code(&e)),
    }
}

/// Relies on `lmdb::Transaction::get`, as [`ro_get`] does, for a read-write
/// transaction: the view read is the snapshot plus this transaction's own
/// uncommitted writes.
#[verifier::external_body]
pub(crate) fn rw_get<'a>(
    txn: &'a lmdb::RwTransaction,
    db: &lmdb::Database,
    key: &[u8],
) -> (r: Result<&'a [u8], i32>)
    ensures
        r matches Ok(data) ==> rw_contents(*txn).contains_key(key@) && data@ == rw_contents(
            *txn,
        )[key@],
        r matches Err(c) ==> c != 0 && (c == NOT_FOUND ==> !rw_contents(*txn).contains_key(key@)),
        !rw_contents(*txn).contains_key(key@) ==> r matches Err(_),
{
    match lmdb::Transaction::get(txn, *db, &key) {
        Ok(data) => Ok(data),
        Err(e) => Err(lmdb::Error::to_err_code(&e)),
    }
}

/// Relies on `lmdb::RwTransaction::put` with default write flags: on success
/// the pair is stored, replacing any previous value for the key; on failure
/// the transaction's view is unchanged. A put has no not-found outcome, so
/// its failure never carries that sentinel.
#[verifier::external_body]
pub(crate) fn rw_put(
    txn: &mut lmdb::RwTransaction,
    db: &lmdb::Database,
    key: &[u8],
    data: &[u8],
) -> (r: i32)
    ensures
        r == 0 ==> rw_contents(*final(txn)) == rw_contents(*old(txn)).insert(key@, data@),
        r != 0 ==> rw_contents(*final(txn)) == rw_contents(*old(txn)),
        r != NOT_FOUND,
{
    match txn.put(*db, &key, &data, lmdb::WriteFlags::empty()) {
        Ok(()) => 0,
        Err(e) => lmdb::Error::to_err_code(&e),
    }
}

/// Relies on `lmdb::RwTransaction::del` with no data argument: removes the
/// key on success, reports the not-found status only for an absent key,
/// and changes nothing on failure. As with [`ro_get`], an absent key is
/// not always reported as not-found, so no status is promised for absence.
#[verifier::external_body]
pub(crate) fn rw_del(txn: &mut lmdb::RwTransaction, db: &lmdb::Database, key: &[u8]) -> (r: i32)
    ensures
        r == 0 ==> rw_contents(*old(txn)).contains_key(key@) && rw_contents(*final(txn))
            == rw_contents(*old(txn)).remove(key@),
        r != 0 ==> rw_contents(*final(txn)) == rw_contents(*old(txn)),
        r == NOT_FOUND ==> !rw_contents(*old(txn)).contains_key(key@),
{
    match txn.del(*db, &key, None) {
        Ok(()) => 0,
        Err(e) => lmdb::Error::to_err_code(&e),
    }
}

/// Relies on `lmdb::Transaction::commit`: attempts to persist the
/// transaction's operations; the transaction is finished either way.
#[verifier::external_body]
pub(crate) fn ro_commit(txn: lmdb::RoTransaction) -> (r: i32) {
    match lmdb::Transaction::commit(txn) {
        Ok(()) => 0,
        Err(e) => lmdb::Error::to_err_code(&e),
    }
}

/// Relies on `lmdb::Transaction::commit`, as [`ro_commit`] does, for a
/// read-write transaction.
#[verifier::external_body]
pub(crate) fn rw_commit(txn: lmdb::RwTransaction) -> (r: i32) {
    match lmdb::Transaction::commit(txn) {
        Ok(()) => 0,
        Err(e) => lmdb::Error::to_err_code(&e),
    }
}

/// Relies on `lmdb::Transaction::abort` and the transaction's destructor:
/// discards every operation of the transaction. Cannot fail.
#[verifier::external_body]
pub(crate) fn ro_abort(txn: lmdb::RoTransaction) {
    lmdb::Transaction::abort(txn)
}

/// Relies on `lmdb::Transaction::abort`, as [`ro_abort`] does, for a
/// read-write transaction.
#[verifier::external_body]
pub(crate) fn rw_abort(txn: lmdb::RwTransaction) {
    lmdb::Transaction::abort(txn)
}

} // verus!
