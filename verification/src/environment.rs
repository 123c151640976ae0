//! Environment lifecycle: one open engine instance and the single implicit
//! table created when the environment is opened.

use vstd::prelude::*;

use crate::engine;
use crate::transaction;
use crate::transaction::Transaction;
use crate::Error;

verus! {

/// Flag bit: use a writable memory map instead of a private copy-on-write
/// map. Faster and fewer allocations, but loses the protection against wild
/// writes corrupting the map.
pub const WRITE_MAP: u32 = 0x80000;

/// Flag bit: flush data pages on commit but defer the metadata flush until
/// the system flushes files to disk. Keeps atomicity, consistency and
/// isolation, but a crash may undo the most recent committed transaction.
pub const NO_META_SYNC: u32 = 0x40000;

/// A bit-composable set of environment open options.
#[derive(Copy, Clone, Debug, PartialEq, Eq)]
pub struct Flags {
    pub bits: u32,
}

impl Flags {
    /// No options set.
    pub fn empty() -> (r: Flags)
        ensures
            r.bits == 0,
    {
        Flags { bits: 0 }
    }

    /// The [`WRITE_MAP`] option alone.
    pub fn write_map() -> (r: Flags)
        ensures
            r.bits == WRITE_MAP,
    {
        Flags { bits: WRITE_MAP }
    }

    /// The [`NO_META_SYNC`] option alone.
    pub fn no_meta_sync() -> (r: Flags)
        ensures
            r.bits == NO_META_SYNC,
    {
        Flags { bits: NO_META_SYNC }
    }

    /// The bitwise composition of two option sets.
    pub fn union(self, other: Flags) -> (r: Flags)
        ensures
            r.bits == (self.bits | other.bits),
    {
        Flags { bits: self.bits | other.bits }
    }

    /// Whether every option of `other` is set in `self`.
    pub fn contains(self, other: Flags) -> (r: bool)
        ensures
            r == ((self.bits & other.bits) == other.bits),
    {
        (self.bits & other.bits) == other.bits
    }
}

/// An open engine instance together with the handle of its single implicit
/// table. The table is created atomically with the environment open, by a
/// bootstrap transaction that is immediately committed, so callers never
/// deal with table-handle lifecycle. Closing the instance is the drop of
/// this value; the borrow a [`Transaction`] holds keeps it alive until no
/// transaction or view references it.
#[derive(Debug)]
pub struct Environment {
    pub(crate) inner: lmdb::Environment,
    pub(crate) db: lmdb::Database,
}

impl Environment {
    /// Opens an engine instance against `path`, an existing writable
    /// directory, and eagerly opens the implicit table. The sequence of
    /// effects is: create the instance, record `flags` and the `map_size`
    /// bound, open it against the directory with file permissions `mode`,
    /// then create the implicit table through a bootstrap transaction that
    /// is committed at once. A failure at any step closes the instance
    /// handle before the error is returned, so no resource leaks.
    ///
    /// `map_size` is the maximum total size, in bytes, the engine may
    /// memory-map: over-provision, since growing it later requires
    /// reopening. `mode` is ignored on platforms without a POSIX permission
    /// model. A `path` holding an embedded null byte is a caller bug, ruled
    /// out by contract rather than reported as an [`Error`].
    pub fn open(path: &str, flags: Flags, map_size: usize, mode: u32) -> (r: Result<
        Environment,
        Error,
    >)
        requires
            forall|i: int| 0 <= i < path@.len() ==> path@[i] != '\0',
        ensures
            r matches Err(e) ==> e.spec_code() != 0,
    {
        let mut builder = engine::builder_new();
        engine::builder_set_flags(&mut builder, flags.bits);
        engine::builder_set_map_size(&mut builder, map_size);
        match engine::builder_open(&builder, path, mode) {
            Err(code) => Err(Error::new(code)),
            Ok(inner) => match engine::open_default_db(&inner) {
                // Dropping `inner` here closes the instance handle.
                Err(code) => Err(Error::new(code)),
                Ok(db) => Ok(Environment { inner, db }),
            },
        }
    }

    /// Begins a transaction against this environment, read-only when
    /// `flags` says so. The transaction borrows the environment for its
    /// whole lifetime, which keeps the engine instance open until the
    /// transaction is finished.
    pub fn begin_transaction<'env>(&'env self, flags: transaction::Flags) -> (r: Result<
        Transaction<'env>,
        Error,
    >)
        ensures
            r matches Ok(t) ==> t.is_read_only() == flags.is_read_only(),
            r matches Err(e) ==> e.spec_code() != 0,
    {
        Transaction::begin(self, flags)
    }
}

} // verus!
