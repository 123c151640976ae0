//! Transaction lifecycle and the get/put/delete operations scoped to the
//! implicit table, together with the borrowed data views they hand out.

use vstd::prelude::*;

use crate::engine;
use crate::environment::Environment;
use crate::Error;

verus! {

/// Flag bit: the transaction performs no write operations.
pub const READ_ONLY: u32 = 0x20000;

/// A bit-composable set of transaction options.
#[derive(Copy, Clone, Debug, PartialEq, Eq)]
pub struct Flags {
    pub bits: u32,
}

impl Flags {
    /// Whether the [`READ_ONLY`] option is set.
    pub open spec fn is_read_only(self) -> bool {
        self.bits & READ_ONLY != 0
    }

    /// No options set.
    pub fn empty() -> (r: Flags)
        ensures
            r.bits == 0,
    {
        Flags { bits: 0 }
    }

    /// The [`READ_ONLY`] option alone.
    pub fn read_only() -> (r: Flags)
        ensures
            r.bits == READ_ONLY,
            r.is_read_only(),
    {
        proof {
            assert(0x20000u32 & 0x20000u32 != 0u32) by (bit_vector);
        }
        Flags { bits: READ_ONLY }
    }

    /// The bitwise composition of two option sets.
    pub fn union(self, other: Flags) -> (r: Flags)
        ensures
            r.bits == (self.bits | other.bits),
    {
        Flags { bits: self.bits | other.bits }
    }

    /// Whether every option of `other` is set in `self`.
    pub fn contains(self, other: Flags) -> (r: bool)
        ensures
            r == ((self.bits & other.bits) == other.bits),
    {
        (self.bits & other.bits) == other.bits
    }

    /// Runtime test of the [`READ_ONLY`] option.
    pub fn has_read_only(self) -> (r: bool)
        ensures
            r == self.is_read_only(),
    {
        self.bits & READ_ONLY != 0
    }
}

enum Inner<'env> {
    ReadOnly(lmdb::RoTransaction<'env>),
    ReadWrite(lmdb::RwTransaction<'env>),
}

/// A unit of isolated, atomic work against the engine. It observes a
/// consistent snapshot plus its own uncommitted writes — its *contents* —
/// and is finished exactly once: by [`Transaction::commit`], by
/// [`Transaction::abort`], or, when it is dropped without either, by the
/// automatic abort its destructor performs. Both finishing calls consume
/// the value, so no operation can follow them. The borrow of the owning
/// [`Environment`] keeps the engine instance open for the transaction's
/// whole lifetime.
pub struct Transaction<'env> {
    env: &'env Environment,
    inner: Inner<'env>,
}

impl<'env> Transaction<'env> {
    /// The key-value pairs this transaction observes: its snapshot of the
    /// committed state plus its own uncommitted writes.
    pub closed spec fn contents(&self) -> Map<Seq<u8>, Seq<u8>> {
        match self.inner {
            Inner::ReadOnly(t) => engine::ro_contents(t),
            Inner::ReadWrite(t) => engine::rw_contents(t),
        }
    }

    /// Whether this transaction was begun read-only.
    pub closed spec fn is_read_only(&self) -> bool {
        self.inner matches Inner::ReadOnly(_)
    }

    pub(crate) fn begin(env: &'env Environment, flags: Flags) -> (r: Result<
        Transaction<'env>,
        Error,
    >)
        ensures
            r matches Ok(t) ==> t.is_read_only() == flags.is_read_only(),
            r matches Err(e) ==> e.spec_code() != 0,
    {
        if flags.has_read_only() {
            match engine::begin_ro(&env.inner) {
                Ok(t) => Ok(Transaction { env, inner: Inner::ReadOnly(t) }),
                Err(code) => Err(Error::new(code)),
            }
        } else {
            match engine::begin_rw(&env.inner) {
                Ok(t) => Ok(Transaction { env, inner: Inner::ReadWrite(t) }),
                Err(code) => Err(Error::new(code)),
            }
        }
    }

    /// Looks `key` up in the implicit table. The engine's not-found answer
    /// is translated to the valid outcome `Ok(None)`, never reported as an
    /// error, and always means the key is absent; a present key never
    /// yields `Ok(None)`, and a returned [`DataView`] holds exactly the
    /// stored bytes. Any other engine status — which the engine can report
    /// even for an absent key, say for an empty key or a transaction
    /// already in its error state — is an [`Error`]. The view borrows this
    /// transaction, so no mutating operation and no finishing call can
    /// happen while it is alive.
    pub fn get<'a>(&'a self, key: &[u8]) -> (r: Result<Option<DataView<'a>>, Error>)
        ensures
            match r {
                Ok(Some(view)) => self.contents().contains_key(key@) && view.bytes()
                    == self.contents()[key@],
                Ok(None) => !self.contents().contains_key(key@),
                Err(e) => e.spec_code() != 0 && e.spec_code() != engine::NOT_FOUND,
            },
    {
        let res = match &self.inner {
            Inner::ReadOnly(t) => engine::ro_get(t, &self.env.db, key),
            Inner::ReadWrite(t) => engine::rw_get(t, &self.env.db, key),
        };
        match res {
            Ok(data) => Ok(Some(DataView { data })),
            Err(code) => {
                if code == engine::NOT_FOUND {
                    Ok(None)
                } else {
                    Err(Error::new(code))
                }
            },
        }
    }

    /// Inserts or overwrites the value stored under `key`: the semantics
    /// are overwrite-by-default. On a read-only transaction the write is
    /// refused with the engine's access status; on failure the
    /// transaction's contents are unchanged, and the error never carries
    /// the not-found sentinel, which only `get` and `del` translate.
    pub fn put(&mut self, key: &[u8], data: &[u8]) -> (r: Result<(), Error>)
        ensures
            final(self).is_read_only() == old(self).is_read_only(),
            r matches Ok(_) ==> !old(self).is_read_only() && final(self).contents() == old(
                self,
            ).contents().insert(key@, data@),
            r matches Err(e) ==> e.spec_code() != 0 && e.spec_code() != engine::NOT_FOUND
                && final(self).contents() == old(self).contents(),
            old(self).is_read_only() ==> (r matches Err(e) && e.spec_code()
                == engine::ACCESS_DENIED),
    {
        let env = self.env;
        match &mut self.inner {
            Inner::ReadOnly(_) => Err(Error::new(engine::ACCESS_DENIED)),
            Inner::ReadWrite(t) => {
                let code = engine::rw_put(t, &env.db, key, data);
                if code == engine::SUCCESS {
                    Ok(())
                } else {
                    Err(Error::new(code))
                }
            },
        }
    }

    /// Deletes `key` from the implicit table. `Ok(true)` says the key was
    /// present and is now removed; `Ok(false)` — the translation of the
    /// engine's not-found answer, a valid outcome, not an error — says it
    /// was absent, and an absent key is never answered `Ok(true)`. Any
    /// other engine status — possible even for an absent key, say a
    /// transaction already in its error state — is an [`Error`]. On a
    /// read-only transaction the write is refused with the engine's access
    /// status; on failure the transaction's contents are unchanged.
    pub fn del(&mut self, key: &[u8]) -> (r: Result<bool, Error>)
        ensures
            final(self).is_read_only() == old(self).is_read_only(),
            r matches Ok(hit) ==> !old(self).is_read_only() && hit == old(
                self,
            ).contents().contains_key(key@),
            r matches Ok(hit) && hit ==> final(self).contents() == old(self).contents().remove(
                key@,
            ),
            r matches Ok(hit) && !hit ==> final(self).contents() == old(self).contents(),
            r matches Err(e) ==> e.spec_code() != 0 && final(self).contents() == old(
                self,
            ).contents(),
            old(self).is_read_only() ==> (r matches Err(e) && e.spec_code()
                == engine::ACCESS_DENIED),
    {
        let env = self.env;
        match &mut self.inner {
            Inner::ReadOnly(_) => Err(Error::new(engine::ACCESS_DENIED)),
            Inner::ReadWrite(t) => {
                let code = engine::rw_del(t, &env.db, key);
                if code == engine::SUCCESS {
                    Ok(true)
                } else if code == engine::NOT_FOUND {
                    Ok(false)
                } else {
                    Err(Error::new(code))
                }
            },
        }
    }

    /// Discards every operation of this transaction instead of saving
    /// them. Cannot fail, and consumes the transaction: it is finished.
    pub fn abort(self) {
        match self.inner {
            Inner::ReadOnly(t) => engine::ro_abort(t),
            Inner::ReadWrite(t) => engine::rw_abort(t),
        }
    }

    /// Attempts to persist every operation of this transaction. Whether it
    /// succeeds or reports an [`Error`], the transaction is finished: the
    /// call consumes it and no retry is attempted by this layer.
    pub fn commit(self) -> (r: Result<(), Error>)
        ensures
            r matches Err(e) ==> e.spec_code() != 0,
    {
        let code = match self.inner {
            Inner::ReadOnly(t) => engine::ro_commit(t),
            Inner::ReadWrite(t) => engine::rw_commit(t),
        };
        if code == engine::SUCCESS {
            Ok(())
        } else {
            Err(Error::new(code))
        }
    }
}

/// A borrowed, zero-copy view of the bytes stored under a key, living
/// inside the engine's memory map. It borrows its transaction for its whole
/// lifetime, so the compiler rejects any mutating operation, commit or
/// abort on that transaction while the view is in scope; its validity ends
/// with the borrow, with no destruction step of its own.
pub struct DataView<'a> {
    data: &'a [u8],
}

impl<'a> DataView<'a> {
    /// The bytes this view refers to.
    pub closed spec fn bytes(&self) -> Seq<u8> {
        self.data@
    }

    /// The viewed bytes, borrowed for as long as the view's own borrow of
    /// the transaction lasts.
    pub fn as_bytes(&self) -> (r: &'a [u8])
        ensures
            r@ == self.bytes(),
    {
        self.data
    }
}

} // verus!
