//! A mathematical model of the transactional discipline: how the operations
//! of a transaction transform the key-value pairs it observes, and how a
//! history of finished transactions — each one committed or aborted —
//! determines the committed state a later transaction's snapshot shows.
//!
//! The contracts of [`crate::Transaction::put`] and
//! [`crate::Transaction::del`] state exactly the transformations
//! [`apply_op`] describes, and the proof functions below are the laws of
//! the discipline over that shared vocabulary.

use vstd::prelude::*;

verus! {

/// A single mutating operation performed inside a transaction.
pub enum Op {
    Put(Seq<u8>, Seq<u8>),
    Del(Seq<u8>),
}

/// How a finished transaction was finished.
pub enum Outcome {
    Committed,
    Aborted,
}

/// A finished transaction: the mutating operations it performed, in order,
/// and how it was finished.
pub struct TxnRecord {
    pub ops: Seq<Op>,
    pub outcome: Outcome,
}

/// How one operation transforms the pairs a transaction observes: put
/// inserts or overwrites, delete removes.
pub open spec fn apply_op(m: Map<Seq<u8>, Seq<u8>>, op: Op) -> Map<Seq<u8>, Seq<u8>> {
    match op {
        Op::Put(k, v) => m.insert(k, v),
        Op::Del(k) => m.remove(k),
    }
}

/// The pairs observed after a sequence of operations, applied in order.
pub open spec fn apply_ops(m: Map<Seq<u8>, Seq<u8>>, ops: Seq<Op>) -> Map<Seq<u8>, Seq<u8>>
    decreases ops.len(),
{
    if ops.len() == 0 {
        m
    } else {
        apply_ops(apply_op(m, ops.first()), ops.drop_first())
    }
}

/// The committed state a finished transaction leaves behind: a committed
/// transaction applies all its operations atomically, an aborted one leaves
/// the committed state untouched.
pub open spec fn txn_effect(m: Map<Seq<u8>, Seq<u8>>, r: TxnRecord) -> Map<Seq<u8>, Seq<u8>> {
    if r.outcome is Committed {
        apply_ops(m, r.ops)
    } else {
        m
    }
}

/// The committed state after a whole history of finished transactions,
/// starting from the committed state `init`.
pub open spec fn committed_after(init: Map<Seq<u8>, Seq<u8>>, history: Seq<TxnRecord>) -> Map<
    Seq<u8>,
    Seq<u8>,
>
    decreases history.len(),
{
    if history.len() == 0 {
        init
    } else {
        txn_effect(committed_after(init, history.drop_last()), history.last())
    }
}

/// Whether some operation of `ops` puts the key `k`.
pub open spec fn puts_key(ops: Seq<Op>, k: Seq<u8>) -> bool {
    exists|i: int| 0 <= i < ops.len() && (#[trigger] ops[i] matches Op::Put(k2, _) && k2 == k)
}

/// Round-trip: for all byte sequences `k` and `v`, putting `(k, v)` and
/// then getting `k` inside the same transaction observes exactly `v`.
pub proof fn lemma_round_trip(m: Map<Seq<u8>, Seq<u8>>, k: Seq<u8>, v: Seq<u8>)
    ensures
        apply_op(m, Op::Put(k, v)).contains_key(k),
        apply_op(m, Op::Put(k, v))[k] == v,
{
}

/// Delete is not idempotent: deleting a present key hits — and removes it —
/// exactly once, so a second delete of the same key misses.
pub proof fn lemma_delete_once(m: Map<Seq<u8>, Seq<u8>>, k: Seq<u8>)
    requires
        m.contains_key(k),
    ensures
        !apply_op(m, Op::Del(k)).contains_key(k),
{
}

/// Operations that never put `k` cannot make `k` present.
pub proof fn lemma_ops_preserve_absence(m: Map<Seq<u8>, Seq<u8>>, ops: Seq<Op>, k: Seq<u8>)
    requires
        !m.contains_key(k),
        !puts_key(ops, k),
    ensures
        !apply_ops(m, ops).contains_key(k),
    decreases ops.len(),
{
    if ops.len() > 0 {
        let first = ops.first();
        let rest = ops.drop_first();
        match first {
            Op::Put(k2, _) => {
                assert(k2 != k) by {
                    if k2 == k {
                        assert(0 <= 0 < ops.len() && (ops[0] matches Op::Put(k2, _) && k2 == k));
                    }
                }
            },
            Op::Del(_) => {},
        }
        assert(!puts_key(rest, k)) by {
            if puts_key(rest, k) {
                let i = choose|i: int|
                    0 <= i < rest.len() && (#[trigger] rest[i] matches Op::Put(k2, _) && k2 == k);
                assert(ops[i + 1] == rest[i]);
                assert(0 <= i + 1 < ops.len() && (ops[i + 1] matches Op::Put(k2, _) && k2 == k));
            }
        }
        lemma_ops_preserve_absence(apply_op(m, first), rest, k);
    }
}

/// Absence: a key the initial committed state does not hold, and that no
/// committed transaction of the history ever put, is absent from the
/// committed state the history leaves — so a later transaction's get of it
/// observes nothing and its delete of it misses.
pub proof fn lemma_absence(init: Map<Seq<u8>, Seq<u8>>, history: Seq<TxnRecord>, k: Seq<u8>)
    requires
        !init.contains_key(k),
        forall|i: int|
            0 <= i < history.len() && history[i].outcome is Committed ==> !puts_key(
                history[i].ops,
                k,
            ),
    ensures
        !committed_after(init, history).contains_key(k),
    decreases history.len(),
{
    if history.len() > 0 {
        let prefix = history.drop_last();
        assert(forall|i: int| 0 <= i < prefix.len() ==> prefix[i] == history[i]);
        lemma_absence(init, prefix, k);
        let last = history.last();
        if last.outcome is Committed {
            assert(!puts_key(last.ops, k)) by {
                assert(history[history.len() - 1] == last);
            }
            lemma_ops_preserve_absence(committed_after(init, prefix), last.ops, k);
        }
    }
}

/// Abort isolation: a transaction that is aborted — whatever it put or
/// deleted — leaves the committed state exactly as it was, so every key a
/// subsequently begun transaction observes is as if the aborted transaction
/// had never run.
pub proof fn lemma_abort_isolation(
    init: Map<Seq<u8>, Seq<u8>>,
    history: Seq<TxnRecord>,
    ops: Seq<Op>,
    k: Seq<u8>,
)
    ensures
        committed_after(init, history.push(TxnRecord { ops, outcome: Outcome::Aborted }))
            == committed_after(init, history),
        !committed_after(init, history).contains_key(k) ==> !committed_after(
            init,
            history.push(TxnRecord { ops, outcome: Outcome::Aborted }),
        ).contains_key(k),
{
    let rec = TxnRecord { ops, outcome: Outcome::Aborted };
    let extended = history.push(rec);
    assert(extended.drop_last() =~= history);
    assert(extended.last() == rec);
}

/// The last operation wins: a sequence of operations that ends by putting
/// `(k, v)` leaves `k` bound to `v`.
pub proof fn lemma_last_put(m: Map<Seq<u8>, Seq<u8>>, ops: Seq<Op>, k: Seq<u8>, v: Seq<u8>)
    requires
        ops.len() > 0,
        ops.last() == Op::Put(k, v),
    ensures
        apply_ops(m, ops).contains_key(k),
        apply_ops(m, ops)[k] == v,
    decreases ops.len(),
{
    if ops.len() == 1 {
        assert(ops.first() == ops.last());
        let rest = ops.drop_first();
        assert(rest.len() == 0);
        assert(apply_ops(apply_op(m, ops.first()), rest) == apply_op(m, ops.first()));
    } else {
        let rest = ops.drop_first();
        assert(rest.last() == ops.last());
        lemma_last_put(apply_op(m, ops.first()), rest, k, v);
    }
}

/// Commit durability: a transaction that ends by putting `(k, v)` and then
/// commits leaves the committed state holding `v` under `k`, so a
/// subsequently begun transaction observes exactly that value.
pub proof fn lemma_commit_durability(
    init: Map<Seq<u8>, Seq<u8>>,
    history: Seq<TxnRecord>,
    ops: Seq<Op>,
    k: Seq<u8>,
    v: Seq<u8>,
)
    requires
        ops.len() > 0,
        ops.last() == Op::Put(k, v),
    ensures
        committed_after(init, history.push(TxnRecord { ops, outcome: Outcome::Committed }))
            .contains_key(k),
        committed_after(init, history.push(TxnRecord { ops, outcome: Outcome::Committed }))[k]
            == v,
{
    let rec = TxnRecord { ops, outcome: Outcome::Committed };
    let extended = history.push(rec);
    assert(extended.drop_last() =~= history);
    assert(extended.last() == rec);
    lemma_last_put(committed_after(init, history), ops, k, v);
}

} // verus!
