//! Properties that hold of every transaction, stated over the model of its
//! operations that the methods of `Tx` are held to.
use crate::err::Error;
use crate::model::{
    apply_write, apply_writes, begin_spec, cancel_spec, commit_spec, del_spec, delc_spec,
    exi_spec, get_spec, latest, lookup, publish_spec, put_spec, putc_spec, scan_holds, set_spec,
    view_wf, write_key, TxView, Write,
};
use crate::publisher::PublisherView;
use vstd::prelude::*;

verus! {

/// After `set(k, v)` a transaction reads `v` under `k`, and keeps reading it
/// while later writes touch other keys, whether or not it was committed.
pub proof fn lemma_read_your_writes(s: TxView, k: u64, v: u64, k2: u64, v2: u64)
    requires
        !s.closed,
        s.writable,
        k2 != k,
    ensures
        set_spec(s, k, v).1 is Ok,
        get_spec(set_spec(s, k, v).0, k) == Ok::<Option<u64>, Error>(Some(v)),
        get_spec(set_spec(set_spec(s, k, v).0, k2, v2).0, k) == Ok::<Option<u64>, Error>(Some(v)),
        get_spec(del_spec(set_spec(s, k, v).0, k2).0, k) == Ok::<Option<u64>, Error>(Some(v)),
        commit_spec(set_spec(s, k, v).0).0.data == set_spec(s, k, v).0.data,
{
}

/// Once committed or cancelled, every operation fails with `TxClosed` and
/// changes nothing.
pub proof fn lemma_closed_guard(s: TxView, k: u64, v: u64, chk: Option<u64>)
    requires
        s.closed,
    ensures
        cancel_spec(s) == (s, Err::<(), Error>(Error::TxClosed)),
        commit_spec(s) == (s, Err::<(), Error>(Error::TxClosed)),
        exi_spec(s, k) == Err::<bool, Error>(Error::TxClosed),
        get_spec(s, k) == Err::<Option<u64>, Error>(Error::TxClosed),
        set_spec(s, k, v) == (s, Err::<(), Error>(Error::TxClosed)),
        put_spec(s, k, v) == (s, Err::<(), Error>(Error::TxClosed)),
        putc_spec(s, k, v, chk) == (s, Err::<(), Error>(Error::TxClosed)),
        del_spec(s, k) == (s, Err::<(), Error>(Error::TxClosed)),
        delc_spec(s, k, chk) == (s, Err::<(), Error>(Error::TxClosed)),
{
}

/// In a live read-only transaction every write and `commit` fails with
/// `TxNotWritable` and changes nothing, while `cancel` succeeds.
pub proof fn lemma_read_only_guard(s: TxView, k: u64, v: u64, chk: Option<u64>)
    requires
        !s.closed,
        !s.writable,
    ensures
        commit_spec(s) == (s, Err::<(), Error>(Error::TxNotWritable)),
        set_spec(s, k, v) == (s, Err::<(), Error>(Error::TxNotWritable)),
        put_spec(s, k, v) == (s, Err::<(), Error>(Error::TxNotWritable)),
        putc_spec(s, k, v, chk) == (s, Err::<(), Error>(Error::TxNotWritable)),
        del_spec(s, k) == (s, Err::<(), Error>(Error::TxNotWritable)),
        delc_spec(s, k, chk) == (s, Err::<(), Error>(Error::TxNotWritable)),
        cancel_spec(s).1 is Ok,
        cancel_spec(s).0.closed,
{
}

/// `put` on an absent key stores the value; a second `put` on that key fails
/// with `KeyAlreadyExists` and the first value stays.
pub proof fn lemma_insert_only(s: TxView, k: u64, v: u64, v2: u64)
    requires
        !s.closed,
        s.writable,
        !s.data.contains_key(k),
    ensures
        put_spec(s, k, v).1 is Ok,
        get_spec(put_spec(s, k, v).0, k) == Ok::<Option<u64>, Error>(Some(v)),
        put_spec(put_spec(s, k, v).0, k, v2) == (put_spec(s, k, v).0, Err::<(), Error>(Error::KeyAlreadyExists)),
        get_spec(put_spec(put_spec(s, k, v).0, k, v2).0, k) == Ok::<Option<u64>, Error>(Some(v)),
{
}

/// `putc(k, v1, chk)` and `delc(k, chk)` succeed exactly when the value under
/// `k` is `chk` (`None`: no value); otherwise they fail with
/// `ValNotExpectedValue` and leave the state as it was.
pub proof fn lemma_compare_and_set(s: TxView, k: u64, v1: u64, chk: Option<u64>)
    requires
        !s.closed,
        s.writable,
    ensures
        putc_spec(s, k, v1, chk).1 is Ok <==> lookup(s.data, k) == chk,
        delc_spec(s, k, chk).1 is Ok <==> lookup(s.data, k) == chk,
        chk is None ==> (putc_spec(s, k, v1, chk).1 is Ok <==> !s.data.contains_key(k)),
        lookup(s.data, k) == chk ==> putc_spec(s, k, v1, chk).0.data == s.data.insert(k, v1),
        lookup(s.data, k) == chk ==> delc_spec(s, k, chk).0.data == s.data.remove(k),
        lookup(s.data, k) != chk ==> putc_spec(s, k, v1, chk) == (s, Err::<(), Error>(Error::ValNotExpectedValue)),
        lookup(s.data, k) != chk ==> delc_spec(s, k, chk) == (s, Err::<(), Error>(Error::ValNotExpectedValue)),
{
}

/// A scan of `[lo, hi)` holds at most `limit` entries, each with a key in the
/// range, in strictly ascending key order.
pub proof fn lemma_scan_bounds(m: Map<u64, u64>, lo: u64, hi: u64, limit: nat, es: Seq<(u64, u64)>)
    requires
        scan_holds(m, lo, hi, limit, es),
    ensures
        es.len() <= limit,
        forall|i: int| 0 <= i < es.len() ==> lo <= #[trigger] es[i].0 < hi,
        forall|i: int| 0 < i < es.len() ==> es[i - 1].0 < #[trigger] es[i].0,
{
}

/// A successful commit makes the committing transaction's working copy the
/// latest snapshot of its publisher handle, so a transaction begun on that
/// snapshot reads what the committer read. A transaction begun on an earlier
/// snapshot `c0` keeps reading `c0`, whatever is committed later.
pub proof fn lemma_commit_visible(p: PublisherView, t1: TxView, c0: Map<u64, u64>, w2: bool, w3: bool, k: u64)
    requires
        !t1.closed,
        t1.writable,
    ensures
        commit_spec(t1).1 is Ok,
        latest(publish_spec(p, t1)) == t1.data,
        get_spec(begin_spec(latest(publish_spec(p, t1)), w2), k) == get_spec(t1, k),
        get_spec(begin_spec(c0, w3), k) == Ok::<Option<u64>, Error>(lookup(c0, k)),
{
}

/// A commit that fails stores nothing.
pub proof fn lemma_failed_commit_publishes_nothing(p: PublisherView, s: TxView)
    requires
        commit_spec(s).1 is Err,
    ensures
        publish_spec(p, s) == p,
{
}

/// A write to another key leaves what a transaction reads under `k` as it
/// was, whether the write succeeds or fails.
pub proof fn lemma_other_key_untouched(s: TxView, w: Write, k: u64)
    requires
        write_key(w) != k,
    ensures
        get_spec(apply_write(s, w), k) == get_spec(s, k),
        apply_write(s, w).closed == s.closed,
{
}

/// After `set(k, v)`, any sequence of writes to other keys leaves `get(k)`
/// returning `v`.
pub proof fn lemma_read_your_writes_after(s: TxView, k: u64, v: u64, ws: Seq<Write>)
    requires
        !s.closed,
        s.writable,
        forall|i: int| 0 <= i < ws.len() ==> write_key(#[trigger] ws[i]) != k,
    ensures
        get_spec(apply_writes(set_spec(s, k, v).0, ws), k) == Ok::<Option<u64>, Error>(Some(v)),
    decreases ws.len(),
{
    if ws.len() > 0 {
        let front = ws.drop_last();
        assert forall|i: int| 0 <= i < front.len() implies write_key(#[trigger] front[i]) != k by {
            assert(front[i] == ws[i]);
        }
        lemma_read_your_writes_after(s, k, v, front);
        assert(write_key(ws[ws.len() - 1]) != k);
        lemma_other_key_untouched(apply_writes(set_spec(s, k, v).0, front), ws.last(), k);
    }
}

/// A new transaction holds the write lock exactly when it is writable, every
/// operation keeps it that way, and finalizing releases the lock.
pub proof fn lemma_lock_discipline(s: TxView, data: Map<u64, u64>, write: bool, k: u64, v: u64, chk: Option<u64>)
    requires
        view_wf(s),
    ensures
        view_wf(begin_spec(data, write)),
        view_wf(cancel_spec(s).0),
        view_wf(commit_spec(s).0),
        view_wf(set_spec(s, k, v).0),
        view_wf(put_spec(s, k, v).0),
        view_wf(putc_spec(s, k, v, chk).0),
        view_wf(del_spec(s, k).0),
        view_wf(delc_spec(s, k, chk).0),
        cancel_spec(s).1 is Ok ==> !cancel_spec(s).0.locked,
        commit_spec(s).1 is Ok ==> !commit_spec(s).0.locked,
{
}

} // verus!
