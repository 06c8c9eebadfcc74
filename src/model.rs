//! What a transaction is, as a value, and what each of its operations does
//! to that value.
use crate::err::Error;
use crate::publisher::PublisherView;
use vstd::prelude::*;

verus! {

/// The abstract state of a transaction.
pub struct TxView {
    /// Finalized by `commit` or `cancel`.
    pub closed: bool,
    /// Begun as a write transaction.
    pub writable: bool,
    /// Still holds the write lock.
    pub locked: bool,
    /// The private working copy of the key space.
    pub data: Map<u64, u64>,
}

/// A live transaction holds the write lock exactly when it is writable; a
/// finalized one holds it no more.
pub open spec fn view_wf(s: TxView) -> bool {
    if s.closed { !s.locked } else { s.locked == s.writable }
}

/// The state of a transaction begun on snapshot `data`.
pub open spec fn begin_spec(data: Map<u64, u64>, write: bool) -> TxView {
    TxView { closed: false, writable: write, locked: write, data }
}

/// The error that a reading operation meets first, if any.
pub open spec fn read_guard(s: TxView) -> Option<Error> {
    if s.closed { Some(Error::TxClosed) } else { None }
}

/// The error that a mutating operation meets first, if any.
pub open spec fn write_guard(s: TxView) -> Option<Error> {
    if s.closed {
        Some(Error::TxClosed)
    } else if !s.writable {
        Some(Error::TxNotWritable)
    } else {
        None
    }
}

/// The value under `k`, if any.
pub open spec fn lookup(m: Map<u64, u64>, k: u64) -> Option<u64> {
    if m.contains_key(k) { Some(m[k]) } else { None }
}

/// The check of `putc` and `delc`: the value under `k` is `chk`, where `None`
/// stands for no value.
pub open spec fn expected_holds(m: Map<u64, u64>, k: u64, chk: Option<u64>) -> bool {
    lookup(m, k) == chk
}

pub open spec fn with_data(s: TxView, data: Map<u64, u64>) -> TxView {
    TxView { data, ..s }
}

pub open spec fn cancel_spec(s: TxView) -> (TxView, Result<(), Error>) {
    if s.closed {
        (s, Err(Error::TxClosed))
    } else {
        (TxView { closed: true, locked: false, ..s }, Ok(()))
    }
}

pub open spec fn commit_spec(s: TxView) -> (TxView, Result<(), Error>) {
    match write_guard(s) {
        Some(e) => (s, Err(e)),
        None => (TxView { closed: true, locked: false, ..s }, Ok(())),
    }
}

/// The publisher's record after `commit` on `s`: on success the working copy
/// is stored, otherwise nothing is.
pub open spec fn publish_spec(p: PublisherView, s: TxView) -> PublisherView {
    if commit_spec(s).1 is Ok {
        PublisherView { stores: p.stores.push(s.data), ..p }
    } else {
        p
    }
}

/// The snapshot that a handle with record `p` stored last, or the one the
/// cell was made with where it stored none.
pub open spec fn latest(p: PublisherView) -> Map<u64, u64> {
    if p.stores.len() == 0 { p.initial } else { p.stores.last() }
}

pub open spec fn exi_spec(s: TxView, k: u64) -> Result<bool, Error> {
    match read_guard(s) {
        Some(e) => Err(e),
        None => Ok(s.data.contains_key(k)),
    }
}

pub open spec fn get_spec(s: TxView, k: u64) -> Result<Option<u64>, Error> {
    match read_guard(s) {
        Some(e) => Err(e),
        None => Ok(lookup(s.data, k)),
    }
}

pub open spec fn set_spec(s: TxView, k: u64, v: u64) -> (TxView, Result<(), Error>) {
    match write_guard(s) {
        Some(e) => (s, Err(e)),
        None => (with_data(s, s.data.insert(k, v)), Ok(())),
    }
}

pub open spec fn put_spec(s: TxView, k: u64, v: u64) -> (TxView, Result<(), Error>) {
    match write_guard(s) {
        Some(e) => (s, Err(e)),
        None => if s.data.contains_key(k) {
            (s, Err(Error::KeyAlreadyExists))
        } else {
            (with_data(s, s.data.insert(k, v)), Ok(()))
        },
    }
}

pub open spec fn putc_spec(s: TxView, k: u64, v: u64, chk: Option<u64>) -> (TxView, Result<(), Error>) {
    match write_guard(s) {
        Some(e) => (s, Err(e)),
        None => if expected_holds(s.data, k, chk) {
            (with_data(s, s.data.insert(k, v)), Ok(()))
        } else {
            (s, Err(Error::ValNotExpectedValue))
        },
    }
}

pub open spec fn del_spec(s: TxView, k: u64) -> (TxView, Result<(), Error>) {
    match write_guard(s) {
        Some(e) => (s, Err(e)),
        None => (with_data(s, s.data.remove(k)), Ok(())),
    }
}

pub open spec fn delc_spec(s: TxView, k: u64, chk: Option<u64>) -> (TxView, Result<(), Error>) {
    match write_guard(s) {
        Some(e) => (s, Err(e)),
        None => if expected_holds(s.data, k, chk) {
            (with_data(s, s.data.remove(k)), Ok(()))
        } else {
            (s, Err(Error::ValNotExpectedValue))
        },
    }
}

/// The keys of a list of entries, in order.
pub open spec fn keys_of(es: Seq<(u64, u64)>) -> Seq<u64> {
    es.map_values(|e: (u64, u64)| e.0)
}

/// `es` is the first `limit` entries of `m` whose keys lie in `[lo, hi)`, in
/// ascending key order (all of them where there are fewer).
pub open spec fn scan_holds(m: Map<u64, u64>, lo: u64, hi: u64, limit: nat, es: Seq<(u64, u64)>) -> bool {
    &&& es.len() <= limit
    &&& forall|i: int| 0 <= i < es.len() ==> {
        &&& lo <= #[trigger] es[i].0 < hi
        &&& m.contains_key(es[i].0)
        &&& m[es[i].0] == es[i].1
    }
    &&& forall|i: int, j: int| 0 <= i < j < es.len() ==> es[i].0 < es[j].0
    &&& forall|k: u64| lo <= k < hi && #[trigger] m.contains_key(k) && !keys_of(es).contains(k) ==> {
        &&& es.len() == limit
        &&& (es.len() == 0 || es[es.len() - 1].0 < k)
    }
}

/// One mutating operation of a transaction, with its arguments.
pub enum Write {
    Upsert(u64, u64),
    Put(u64, u64),
    PutC(u64, u64, Option<u64>),
    Del(u64),
    DelC(u64, Option<u64>),
}

/// The key that a write names.
pub open spec fn write_key(w: Write) -> u64 {
    match w {
        Write::Upsert(k, _) => k,
        Write::Put(k, _) => k,
        Write::PutC(k, _, _) => k,
        Write::Del(k) => k,
        Write::DelC(k, _) => k,
    }
}

/// The state after one write, whether it succeeded or failed.
pub open spec fn apply_write(s: TxView, w: Write) -> TxView {
    match w {
        Write::Upsert(k, v) => set_spec(s, k, v).0,
        Write::Put(k, v) => put_spec(s, k, v).0,
        Write::PutC(k, v, chk) => putc_spec(s, k, v, chk).0,
        Write::Del(k) => del_spec(s, k).0,
        Write::DelC(k, chk) => delc_spec(s, k, chk).0,
    }
}

/// The state after a sequence of writes, in order.
pub open spec fn apply_writes(s: TxView, ws: Seq<Write>) -> TxView
    decreases ws.len(),
{
    if ws.len() == 0 {
        s
    } else {
        apply_write(apply_writes(s, ws.drop_last()), ws.last())
    }
}

} // verus!
