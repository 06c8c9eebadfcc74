//! Transactions over a private snapshot of the key space.
use crate::err::Error;
use crate::model::{
    begin_spec, cancel_spec, commit_spec, del_spec, delc_spec, exi_spec, get_spec, put_spec,
    publish_spec, putc_spec, scan_holds, keys_of, set_spec, view_wf, TxView,
};
use crate::publisher::{Publisher, PublisherView};
use crate::store::{contents, map_contains, map_get, map_insert, map_next, map_remove};
use imbl::OrdMap;
use std::ops::Range;
use tokio::sync::OwnedMutexGuard;
use vstd::prelude::*;

verus! {

#[verifier::external_type_specification]
#[verifier::external_body]
#[verifier::reject_recursive_types(T)]
pub struct ExOwnedMutexGuard<T: ?Sized>(OwnedMutexGuard<T>);

/// A serializable database transaction.
pub struct Tx {
    // Is the transaction complete?
    ok: bool,
    // Is the transaction read+write?
    rw: bool,
    // The private copy of the data map
    ds: OrdMap<u64, u64>,
    // The cell that holds the latest data map
    pt: Publisher,
    // The held database write lock, if any
    lk: Option<OwnedMutexGuard<()>>,
}

impl View for Tx {
    type V = TxView;

    closed spec fn view(&self) -> TxView {
        TxView { closed: self.ok, writable: self.rw, locked: self.lk is Some, data: contents(self.ds) }
    }
}

impl Tx {
    /// The record of the publisher handle that this transaction commits to.
    pub closed spec fn publisher(&self) -> PublisherView {
        self.pt@
    }

    /// Creates a transaction on the snapshot committed last. A write
    /// transaction is handed the write lock's guard.
    pub fn new(pt: Publisher, write: bool, guard: Option<OwnedMutexGuard<()>>) -> (r: Tx)
        requires
            guard is Some == write,
        ensures
            r@ == begin_spec(r@.data, write),
            view_wf(r@),
            r.publisher() == pt@,
    {
        let ds = pt.load();
        Tx::with_snapshot(pt, ds, write, guard)
    }

    /// Creates a transaction whose working copy is `ds`.
    pub fn with_snapshot(pt: Publisher, ds: OrdMap<u64, u64>, write: bool, guard: Option<OwnedMutexGuard<()>>) -> (r: Tx)
        requires
            guard is Some == write,
        ensures
            r@ == begin_spec(contents(ds), write),
            view_wf(r@),
            r.publisher() == pt@,
    {
        Tx { ok: false, rw: write, ds, pt, lk: guard }
    }

    /// Whether the transaction was committed or cancelled.
    pub fn closed(&self) -> (r: bool)
        ensures
            r == self@.closed,
    {
        self.ok
    }

    /// Cancels the transaction, dropping its changes and releasing the lock.
    pub fn cancel(&mut self) -> (r: Result<(), Error>)
        ensures
            (final(self)@, r) == cancel_spec(old(self)@),
            final(self).publisher() == old(self).publisher(),
    {
        if self.ok {
            return Err(Error::TxClosed);
        }
        self.ok = true;
        self.lk = None;
        Ok(())
    }

    /// Commits the transaction: its working copy becomes the latest data map,
    /// and the lock is released.
    pub fn commit(&mut self) -> (r: Result<(), Error>)
        ensures
            (final(self)@, r) == commit_spec(old(self)@),
            final(self).publisher() == publish_spec(old(self).publisher(), old(self)@),
    {
        if self.ok {
            return Err(Error::TxClosed);
        }
        if !self.rw {
            return Err(Error::TxNotWritable);
        }
        self.ok = true;
        self.pt.store(&self.ds);
        self.lk = None;
        Ok(())
    }

    /// Whether `key` has a value.
    pub fn exi(&self, key: u64) -> (r: Result<bool, Error>)
        ensures
            r == exi_spec(self@, key),
    {
        if self.ok {
            return Err(Error::TxClosed);
        }
        Ok(map_contains(&self.ds, key))
    }

    /// The value under `key`, if any.
    pub fn get(&self, key: u64) -> (r: Result<Option<u64>, Error>)
        ensures
            r == get_spec(self@, key),
    {
        if self.ok {
            return Err(Error::TxClosed);
        }
        Ok(map_get(&self.ds, key))
    }

    /// Sets `key` to `val`, whether or not it had a value.
    pub fn set(&mut self, key: u64, val: u64) -> (r: Result<(), Error>)
        ensures
            (final(self)@, r) == set_spec(old(self)@, key, val),
            final(self).publisher() == old(self).publisher(),
    {
        if self.ok {
            return Err(Error::TxClosed);
        }
        if !self.rw {
            return Err(Error::TxNotWritable);
        }
        map_insert(&mut self.ds, key, val);
        Ok(())
    }

    /// Sets `key` to `val` where `key` has no value yet.
    pub fn put(&mut self, key: u64, val: u64) -> (r: Result<(), Error>)
        ensures
            (final(self)@, r) == put_spec(old(self)@, key, val),
            final(self).publisher() == old(self).publisher(),
    {
        if self.ok {
            return Err(Error::TxClosed);
        }
        if !self.rw {
            return Err(Error::TxNotWritable);
        }
        if map_contains(&self.ds, key) {
            return Err(Error::KeyAlreadyExists);
        }
        map_insert(&mut self.ds, key, val);
        Ok(())
    }

    /// Sets `key` to `val` where its value is `chk` (`None`: no value).
    pub fn putc(&mut self, key: u64, val: u64, chk: Option<u64>) -> (r: Result<(), Error>)
        ensures
            (final(self)@, r) == putc_spec(old(self)@, key, val, chk),
            final(self).publisher() == old(self).publisher(),
    {
        if self.ok {
            return Err(Error::TxClosed);
        }
        if !self.rw {
            return Err(Error::TxNotWritable);
        }
        if map_get(&self.ds, key) != chk {
            return Err(Error::ValNotExpectedValue);
        }
        map_insert(&mut self.ds, key, val);
        Ok(())
    }

    /// Removes `key`; a key without a value is no error.
    pub fn del(&mut self, key: u64) -> (r: Result<(), Error>)
        ensures
            (final(self)@, r) == del_spec(old(self)@, key),
            final(self).publisher() == old(self).publisher(),
    {
        if self.ok {
            return Err(Error::TxClosed);
        }
        if !self.rw {
            return Err(Error::TxNotWritable);
        }
        map_remove(&mut self.ds, key);
        Ok(())
    }

    /// Removes `key` where its value is `chk` (`None`: no value).
    pub fn delc(&mut self, key: u64, chk: Option<u64>) -> (r: Result<(), Error>)
        ensures
            (final(self)@, r) == delc_spec(old(self)@, key, chk),
            final(self).publisher() == old(self).publisher(),
    {
        if self.ok {
            return Err(Error::TxClosed);
        }
        if !self.rw {
            return Err(Error::TxNotWritable);
        }
        if map_get(&self.ds, key) != chk {
            return Err(Error::ValNotExpectedValue);
        }
        map_remove(&mut self.ds, key);
        Ok(())
    }

    /// The first `limit` entries whose keys lie in `rng`, in ascending key
    /// order.
    pub fn scan(&self, rng: Range<u64>, limit: usize) -> (r: Result<Vec<(u64, u64)>, Error>)
        ensures
            match r {
                Ok(es) => !self@.closed && scan_holds(self@.data, rng.start, rng.end, limit as nat, es@),
                Err(e) => self@.closed && e == Error::TxClosed,
            },
    {
        if self.ok {
            return Err(Error::TxClosed);
        }
        let ghost m = contents(self.ds);
        let lo = rng.start;
        let hi = rng.end;
        let mut out: Vec<(u64, u64)> = Vec::new();
        let mut cur: u64 = lo;
        let mut done = lo >= hi;
        while !done && out.len() < limit
            invariant
                m == contents(self.ds),
                lo <= cur,
                out.len() <= limit,
                forall|i: int| 0 <= i < out.len() ==> {
                    &&& lo <= #[trigger] out[i].0 < hi
                    &&& m.contains_key(out[i].0)
                    &&& m[out[i].0] == out[i].1
                },
                forall|i: int, j: int| 0 <= i < j < out.len() ==> out[i].0 < out[j].0,
                !done ==> forall|i: int| 0 <= i < out.len() ==> #[trigger] out[i].0 < cur,
                !done ==> forall|k: u64| lo <= k < cur && #[trigger] m.contains_key(k) ==> keys_of(out@).contains(k),
                done ==> forall|k: u64| lo <= k < hi && #[trigger] m.contains_key(k) ==> keys_of(out@).contains(k),
            decreases (limit - out.len()) * 2 + (if done { 0int } else { 1int }),
        {
            match map_next(&self.ds, cur) {
                None => {
                    done = true;
                },
                Some((k, v)) => {
                    if k >= hi {
                        done = true;
                    } else {
                        let ghost before = out@;
                        out.push((k, v));
                        proof {
                            assert(keys_of(out@) =~= keys_of(before).push(k));
                            assert forall|j: u64| lo <= j < hi && #[trigger] m.contains_key(j) && j <= k
                                implies keys_of(out@).contains(j) by {
                                if j < k {
                                    assert(keys_of(before).contains(j));
                                    let w = choose|w: int| 0 <= w < keys_of(before).len() && keys_of(before)[w] == j;
                                    assert(keys_of(out@)[w] == j);
                                } else {
                                    assert(keys_of(out@)[out@.len() - 1] == j);
                                }
                            }
                        }
                        if k == u64::MAX {
                            done = true;
                        } else {
                            cur = k + 1;
                        }
                    }
                },
            }
        }
        proof {
            assert forall|k: u64| lo <= k < hi && #[trigger] m.contains_key(k) && !keys_of(out@).contains(k)
                implies out@.len() == limit && (out@.len() == 0 || out@[out@.len() - 1].0 < k) by {
                if out@.len() > 0 {
                    assert(out@[out@.len() - 1].0 < cur);
                }
            }
        }
        Ok(out)
    }
}

} // verus!
