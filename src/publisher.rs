//! The cell that holds the latest committed snapshot.
use crate::store::contents;
use arc_swap::ArcSwap;
use imbl::OrdMap;
use std::sync::Arc;
use vstd::prelude::*;

verus! {

/// The shared atomic cell itself. Every handle made by `share` reaches the
/// same cell.
#[verifier::external_body]
struct Cell {
    inner: Arc<ArcSwap<OrdMap<u64, u64>>>,
}

/// Relies on `ArcSwap::from_pointee`: a new cell holding `initial`.
#[verifier::external_body]
fn cell_new(initial: OrdMap<u64, u64>) -> (r: Cell) {
    Cell { inner: Arc::new(ArcSwap::from_pointee(initial)) }
}

/// Relies on `Arc::clone`: another handle on the same cell.
#[verifier::external_body]
fn cell_share(c: &Cell) -> (r: Cell) {
    Cell { inner: c.inner.clone() }
}

/// Relies on `ArcSwap::load`: a copy of the snapshot committed last. Which
/// one that is depends on what other threads did, so nothing is said of it.
#[verifier::external_body]
fn cell_load(c: &Cell) -> (r: OrdMap<u64, u64>) {
    (*(*c.inner.load())).clone()
}

/// Relies on `ArcSwap::store`: `m` becomes the committed snapshot.
#[verifier::external_body]
fn cell_store(c: &Cell, m: &OrdMap<u64, u64>) {
    c.inner.store(Arc::new(m.clone()))
}

/// What a handle on the cell is known to have done: the snapshot the cell
/// was made with, and every snapshot stored through this handle, in order.
pub struct PublisherView {
    pub initial: Map<u64, u64>,
    pub stores: Seq<Map<u64, u64>>,
}

/// A handle on the cell through which transactions see the latest committed
/// data.
pub struct Publisher {
    cell: Cell,
    initial: Ghost<Map<u64, u64>>,
    log: Ghost<Seq<Map<u64, u64>>>,
}

impl View for Publisher {
    type V = PublisherView;

    closed spec fn view(&self) -> PublisherView {
        PublisherView { initial: self.initial@, stores: self.log@ }
    }
}

impl Publisher {
    /// A new cell holding `initial`, with nothing stored yet.
    pub fn new(initial: OrdMap<u64, u64>) -> (r: Publisher)
        ensures
            r@.initial == contents(initial),
            r@.stores == Seq::<Map<u64, u64>>::empty(),
    {
        let ghost first = contents(initial);
        Publisher { cell: cell_new(initial), initial: Ghost(first), log: Ghost(Seq::empty()) }
    }

    /// Another handle on the same cell, with the same record.
    pub fn share(&self) -> (r: Publisher)
        ensures
            r@ == self@,
    {
        Publisher { cell: cell_share(&self.cell), initial: self.initial, log: self.log }
    }

    /// A copy of the latest committed snapshot.
    pub(crate) fn load(&self) -> (r: OrdMap<u64, u64>) {
        cell_load(&self.cell)
    }

    /// Publishes `m` as the latest committed snapshot.
    pub(crate) fn store(&mut self, m: &OrdMap<u64, u64>)
        ensures
            final(self)@ == (PublisherView { stores: old(self)@.stores.push(contents(*m)), ..old(self)@ }),
    {
        cell_store(&self.cell, m);
        self.log = Ghost(self.log@.push(contents(*m)));
    }
}

} // verus!
