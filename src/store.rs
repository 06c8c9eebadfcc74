//! The persistent ordered map behind every snapshot, seen through its contents.
use vstd::prelude::*;

verus! {

#[verifier::external_type_specification]
#[verifier::external_body]
#[verifier::reject_recursive_types(K)]
#[verifier::reject_recursive_types(V)]
pub struct ExOrdMap<K, V>(imbl::OrdMap<K, V>);

/// The key-value pairs that a map holds.
pub uninterp spec fn contents(m: imbl::OrdMap<u64, u64>) -> Map<u64, u64>;

/// Relies on `OrdMap::get`: the value stored under `k`, if any.
#[verifier::external_body]
pub(crate) fn map_get(m: &imbl::OrdMap<u64, u64>, k: u64) -> (r: Option<u64>)
    ensures
        r == (if contents(*m).contains_key(k) { Some(contents(*m)[k]) } else { None::<u64> }),
{
    m.get(&k).copied()
}

/// Relies on `OrdMap::contains_key`: whether `k` has a value.
#[verifier::external_body]
pub(crate) fn map_contains(m: &imbl::OrdMap<u64, u64>, k: u64) -> (r: bool)
    ensures
        r == contents(*m).contains_key(k),
{
    m.contains_key(&k)
}

/// Relies on `OrdMap::insert`: `k` now maps to `v`, all else is kept.
#[verifier::external_body]
pub(crate) fn map_insert(m: &mut imbl::OrdMap<u64, u64>, k: u64, v: u64)
    ensures
        contents(*final(m)) == contents(*old(m)).insert(k, v),
{
    m.insert(k, v);
}

/// Relies on `OrdMap::remove`: `k` no longer has a value, all else is kept.
#[verifier::external_body]
pub(crate) fn map_remove(m: &mut imbl::OrdMap<u64, u64>, k: u64)
    ensures
        contents(*final(m)) == contents(*old(m)).remove(k),
{
    m.remove(&k);
}

/// Relies on `OrdMap::get_next`: the entry with the least key that is at
/// least `k`, or `None` where every key is below `k`.
#[verifier::external_body]
pub(crate) fn map_next(m: &imbl::OrdMap<u64, u64>, k: u64) -> (r: Option<(u64, u64)>)
    ensures
        match r {
            Some((nk, nv)) => {
                &&& k <= nk
                &&& contents(*m).contains_key(nk)
                &&& contents(*m)[nk] == nv
                &&& forall|j: u64| k <= j < nk ==> !contents(*m).contains_key(j)
            },
            None => forall|j: u64| k <= j ==> !contents(*m).contains_key(j),
        },
{
    m.get_next(&k).map(|(nk, nv)| (*nk, *nv))
}

} // verus!
