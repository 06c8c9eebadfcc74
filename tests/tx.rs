use echodb::{Error, Publisher, Tx};
use imbl::OrdMap;
use std::sync::Arc;
use tokio::sync::Mutex;

fn empty() -> Publisher {
    Publisher::new(OrdMap::new())
}

fn begin(p: &Publisher, lock: &Arc<Mutex<()>>, write: bool) -> Tx {
    let guard = if write {
        Some(lock.clone().try_lock_owned().expect("write lock is free"))
    } else {
        None
    };
    Tx::new(p.share(), write, guard)
}

fn writer_with(p: &Publisher, lock: &Arc<Mutex<()>>, entries: &[(u64, u64)]) -> Tx {
    let mut tx = begin(p, lock, true);
    for (k, v) in entries {
        tx.set(*k, *v).unwrap();
    }
    tx
}

#[test]
fn example_scenario() {
    let p = empty();
    let lock = Arc::new(Mutex::new(()));
    let mut t1 = begin(&p, &lock, true);
    t1.set(1, 1).unwrap();
    t1.commit().unwrap();
    let mut t2 = begin(&p, &lock, false);
    assert_eq!(t2.get(1), Ok(Some(1)));
    let mut t3 = begin(&p, &lock, true);
    assert_eq!(t3.putc(1, 2, Some(1)), Ok(()));
    assert_eq!(t2.get(1), Ok(Some(1)));
    t3.commit().unwrap();
    let t4 = begin(&p, &lock, false);
    assert_eq!(t4.get(1), Ok(Some(2)));
    assert_eq!(t2.get(1), Ok(Some(1)));
    assert_eq!(t2.cancel(), Ok(()));
}

#[test]
fn read_your_writes() {
    let p = empty();
    let lock = Arc::new(Mutex::new(()));
    let mut tx = begin(&p, &lock, true);
    tx.set(5, 50).unwrap();
    assert_eq!(tx.get(5), Ok(Some(50)));
    tx.set(6, 60).unwrap();
    tx.del(7).unwrap();
    assert_eq!(tx.get(5), Ok(Some(50)));
    tx.set(5, 51).unwrap();
    assert_eq!(tx.get(5), Ok(Some(51)));
    tx.del(5).unwrap();
    assert_eq!(tx.get(5), Ok(None));
    assert_eq!(tx.exi(6), Ok(true));
    assert_eq!(tx.exi(5), Ok(false));
}

#[test]
fn closed_guard_after_commit_and_cancel() {
    let p = empty();
    let lock = Arc::new(Mutex::new(()));
    let mut tx = writer_with(&p, &lock, &[(1, 10)]);
    assert!(!tx.closed());
    tx.commit().unwrap();
    assert!(tx.closed());
    assert_eq!(tx.commit(), Err(Error::TxClosed));
    assert_eq!(tx.cancel(), Err(Error::TxClosed));
    assert_eq!(tx.exi(1), Err(Error::TxClosed));
    assert_eq!(tx.get(1), Err(Error::TxClosed));
    assert_eq!(tx.set(1, 2), Err(Error::TxClosed));
    assert_eq!(tx.put(2, 2), Err(Error::TxClosed));
    assert_eq!(tx.putc(1, 2, Some(10)), Err(Error::TxClosed));
    assert_eq!(tx.del(1), Err(Error::TxClosed));
    assert_eq!(tx.delc(1, Some(10)), Err(Error::TxClosed));
    assert_eq!(tx.scan(0..10, 10), Err(Error::TxClosed));

    let mut rd = begin(&p, &lock, false);
    assert_eq!(rd.cancel(), Ok(()));
    assert_eq!(rd.cancel(), Err(Error::TxClosed));
    assert_eq!(rd.get(1), Err(Error::TxClosed));
}

#[test]
fn read_only_guard() {
    let p = empty();
    let lock = Arc::new(Mutex::new(()));
    let mut w = writer_with(&p, &lock, &[(1, 10)]);
    w.commit().unwrap();
    let mut rd = begin(&p, &lock, false);
    assert_eq!(rd.set(1, 2), Err(Error::TxNotWritable));
    assert_eq!(rd.put(2, 2), Err(Error::TxNotWritable));
    assert_eq!(rd.putc(1, 2, Some(10)), Err(Error::TxNotWritable));
    assert_eq!(rd.del(1), Err(Error::TxNotWritable));
    assert_eq!(rd.delc(1, Some(10)), Err(Error::TxNotWritable));
    assert_eq!(rd.commit(), Err(Error::TxNotWritable));
    assert_eq!(rd.get(1), Ok(Some(10)));
    assert_eq!(rd.cancel(), Ok(()));
}

#[test]
fn insert_only() {
    let p = empty();
    let lock = Arc::new(Mutex::new(()));
    let mut tx = begin(&p, &lock, true);
    assert_eq!(tx.put(3, 30), Ok(()));
    assert_eq!(tx.get(3), Ok(Some(30)));
    assert_eq!(tx.put(3, 31), Err(Error::KeyAlreadyExists));
    assert_eq!(tx.get(3), Ok(Some(30)));
}

#[test]
fn compare_and_set() {
    let p = empty();
    let lock = Arc::new(Mutex::new(()));
    let mut tx = begin(&p, &lock, true);
    assert_eq!(tx.putc(1, 10, Some(0)), Err(Error::ValNotExpectedValue));
    assert_eq!(tx.get(1), Ok(None));
    assert_eq!(tx.putc(1, 10, None), Ok(()));
    assert_eq!(tx.get(1), Ok(Some(10)));
    assert_eq!(tx.putc(1, 11, None), Err(Error::ValNotExpectedValue));
    assert_eq!(tx.putc(1, 11, Some(9)), Err(Error::ValNotExpectedValue));
    assert_eq!(tx.get(1), Ok(Some(10)));
    assert_eq!(tx.putc(1, 11, Some(10)), Ok(()));
    assert_eq!(tx.get(1), Ok(Some(11)));
}

#[test]
fn compare_and_delete() {
    let p = empty();
    let lock = Arc::new(Mutex::new(()));
    let mut tx = writer_with(&p, &lock, &[(1, 10)]);
    assert_eq!(tx.delc(1, None), Err(Error::ValNotExpectedValue));
    assert_eq!(tx.delc(1, Some(9)), Err(Error::ValNotExpectedValue));
    assert_eq!(tx.get(1), Ok(Some(10)));
    assert_eq!(tx.delc(1, Some(10)), Ok(()));
    assert_eq!(tx.get(1), Ok(None));
    assert_eq!(tx.delc(1, Some(10)), Err(Error::ValNotExpectedValue));
    assert_eq!(tx.delc(1, None), Ok(()));
    assert_eq!(tx.del(1), Ok(()));
}

#[test]
fn scan_range_and_limit() {
    let p = empty();
    let lock = Arc::new(Mutex::new(()));
    let tx = writer_with(&p, &lock, &[(5, 50), (1, 10), (3, 30), (9, 90), (7, 70)]);
    assert_eq!(tx.scan(0..100, 100), Ok(vec![(1, 10), (3, 30), (5, 50), (7, 70), (9, 90)]));
    assert_eq!(tx.scan(3..9, 100), Ok(vec![(3, 30), (5, 50), (7, 70)]));
    assert_eq!(tx.scan(2..10, 2), Ok(vec![(3, 30), (5, 50)]));
    assert_eq!(tx.scan(0..100, 0), Ok(vec![]));
    assert_eq!(tx.scan(6..6, 5), Ok(vec![]));
    assert_eq!(tx.scan(9..3, 5), Ok(vec![]));
    assert_eq!(tx.scan(10..100, 5), Ok(vec![]));
}

#[test]
fn scan_reaches_largest_key() {
    let p = empty();
    let lock = Arc::new(Mutex::new(()));
    let tx = writer_with(&p, &lock, &[(u64::MAX, 1), (u64::MAX - 1, 2), (0, 3)]);
    assert_eq!(tx.scan(1..u64::MAX, 10), Ok(vec![(u64::MAX - 1, 2)]));
    assert_eq!(tx.scan(0..u64::MAX, 10), Ok(vec![(0, 3), (u64::MAX - 1, 2)]));
}

#[test]
fn snapshot_isolation() {
    let p = empty();
    let lock = Arc::new(Mutex::new(()));
    let before = begin(&p, &lock, false);
    let mut t1 = writer_with(&p, &lock, &[(1, 10)]);
    assert_eq!(before.get(1), Ok(None));
    t1.commit().unwrap();
    assert_eq!(before.get(1), Ok(None));
    assert_eq!(before.exi(1), Ok(false));
    let after = begin(&p, &lock, false);
    assert_eq!(after.get(1), Ok(Some(10)));
}

#[test]
fn cancel_keeps_published_state() {
    let p = empty();
    let lock = Arc::new(Mutex::new(()));
    let mut t1 = writer_with(&p, &lock, &[(1, 10), (2, 20)]);
    t1.commit().unwrap();
    let mut t2 = writer_with(&p, &lock, &[(1, 11), (3, 30)]);
    t2.del(2).unwrap();
    assert_eq!(t2.cancel(), Ok(()));
    let rd = begin(&p, &lock, false);
    assert_eq!(rd.scan(0..10, 10), Ok(vec![(1, 10), (2, 20)]));
}

#[test]
fn write_lock_released_on_finalization() {
    let p = empty();
    let lock = Arc::new(Mutex::new(()));
    let mut t1 = begin(&p, &lock, true);
    assert!(lock.clone().try_lock_owned().is_err());
    t1.commit().unwrap();
    let mut t2 = begin(&p, &lock, true);
    assert!(lock.clone().try_lock_owned().is_err());
    t2.cancel().unwrap();
    assert!(lock.clone().try_lock_owned().is_ok());
}

#[test]
fn snapshot_given_directly() {
    let p = empty();
    let mut m = OrdMap::new();
    m.insert(4u64, 40u64);
    let tx = Tx::with_snapshot(p.share(), m, false, None);
    assert_eq!(tx.get(4), Ok(Some(40)));
    assert_eq!(tx.get(5), Ok(None));
}
