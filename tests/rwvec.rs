use snapshot::{Buffer, Exclusive, PushError, RWVec};

fn push_ok(v: &mut RWVec<u64>, x: u64) {
    assert!(matches!(v.push(x), Ok(())));
}

#[test]
fn snapshot_after_each_append() {
    let mut v: RWVec<u64> = RWVec::new();
    let r = v.reader().unwrap();
    assert_eq!(r.end(), 0);
    assert_eq!(r.to_vec(&v), Vec::<u64>::new());
    r.release(&mut v);
    for k in 1..=5u64 {
        push_ok(&mut v, k * 10);
        let r = v.reader().unwrap();
        assert_eq!(r.end(), k as usize);
        let expected: Vec<u64> = (1..=k).map(|i| i * 10).collect();
        assert_eq!(r.to_vec(&v), expected);
        r.release(&mut v);
    }
}

#[test]
fn refresh_picks_up_appends_without_reallocation() {
    let mut v: RWVec<u64> = RWVec::with_capacity(4);
    push_ok(&mut v, 1);
    push_ok(&mut v, 2);
    let mut r = v.reader().unwrap();
    assert_eq!(r.end(), 2);
    push_ok(&mut v, 3);
    push_ok(&mut v, 4);
    assert_eq!(r.end(), 2);
    assert_eq!(r.to_vec(&v), vec![1, 2]);
    assert_eq!(r.get(&v, 2), None);
    r.refresh(&v);
    assert_eq!(r.end(), 4);
    assert_eq!(r.to_vec(&v), vec![1, 2, 3, 4]);
    assert_eq!(r.get(&v, 3), Some(4));
    r.release(&mut v);
}

#[test]
fn upgrade_then_append_through_exclusive_view() {
    let mut v: RWVec<u64> = RWVec::new();
    push_ok(&mut v, 1);
    push_ok(&mut v, 2);
    push_ok(&mut v, 3);
    let w = v.writer().unwrap();
    assert_eq!(w.end(), 3);
    assert!(w.set(&mut v, 0, 999));
    let x = w.upgrade(&mut v);
    assert_eq!(x.push(&mut v, 42), Ok(()));
    assert_eq!(x.len(&v), 4);
    let w = x.release(&mut v);
    w.release(&mut v);
    let r = v.reader().unwrap();
    assert_eq!(r.end(), 4);
    assert_eq!(r.get(&v, 0), Some(999));
    assert_eq!(r.get(&v, 3), Some(42));
    assert_eq!(r.to_vec(&v), vec![999, 2, 3, 42]);
    r.release(&mut v);
}

#[test]
fn two_handles_append_with_frequent_reallocation() {
    let mut v: RWVec<u64> = RWVec::with_capacity(1);
    for i in 0..1000u64 {
        push_ok(&mut v, i);
        push_ok(&mut v, 1000 + i);
    }
    let r = v.reader().unwrap();
    assert_eq!(r.end(), 2000);
    let mut all = r.to_vec(&v);
    r.release(&mut v);
    all.sort();
    let expected: Vec<u64> = (0..2000u64).collect();
    assert_eq!(all, expected);
}

#[test]
fn window_is_stable_while_appending() {
    let mut v: RWVec<u64> = RWVec::with_capacity(16);
    push_ok(&mut v, 5);
    push_ok(&mut v, 6);
    let r = v.reader().unwrap();
    let before = r.to_vec(&v);
    for i in 0..10u64 {
        push_ok(&mut v, i);
        assert_eq!(r.to_vec(&v), before);
        assert_eq!(r.end(), 2);
    }
    r.release(&mut v);
}

#[test]
fn refresh_without_append_keeps_end() {
    let mut v: RWVec<u64> = RWVec::with_capacity(4);
    push_ok(&mut v, 7);
    let mut r = v.reader().unwrap();
    r.refresh(&v);
    assert_eq!(r.end(), 1);
    r.refresh(&v);
    assert_eq!(r.end(), 1);
    r.release(&mut v);
    let mut w = v.writer().unwrap();
    w.refresh(&v);
    assert_eq!(w.end(), 1);
    w.refresh(&v);
    assert_eq!(w.end(), 1);
    w.release(&mut v);
}

#[test]
fn refresh_end_never_decreases() {
    let mut v: RWVec<u64> = RWVec::with_capacity(8);
    let mut r = v.reader().unwrap();
    let mut last = r.end();
    for i in 0..8u64 {
        push_ok(&mut v, i);
        r.refresh(&v);
        assert!(r.end() >= last);
        assert_eq!(r.end(), (i + 1) as usize);
        last = r.end();
    }
    r.release(&mut v);
}

#[test]
fn write_snapshot_refuses_outside_its_window() {
    let mut v: RWVec<u64> = RWVec::with_capacity(4);
    push_ok(&mut v, 1);
    let w = v.writer().unwrap();
    assert!(!w.set(&mut v, 1, 5));
    assert_eq!(w.get(&v, 1), None);
    assert!(w.set(&mut v, 0, 8));
    assert_eq!(w.get(&v, 0), Some(8));
    w.release(&mut v);
    let r = v.reader().unwrap();
    assert_eq!(r.to_vec(&v), vec![8]);
    r.release(&mut v);
}

#[test]
fn exclusive_view_truncates_and_clips_the_window() {
    let mut v: RWVec<u64> = RWVec::new();
    for i in 0..5u64 {
        push_ok(&mut v, i);
    }
    let w = v.writer().unwrap();
    assert_eq!(w.end(), 5);
    let x = w.upgrade(&mut v);
    x.truncate(&mut v, 2);
    assert_eq!(x.to_vec(&v), vec![0, 1]);
    assert!(x.set(&mut v, 1, 11));
    assert!(!x.set(&mut v, 2, 12));
    assert_eq!(x.get(&v, 1), Some(11));
    assert_eq!(x.get(&v, 2), None);
    let w = x.release(&mut v);
    assert_eq!(w.end(), 2);
    w.release(&mut v);
    let r = v.reader().unwrap();
    assert_eq!(r.end(), 2);
    assert_eq!(r.to_vec(&v), vec![0, 11]);
    r.release(&mut v);
}

#[test]
fn exclusive_holders_exclude_each_other_and_readers() {
    let mut v: RWVec<u64> = RWVec::with_capacity(4);
    let r = v.reader().unwrap();
    let r2 = v.reader().unwrap();
    assert!(v.writer().is_none());
    r.release(&mut v);
    assert!(v.writer().is_none());
    r2.release(&mut v);
    let w = v.writer().unwrap();
    assert_eq!(v.exclusive_holder(), Exclusive::Snapshot);
    assert!(v.reader().is_none());
    assert!(v.writer().is_none());
    let x = w.upgrade(&mut v);
    assert_eq!(v.exclusive_holder(), Exclusive::Upgraded);
    assert!(v.reader().is_none());
    assert!(v.writer().is_none());
    let w = x.release(&mut v);
    assert!(v.reader().is_none());
    w.release(&mut v);
    assert_eq!(v.exclusive_holder(), Exclusive::Free);
    let r = v.reader().unwrap();
    r.release(&mut v);
}

#[test]
fn append_waits_only_when_it_must() {
    let mut v: RWVec<u64> = RWVec::with_capacity(2);
    let r = v.reader().unwrap();
    push_ok(&mut v, 1);
    push_ok(&mut v, 2);
    assert!(matches!(v.push(3), Err(PushError::Blocked(3))));
    assert_eq!(v.len(), 2);
    r.release(&mut v);
    push_ok(&mut v, 3);
    let w = v.writer().unwrap();
    push_ok(&mut v, 4);
    let x = w.upgrade(&mut v);
    assert!(matches!(v.push(5), Err(PushError::Blocked(5))));
    assert_eq!(x.push(&mut v, 5), Ok(()));
    let w = x.release(&mut v);
    push_ok(&mut v, 6);
    push_ok(&mut v, 7);
    push_ok(&mut v, 8);
    assert!(matches!(v.push(9), Err(PushError::Blocked(9))));
    w.release(&mut v);
    push_ok(&mut v, 9);
    let r = v.reader().unwrap();
    assert_eq!(r.to_vec(&v), vec![1, 2, 3, 4, 5, 6, 7, 8, 9]);
    r.release(&mut v);
}

#[test]
fn append_during_write_snapshot_with_spare_capacity() {
    let mut v: RWVec<u64> = RWVec::with_capacity(4);
    push_ok(&mut v, 1);
    let mut w = v.writer().unwrap();
    push_ok(&mut v, 2);
    assert_eq!(w.end(), 1);
    assert_eq!(w.to_vec(&v), vec![1]);
    w.refresh(&v);
    assert_eq!(w.end(), 2);
    assert_eq!(w.to_vec(&v), vec![1, 2]);
    w.release(&mut v);
}

#[test]
fn buffer_appends_and_windows() {
    let mut b: Buffer<u64> = Buffer::with_capacity(0);
    assert!(b.needs_growth());
    b.append(4);
    b.append(5);
    b.append(6);
    assert_eq!(b.len(), 3);
    assert_eq!(b.prefix(2), vec![4, 5]);
    assert_eq!(b.prefix(9), vec![4, 5, 6]);
    assert_eq!(b.window_get(2, 1), Some(5));
    assert_eq!(b.window_get(2, 2), None);
    assert!(b.window_set(3, 2, 60));
    assert!(!b.window_set(2, 2, 61));
    assert_eq!(b.window_get(3, 2), Some(60));
    b.truncate(1);
    assert_eq!(b.prefix(9), vec![4]);
}

#[test]
fn buffer_grows_when_full() {
    let mut b: Buffer<u64> = Buffer::with_capacity(2);
    assert!(!b.needs_growth());
    b.append(1);
    b.append(2);
    assert!(b.needs_growth());
    b.append(3);
    assert!(!b.needs_growth());
    b.append(4);
    assert!(b.needs_growth());
}

#[test]
fn buffer_try_append_stores_the_value() {
    let mut b: Buffer<u64> = Buffer::with_capacity(1);
    assert_eq!(b.try_append(9), Ok(()));
    assert_eq!(b.try_append(10), Ok(()));
    assert_eq!(b.prefix(5), vec![9, 10]);
}

#[test]
fn reader_count_follows_acquire_and_release() {
    let mut v: RWVec<u64> = RWVec::new();
    assert_eq!(v.reader_count(), 0);
    let r = v.reader().unwrap();
    let r2 = v.reader().unwrap();
    assert_eq!(v.reader_count(), 2);
    r.release(&mut v);
    r2.release(&mut v);
    assert_eq!(v.reader_count(), 0);
}
