use std::sync::atomic::{AtomicUsize, Ordering};
use std::sync::Arc;

use futures::task::{waker, ArcWake};
use msg_stream::{wake_all, MsgStream};

struct Count(AtomicUsize);

impl ArcWake for Count {
    fn wake_by_ref(a: &Arc<Self>) {
        a.0.fetch_add(1, Ordering::SeqCst);
    }
}

#[test]
fn new_log_is_empty() {
    let log = MsgStream::new();
    assert_eq!(log.len(), 0);
    assert_eq!(log.reader_count(), 0);
    assert!(log.try_take(0).is_none());
}

#[test]
fn append_keeps_order() {
    let mut log = MsgStream::new();
    log.append(vec![1, 2]);
    log.append(vec![3]);
    assert_eq!(log.len(), 2);
    assert_eq!(log.try_take(0).unwrap().as_ref(), &vec![1, 2]);
    assert_eq!(log.try_take(1).unwrap().as_ref(), &vec![3]);
    assert!(log.try_take(2).is_none());
}

#[test]
fn identifiers_are_handed_out_in_order() {
    let mut log = MsgStream::new();
    let (a, _) = log.register_reader().unwrap();
    let (b, _) = log.register_reader().unwrap();
    let (c, _) = log.register_reader().unwrap();
    assert_eq!((a, b, c), (0, 1, 2));
    assert_eq!(log.reader_count(), 3);
}

#[test]
fn unregister_removes_only_that_reader() {
    let mut log = MsgStream::new();
    let (a, _) = log.register_reader().unwrap();
    let (b, _) = log.register_reader().unwrap();
    log.unregister_reader(a);
    assert_eq!(log.reader_count(), 1);
    log.unregister_reader(a);
    assert_eq!(log.reader_count(), 1);
    log.unregister_reader(b);
    assert_eq!(log.reader_count(), 0);
    let (c, _) = log.register_reader().unwrap();
    assert_eq!(c, 2);
}

#[test]
fn deliver_moves_past_the_message() {
    let mut log = MsgStream::new();
    log.append(b"a".to_vec());
    let mut pos: usize = 0;
    assert_eq!(log.deliver(&mut pos).unwrap().as_ref(), &b"a".to_vec());
    assert_eq!(pos, 1);
    assert!(log.deliver(&mut pos).is_none());
    assert_eq!(pos, 1);
    let mut far: usize = usize::MAX;
    assert!(log.deliver(&mut far).is_none());
    assert_eq!(far, usize::MAX);
}

#[test]
fn append_wakes_registered_slots() {
    let mut log = MsgStream::new();
    let (_, s1) = log.register_reader().unwrap();
    let (id2, s2) = log.register_reader().unwrap();
    let c = Arc::new(Count(AtomicUsize::new(0)));
    s1.register(&waker(c.clone()));
    s2.register(&waker(c.clone()));
    log.unregister_reader(id2);
    let slots = log.append(vec![0]);
    assert_eq!(slots.len(), 1);
    assert_eq!(c.0.load(Ordering::SeqCst), 0);
    wake_all(&slots);
    assert_eq!(c.0.load(Ordering::SeqCst), 1);
}
