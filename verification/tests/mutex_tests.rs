use drogue_device::synchronization::mutex::{Exclusive, Lock, LockFuture, LockPoll, Mutex};
use drogue_device::synchronization::waiter_queue::WAITER_CAPACITY;

fn ready<T>(p: LockPoll<T>) -> Option<T> {
    match p {
        LockPoll::Ready(v) => Some(v),
        LockPoll::Pending => None,
    }
}

#[test]
fn new_mutex_is_free_with_no_waiters() {
    let m = Mutex::new(3u32);
    assert!(!m.is_locked());
    assert_eq!(m.waiter_count(), 0);
}

#[test]
fn first_lock_is_granted_the_value() {
    let mut m = Mutex::new(42u32);
    let mut f = m.lock();
    assert!(!f.is_waiting());
    assert_eq!(ready(f.poll(&mut m, 1)), Some(42));
    assert!(m.is_locked());
    assert_eq!(m.waiter_count(), 0);
    assert!(!f.is_waiting());
}

#[test]
fn second_lock_parks_until_unlock() {
    let mut m = Mutex::new(String::from("a"));
    let mut f1 = m.lock();
    let mut f2 = m.lock();
    let v = ready(f1.poll(&mut m, 1)).unwrap();
    assert_eq!(v, "a");
    assert!(ready(f2.poll(&mut m, 2)).is_none());
    assert!(f2.is_waiting());
    assert_eq!(m.waiter_count(), 1);
    // polling again while parked does not park a second time
    assert!(ready(f2.poll(&mut m, 2)).is_none());
    assert_eq!(m.waiter_count(), 1);
    assert_eq!(m.unlock(String::from("b")), Some(2));
    assert_eq!(m.waiter_count(), 0);
    assert_eq!(ready(f2.poll(&mut m, 2)), Some(String::from("b")));
}

#[test]
fn unlock_with_no_waiter_wakes_nobody() {
    let mut m = Mutex::new(1u8);
    let mut f = m.lock();
    let v = ready(f.poll(&mut m, 9)).unwrap();
    assert_eq!(m.unlock(v + 1), None);
    assert!(!m.is_locked());
    let mut g = m.lock();
    assert_eq!(ready(g.poll(&mut m, 10)), Some(2));
}

#[test]
fn waiters_are_woken_in_arrival_order() {
    let mut m = Mutex::new(0u32);
    let mut holder = m.lock();
    assert_eq!(ready(holder.poll(&mut m, 100)), Some(0));
    let mut futures: Vec<LockFuture> = (0..5).map(|_| m.lock()).collect();
    for (i, f) in futures.iter_mut().enumerate() {
        assert!(ready(f.poll(&mut m, 10 + i as u64)).is_none());
    }
    assert_eq!(m.waiter_count(), 5);
    for (i, f) in futures.iter_mut().enumerate() {
        let woken = m.unlock(i as u32);
        assert_eq!(woken, Some(10 + i as u64));
        assert_eq!(ready(f.poll(&mut m, 10 + i as u64)), Some(i as u32));
    }
    assert_eq!(m.waiter_count(), 0);
    assert_eq!(m.unlock(99), None);
}

#[test]
fn waiter_queue_holds_at_most_capacity() {
    let mut m = Mutex::new(0u32);
    let mut holder = m.lock();
    assert!(holder.can_poll(&m));
    assert_eq!(ready(holder.poll(&mut m, 0)), Some(0));
    let mut futures: Vec<LockFuture> = (0..WAITER_CAPACITY).map(|_| m.lock()).collect();
    for (i, f) in futures.iter_mut().enumerate() {
        assert!(f.can_poll(&m));
        assert!(ready(f.poll(&mut m, i as u64 + 1)).is_none());
    }
    assert_eq!(m.waiter_count(), 16);
    let extra = m.lock();
    assert!(!extra.can_poll(&m));
    // a parked request may still poll
    assert!(futures[0].can_poll(&m));
    assert!(ready(futures[0].poll(&mut m, 1)).is_none());
    assert_eq!(m.waiter_count(), 16);
    // once the value is back, any request may poll
    assert_eq!(m.unlock(5), Some(1));
    assert!(extra.can_poll(&m));
}

#[test]
fn exclusive_lends_and_returns_the_value() {
    let mut m = Mutex::new(vec![1u8, 2]);
    let mut f = m.lock();
    let v = ready(f.poll(&mut m, 1)).unwrap();
    let mut e = Exclusive::new(77, v);
    assert_eq!(e.address(), 77);
    assert_eq!(e.deref(), &vec![1u8, 2]);
    e.deref_mut().push(3);
    assert_eq!(e.deref().len(), 3);
    assert_eq!(e.address(), 77);
    let message = e.release();
    assert_eq!(m.on_notification(message), None);
    let mut g = m.lock();
    assert_eq!(ready(g.poll(&mut m, 2)), Some(vec![1u8, 2, 3]));
}

#[test]
fn notification_wakes_the_front_waiter() {
    let mut m = Mutex::new(7i32);
    let mut a = m.lock();
    let mut b = m.lock();
    let mut c = m.lock();
    let v = ready(a.poll(&mut m, 1)).unwrap();
    assert!(ready(b.poll(&mut m, 2)).is_none());
    assert!(ready(c.poll(&mut m, 3)).is_none());
    let e = Exclusive::new(5, v);
    assert_eq!(m.on_notification(e.release()), Some(2));
    assert_eq!(m.waiter_count(), 1);
    assert_eq!(ready(b.poll(&mut m, 2)), Some(7));
}

#[test]
fn woken_request_can_lose_the_value_to_a_newcomer() {
    // A parked request that finds the value taken again stays parked and is
    // not queued a second time.
    let mut m = Mutex::new(1u32);
    let mut a = m.lock();
    let mut b = m.lock();
    let v = ready(a.poll(&mut m, 1)).unwrap();
    assert!(ready(b.poll(&mut m, 2)).is_none());
    assert_eq!(m.unlock(v), Some(2));
    let mut newcomer = m.lock();
    assert_eq!(ready(newcomer.poll(&mut m, 3)), Some(1));
    assert!(ready(b.poll(&mut m, 2)).is_none());
    assert_eq!(m.waiter_count(), 0);
}

#[test]
fn lock_request_starts_unparked() {
    let mut m = Mutex::new(1u16);
    m.mount(12);
    let (address, mut f) = m.on_request(Lock);
    assert_eq!(address, 12);
    assert!(!f.is_waiting());
    assert_eq!(ready(f.poll(&mut m, 4)), Some(1));
    let (address, g) = m.on_request(Lock);
    assert_eq!(address, 12);
    assert!(!g.is_waiting());
    assert!(!LockFuture::new().is_waiting());
}

#[test]
fn mounting_sets_the_address_and_keeps_the_state() {
    let mut m = Mutex::new(3u8);
    assert_eq!(m.address(), None);
    let mut f = m.lock();
    assert_eq!(ready(f.poll(&mut m, 1)), Some(3));
    m.mount(40);
    assert_eq!(m.address(), Some(40));
    assert!(m.is_locked());
    m.mount(41);
    assert_eq!(m.address(), Some(41));
    assert_eq!(m.unlock(3), None);
    assert_eq!(m.address(), Some(41));
}

#[test]
fn granted_request_hands_back_to_the_mounted_address() {
    let mut m = Mutex::new(String::from("x"));
    m.mount(9);
    let (address, mut f) = m.on_request(Lock);
    let v = ready(f.poll(&mut m, 1)).unwrap();
    let e = Exclusive::new(address, v);
    assert_eq!(e.address(), 9);
    assert_eq!(m.on_notification(e.release()), None);
    assert!(!m.is_locked());
}
