use lib::sync::{Lazy, Mutex, Once};

#[test]
fn test_works() {
    let mut n = 0;
    let mut num = Once::new();
    num.call_once(|| n);
    n += 1;
    num.call_once(|| n);
    assert_eq!(*num.get().unwrap(), 0);
}

fn func() -> bool {
    return false;
}

#[test]
fn test_static() {
    let mut true_or_false: Lazy<bool> = Lazy::new();
    let value = *true_or_false.get(|| if func() { true } else { false });
    assert_eq!(value, false);
}

#[test]
fn lazy_computes_once() {
    let mut calls = 0;
    let mut lazy: Lazy<u32> = Lazy::new();
    assert_eq!(*lazy.get(|| { calls += 1; 7 }), 7);
    assert_eq!(*lazy.get(|| 9), 7);
    assert_eq!(calls, 1);
}

#[test]
fn once_is_empty_until_called() {
    let once: Once<u8> = Once::new();
    assert_eq!(once.get(), None);
}

#[test]
fn mutex_locks_once_at_a_time() {
    let mut m = Mutex::new(5u32);
    {
        let mut guard = m.try_lock().unwrap();
        assert_eq!(*guard.get(), 5);
        guard.set(6);
    }
    // The guard was dropped without unlocking, so the mutex stays locked.
    assert!(m.try_lock().is_none());
    *m.get_mut() = 8;
    assert_eq!(m.into_inner(), 8);
}

#[test]
fn mutex_unlock_gives_the_lock_back() {
    let mut m = Mutex::new(1u8);
    let guard = m.try_lock().unwrap();
    guard.unlock();
    let guard = m.try_lock().unwrap();
    assert_eq!(*guard.get(), 1);
}
