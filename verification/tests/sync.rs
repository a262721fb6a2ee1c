use core::sync::atomic::{AtomicUsize, Ordering};

use dyn_fn::storage::{Arc, Box, DefaultFnStorage, Lifecycle, Raw, RawOrBox, Rc};
use dyn_fn::sync::Convention;
use dyn_fn::{DynFn, DynFnMut, DynFnOnce, LocalDynFn, LocalDynFnMut, LocalDynFnOnce};

#[test]
fn dyn_fn() {
    let mut len = AtomicUsize::new(0);
    let callback = DynFn::<_, Arc<_>>::new(|s: &str| {
        len.store(s.len(), Ordering::Relaxed);
        s.len()
    });
    let _ = callback.clone();
    assert_eq!(callback.call("test"), 4);
    drop(callback);
    assert_eq!(*len.get_mut(), 4);
    drop(DynFn::<_, DefaultFnStorage<_>>::new(|s: &str| {
        len.store(s.len(), Ordering::Relaxed);
        s.len()
    }));
}

#[test]
fn local_dyn_fn() {
    let mut len = AtomicUsize::new(0);
    let callback = LocalDynFn::<_, Arc<_>>::new(|s: &str| {
        len.store(s.len(), Ordering::Relaxed);
        s.len()
    });
    let _ = callback.clone();
    assert_eq!(callback.call("test"), 4);
    drop(callback);
    assert_eq!(*len.get_mut(), 4);
    drop(LocalDynFn::<_, DefaultFnStorage<_>>::new(|s: &str| {
        len.store(s.len(), Ordering::Relaxed);
        s.len()
    }));
}

#[test]
fn dyn_fn_mut() {
    let mut len = AtomicUsize::new(0);
    let mut callback = DynFnMut::<_, DefaultFnStorage<_>>::new(|s: &str| {
        len.store(s.len(), Ordering::Relaxed);
        s.len()
    });
    assert_eq!(callback.call("test"), 4);
    drop(callback);
    assert_eq!(*len.get_mut(), 4);
    drop(DynFnMut::<_, DefaultFnStorage<_>>::new(|s: &str| {
        len.store(s.len(), Ordering::Relaxed);
        s.len()
    }));
}

#[test]
fn local_dyn_fn_mut() {
    let mut len = AtomicUsize::new(0);
    let mut callback = LocalDynFnMut::<_, DefaultFnStorage<_>>::new(|s: &str| {
        len.store(s.len(), Ordering::Relaxed);
        s.len()
    });
    assert_eq!(callback.call("test"), 4);
    drop(callback);
    assert_eq!(*len.get_mut(), 4);
    drop(LocalDynFnMut::<_, DefaultFnStorage<_>>::new(|s: &str| {
        len.store(s.len(), Ordering::Relaxed);
        s.len()
    }));
}

#[test]
fn dyn_fn_once() {
    let mut len = AtomicUsize::new(0);
    let callback = DynFnOnce::<_, DefaultFnStorage<_>>::new(|s: &str| {
        len.store(s.len(), Ordering::Relaxed);
        s.len()
    });
    assert_eq!(callback.call("test"), 4);
    assert_eq!(*len.get_mut(), 4);
    drop(DynFnOnce::<_, DefaultFnStorage<_>>::new(|s: &str| {
        len.store(s.len(), Ordering::Relaxed);
        s.len()
    }));
}

#[test]
fn local_dyn_fn_once() {
    let mut len = AtomicUsize::new(0);
    let callback = LocalDynFnOnce::<_, DefaultFnStorage<_>>::new(|s: &str| {
        len.store(s.len(), Ordering::Relaxed);
        s.len()
    });
    assert_eq!(callback.call("test"), 4);
    assert_eq!(*len.get_mut(), 4);
    drop(LocalDynFnOnce::<_, DefaultFnStorage<_>>::new(|s: &str| {
        len.store(s.len(), Ordering::Relaxed);
        s.len()
    }));
}

fn up_to_space(s: &str) -> &str {
    s.split(' ').next().unwrap_or("")
}

#[test]
fn result_may_borrow_from_the_argument() {
    let first_word = LocalDynFn::<_, Raw<_, 0, 1>>::new(up_to_space);
    let owned = String::from("no allocation");
    assert_eq!(first_word.call(owned.as_str()), "no");
    assert_eq!(first_word.call("dynamic callback"), "dynamic");
}

#[test]
fn fn_mut_keeps_its_state_between_calls() {
    let mut total = 0u32;
    let mut add = LocalDynFnMut::<_, Raw<_, 8, 8>>::new(|n: u32| {
        total += n;
        total
    });
    assert_eq!(add.call(2), 2);
    assert_eq!(add.call(3), 5);
    assert_eq!(add.call(10), 15);
    drop(add);
    assert_eq!(total, 15);
}

#[test]
fn fn_once_consumes_what_it_captured() {
    let drops = AtomicUsize::new(0);
    let guard = CountDrops(&drops);
    let callback = LocalDynFnOnce::<_, RawOrBox<_, 8, 8>>::new(move |n: usize| {
        let guard = guard;
        guard.0.load(Ordering::Relaxed) + n
    });
    assert_eq!(drops.load(Ordering::Relaxed), 0);
    assert_eq!(callback.call(3), 3);
    assert_eq!(drops.load(Ordering::Relaxed), 1);
}

#[test]
fn fn_once_that_is_never_called_destroys_what_it_captured() {
    let drops = AtomicUsize::new(0);
    let guard = CountDrops(&drops);
    let callback = DynFnOnce::<_, Box<_>>::new(move |n: usize| {
        let guard = guard;
        guard.0.load(Ordering::Relaxed) + n
    });
    assert_eq!(drops.load(Ordering::Relaxed), 0);
    let mut paired = callback.into_storage();
    assert_eq!(paired.vtable().convention, Convention::Once);
    paired.drop();
    assert!(paired.is_released());
    assert_eq!(paired.state(), Lifecycle::Destroyed);
    assert_eq!(drops.load(Ordering::Relaxed), 1);
    paired.drop();
    assert_eq!(drops.load(Ordering::Relaxed), 1);
    core::mem::forget(paired);

    let guard = CountDrops(&drops);
    let callback = LocalDynFnOnce::<_, Raw<_, 8, 8>>::new(move |n: usize| {
        let guard = guard;
        guard.0.load(Ordering::Relaxed) + n
    });
    drop(callback);
    assert_eq!(drops.load(Ordering::Relaxed), 2);
}

struct CountDrops<'a>(&'a AtomicUsize);

impl Drop for CountDrops<'_> {
    fn drop(&mut self) {
        self.0.fetch_add(1, Ordering::Relaxed);
    }
}

#[test]
fn clones_share_one_callable() {
    let drops = AtomicUsize::new(0);
    let guard = CountDrops(&drops);
    let first = LocalDynFn::<_, Rc<_>>::new(move |n: usize| {
        let guard = &guard;
        guard.0.load(Ordering::Relaxed) + n
    });
    let second = first.clone();
    let third = second.clone();
    assert_eq!(first.call(1), 1);
    drop(first);
    assert_eq!(second.call(2), 2);
    drop(second);
    assert_eq!(drops.load(Ordering::Relaxed), 0);
    assert_eq!(third.call(3), 3);
    drop(third);
    assert_eq!(drops.load(Ordering::Relaxed), 1);
}

#[test]
fn constructors_from_owned_pointers() {
    let boxed = LocalDynFn::<_, Box<_>>::new_box(std::boxed::Box::new(|n: u8| n + 1));
    assert_eq!(boxed.call(1), 2);
    let adaptive = LocalDynFn::<_, RawOrBox<_, 0, 1>>::new_box(std::boxed::Box::new(|n: u8| n + 2));
    assert_eq!(adaptive.call(1), 3);
    let shared = std::rc::Rc::new(|n: u8| n + 3);
    let local = LocalDynFn::<_, Rc<_>>::new_rc(shared.clone());
    assert_eq!(local.call(1), 4);
    assert_eq!(std::rc::Rc::strong_count(&shared), 2);
    drop(local);
    assert_eq!(std::rc::Rc::strong_count(&shared), 1);
    let atomic = std::sync::Arc::new(|n: u8| n + 4);
    let send = DynFn::<_, Arc<_>>::new_arc(atomic.clone());
    assert_eq!(send.call(1), 5);
    let local = LocalDynFn::<_, Arc<_>>::new_arc(atomic.clone());
    assert_eq!(local.call(2), 6);
    assert_eq!(std::sync::Arc::strong_count(&atomic), 3);
    let mut exclusive = DynFnMut::<_, Box<_>>::new_box(std::boxed::Box::new(|n: u8| n + 5));
    assert_eq!(exclusive.call(1), 6);
    let mut exclusive = LocalDynFnMut::<_, RawOrBox<_, 0, 1>>::new_box(std::boxed::Box::new(|n: u8| n + 6));
    assert_eq!(exclusive.call(1), 7);
    let once = DynFnOnce::<_, RawOrBox<_, 0, 1>>::new_box(std::boxed::Box::new(|n: u8| n + 7));
    assert_eq!(once.call(1), 8);
    let once = LocalDynFnOnce::<_, Box<_>>::new_box(std::boxed::Box::new(|n: u8| n + 8));
    assert_eq!(once.call(1), 9);
}

fn assert_send_sync<T: Send + Sync>(_: &T) {}

#[test]
fn send_containers_are_send_and_sync() {
    let callback = DynFn::<_, Arc<_>>::new(|n: u32| n * 2);
    assert_send_sync(&callback);
    assert_send_sync(&callback.clone());
    assert_eq!(callback.call(21), 42);
    let mut exclusive = DynFnMut::<_, Raw<_, 0, 1>>::new(|n: u32| n + 1);
    assert_send_sync(&exclusive);
    assert_eq!(exclusive.call(1), 2);
    let once = DynFnOnce::<_, Box<_>>::new(|n: u32| n + 1);
    assert_send_sync(&once);
    assert_eq!(once.call(1), 2);
}
