use core::future::Future;
use core::pin::Pin;
use core::sync::atomic::{AtomicUsize, Ordering};

use dyn_fn::storage::{
    Arc, Box, DefaultFnStorage, DefaultFutureStorage, Lifecycle, Raw, RawOrBox, Rc, StorageMut,
};
use dyn_fn::{
    AsyncFnMutSend, AsyncFnOnceSend, AsyncFnSend, DynAsyncFn, DynAsyncFnMut, DynAsyncFnOnce,
    LocalDynAsyncFn, LocalDynAsyncFnMut, LocalDynAsyncFnOnce, PendingFuture, PollKind, Polled,
    TrySync,
};
use futures_util::FutureExt;

type Boxed<'a, T> = Pin<std::boxed::Box<dyn Future<Output = T> + Send + 'a>>;

/// Drives `pending` with a waker that does nothing, as a scheduler would.
fn now_or_never<Fut, FutureStorage>(
    pending: &mut PendingFuture<Fut, FutureStorage>,
) -> Option<Fut::Output>
where
    Fut: Future + Unpin,
    FutureStorage: StorageMut<Fut>,
{
    assert_eq!(pending.kind(), PollKind::Future);
    assert_eq!(pending.state(), Lifecycle::Holding);
    let polled = match Pin::new(pending.future_mut()).now_or_never() {
        Some(ret) => Polled::Ready(ret),
        None => Polled::Pending,
    };
    match pending.poll_future(polled) {
        Polled::Ready(ret) => {
            assert!(pending.is_released());
            let left = if core::mem::needs_drop::<Fut>() {
                Lifecycle::Destroyed
            } else {
                Lifecycle::Discarded
            };
            assert_eq!(pending.state(), left);
            Some(ret)
        }
        Polled::Pending => {
            assert!(!pending.is_released());
            assert_eq!(pending.state(), Lifecycle::Holding);
            None
        }
    }
}

/// Takes the result that a synchronous callable left in `pending`.
fn ready<Ret, FutureStorage: StorageMut<Ret>>(
    mut pending: PendingFuture<Ret, FutureStorage>,
) -> Ret {
    assert_eq!(pending.kind(), PollKind::Ready);
    let ret = pending.poll_ready();
    assert!(pending.is_released());
    assert_eq!(pending.state(), Lifecycle::Moved);
    ret
}

fn try_sync_now<Fut, FutureStorage>(
    ret: TrySync<Fut, PendingFuture<Fut, FutureStorage>>,
) -> Option<Fut::Output>
where
    Fut: Future + Unpin,
    FutureStorage: StorageMut<Fut>,
{
    match ret {
        TrySync::Sync(_) => None,
        TrySync::Async(mut pending) => now_or_never(&mut pending),
    }
}

fn sync_of<Ret, Pending>(ret: TrySync<Ret, Pending>) -> Option<Ret> {
    match ret {
        TrySync::Sync(ret) => Some(ret),
        TrySync::Async(_) => None,
    }
}

struct F<'a>(&'a AtomicUsize);

impl<'capture, 'a> AsyncFnSend<&'a str> for F<'capture> {
    type Output = Boxed<'a, usize>;

    fn call(&self, arg: &'a str) -> Boxed<'a, usize> {
        self.0.store(arg.len(), Ordering::Relaxed);
        std::boxed::Box::pin(async move { arg.len() })
    }
}

impl<'capture, 'a> AsyncFnMutSend<&'a str> for F<'capture> {
    type Output = Boxed<'a, usize>;

    fn call(&mut self, arg: &'a str) -> Boxed<'a, usize> {
        <Self as AsyncFnSend<&'a str>>::call(self, arg)
    }
}

impl<'capture, 'a> AsyncFnOnceSend<&'a str> for F<'capture> {
    type Output = Boxed<'a, usize>;

    fn call(self, arg: &'a str) -> Boxed<'a, usize> {
        <Self as AsyncFnSend<&'a str>>::call(&self, arg)
    }
}

type FnStore<T> = DefaultFnStorage<T>;
type FutStore<'a> = DefaultFutureStorage<Boxed<'a, usize>>;
type ValStore = DefaultFutureStorage<usize>;

#[test]
fn dyn_async_fn() {
    let mut len = AtomicUsize::new(0);
    let callback = DynAsyncFn::<_, Arc<_>, FutStore>::new(F(&len));
    let _ = callback.clone();
    assert_eq!(now_or_never(&mut callback.call("test")).unwrap(), 4);
    drop(callback);
    assert_eq!(*len.get_mut(), 4);
    let mut len = AtomicUsize::new(0);
    let callback = DynAsyncFn::<_, FnStore<_>, FutStore>::new(F(&len));
    assert!(!callback.is_sync());
    assert_eq!(try_sync_now(callback.call_try_sync("test")).unwrap(), 4);
    drop(callback);
    assert_eq!(*len.get_mut(), 4);
    let callback = DynAsyncFn::<_, FnStore<_>, FutStore>::new(F(&len));
    assert!(callback.call_sync("test").is_none());
    drop(callback);

    let mut len = AtomicUsize::new(0);
    let callback = DynAsyncFn::<_, Arc<_>, ValStore>::new_sync(|s: &str| {
        len.store(s.len(), Ordering::Relaxed);
        s.len()
    });
    let _ = callback.clone();
    assert_eq!(ready(callback.call("test")), 4);
    drop(callback);
    assert_eq!(*len.get_mut(), 4);
    let mut len = AtomicUsize::new(0);
    let callback = DynAsyncFn::<_, Arc<_>, ValStore>::new_sync(|s: &str| {
        len.store(s.len(), Ordering::Relaxed);
        s.len()
    });
    let _ = callback.clone();
    assert_eq!(sync_of(callback.call_try_sync("test")).unwrap(), 4);
    drop(callback);
    assert_eq!(*len.get_mut(), 4);
    let mut len = AtomicUsize::new(0);
    let callback = DynAsyncFn::<_, Arc<_>, ValStore>::new_sync(|s: &str| {
        len.store(s.len(), Ordering::Relaxed);
        s.len()
    });
    let _ = callback.clone();
    assert_eq!(callback.call_sync("test").unwrap(), 4);
    drop(callback);
    assert_eq!(*len.get_mut(), 4);
}

fn boxed_len<'a>(len: &'a AtomicUsize) -> impl Fn(&'a str) -> Boxed<'a, usize> + Send + Sync + 'a {
    move |s: &'a str| -> Boxed<'a, usize> {
        std::boxed::Box::pin(async move {
            len.store(s.len(), Ordering::Relaxed);
            s.len()
        })
    }
}

fn plain_len<'a>(len: &'a AtomicUsize) -> impl Fn(&str) -> usize + Send + Sync + 'a {
    move |s: &str| {
        len.store(s.len(), Ordering::Relaxed);
        s.len()
    }
}

#[test]
fn local_dyn_async_fn() {
    let len = AtomicUsize::new(0);
    let callback = LocalDynAsyncFn::<_, Arc<_>, FutStore>::new(boxed_len(&len));
    let _ = callback.clone();
    assert_eq!(now_or_never(&mut callback.call("test")).unwrap(), 4);
    assert_eq!(len.load(Ordering::Relaxed), 4);
    let callback = LocalDynAsyncFn::<_, FnStore<_>, FutStore>::new(boxed_len(&len));
    assert!(callback.call_sync("test").is_none());

    let len = AtomicUsize::new(0);
    let callback = LocalDynAsyncFn::<_, Arc<_>, FutStore>::new(boxed_len(&len));
    let _ = callback.clone();
    assert!(!callback.is_sync());
    assert_eq!(try_sync_now(callback.call_try_sync("test")).unwrap(), 4);
    assert_eq!(len.load(Ordering::Relaxed), 4);
    let callback = LocalDynAsyncFn::<_, FnStore<_>, FutStore>::new(boxed_len(&len));
    assert!(callback.call_sync("test").is_none());

    let len = AtomicUsize::new(0);
    let callback = LocalDynAsyncFn::<_, Arc<_>, ValStore>::new_sync(plain_len(&len));
    let _ = callback.clone();
    assert!(callback.is_sync());
    assert_eq!(ready(callback.call("test")), 4);
    assert_eq!(len.load(Ordering::Relaxed), 4);
    drop(LocalDynAsyncFn::<_, FnStore<_>, ValStore>::new_sync(plain_len(&len)));

    let len = AtomicUsize::new(0);
    let callback = LocalDynAsyncFn::<_, Arc<_>, ValStore>::new_sync(plain_len(&len));
    let _ = callback.clone();
    assert_eq!(sync_of(callback.call_try_sync("test")).unwrap(), 4);
    assert_eq!(len.load(Ordering::Relaxed), 4);
    drop(LocalDynAsyncFn::<_, FnStore<_>, ValStore>::new_sync(plain_len(&len)));

    let len = AtomicUsize::new(0);
    let callback = LocalDynAsyncFn::<_, Arc<_>, ValStore>::new_sync(plain_len(&len));
    let _ = callback.clone();
    assert_eq!(callback.call_sync("test").unwrap(), 4);
    assert_eq!(len.load(Ordering::Relaxed), 4);
    drop(LocalDynAsyncFn::<_, FnStore<_>, ValStore>::new_sync(plain_len(&len)));
}

#[test]
fn dyn_async_fn_mut() {
    let mut len = AtomicUsize::new(0);
    let mut callback = DynAsyncFnMut::<_, FnStore<_>, FutStore>::new(F(&len));
    assert_eq!(now_or_never(&mut callback.call("test")).unwrap(), 4);
    drop(callback);
    assert_eq!(*len.get_mut(), 4);
    let mut len = AtomicUsize::new(0);
    let mut callback = DynAsyncFnMut::<_, FnStore<_>, FutStore>::new(F(&len));
    assert!(!callback.is_sync());
    assert_eq!(try_sync_now(callback.call_try_sync("test")).unwrap(), 4);
    drop(callback);
    assert_eq!(*len.get_mut(), 4);
    let mut callback = DynAsyncFnMut::<_, FnStore<_>, FutStore>::new(F(&len));
    assert!(callback.call_sync("test").is_none());
    drop(callback);

    let len = AtomicUsize::new(0);
    let mut callback = DynAsyncFnMut::<_, FnStore<_>, ValStore>::new_sync(plain_len(&len));
    assert_eq!(ready(callback.call("test")), 4);
    assert_eq!(len.load(Ordering::Relaxed), 4);
    let len = AtomicUsize::new(0);
    let mut callback = DynAsyncFnMut::<_, FnStore<_>, ValStore>::new_sync(plain_len(&len));
    assert_eq!(sync_of(callback.call_try_sync("test")).unwrap(), 4);
    assert_eq!(len.load(Ordering::Relaxed), 4);
    let len = AtomicUsize::new(0);
    let mut callback = DynAsyncFnMut::<_, FnStore<_>, ValStore>::new_sync(plain_len(&len));
    assert_eq!(callback.call_sync("test").unwrap(), 4);
    assert_eq!(len.load(Ordering::Relaxed), 4);
}

#[test]
fn local_dyn_async_fn_mut() {
    let len = AtomicUsize::new(0);
    let mut callback = LocalDynAsyncFnMut::<_, FnStore<_>, FutStore>::new(boxed_len(&len));
    assert_eq!(now_or_never(&mut callback.call("test")).unwrap(), 4);
    assert_eq!(len.load(Ordering::Relaxed), 4);
    let mut callback = LocalDynAsyncFnMut::<_, FnStore<_>, FutStore>::new(boxed_len(&len));
    assert!(callback.call_sync("test").is_none());

    let len = AtomicUsize::new(0);
    let mut callback = LocalDynAsyncFnMut::<_, FnStore<_>, FutStore>::new(boxed_len(&len));
    assert_eq!(try_sync_now(callback.call_try_sync("test")).unwrap(), 4);
    assert_eq!(len.load(Ordering::Relaxed), 4);

    let len = AtomicUsize::new(0);
    let mut callback = LocalDynAsyncFnMut::<_, FnStore<_>, ValStore>::new_sync(plain_len(&len));
    assert_eq!(ready(callback.call("test")), 4);
    assert_eq!(len.load(Ordering::Relaxed), 4);
    let len = AtomicUsize::new(0);
    let mut callback = LocalDynAsyncFnMut::<_, FnStore<_>, ValStore>::new_sync(plain_len(&len));
    assert_eq!(sync_of(callback.call_try_sync("test")).unwrap(), 4);
    assert_eq!(len.load(Ordering::Relaxed), 4);
    let len = AtomicUsize::new(0);
    let mut callback = LocalDynAsyncFnMut::<_, FnStore<_>, ValStore>::new_sync(plain_len(&len));
    assert_eq!(callback.call_sync("test").unwrap(), 4);
    assert_eq!(len.load(Ordering::Relaxed), 4);
}

#[test]
fn dyn_async_fn_once() {
    let mut len = AtomicUsize::new(0);
    let callback = DynAsyncFnOnce::<_, FnStore<_>, FutStore>::new(F(&len));
    assert_eq!(now_or_never(&mut callback.call("test")).unwrap(), 4);
    assert_eq!(*len.get_mut(), 4);
    let mut len = AtomicUsize::new(0);
    let callback = DynAsyncFnOnce::<_, FnStore<_>, FutStore>::new(F(&len));
    assert!(!callback.is_sync());
    assert_eq!(try_sync_now(callback.call_try_sync("test")).unwrap(), 4);
    assert_eq!(*len.get_mut(), 4);
    let callback = DynAsyncFnOnce::<_, FnStore<_>, FutStore>::new(F(&len));
    assert!(callback.call_sync("test").is_err());

    let len = AtomicUsize::new(0);
    let callback = DynAsyncFnOnce::<_, FnStore<_>, ValStore>::new_sync(plain_len(&len));
    assert_eq!(ready(callback.call("test")), 4);
    assert_eq!(len.load(Ordering::Relaxed), 4);
    let len = AtomicUsize::new(0);
    let callback = DynAsyncFnOnce::<_, FnStore<_>, ValStore>::new_sync(plain_len(&len));
    assert_eq!(sync_of(callback.call_try_sync("test")).unwrap(), 4);
    assert_eq!(len.load(Ordering::Relaxed), 4);
    let len = AtomicUsize::new(0);
    let callback = DynAsyncFnOnce::<_, FnStore<_>, ValStore>::new_sync(plain_len(&len));
    assert_eq!(callback.call_sync("test").ok().unwrap(), 4);
    assert_eq!(len.load(Ordering::Relaxed), 4);
}

#[test]
fn local_dyn_async_fn_once() {
    let len = AtomicUsize::new(0);
    let callback = LocalDynAsyncFnOnce::<_, FnStore<_>, FutStore>::new(boxed_len(&len));
    assert_eq!(now_or_never(&mut callback.call("test")).unwrap(), 4);
    assert_eq!(len.load(Ordering::Relaxed), 4);
    let callback = LocalDynAsyncFnOnce::<_, FnStore<_>, FutStore>::new(boxed_len(&len));
    assert!(callback.call_sync("test").is_err());

    let len = AtomicUsize::new(0);
    let callback = LocalDynAsyncFnOnce::<_, FnStore<_>, FutStore>::new(boxed_len(&len));
    assert_eq!(try_sync_now(callback.call_try_sync("test")).unwrap(), 4);
    assert_eq!(len.load(Ordering::Relaxed), 4);

    let len = AtomicUsize::new(0);
    let callback = LocalDynAsyncFnOnce::<_, FnStore<_>, ValStore>::new_sync(plain_len(&len));
    assert_eq!(ready(callback.call("test")), 4);
    assert_eq!(len.load(Ordering::Relaxed), 4);
    let len = AtomicUsize::new(0);
    let callback = LocalDynAsyncFnOnce::<_, FnStore<_>, ValStore>::new_sync(plain_len(&len));
    assert_eq!(sync_of(callback.call_try_sync("test")).unwrap(), 4);
    assert_eq!(len.load(Ordering::Relaxed), 4);
    let len = AtomicUsize::new(0);
    let callback = LocalDynAsyncFnOnce::<_, FnStore<_>, ValStore>::new_sync(plain_len(&len));
    assert_eq!(callback.call_sync("test").ok().unwrap(), 4);
    assert_eq!(len.load(Ordering::Relaxed), 4);
}

struct CountDrops<'a>(&'a AtomicUsize);

impl Drop for CountDrops<'_> {
    fn drop(&mut self) {
        self.0.fetch_add(1, Ordering::Relaxed);
    }
}

/// A computation that is pending a given number of times before it
/// completes, and that counts its own destruction.
struct Countdown<'a> {
    left: u32,
    guard: CountDrops<'a>,
}

impl Future for Countdown<'_> {
    type Output = u32;

    fn poll(
        mut self: Pin<&mut Self>,
        _cx: &mut core::task::Context<'_>,
    ) -> core::task::Poll<u32> {
        if self.left == 0 {
            core::task::Poll::Ready(self.guard.0.load(Ordering::Relaxed) as u32 + 10)
        } else {
            self.left -= 1;
            core::task::Poll::Pending
        }
    }
}

#[test]
fn pending_future_is_released_on_completion() {
    let drops = AtomicUsize::new(0);
    let callback = LocalDynAsyncFn::<_, Box<_>, Raw<Countdown, 16, 8>>::new(|left: u32| {
        Countdown { left, guard: CountDrops(&drops) }
    });
    let mut pending = callback.call(2);
    assert_eq!(now_or_never(&mut pending), None);
    assert_eq!(now_or_never(&mut pending), None);
    assert_eq!(drops.load(Ordering::Relaxed), 0);
    assert_eq!(now_or_never(&mut pending), Some(10));
    assert_eq!(drops.load(Ordering::Relaxed), 1);
    pending.drop();
    assert_eq!(pending.state(), Lifecycle::Destroyed);
    drop(pending);
    assert_eq!(drops.load(Ordering::Relaxed), 1);
}

#[test]
fn abandoned_future_is_released_once() {
    let drops = AtomicUsize::new(0);
    let callback =
        LocalDynAsyncFn::<_, Box<_>, DefaultFutureStorage<Countdown>>::new(|left: u32| {
            Countdown { left, guard: CountDrops(&drops) }
        });
    let mut pending = callback.call(5);
    assert_eq!(now_or_never(&mut pending), None);
    assert_eq!(drops.load(Ordering::Relaxed), 0);
    pending.drop();
    assert!(pending.is_released());
    assert_eq!(pending.state(), Lifecycle::Destroyed);
    assert_eq!(drops.load(Ordering::Relaxed), 1);
    pending.drop();
    assert_eq!(pending.state(), Lifecycle::Destroyed);
    assert_eq!(drops.load(Ordering::Relaxed), 1);
    drop(pending);
    assert_eq!(drops.load(Ordering::Relaxed), 1);

    let unpolled = callback.call(5);
    drop(unpolled);
    assert_eq!(drops.load(Ordering::Relaxed), 2);
}

#[test]
fn asynchronous_path_gives_what_the_synchronous_path_gives() {
    let callback = LocalDynAsyncFn::<_, Rc<_>, ValStore>::new_sync(|s: &str| s.len());
    let through_storage = ready(callback.call("test"));
    let direct = callback.call_sync("test").unwrap();
    assert_eq!(through_storage, 4);
    assert_eq!(direct, 4);
    assert_eq!(sync_of(callback.call_try_sync("test")), Some(4));

    let asynchronous = LocalDynAsyncFn::<_, Rc<_>, DefaultFutureStorage<_>>::new(|s: &str| {
        core::future::ready(s.len())
    });
    assert_eq!(now_or_never(&mut asynchronous.call("test")), Some(4));
}

#[test]
fn future_storage_is_chosen_by_the_size_of_the_future() {
    let small = LocalDynAsyncFn::<_, Box<_>, RawOrBox<[u8; 8], 8, 8>>::new_sync(|n: u8| [n; 8]);
    let pending = small.call(1);
    assert_eq!(ready(pending), [1; 8]);
    let large = LocalDynAsyncFn::<_, Box<_>, RawOrBox<[u8; 9], 8, 8>>::new_sync(|n: u8| [n; 9]);
    assert_eq!(ready(large.call(2)), [2; 9]);
}

#[test]
fn async_constructors_from_owned_pointers() {
    let boxed = LocalDynAsyncFn::<_, Box<_>, ValStore>::new_sync_box(std::boxed::Box::new(
        |s: &str| s.len(),
    ));
    assert!(boxed.is_sync());
    assert_eq!(boxed.call_sync("ab"), Some(2));
    let boxed = LocalDynAsyncFn::<_, Box<_>, DefaultFutureStorage<_>>::new_box(
        std::boxed::Box::new(|s: &str| core::future::ready(s.len())),
    );
    assert!(!boxed.is_sync());
    assert!(boxed.call_sync("ab").is_none());
    assert_eq!(now_or_never(&mut boxed.call("abc")), Some(3));
    let adaptive = DynAsyncFn::<_, RawOrBox<_, 0, 1>, ValStore>::new_sync_box(
        std::boxed::Box::new(|s: &str| s.len()),
    );
    assert_eq!(adaptive.call_sync("abcd"), Some(4));
    let shared = LocalDynAsyncFn::<_, Rc<_>, ValStore>::new_sync_rc(std::rc::Rc::new(
        |s: &str| s.len(),
    ));
    assert_eq!(shared.clone().call_sync("abcde"), Some(5));
    let shared = LocalDynAsyncFn::<_, Rc<_>, DefaultFutureStorage<_>>::new_rc(std::rc::Rc::new(
        |s: &str| core::future::ready(s.len()),
    ));
    assert_eq!(now_or_never(&mut shared.call("abcdef")), Some(6));
    let atomic = DynAsyncFn::<_, Arc<_>, ValStore>::new_sync_arc(std::sync::Arc::new(
        |s: &str| s.len(),
    ));
    assert_eq!(atomic.clone().call_sync("abcdefg"), Some(7));
    let atomic = DynAsyncFn::<_, Arc<_>, DefaultFutureStorage<_>>::new_arc(std::sync::Arc::new(
        |s: &str| core::future::ready(s.len()),
    ));
    assert_eq!(now_or_never(&mut atomic.call("abcdefgh")), Some(8));
    let mut exclusive = DynAsyncFnMut::<_, Box<_>, ValStore>::new_sync_box(
        std::boxed::Box::new(|s: &str| s.len()),
    );
    assert_eq!(exclusive.call_sync("a"), Some(1));
    let once = DynAsyncFnOnce::<_, Box<_>, DefaultFutureStorage<_>>::new_box(
        std::boxed::Box::new(|s: &str| core::future::ready(s.len())),
    );
    assert_eq!(now_or_never(&mut once.call("ab")), Some(2));
}

#[test]
fn once_container_that_is_not_synchronous_is_handed_back_by_call_sync() {
    let drops = AtomicUsize::new(0);
    let guard = CountDrops(&drops);
    let callback = LocalDynAsyncFnOnce::<_, Box<_>, DefaultFutureStorage<_>>::new(
        move |n: usize| {
            let guard = guard;
            core::future::ready(guard.0.load(Ordering::Relaxed) + n)
        },
    );
    let (callback, arg) = match callback.call_sync(1) {
        Ok(_) => panic!("an asynchronous callable has no synchronous path"),
        Err(back) => back,
    };
    assert_eq!(arg, 1);
    assert_eq!(drops.load(Ordering::Relaxed), 0);
    assert!(!callback.is_sync());
    assert_eq!(now_or_never(&mut callback.call(arg)), Some(1));
    assert_eq!(drops.load(Ordering::Relaxed), 1);

    let len = AtomicUsize::new(0);
    let send = DynAsyncFnOnce::<_, Box<_>, FutStore>::new(F(&len));
    let (send, arg) = match send.call_sync("test") {
        Ok(_) => panic!("an asynchronous callable has no synchronous path"),
        Err(back) => back,
    };
    assert_eq!(len.load(Ordering::Relaxed), 0);
    assert_eq!(now_or_never(&mut send.call(arg)), Some(4));
    assert_eq!(len.load(Ordering::Relaxed), 4);
}

#[test]
fn stored_computation_is_placed_by_its_size() {
    let fits = LocalDynAsyncFn::<_, Box<_>, RawOrBox<[u8; 8], 8, 8>>::new_sync(|n: u8| [n; 8]);
    let mut pending = fits.call(1);
    assert!(pending.is_in_place());
    assert_eq!(pending.poll_ready(), [1; 8]);
    assert!(pending.is_in_place());
    let spills = LocalDynAsyncFn::<_, Box<_>, RawOrBox<[u8; 9], 8, 8>>::new_sync(|n: u8| [n; 9]);
    let mut pending = spills.call(2);
    assert!(!pending.is_in_place());
    pending.drop();
    assert!(!pending.is_in_place());
    assert_eq!(pending.state(), Lifecycle::Discarded);
}

#[test]
fn container_is_torn_down_through_its_storage() {
    let drops = AtomicUsize::new(0);
    let guard = CountDrops(&drops);
    let callback = LocalDynAsyncFnOnce::<_, RawOrBox<_, 8, 8>, ValStore>::new_sync(
        move |n: usize| {
            let guard = guard;
            guard.0.load(Ordering::Relaxed) + n
        },
    );
    let mut paired = callback.into_storage();
    assert!(paired.vtable().call_sync);
    assert!(paired.vtable().drop_vtable.drop_inner);
    paired.drop();
    assert!(paired.is_released());
    assert_eq!(paired.state(), Lifecycle::Destroyed);
    assert_eq!(drops.load(Ordering::Relaxed), 1);
    core::mem::forget(paired);
}

fn assert_send_sync<T: Send + Sync>(_: &T) {}

fn assert_send<T: Send>(_: &T) {}

#[test]
fn send_containers_and_their_futures_are_send() {
    let callback = DynAsyncFn::<_, Arc<_>, DefaultFutureStorage<_>>::new(|s: &str| {
        core::future::ready(s.len())
    });
    assert_send_sync(&callback);
    let mut pending = callback.call("test");
    assert_send(&pending);
    assert_eq!(now_or_never(&mut pending), Some(4));
    let len = AtomicUsize::new(0);
    let boxed = DynAsyncFnOnce::<_, Raw<_, 8, 8>, FutStore>::new(F(&len));
    assert_send(&boxed);
    let mut pending = boxed.call("test");
    assert_send(&pending);
    assert_eq!(now_or_never(&mut pending), Some(4));
}
