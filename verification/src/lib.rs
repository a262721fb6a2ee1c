//! Callable containers with a storage chosen at the type level.
//!
//! A container holds one callable in a [`storage`] backend: in place, in an
//! owned heap block, or in a reference-counted heap block. It is invoked by
//! shared reference, by exclusive reference, or once by value. An
//! asynchronous callable returns a computation, which is kept in a storage
//! of its own until it completes or is abandoned.
//!
//! Every backend keeps an explicit account of what became of its payload,
//! and the contracts of this crate are stated over that account:
//!
//! - [`storage`] holds the backends and the states of a payload;
//! - [`dispatch`] holds the release descriptor of a payload and the pairing
//!   of a storage with its dispatch table;
//! - [`sync`] and [`async_fn`] hold the containers;
//! - [`pending`] holds the computation that an asynchronous call starts;
//! - [`laws`] states what holds of all of them.

pub mod align;
pub mod async_fn;
pub mod dispatch;
pub mod laws;
pub mod pending;
pub mod storage;
pub mod sync;

pub use async_fn::{
    AsyncFnMutSend, AsyncFnOnceSend, AsyncFnSend, DynAsyncFn, DynAsyncFnMut, DynAsyncFnOnce,
    LocalDynAsyncFn, LocalDynAsyncFnMut, LocalDynAsyncFnOnce, TrySync,
};
pub use pending::{PendingFuture, PollKind, Polled};
pub use sync::{DynFn, DynFnMut, DynFnOnce, LocalDynFn, LocalDynFnMut, LocalDynFnOnce};
