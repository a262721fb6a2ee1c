//! Containers of asynchronous callables.

use crate::dispatch::{DropVTable, DynStorage, StorageMoved, VTable};
use crate::pending::{store_future, PendingFuture, PollKind};
use crate::storage::{
    Arc, Box, Content, Rc, RawOrBox, Storage, StorageMut, StorageSend, StorageShared,
};
use crate::sync::{invoke, invoke_mut, invoke_once, Convention};
use crate::align::{AlignTo, ValidAlign};
use core::marker::PhantomData;
use std::boxed::Box as StdBox;
use std::rc::Rc as StdRc;
use std::sync::Arc as StdArc;
use vstd::prelude::*;

verus! {

/// A callable invoked by shared reference that can cross threads, and what
/// it returns with it.
pub trait AsyncFnSend<Arg>: Send + Sync {
    /// What a call returns: the computation it starts.
    type Output: Send;

    /// The arguments that the callable takes: all of them, unless the
    /// implementation says otherwise.
    open spec fn requires_call(&self, arg: Arg) -> bool {
        true
    }

    /// What the callable may return: anything, unless the implementation
    /// says otherwise.
    open spec fn ensures_call(&self, arg: Arg, output: Self::Output) -> bool {
        true
    }

    /// Calls the function.
    fn call(&self, arg: Arg) -> (output: Self::Output)
        requires
            self.requires_call(arg),
        ensures
            self.ensures_call(arg, output),
    ;
}

impl<F, Arg, Out: Send> AsyncFnSend<Arg> for F where F: Fn(Arg) -> Out + Send + Sync {
    type Output = Out;

    open spec fn requires_call(&self, arg: Arg) -> bool {
        call_requires(*self, (arg,))
    }

    open spec fn ensures_call(&self, arg: Arg, output: Out) -> bool {
        call_ensures(*self, (arg,), output)
    }

    fn call(&self, arg: Arg) -> (output: Out) {
        invoke(self, arg)
    }
}

/// A callable invoked by exclusive reference that can cross threads, and
/// what it returns with it.
pub trait AsyncFnMutSend<Arg>: Send + Sync {
    /// What a call returns: the computation it starts.
    type Output: Send;

    /// The arguments that the callable takes: all of them, unless the
    /// implementation says otherwise.
    open spec fn requires_call(&self, arg: Arg) -> bool {
        true
    }

    /// What the callable may return: anything, unless the implementation
    /// says otherwise.
    open spec fn ensures_call(&self, arg: Arg, output: Self::Output) -> bool {
        true
    }

    /// What a call may leave of the callable: anything, unless the
    /// implementation says otherwise.
    open spec fn leaves(&self, arg: Arg, after: &Self) -> bool {
        true
    }

    /// Calls the function.
    fn call(&mut self, arg: Arg) -> (output: Self::Output)
        requires
            old(self).requires_call(arg),
        ensures
            old(self).ensures_call(arg, output),
            old(self).leaves(arg, final(self)),
    ;
}

impl<F, Arg, Out: Send> AsyncFnMutSend<Arg> for F where F: FnMut(Arg) -> Out + Send + Sync {
    type Output = Out;

    open spec fn requires_call(&self, arg: Arg) -> bool {
        call_requires(*self, (arg,))
    }

    open spec fn ensures_call(&self, arg: Arg, output: Out) -> bool {
        call_ensures(*self, (arg,), output)
    }

    open spec fn leaves(&self, arg: Arg, after: &Self) -> bool {
        *after == *self
    }

    fn call(&mut self, arg: Arg) -> (output: Out) {
        invoke_mut(self, arg)
    }
}

/// A callable invoked once, by value, that can cross threads, and what it
/// returns with it.
pub trait AsyncFnOnceSend<Arg>: Send + Sync + Sized {
    /// What the call returns: the computation it starts.
    type Output: Send;

    /// The arguments that the callable takes: all of them, unless the
    /// implementation says otherwise.
    open spec fn requires_call(&self, arg: Arg) -> bool {
        true
    }

    /// What the callable may return: anything, unless the implementation
    /// says otherwise.
    open spec fn ensures_call(&self, arg: Arg, output: Self::Output) -> bool {
        true
    }

    /// Calls the function.
    fn call(self, arg: Arg) -> (output: Self::Output)
        requires
            self.requires_call(arg),
        ensures
            self.ensures_call(arg, output),
    ;
}

impl<F, Arg, Out: Send> AsyncFnOnceSend<Arg> for F where F: FnOnce(Arg) -> Out + Send + Sync {
    type Output = Out;

    open spec fn requires_call(&self, arg: Arg) -> bool {
        call_requires(*self, (arg,))
    }

    open spec fn ensures_call(&self, arg: Arg, output: Out) -> bool {
        call_ensures(*self, (arg,), output)
    }

    fn call(self, arg: Arg) -> (output: Out) {
        self(arg)
    }
}

/// The dispatch table of an asynchronous callable.
#[derive(Clone, Copy, Debug, PartialEq, Eq, Structural)]
pub struct AsyncVTable {
    pub convention: Convention,
    /// Whether the callable is synchronous: what it returns is the result,
    /// and not a computation to drive.
    pub call_sync: bool,
    pub drop_vtable: DropVTable,
}

impl VTable for AsyncVTable {
    open spec fn spec_drop_vtable(&self) -> DropVTable {
        self.drop_vtable
    }

    fn drop_vtable(&self) -> (vtable: &DropVTable) {
        &self.drop_vtable
    }
}

impl AsyncVTable {
    /// What polling the stored output of a call takes.
    pub open spec fn spec_poll_kind(self) -> PollKind {
        if self.call_sync {
            PollKind::Ready
        } else {
            PollKind::Future
        }
    }

    #[verifier::when_used_as_spec(spec_poll_kind)]
    pub fn poll_kind(self) -> (kind: PollKind)
        ensures
            kind == self.spec_poll_kind(),
    {
        if self.call_sync {
            PollKind::Ready
        } else {
            PollKind::Future
        }
    }
}

/// What a call that takes the synchronous path when there is one gave.
pub enum TrySync<Ret, Pending> {
    /// The callable is synchronous: its result.
    Sync(Ret),
    /// The callable is asynchronous: the computation it started.
    Async(Pending),
}

/// Moves the callable out of `moved`, calls it, and gives the storage
/// back.
fn call_once_send<S: StorageMut<F>, F: AsyncFnOnceSend<Arg, Output = Out>, Arg, Out>(
    moved: &mut StorageMoved<S, F>,
    arg: Arg,
) -> (output: Out)
    requires
        old(moved).content() is Holding,
        !old(moved).released(),
        old(moved).content()->Holding_0.requires_call(arg),
    ensures
        old(moved).content()->Holding_0.ensures_call(arg, output),
        final(moved).content() == Content::<F>::Moved,
        final(moved).released(),
{
    let func = moved.read();
    let output = func.call(arg);
    moved.drop();
    output
}

/// An asynchronous callable invoked by shared reference, held in `FnStorage`. What
/// a call returns is kept in a `FutureStorage`.
pub struct LocalDynAsyncFn<F, FnStorage: Storage<F>, FutureStorage> {
    storage: DynStorage<FnStorage, AsyncVTable>,
    _callable: PhantomData<F>,
    _future: PhantomData<FutureStorage>,
}

impl<F, FnStorage: Storage<F>, FutureStorage> LocalDynAsyncFn<F, FnStorage, FutureStorage> {
    #[verifier::type_invariant]
    spec fn well_formed(self) -> bool {
        &&& self.storage.live::<F>()
        &&& self.storage.spec_vtable().convention == Convention::ByRef
    }

    /// The callable held.
    pub closed spec fn callable(&self) -> F {
        self.storage.content::<F>()->Holding_0
    }

    /// The dispatch table.
    pub closed spec fn spec_vtable(&self) -> AsyncVTable {
        self.storage.spec_vtable()
    }

    /// Whether the callable was stored as a synchronous one.
    pub open spec fn spec_is_sync(&self) -> bool {
        self.spec_vtable().call_sync
    }

    fn new_impl(storage: FnStorage) -> (container: Self)
        requires
            storage.content() is Holding,
            !storage.released(),
        ensures
            Content::Holding(container.callable()) == storage.content(),
            !container.spec_is_sync(),
            container.spec_vtable().convention == Convention::ByRef,
            container.spec_vtable().drop_vtable.describes::<FnStorage, F>(),
    {
        let vtable = AsyncVTable {
            convention: Convention::ByRef,
            call_sync: false,
            drop_vtable: DropVTable::new::<FnStorage, F>(),
        };
        LocalDynAsyncFn {
            storage: DynStorage::new(storage, vtable),
            _callable: PhantomData,
            _future: PhantomData,
        }
    }

    fn new_sync_impl(storage: FnStorage) -> (container: Self)
        requires
            storage.content() is Holding,
            !storage.released(),
        ensures
            Content::Holding(container.callable()) == storage.content(),
            container.spec_is_sync(),
            container.spec_vtable().convention == Convention::ByRef,
            container.spec_vtable().drop_vtable.describes::<FnStorage, F>(),
    {
        let vtable = AsyncVTable {
            convention: Convention::ByRef,
            call_sync: true,
            drop_vtable: DropVTable::new::<FnStorage, F>(),
        };
        LocalDynAsyncFn {
            storage: DynStorage::new(storage, vtable),
            _callable: PhantomData,
            _future: PhantomData,
        }
    }

    /// Stores the asynchronous callable `f` in a new `FnStorage`.
    pub fn new(f: F) -> (container: Self)
        requires
            FnStorage::spec_accepts(),
        ensures
            container.callable() == f,
            !container.spec_is_sync(),
    {
        Self::new_impl(FnStorage::new(f))
    }

    /// Stores the synchronous callable `f` in a new `FnStorage`.
    pub fn new_sync(f: F) -> (container: Self)
        requires
            FnStorage::spec_accepts(),
        ensures
            container.callable() == f,
            container.spec_is_sync(),
    {
        Self::new_sync_impl(FnStorage::new(f))
    }

    /// Hands out the storage with its dispatch table, for the container to
    /// be torn down.
    pub fn into_storage(self) -> (paired: DynStorage<FnStorage, AsyncVTable>)
        ensures
            paired.live::<F>(),
            paired.content::<F>() == Content::Holding(self.callable()),
            paired.spec_vtable() == self.spec_vtable(),
    {
        proof {
            use_type_invariant(&self);
        }
        self.storage
    }

    /// Returns whether the underlying function is synchronous.
    #[verifier::when_used_as_spec(spec_is_sync)]
    pub fn is_sync(&self) -> (sync: bool)
        ensures
            sync == self.spec_is_sync(),
    {
        self.storage.vtable().call_sync
    }

    /// Calls the underlying function and places what it returns in a new
    /// `FutureStorage`, to be driven from there.
    pub fn call<Arg, Out>(&self, arg: Arg) -> (pending: PendingFuture<Out, FutureStorage>) where
        F: Fn(Arg) -> Out,
        FutureStorage: StorageMut<Out>,

        requires
            call_requires(self.callable(), (arg,)),
            FutureStorage::spec_accepts(),
        ensures
            pending.driving(),
            pending.in_place() == FutureStorage::spec_places_in_place(),
            call_ensures(self.callable(), (arg,), pending.future()),
            pending.poll_kind() == self.spec_vtable().spec_poll_kind(),
    {
        proof {
            use_type_invariant(self);
        }
        let kind = self.storage.vtable().poll_kind();
        let future = invoke(self.storage.ptr::<F>(), arg);
        store_future(future, kind)
    }

    /// Calls the underlying function if it is synchronous.
    pub fn call_sync<Arg, Out>(&self, arg: Arg) -> (ret: Option<Out>) where F: Fn(Arg) -> Out,
        requires
            self.spec_is_sync() ==> call_requires(self.callable(), (arg,)),
        ensures
            ret is Some <==> self.spec_is_sync(),
            ret matches Some(output) ==> call_ensures(self.callable(), (arg,), output),
    {
        proof {
            use_type_invariant(self);
        }
        if self.storage.vtable().call_sync {
            Some(invoke(self.storage.ptr::<F>(), arg))
        } else {
            None
        }
    }

    /// Calls the underlying function. The result of a synchronous one is
    /// handed back at once; what an asynchronous one returns is placed in
    /// a new `FutureStorage`, to be driven from there.
    pub fn call_try_sync<Arg, Out>(&self, arg: Arg) -> (ret: TrySync<
        Out,
        PendingFuture<Out, FutureStorage>,
    >) where
        F: Fn(Arg) -> Out,
        FutureStorage: StorageMut<Out>,

        requires
            call_requires(self.callable(), (arg,)),
            !self.spec_is_sync() ==> FutureStorage::spec_accepts(),
        ensures
            ret is Sync <==> self.spec_is_sync(),
            ret matches TrySync::Sync(output) ==> call_ensures(self.callable(), (arg,), output),
            ret matches TrySync::Async(pending) ==> {
                &&& pending.driving()
                &&& pending.in_place() == FutureStorage::spec_places_in_place()
                &&& call_ensures(self.callable(), (arg,), pending.future())
                &&& pending.poll_kind() == PollKind::Future
            },
    {
        if self.is_sync() {
            TrySync::Sync(self.call_sync(arg).unwrap())
        } else {
            TrySync::Async(self.call(arg))
        }
    }
}

impl<F, FutureStorage> LocalDynAsyncFn<F, Box<F>, FutureStorage> {
    /// Stores the asynchronous callable of `f`, in its own heap block.
    pub fn new_box(f: StdBox<F>) -> (container: Self)
        ensures
            container.callable() == *f,
            !container.spec_is_sync(),
    {
        Self::new_impl(Box::new_box(f))
    }

    /// Stores the synchronous callable of `f`, in its own heap block.
    pub fn new_sync_box(f: StdBox<F>) -> (container: Self)
        ensures
            container.callable() == *f,
            container.spec_is_sync(),
    {
        Self::new_sync_impl(Box::new_box(f))
    }
}

impl<F, FutureStorage, const SIZE: usize, const ALIGN: usize> LocalDynAsyncFn<
    F,
    RawOrBox<F, SIZE, ALIGN>,
    FutureStorage,
> where
    AlignTo<ALIGN>: ValidAlign,
{
    /// Stores the asynchronous callable of `f`, in its own heap block.
    pub fn new_box(f: StdBox<F>) -> (container: Self)
        ensures
            container.callable() == *f,
            !container.spec_is_sync(),
    {
        Self::new_impl(RawOrBox::new_box(f))
    }

    /// Stores the synchronous callable of `f`, in its own heap block.
    pub fn new_sync_box(f: StdBox<F>) -> (container: Self)
        ensures
            container.callable() == *f,
            container.spec_is_sync(),
    {
        Self::new_sync_impl(RawOrBox::new_box(f))
    }
}

impl<F, FutureStorage> LocalDynAsyncFn<F, Rc<F>, FutureStorage> {
    /// Stores the asynchronous callable of `f`, shared with the other handles on it.
    pub fn new_rc(f: StdRc<F>) -> (container: Self)
        ensures
            container.callable() == *f,
            !container.spec_is_sync(),
    {
        Self::new_impl(Rc::new_rc(f))
    }

    /// Stores the synchronous callable of `f`, shared with the other handles on it.
    pub fn new_sync_rc(f: StdRc<F>) -> (container: Self)
        ensures
            container.callable() == *f,
            container.spec_is_sync(),
    {
        Self::new_sync_impl(Rc::new_rc(f))
    }
}

impl<F, FutureStorage> LocalDynAsyncFn<F, Arc<F>, FutureStorage> {
    /// Stores the asynchronous callable of `f`, shared with the other handles on it.
    pub fn new_arc(f: StdArc<F>) -> (container: Self)
        ensures
            container.callable() == *f,
            !container.spec_is_sync(),
    {
        Self::new_impl(Arc::new_arc(f))
    }

    /// Stores the synchronous callable of `f`, shared with the other handles on it.
    pub fn new_sync_arc(f: StdArc<F>) -> (container: Self)
        ensures
            container.callable() == *f,
            container.spec_is_sync(),
    {
        Self::new_sync_impl(Arc::new_arc(f))
    }
}

impl<F, FnStorage: StorageShared<F>, FutureStorage> Clone for LocalDynAsyncFn<
    F,
    FnStorage,
    FutureStorage,
> {
    /// Another container on the same callable.
    fn clone(&self) -> (container: Self)
        ensures
            container.callable() == self.callable(),
            container.spec_vtable() == self.spec_vtable(),
    {
        proof {
            use_type_invariant(self);
        }
        let storage = self.storage.clone();
        proof {
            FnStorage::clone_shares(self.storage.spec_storage(), storage.spec_storage());
        }
        LocalDynAsyncFn { storage, _callable: PhantomData, _future: PhantomData }
    }
}

/// An asynchronous callable invoked by shared reference, held in `FnStorage`, that
/// can cross threads. What a call returns is kept in a `FutureStorage`.
pub struct DynAsyncFn<F: Send + Sync, FnStorage: Storage<F> + StorageSend, FutureStorage> {
    storage: DynStorage<FnStorage, AsyncVTable>,
    _callable: PhantomData<F>,
    _future: PhantomData<FutureStorage>,
}

impl<F: Send + Sync, FnStorage: Storage<F> + StorageSend, FutureStorage> DynAsyncFn<F, FnStorage, FutureStorage> {
    #[verifier::type_invariant]
    spec fn well_formed(self) -> bool {
        &&& self.storage.live::<F>()
        &&& self.storage.spec_vtable().convention == Convention::ByRef
    }

    /// The callable held.
    pub closed spec fn callable(&self) -> F {
        self.storage.content::<F>()->Holding_0
    }

    /// The dispatch table.
    pub closed spec fn spec_vtable(&self) -> AsyncVTable {
        self.storage.spec_vtable()
    }

    /// Whether the callable was stored as a synchronous one.
    pub open spec fn spec_is_sync(&self) -> bool {
        self.spec_vtable().call_sync
    }

    fn new_impl(storage: FnStorage) -> (container: Self)
        requires
            storage.content() is Holding,
            !storage.released(),
        ensures
            Content::Holding(container.callable()) == storage.content(),
            !container.spec_is_sync(),
            container.spec_vtable().convention == Convention::ByRef,
            container.spec_vtable().drop_vtable.describes::<FnStorage, F>(),
    {
        let vtable = AsyncVTable {
            convention: Convention::ByRef,
            call_sync: false,
            drop_vtable: DropVTable::new::<FnStorage, F>(),
        };
        DynAsyncFn {
            storage: DynStorage::new(storage, vtable),
            _callable: PhantomData,
            _future: PhantomData,
        }
    }

    fn new_sync_impl(storage: FnStorage) -> (container: Self)
        requires
            storage.content() is Holding,
            !storage.released(),
        ensures
            Content::Holding(container.callable()) == storage.content(),
            container.spec_is_sync(),
            container.spec_vtable().convention == Convention::ByRef,
            container.spec_vtable().drop_vtable.describes::<FnStorage, F>(),
    {
        let vtable = AsyncVTable {
            convention: Convention::ByRef,
            call_sync: true,
            drop_vtable: DropVTable::new::<FnStorage, F>(),
        };
        DynAsyncFn {
            storage: DynStorage::new(storage, vtable),
            _callable: PhantomData,
            _future: PhantomData,
        }
    }

    /// Stores the asynchronous callable `f` in a new `FnStorage`.
    pub fn new(f: F) -> (container: Self)
        requires
            FnStorage::spec_accepts(),
        ensures
            container.callable() == f,
            !container.spec_is_sync(),
    {
        Self::new_impl(FnStorage::new(f))
    }

    /// Stores the synchronous callable `f` in a new `FnStorage`.
    pub fn new_sync(f: F) -> (container: Self)
        requires
            FnStorage::spec_accepts(),
        ensures
            container.callable() == f,
            container.spec_is_sync(),
    {
        Self::new_sync_impl(FnStorage::new(f))
    }

    /// Hands out the storage with its dispatch table, for the container to
    /// be torn down.
    pub fn into_storage(self) -> (paired: DynStorage<FnStorage, AsyncVTable>)
        ensures
            paired.live::<F>(),
            paired.content::<F>() == Content::Holding(self.callable()),
            paired.spec_vtable() == self.spec_vtable(),
    {
        proof {
            use_type_invariant(&self);
        }
        self.storage
    }

    /// Returns whether the underlying function is synchronous.
    #[verifier::when_used_as_spec(spec_is_sync)]
    pub fn is_sync(&self) -> (sync: bool)
        ensures
            sync == self.spec_is_sync(),
    {
        self.storage.vtable().call_sync
    }

    /// Calls the underlying function and places what it returns in a new
    /// `FutureStorage`, to be driven from there.
    pub fn call<Arg, Out>(&self, arg: Arg) -> (pending: PendingFuture<Out, FutureStorage>) where
        F: AsyncFnSend<Arg, Output = Out>,
        FutureStorage: StorageMut<Out>,

        requires
            self.callable().requires_call(arg),
            FutureStorage::spec_accepts(),
        ensures
            pending.driving(),
            pending.in_place() == FutureStorage::spec_places_in_place(),
            self.callable().ensures_call(arg, pending.future()),
            pending.poll_kind() == self.spec_vtable().spec_poll_kind(),
    {
        proof {
            use_type_invariant(self);
        }
        let kind = self.storage.vtable().poll_kind();
        let future = self.storage.ptr::<F>().call(arg);
        store_future(future, kind)
    }

    /// Calls the underlying function if it is synchronous.
    pub fn call_sync<Arg, Out>(&self, arg: Arg) -> (ret: Option<Out>) where F: AsyncFnSend<Arg, Output = Out>,
        requires
            self.spec_is_sync() ==> self.callable().requires_call(arg),
        ensures
            ret is Some <==> self.spec_is_sync(),
            ret matches Some(output) ==> self.callable().ensures_call(arg, output),
    {
        proof {
            use_type_invariant(self);
        }
        if self.storage.vtable().call_sync {
            Some(self.storage.ptr::<F>().call(arg))
        } else {
            None
        }
    }

    /// Calls the underlying function. The result of a synchronous one is
    /// handed back at once; what an asynchronous one returns is placed in
    /// a new `FutureStorage`, to be driven from there.
    pub fn call_try_sync<Arg, Out>(&self, arg: Arg) -> (ret: TrySync<
        Out,
        PendingFuture<Out, FutureStorage>,
    >) where
        F: AsyncFnSend<Arg, Output = Out>,
        FutureStorage: StorageMut<Out>,

        requires
            self.callable().requires_call(arg),
            !self.spec_is_sync() ==> FutureStorage::spec_accepts(),
        ensures
            ret is Sync <==> self.spec_is_sync(),
            ret matches TrySync::Sync(output) ==> self.callable().ensures_call(arg, output),
            ret matches TrySync::Async(pending) ==> {
                &&& pending.driving()
                &&& pending.in_place() == FutureStorage::spec_places_in_place()
                &&& self.callable().ensures_call(arg, pending.future())
                &&& pending.poll_kind() == PollKind::Future
            },
    {
        if self.is_sync() {
            TrySync::Sync(self.call_sync(arg).unwrap())
        } else {
            TrySync::Async(self.call(arg))
        }
    }
}

impl<F: Send + Sync, FutureStorage> DynAsyncFn<F, Box<F>, FutureStorage> {
    /// Stores the asynchronous callable of `f`, in its own heap block.
    pub fn new_box(f: StdBox<F>) -> (container: Self)
        ensures
            container.callable() == *f,
            !container.spec_is_sync(),
    {
        Self::new_impl(Box::new_box(f))
    }

    /// Stores the synchronous callable of `f`, in its own heap block.
    pub fn new_sync_box(f: StdBox<F>) -> (container: Self)
        ensures
            container.callable() == *f,
            container.spec_is_sync(),
    {
        Self::new_sync_impl(Box::new_box(f))
    }
}

impl<F: Send + Sync, FutureStorage, const SIZE: usize, const ALIGN: usize> DynAsyncFn<
    F,
    RawOrBox<F, SIZE, ALIGN>,
    FutureStorage,
> where
    AlignTo<ALIGN>: ValidAlign,
{
    /// Stores the asynchronous callable of `f`, in its own heap block.
    pub fn new_box(f: StdBox<F>) -> (container: Self)
        ensures
            container.callable() == *f,
            !container.spec_is_sync(),
    {
        Self::new_impl(RawOrBox::new_box(f))
    }

    /// Stores the synchronous callable of `f`, in its own heap block.
    pub fn new_sync_box(f: StdBox<F>) -> (container: Self)
        ensures
            container.callable() == *f,
            container.spec_is_sync(),
    {
        Self::new_sync_impl(RawOrBox::new_box(f))
    }
}

impl<F: Send + Sync, FutureStorage> DynAsyncFn<F, Arc<F>, FutureStorage> {
    /// Stores the asynchronous callable of `f`, shared with the other handles on it.
    pub fn new_arc(f: StdArc<F>) -> (container: Self)
        ensures
            container.callable() == *f,
            !container.spec_is_sync(),
    {
        Self::new_impl(Arc::new_arc(f))
    }

    /// Stores the synchronous callable of `f`, shared with the other handles on it.
    pub fn new_sync_arc(f: StdArc<F>) -> (container: Self)
        ensures
            container.callable() == *f,
            container.spec_is_sync(),
    {
        Self::new_sync_impl(Arc::new_arc(f))
    }
}

impl<F: Send + Sync, FnStorage: StorageShared<F> + StorageSend, FutureStorage> Clone for DynAsyncFn<
    F,
    FnStorage,
    FutureStorage,
> {
    /// Another container on the same callable.
    fn clone(&self) -> (container: Self)
        ensures
            container.callable() == self.callable(),
            container.spec_vtable() == self.spec_vtable(),
    {
        proof {
            use_type_invariant(self);
        }
        let storage = self.storage.clone();
        proof {
            FnStorage::clone_shares(self.storage.spec_storage(), storage.spec_storage());
        }
        DynAsyncFn { storage, _callable: PhantomData, _future: PhantomData }
    }
}

/// An asynchronous callable invoked by exclusive reference, held in `FnStorage`. What
/// a call returns is kept in a `FutureStorage`.
pub struct LocalDynAsyncFnMut<F, FnStorage: StorageMut<F>, FutureStorage> {
    storage: DynStorage<FnStorage, AsyncVTable>,
    _callable: PhantomData<F>,
    _future: PhantomData<FutureStorage>,
}

impl<F, FnStorage: StorageMut<F>, FutureStorage> LocalDynAsyncFnMut<F, FnStorage, FutureStorage> {
    /// Whether the container holds its callable. Every container that this
    /// crate hands out does, and every method keeps it so.
    pub closed spec fn wf(&self) -> bool {
        &&& self.storage.live::<F>()
        &&& self.storage.spec_vtable().convention == Convention::ByMut
    }

    /// The callable held.
    pub closed spec fn callable(&self) -> F {
        self.storage.content::<F>()->Holding_0
    }

    /// The dispatch table.
    pub closed spec fn spec_vtable(&self) -> AsyncVTable {
        self.storage.spec_vtable()
    }

    /// Whether the callable was stored as a synchronous one.
    pub open spec fn spec_is_sync(&self) -> bool {
        self.spec_vtable().call_sync
    }

    fn new_impl(storage: FnStorage) -> (container: Self)
        requires
            storage.content() is Holding,
            !storage.released(),
        ensures
            container.wf(),
            Content::Holding(container.callable()) == storage.content(),
            !container.spec_is_sync(),
            container.spec_vtable().convention == Convention::ByMut,
            container.spec_vtable().drop_vtable.describes::<FnStorage, F>(),
    {
        let vtable = AsyncVTable {
            convention: Convention::ByMut,
            call_sync: false,
            drop_vtable: DropVTable::new::<FnStorage, F>(),
        };
        LocalDynAsyncFnMut {
            storage: DynStorage::new(storage, vtable),
            _callable: PhantomData,
            _future: PhantomData,
        }
    }

    fn new_sync_impl(storage: FnStorage) -> (container: Self)
        requires
            storage.content() is Holding,
            !storage.released(),
        ensures
            container.wf(),
            Content::Holding(container.callable()) == storage.content(),
            container.spec_is_sync(),
            container.spec_vtable().convention == Convention::ByMut,
            container.spec_vtable().drop_vtable.describes::<FnStorage, F>(),
    {
        let vtable = AsyncVTable {
            convention: Convention::ByMut,
            call_sync: true,
            drop_vtable: DropVTable::new::<FnStorage, F>(),
        };
        LocalDynAsyncFnMut {
            storage: DynStorage::new(storage, vtable),
            _callable: PhantomData,
            _future: PhantomData,
        }
    }

    /// Stores the asynchronous callable `f` in a new `FnStorage`.
    pub fn new(f: F) -> (container: Self)
        requires
            FnStorage::spec_accepts(),
        ensures
            container.wf(),
            container.callable() == f,
            !container.spec_is_sync(),
    {
        Self::new_impl(FnStorage::new(f))
    }

    /// Stores the synchronous callable `f` in a new `FnStorage`.
    pub fn new_sync(f: F) -> (container: Self)
        requires
            FnStorage::spec_accepts(),
        ensures
            container.wf(),
            container.callable() == f,
            container.spec_is_sync(),
    {
        Self::new_sync_impl(FnStorage::new(f))
    }

    /// Hands out the storage with its dispatch table, for the container to
    /// be torn down.
    pub fn into_storage(self) -> (paired: DynStorage<FnStorage, AsyncVTable>)
        requires
            self.wf(),
        ensures
            paired.live::<F>(),
            paired.content::<F>() == Content::Holding(self.callable()),
            paired.spec_vtable() == self.spec_vtable(),
    {
        self.storage
    }

    /// Returns whether the underlying function is synchronous.
    #[verifier::when_used_as_spec(spec_is_sync)]
    pub fn is_sync(&self) -> (sync: bool)
        ensures
            sync == self.spec_is_sync(),
    {
        self.storage.vtable().call_sync
    }

    /// Calls the underlying function and places what it returns in a new
    /// `FutureStorage`, to be driven from there.
    pub fn call<Arg, Out>(&mut self, arg: Arg) -> (pending: PendingFuture<Out, FutureStorage>) where
        F: FnMut(Arg) -> Out,
        FutureStorage: StorageMut<Out>,

        requires
            old(self).wf(),
            call_requires(old(self).callable(), (arg,)),
            FutureStorage::spec_accepts(),
        ensures
            final(self).wf(),
            final(self).callable() == old(self).callable(),
            final(self).spec_vtable() == old(self).spec_vtable(),
            pending.driving(),
            pending.in_place() == FutureStorage::spec_places_in_place(),
            call_ensures(old(self).callable(), (arg,), pending.future()),
            pending.poll_kind() == old(self).spec_vtable().spec_poll_kind(),
    {
        let kind = self.storage.vtable().poll_kind();
        let future = invoke_mut(self.storage.ptr_mut::<F>(), arg);
        store_future(future, kind)
    }

    /// Calls the underlying function if it is synchronous.
    pub fn call_sync<Arg, Out>(&mut self, arg: Arg) -> (ret: Option<Out>) where F: FnMut(Arg) -> Out,
        requires
            old(self).wf(),
            old(self).spec_is_sync() ==> call_requires(old(self).callable(), (arg,)),
        ensures
            final(self).wf(),
            final(self).callable() == old(self).callable(),
            final(self).spec_vtable() == old(self).spec_vtable(),
            ret is Some <==> old(self).spec_is_sync(),
            ret matches Some(output) ==> call_ensures(old(self).callable(), (arg,), output),
    {
        if self.storage.vtable().call_sync {
            Some(invoke_mut(self.storage.ptr_mut::<F>(), arg))
        } else {
            None
        }
    }

    /// Calls the underlying function. The result of a synchronous one is
    /// handed back at once; what an asynchronous one returns is placed in
    /// a new `FutureStorage`, to be driven from there.
    pub fn call_try_sync<Arg, Out>(&mut self, arg: Arg) -> (ret: TrySync<
        Out,
        PendingFuture<Out, FutureStorage>,
    >) where
        F: FnMut(Arg) -> Out,
        FutureStorage: StorageMut<Out>,

        requires
            old(self).wf(),
            call_requires(old(self).callable(), (arg,)),
            !old(self).spec_is_sync() ==> FutureStorage::spec_accepts(),
        ensures
            final(self).wf(),
            final(self).callable() == old(self).callable(),
            final(self).spec_vtable() == old(self).spec_vtable(),
            ret is Sync <==> old(self).spec_is_sync(),
            ret matches TrySync::Sync(output) ==> call_ensures(old(self).callable(), (arg,), output),
            ret matches TrySync::Async(pending) ==> {
                &&& pending.driving()
                &&& pending.in_place() == FutureStorage::spec_places_in_place()
                &&& call_ensures(old(self).callable(), (arg,), pending.future())
                &&& pending.poll_kind() == PollKind::Future
            },
    {
        if self.is_sync() {
            TrySync::Sync(self.call_sync(arg).unwrap())
        } else {
            TrySync::Async(self.call(arg))
        }
    }
}

impl<F, FutureStorage> LocalDynAsyncFnMut<F, Box<F>, FutureStorage> {
    /// Stores the asynchronous callable of `f`, in its own heap block.
    pub fn new_box(f: StdBox<F>) -> (container: Self)
        ensures
            container.wf(),
            container.callable() == *f,
            !container.spec_is_sync(),
    {
        Self::new_impl(Box::new_box(f))
    }

    /// Stores the synchronous callable of `f`, in its own heap block.
    pub fn new_sync_box(f: StdBox<F>) -> (container: Self)
        ensures
            container.wf(),
            container.callable() == *f,
            container.spec_is_sync(),
    {
        Self::new_sync_impl(Box::new_box(f))
    }
}

impl<F, FutureStorage, const SIZE: usize, const ALIGN: usize> LocalDynAsyncFnMut<
    F,
    RawOrBox<F, SIZE, ALIGN>,
    FutureStorage,
> where
    AlignTo<ALIGN>: ValidAlign,
{
    /// Stores the asynchronous callable of `f`, in its own heap block.
    pub fn new_box(f: StdBox<F>) -> (container: Self)
        ensures
            container.wf(),
            container.callable() == *f,
            !container.spec_is_sync(),
    {
        Self::new_impl(RawOrBox::new_box(f))
    }

    /// Stores the synchronous callable of `f`, in its own heap block.
    pub fn new_sync_box(f: StdBox<F>) -> (container: Self)
        ensures
            container.wf(),
            container.callable() == *f,
            container.spec_is_sync(),
    {
        Self::new_sync_impl(RawOrBox::new_box(f))
    }
}

/// An asynchronous callable invoked by exclusive reference, held in `FnStorage`, that
/// can cross threads. What a call returns is kept in a `FutureStorage`.
pub struct DynAsyncFnMut<F: Send + Sync, FnStorage: StorageMut<F> + StorageSend, FutureStorage> {
    storage: DynStorage<FnStorage, AsyncVTable>,
    _callable: PhantomData<F>,
    _future: PhantomData<FutureStorage>,
}

impl<F: Send + Sync, FnStorage: StorageMut<F> + StorageSend, FutureStorage> DynAsyncFnMut<F, FnStorage, FutureStorage> {
    /// Whether the container holds its callable. Every container that this
    /// crate hands out does, and every method keeps it so.
    pub closed spec fn wf(&self) -> bool {
        &&& self.storage.live::<F>()
        &&& self.storage.spec_vtable().convention == Convention::ByMut
    }

    /// The callable held.
    pub closed spec fn callable(&self) -> F {
        self.storage.content::<F>()->Holding_0
    }

    /// The dispatch table.
    pub closed spec fn spec_vtable(&self) -> AsyncVTable {
        self.storage.spec_vtable()
    }

    /// Whether the callable was stored as a synchronous one.
    pub open spec fn spec_is_sync(&self) -> bool {
        self.spec_vtable().call_sync
    }

    fn new_impl(storage: FnStorage) -> (container: Self)
        requires
            storage.content() is Holding,
            !storage.released(),
        ensures
            container.wf(),
            Content::Holding(container.callable()) == storage.content(),
            !container.spec_is_sync(),
            container.spec_vtable().convention == Convention::ByMut,
            container.spec_vtable().drop_vtable.describes::<FnStorage, F>(),
    {
        let vtable = AsyncVTable {
            convention: Convention::ByMut,
            call_sync: false,
            drop_vtable: DropVTable::new::<FnStorage, F>(),
        };
        DynAsyncFnMut {
            storage: DynStorage::new(storage, vtable),
            _callable: PhantomData,
            _future: PhantomData,
        }
    }

    fn new_sync_impl(storage: FnStorage) -> (container: Self)
        requires
            storage.content() is Holding,
            !storage.released(),
        ensures
            container.wf(),
            Content::Holding(container.callable()) == storage.content(),
            container.spec_is_sync(),
            container.spec_vtable().convention == Convention::ByMut,
            container.spec_vtable().drop_vtable.describes::<FnStorage, F>(),
    {
        let vtable = AsyncVTable {
            convention: Convention::ByMut,
            call_sync: true,
            drop_vtable: DropVTable::new::<FnStorage, F>(),
        };
        DynAsyncFnMut {
            storage: DynStorage::new(storage, vtable),
            _callable: PhantomData,
            _future: PhantomData,
        }
    }

    /// Stores the asynchronous callable `f` in a new `FnStorage`.
    pub fn new(f: F) -> (container: Self)
        requires
            FnStorage::spec_accepts(),
        ensures
            container.wf(),
            container.callable() == f,
            !container.spec_is_sync(),
    {
        Self::new_impl(FnStorage::new(f))
    }

    /// Stores the synchronous callable `f` in a new `FnStorage`.
    pub fn new_sync(f: F) -> (container: Self)
        requires
            FnStorage::spec_accepts(),
        ensures
            container.wf(),
            container.callable() == f,
            container.spec_is_sync(),
    {
        Self::new_sync_impl(FnStorage::new(f))
    }

    /// Hands out the storage with its dispatch table, for the container to
    /// be torn down.
    pub fn into_storage(self) -> (paired: DynStorage<FnStorage, AsyncVTable>)
        requires
            self.wf(),
        ensures
            paired.live::<F>(),
            paired.content::<F>() == Content::Holding(self.callable()),
            paired.spec_vtable() == self.spec_vtable(),
    {
        self.storage
    }

    /// Returns whether the underlying function is synchronous.
    #[verifier::when_used_as_spec(spec_is_sync)]
    pub fn is_sync(&self) -> (sync: bool)
        ensures
            sync == self.spec_is_sync(),
    {
        self.storage.vtable().call_sync
    }

    /// Calls the underlying function and places what it returns in a new
    /// `FutureStorage`, to be driven from there.
    pub fn call<Arg, Out>(&mut self, arg: Arg) -> (pending: PendingFuture<Out, FutureStorage>) where
        F: AsyncFnMutSend<Arg, Output = Out>,
        FutureStorage: StorageMut<Out>,

        requires
            old(self).wf(),
            old(self).callable().requires_call(arg),
            FutureStorage::spec_accepts(),
        ensures
            final(self).wf(),
            old(self).callable().leaves(arg, &final(self).callable()),
            final(self).spec_vtable() == old(self).spec_vtable(),
            pending.driving(),
            pending.in_place() == FutureStorage::spec_places_in_place(),
            old(self).callable().ensures_call(arg, pending.future()),
            pending.poll_kind() == old(self).spec_vtable().spec_poll_kind(),
    {
        let kind = self.storage.vtable().poll_kind();
        let future = self.storage.ptr_mut::<F>().call(arg);
        store_future(future, kind)
    }

    /// Calls the underlying function if it is synchronous.
    pub fn call_sync<Arg, Out>(&mut self, arg: Arg) -> (ret: Option<Out>) where F: AsyncFnMutSend<Arg, Output = Out>,
        requires
            old(self).wf(),
            old(self).spec_is_sync() ==> old(self).callable().requires_call(arg),
        ensures
            final(self).wf(),
            ret is Some ==> old(self).callable().leaves(arg, &final(self).callable()),
            ret is None ==> final(self).callable() == old(self).callable(),
            final(self).spec_vtable() == old(self).spec_vtable(),
            ret is Some <==> old(self).spec_is_sync(),
            ret matches Some(output) ==> old(self).callable().ensures_call(arg, output),
    {
        if self.storage.vtable().call_sync {
            Some(self.storage.ptr_mut::<F>().call(arg))
        } else {
            None
        }
    }

    /// Calls the underlying function. The result of a synchronous one is
    /// handed back at once; what an asynchronous one returns is placed in
    /// a new `FutureStorage`, to be driven from there.
    pub fn call_try_sync<Arg, Out>(&mut self, arg: Arg) -> (ret: TrySync<
        Out,
        PendingFuture<Out, FutureStorage>,
    >) where
        F: AsyncFnMutSend<Arg, Output = Out>,
        FutureStorage: StorageMut<Out>,

        requires
            old(self).wf(),
            old(self).callable().requires_call(arg),
            !old(self).spec_is_sync() ==> FutureStorage::spec_accepts(),
        ensures
            final(self).wf(),
            old(self).callable().leaves(arg, &final(self).callable()),
            final(self).spec_vtable() == old(self).spec_vtable(),
            ret is Sync <==> old(self).spec_is_sync(),
            ret matches TrySync::Sync(output) ==> old(self).callable().ensures_call(arg, output),
            ret matches TrySync::Async(pending) ==> {
                &&& pending.driving()
                &&& pending.in_place() == FutureStorage::spec_places_in_place()
                &&& old(self).callable().ensures_call(arg, pending.future())
                &&& pending.poll_kind() == PollKind::Future
            },
    {
        if self.is_sync() {
            TrySync::Sync(self.call_sync(arg).unwrap())
        } else {
            TrySync::Async(self.call(arg))
        }
    }
}

impl<F: Send + Sync, FutureStorage> DynAsyncFnMut<F, Box<F>, FutureStorage> {
    /// Stores the asynchronous callable of `f`, in its own heap block.
    pub fn new_box(f: StdBox<F>) -> (container: Self)
        ensures
            container.wf(),
            container.callable() == *f,
            !container.spec_is_sync(),
    {
        Self::new_impl(Box::new_box(f))
    }

    /// Stores the synchronous callable of `f`, in its own heap block.
    pub fn new_sync_box(f: StdBox<F>) -> (container: Self)
        ensures
            container.wf(),
            container.callable() == *f,
            container.spec_is_sync(),
    {
        Self::new_sync_impl(Box::new_box(f))
    }
}

impl<F: Send + Sync, FutureStorage, const SIZE: usize, const ALIGN: usize> DynAsyncFnMut<
    F,
    RawOrBox<F, SIZE, ALIGN>,
    FutureStorage,
> where
    AlignTo<ALIGN>: ValidAlign,
{
    /// Stores the asynchronous callable of `f`, in its own heap block.
    pub fn new_box(f: StdBox<F>) -> (container: Self)
        ensures
            container.wf(),
            container.callable() == *f,
            !container.spec_is_sync(),
    {
        Self::new_impl(RawOrBox::new_box(f))
    }

    /// Stores the synchronous callable of `f`, in its own heap block.
    pub fn new_sync_box(f: StdBox<F>) -> (container: Self)
        ensures
            container.wf(),
            container.callable() == *f,
            container.spec_is_sync(),
    {
        Self::new_sync_impl(RawOrBox::new_box(f))
    }
}

/// An asynchronous callable invoked once, by value, held in `FnStorage`. What a
/// call returns is kept in a `FutureStorage`.
pub struct LocalDynAsyncFnOnce<F, FnStorage: StorageMut<F>, FutureStorage> {
    storage: DynStorage<FnStorage, AsyncVTable>,
    _callable: PhantomData<F>,
    _future: PhantomData<FutureStorage>,
}

impl<F, FnStorage: StorageMut<F>, FutureStorage> LocalDynAsyncFnOnce<F, FnStorage, FutureStorage> {
    #[verifier::type_invariant]
    spec fn well_formed(self) -> bool {
        &&& self.storage.live::<F>()
        &&& self.storage.spec_vtable().convention == Convention::Once
    }

    /// The callable held.
    pub closed spec fn callable(&self) -> F {
        self.storage.content::<F>()->Holding_0
    }

    /// The dispatch table.
    pub closed spec fn spec_vtable(&self) -> AsyncVTable {
        self.storage.spec_vtable()
    }

    /// Whether the callable was stored as a synchronous one.
    pub open spec fn spec_is_sync(&self) -> bool {
        self.spec_vtable().call_sync
    }

    fn new_impl(storage: FnStorage) -> (container: Self)
        requires
            storage.content() is Holding,
            !storage.released(),
        ensures
            Content::Holding(container.callable()) == storage.content(),
            !container.spec_is_sync(),
            container.spec_vtable().convention == Convention::Once,
            container.spec_vtable().drop_vtable.describes::<FnStorage, F>(),
    {
        let vtable = AsyncVTable {
            convention: Convention::Once,
            call_sync: false,
            drop_vtable: DropVTable::new::<FnStorage, F>(),
        };
        LocalDynAsyncFnOnce {
            storage: DynStorage::new(storage, vtable),
            _callable: PhantomData,
            _future: PhantomData,
        }
    }

    fn new_sync_impl(storage: FnStorage) -> (container: Self)
        requires
            storage.content() is Holding,
            !storage.released(),
        ensures
            Content::Holding(container.callable()) == storage.content(),
            container.spec_is_sync(),
            container.spec_vtable().convention == Convention::Once,
            container.spec_vtable().drop_vtable.describes::<FnStorage, F>(),
    {
        let vtable = AsyncVTable {
            convention: Convention::Once,
            call_sync: true,
            drop_vtable: DropVTable::new::<FnStorage, F>(),
        };
        LocalDynAsyncFnOnce {
            storage: DynStorage::new(storage, vtable),
            _callable: PhantomData,
            _future: PhantomData,
        }
    }

    /// Stores the asynchronous callable `f` in a new `FnStorage`.
    pub fn new(f: F) -> (container: Self)
        requires
            FnStorage::spec_accepts(),
        ensures
            container.callable() == f,
            !container.spec_is_sync(),
    {
        Self::new_impl(FnStorage::new(f))
    }

    /// Stores the synchronous callable `f` in a new `FnStorage`.
    pub fn new_sync(f: F) -> (container: Self)
        requires
            FnStorage::spec_accepts(),
        ensures
            container.callable() == f,
            container.spec_is_sync(),
    {
        Self::new_sync_impl(FnStorage::new(f))
    }

    /// Hands out the storage with its dispatch table, for the container to
    /// be torn down.
    pub fn into_storage(self) -> (paired: DynStorage<FnStorage, AsyncVTable>)
        ensures
            paired.live::<F>(),
            paired.content::<F>() == Content::Holding(self.callable()),
            paired.spec_vtable() == self.spec_vtable(),
    {
        proof {
            use_type_invariant(&self);
        }
        self.storage
    }

    /// Returns whether the underlying function is synchronous.
    #[verifier::when_used_as_spec(spec_is_sync)]
    pub fn is_sync(&self) -> (sync: bool)
        ensures
            sync == self.spec_is_sync(),
    {
        self.storage.vtable().call_sync
    }

    /// Calls the underlying function and places what it returns in a new
    /// `FutureStorage`, to be driven from there. The container is consumed.
    pub fn call<Arg, Out>(self, arg: Arg) -> (pending: PendingFuture<Out, FutureStorage>) where
        F: FnOnce(Arg) -> Out,
        FutureStorage: StorageMut<Out>,

        requires
            call_requires(self.callable(), (arg,)),
            FutureStorage::spec_accepts(),
        ensures
            pending.driving(),
            pending.in_place() == FutureStorage::spec_places_in_place(),
            call_ensures(self.callable(), (arg,), pending.future()),
            pending.poll_kind() == self.spec_vtable().spec_poll_kind(),
    {
        proof {
            use_type_invariant(&self);
        }
        let kind = self.storage.vtable().poll_kind();
        let mut moved = StorageMoved::new(self.storage.move_storage());
        let future = invoke_once(&mut moved, arg);
        store_future(future, kind)
    }

    /// Calls the underlying function if it is synchronous, which consumes
    /// the container. If it is not, nothing is called, and the container
    /// and the argument are handed back for the asynchronous path.
    pub fn call_sync<Arg, Out>(self, arg: Arg) -> (ret: Result<Out, (Self, Arg)>) where
        F: FnOnce(Arg) -> Out,

        requires
            self.spec_is_sync() ==> call_requires(self.callable(), (arg,)),
        ensures
            ret is Ok <==> self.spec_is_sync(),
            ret matches Ok(output) ==> call_ensures(self.callable(), (arg,), output),
            ret matches Err(back) ==> back == (self, arg),
    {
        proof {
            use_type_invariant(&self);
        }
        if self.storage.vtable().call_sync {
            let mut moved = StorageMoved::new(self.storage.move_storage());
            Ok(invoke_once(&mut moved, arg))
        } else {
            Err((self, arg))
        }
    }

    /// Calls the underlying function. The result of a synchronous one is
    /// handed back at once; what an asynchronous one returns is placed in
    /// a new `FutureStorage`, to be driven from there. The container is consumed.
    pub fn call_try_sync<Arg, Out>(self, arg: Arg) -> (ret: TrySync<
        Out,
        PendingFuture<Out, FutureStorage>,
    >) where
        F: FnOnce(Arg) -> Out,
        FutureStorage: StorageMut<Out>,

        requires
            call_requires(self.callable(), (arg,)),
            !self.spec_is_sync() ==> FutureStorage::spec_accepts(),
        ensures
            ret is Sync <==> self.spec_is_sync(),
            ret matches TrySync::Sync(output) ==> call_ensures(self.callable(), (arg,), output),
            ret matches TrySync::Async(pending) ==> {
                &&& pending.driving()
                &&& pending.in_place() == FutureStorage::spec_places_in_place()
                &&& call_ensures(self.callable(), (arg,), pending.future())
                &&& pending.poll_kind() == PollKind::Future
            },
    {
        match self.call_sync(arg) {
            Ok(output) => TrySync::Sync(output),
            Err((container, arg)) => TrySync::Async(container.call(arg)),
        }
    }
}

impl<F, FutureStorage> LocalDynAsyncFnOnce<F, Box<F>, FutureStorage> {
    /// Stores the asynchronous callable of `f`, in its own heap block.
    pub fn new_box(f: StdBox<F>) -> (container: Self)
        ensures
            container.callable() == *f,
            !container.spec_is_sync(),
    {
        Self::new_impl(Box::new_box(f))
    }

    /// Stores the synchronous callable of `f`, in its own heap block.
    pub fn new_sync_box(f: StdBox<F>) -> (container: Self)
        ensures
            container.callable() == *f,
            container.spec_is_sync(),
    {
        Self::new_sync_impl(Box::new_box(f))
    }
}

impl<F, FutureStorage, const SIZE: usize, const ALIGN: usize> LocalDynAsyncFnOnce<
    F,
    RawOrBox<F, SIZE, ALIGN>,
    FutureStorage,
> where
    AlignTo<ALIGN>: ValidAlign,
{
    /// Stores the asynchronous callable of `f`, in its own heap block.
    pub fn new_box(f: StdBox<F>) -> (container: Self)
        ensures
            container.callable() == *f,
            !container.spec_is_sync(),
    {
        Self::new_impl(RawOrBox::new_box(f))
    }

    /// Stores the synchronous callable of `f`, in its own heap block.
    pub fn new_sync_box(f: StdBox<F>) -> (container: Self)
        ensures
            container.callable() == *f,
            container.spec_is_sync(),
    {
        Self::new_sync_impl(RawOrBox::new_box(f))
    }
}

/// An asynchronous callable invoked once, by value, held in `FnStorage`, that can
/// cross threads. What a call returns is kept in a `FutureStorage`.
pub struct DynAsyncFnOnce<F: Send + Sync, FnStorage: StorageMut<F> + StorageSend, FutureStorage> {
    storage: DynStorage<FnStorage, AsyncVTable>,
    _callable: PhantomData<F>,
    _future: PhantomData<FutureStorage>,
}

impl<F: Send + Sync, FnStorage: StorageMut<F> + StorageSend, FutureStorage> DynAsyncFnOnce<F, FnStorage, FutureStorage> {
    #[verifier::type_invariant]
    spec fn well_formed(self) -> bool {
        &&& self.storage.live::<F>()
        &&& self.storage.spec_vtable().convention == Convention::Once
    }

    /// The callable held.
    pub closed spec fn callable(&self) -> F {
        self.storage.content::<F>()->Holding_0
    }

    /// The dispatch table.
    pub closed spec fn spec_vtable(&self) -> AsyncVTable {
        self.storage.spec_vtable()
    }

    /// Whether the callable was stored as a synchronous one.
    pub open spec fn spec_is_sync(&self) -> bool {
        self.spec_vtable().call_sync
    }

    fn new_impl(storage: FnStorage) -> (container: Self)
        requires
            storage.content() is Holding,
            !storage.released(),
        ensures
            Content::Holding(container.callable()) == storage.content(),
            !container.spec_is_sync(),
            container.spec_vtable().convention == Convention::Once,
            container.spec_vtable().drop_vtable.describes::<FnStorage, F>(),
    {
        let vtable = AsyncVTable {
            convention: Convention::Once,
            call_sync: false,
            drop_vtable: DropVTable::new::<FnStorage, F>(),
        };
        DynAsyncFnOnce {
            storage: DynStorage::new(storage, vtable),
            _callable: PhantomData,
            _future: PhantomData,
        }
    }

    fn new_sync_impl(storage: FnStorage) -> (container: Self)
        requires
            storage.content() is Holding,
            !storage.released(),
        ensures
            Content::Holding(container.callable()) == storage.content(),
            container.spec_is_sync(),
            container.spec_vtable().convention == Convention::Once,
            container.spec_vtable().drop_vtable.describes::<FnStorage, F>(),
    {
        let vtable = AsyncVTable {
            convention: Convention::Once,
            call_sync: true,
            drop_vtable: DropVTable::new::<FnStorage, F>(),
        };
        DynAsyncFnOnce {
            storage: DynStorage::new(storage, vtable),
            _callable: PhantomData,
            _future: PhantomData,
        }
    }

    /// Stores the asynchronous callable `f` in a new `FnStorage`.
    pub fn new(f: F) -> (container: Self)
        requires
            FnStorage::spec_accepts(),
        ensures
            container.callable() == f,
            !container.spec_is_sync(),
    {
        Self::new_impl(FnStorage::new(f))
    }

    /// Stores the synchronous callable `f` in a new `FnStorage`.
    pub fn new_sync(f: F) -> (container: Self)
        requires
            FnStorage::spec_accepts(),
        ensures
            container.callable() == f,
            container.spec_is_sync(),
    {
        Self::new_sync_impl(FnStorage::new(f))
    }

    /// Hands out the storage with its dispatch table, for the container to
    /// be torn down.
    pub fn into_storage(self) -> (paired: DynStorage<FnStorage, AsyncVTable>)
        ensures
            paired.live::<F>(),
            paired.content::<F>() == Content::Holding(self.callable()),
            paired.spec_vtable() == self.spec_vtable(),
    {
        proof {
            use_type_invariant(&self);
        }
        self.storage
    }

    /// Returns whether the underlying function is synchronous.
    #[verifier::when_used_as_spec(spec_is_sync)]
    pub fn is_sync(&self) -> (sync: bool)
        ensures
            sync == self.spec_is_sync(),
    {
        self.storage.vtable().call_sync
    }

    /// Calls the underlying function and places what it returns in a new
    /// `FutureStorage`, to be driven from there. The container is consumed.
    pub fn call<Arg, Out>(self, arg: Arg) -> (pending: PendingFuture<Out, FutureStorage>) where
        F: AsyncFnOnceSend<Arg, Output = Out>,
        FutureStorage: StorageMut<Out>,

        requires
            self.callable().requires_call(arg),
            FutureStorage::spec_accepts(),
        ensures
            pending.driving(),
            pending.in_place() == FutureStorage::spec_places_in_place(),
            self.callable().ensures_call(arg, pending.future()),
            pending.poll_kind() == self.spec_vtable().spec_poll_kind(),
    {
        proof {
            use_type_invariant(&self);
        }
        let kind = self.storage.vtable().poll_kind();
        let mut moved = StorageMoved::new(self.storage.move_storage());
        let future = call_once_send(&mut moved, arg);
        store_future(future, kind)
    }

    /// Calls the underlying function if it is synchronous, which consumes
    /// the container. If it is not, nothing is called, and the container
    /// and the argument are handed back for the asynchronous path.
    pub fn call_sync<Arg, Out>(self, arg: Arg) -> (ret: Result<Out, (Self, Arg)>) where
        F: AsyncFnOnceSend<Arg, Output = Out>,

        requires
            self.spec_is_sync() ==> self.callable().requires_call(arg),
        ensures
            ret is Ok <==> self.spec_is_sync(),
            ret matches Ok(output) ==> self.callable().ensures_call(arg, output),
            ret matches Err(back) ==> back == (self, arg),
    {
        proof {
            use_type_invariant(&self);
        }
        if self.storage.vtable().call_sync {
            let mut moved = StorageMoved::new(self.storage.move_storage());
            Ok(call_once_send(&mut moved, arg))
        } else {
            Err((self, arg))
        }
    }

    /// Calls the underlying function. The result of a synchronous one is
    /// handed back at once; what an asynchronous one returns is placed in
    /// a new `FutureStorage`, to be driven from there. The container is consumed.
    pub fn call_try_sync<Arg, Out>(self, arg: Arg) -> (ret: TrySync<
        Out,
        PendingFuture<Out, FutureStorage>,
    >) where
        F: AsyncFnOnceSend<Arg, Output = Out>,
        FutureStorage: StorageMut<Out>,

        requires
            self.callable().requires_call(arg),
            !self.spec_is_sync() ==> FutureStorage::spec_accepts(),
        ensures
            ret is Sync <==> self.spec_is_sync(),
            ret matches TrySync::Sync(output) ==> self.callable().ensures_call(arg, output),
            ret matches TrySync::Async(pending) ==> {
                &&& pending.driving()
                &&& pending.in_place() == FutureStorage::spec_places_in_place()
                &&& self.callable().ensures_call(arg, pending.future())
                &&& pending.poll_kind() == PollKind::Future
            },
    {
        match self.call_sync(arg) {
            Ok(output) => TrySync::Sync(output),
            Err((container, arg)) => TrySync::Async(container.call(arg)),
        }
    }
}

impl<F: Send + Sync, FutureStorage> DynAsyncFnOnce<F, Box<F>, FutureStorage> {
    /// Stores the asynchronous callable of `f`, in its own heap block.
    pub fn new_box(f: StdBox<F>) -> (container: Self)
        ensures
            container.callable() == *f,
            !container.spec_is_sync(),
    {
        Self::new_impl(Box::new_box(f))
    }

    /// Stores the synchronous callable of `f`, in its own heap block.
    pub fn new_sync_box(f: StdBox<F>) -> (container: Self)
        ensures
            container.callable() == *f,
            container.spec_is_sync(),
    {
        Self::new_sync_impl(Box::new_box(f))
    }
}

impl<F: Send + Sync, FutureStorage, const SIZE: usize, const ALIGN: usize> DynAsyncFnOnce<
    F,
    RawOrBox<F, SIZE, ALIGN>,
    FutureStorage,
> where
    AlignTo<ALIGN>: ValidAlign,
{
    /// Stores the asynchronous callable of `f`, in its own heap block.
    pub fn new_box(f: StdBox<F>) -> (container: Self)
        ensures
            container.callable() == *f,
            !container.spec_is_sync(),
    {
        Self::new_impl(RawOrBox::new_box(f))
    }

    /// Stores the synchronous callable of `f`, in its own heap block.
    pub fn new_sync_box(f: StdBox<F>) -> (container: Self)
        ensures
            container.callable() == *f,
            container.spec_is_sync(),
    {
        Self::new_sync_impl(RawOrBox::new_box(f))
    }
}

} // verus!
