//! Containers of synchronous callables.

use crate::dispatch::{DropVTable, DynStorage, StorageMoved, VTable};
use crate::storage::{
    Arc, Box, Content, Rc, RawOrBox, Storage, StorageMut, StorageSend, StorageShared,
};
use crate::align::{AlignTo, ValidAlign};
use core::marker::PhantomData;
use std::boxed::Box as StdBox;
use std::rc::Rc as StdRc;
use std::sync::Arc as StdArc;
use vstd::prelude::*;

verus! {

/// How a stored callable is invoked.
#[derive(Clone, Copy, Debug, PartialEq, Eq, Structural)]
pub enum Convention {
    /// By shared reference, any number of times.
    ByRef,
    /// By exclusive reference, any number of times.
    ByMut,
    /// By value, once: the callable is moved out of its storage.
    Once,
}

/// The dispatch table of a synchronous callable.
#[derive(Clone, Copy, Debug, PartialEq, Eq, Structural)]
pub struct SyncVTable {
    pub convention: Convention,
    pub drop_vtable: DropVTable,
}

impl VTable for SyncVTable {
    open spec fn spec_drop_vtable(&self) -> DropVTable {
        self.drop_vtable
    }

    fn drop_vtable(&self) -> (vtable: &DropVTable) {
        &self.drop_vtable
    }
}

/// Invokes `func` by shared reference.
pub fn invoke<F: Fn(Arg) -> Ret, Arg, Ret>(func: &F, arg: Arg) -> (ret: Ret)
    requires
        call_requires(*func, (arg,)),
    ensures
        call_ensures(*func, (arg,), ret),
{
    func(arg)
}

/// Invokes `func` by exclusive reference. The callable is the same after
/// the call as before it: what it reaches through what it captured is no
/// part of it.
pub fn invoke_mut<F: FnMut(Arg) -> Ret, Arg, Ret>(func: &mut F, arg: Arg) -> (ret: Ret)
    requires
        call_requires(*old(func), (arg,)),
    ensures
        call_ensures(*old(func), (arg,), ret),
        *final(func) == *old(func),
{
    func(arg)
}

/// Moves the callable out of `moved`, invokes it, and gives the storage
/// back. The callable is consumed by the invocation, and by nothing else.
pub fn invoke_once<S: StorageMut<F>, F: FnOnce(Arg) -> Ret, Arg, Ret>(
    moved: &mut StorageMoved<S, F>,
    arg: Arg,
) -> (ret: Ret)
    requires
        old(moved).content() is Holding,
        !old(moved).released(),
        call_requires(old(moved).content()->Holding_0, (arg,)),
    ensures
        call_ensures(old(moved).content()->Holding_0, (arg,), ret),
        final(moved).content() == Content::<F>::Moved,
        final(moved).released(),
{
    let func = moved.read();
    let ret = func(arg);
    moved.drop();
    ret
}

/// A callable invoked by shared reference, held in `FnStorage`.
pub struct LocalDynFn<F, FnStorage: Storage<F>> {
    storage: DynStorage<FnStorage, SyncVTable>,
    _callable: PhantomData<F>,
}

impl<F, FnStorage: Storage<F>> LocalDynFn<F, FnStorage> {
    #[verifier::type_invariant]
    spec fn well_formed(self) -> bool {
        &&& self.storage.live::<F>()
        &&& self.storage.spec_vtable().convention == Convention::ByRef
    }

    /// The callable held.
    pub closed spec fn callable(&self) -> F {
        self.storage.content::<F>()->Holding_0
    }

    /// The dispatch table.
    pub closed spec fn spec_vtable(&self) -> SyncVTable {
        self.storage.spec_vtable()
    }

    fn new_impl(storage: FnStorage) -> (container: Self)
        requires
            storage.content() is Holding,
            !storage.released(),
        ensures
            Content::Holding(container.callable()) == storage.content(),
            container.spec_vtable().convention == Convention::ByRef,
            container.spec_vtable().drop_vtable.describes::<FnStorage, F>(),
    {
        let vtable = SyncVTable {
            convention: Convention::ByRef,
            drop_vtable: DropVTable::new::<FnStorage, F>(),
        };
        LocalDynFn { storage: DynStorage::new(storage, vtable), _callable: PhantomData }
    }

    /// Stores `f` in a new `FnStorage`.
    pub fn new(f: F) -> (container: Self)
        requires
            FnStorage::spec_accepts(),
        ensures
            container.callable() == f,
    {
        Self::new_impl(FnStorage::new(f))
    }

    /// Hands out the storage with its dispatch table, for the container to
    /// be torn down.
    pub fn into_storage(self) -> (paired: DynStorage<FnStorage, SyncVTable>)
        ensures
            paired.live::<F>(),
            paired.content::<F>() == Content::Holding(self.callable()),
            paired.spec_vtable() == self.spec_vtable(),
    {
        proof {
            use_type_invariant(&self);
        }
        self.storage
    }

    /// Invokes the callable.
    pub fn call<Arg, Ret>(&self, arg: Arg) -> (ret: Ret) where F: Fn(Arg) -> Ret
        requires
            call_requires(self.callable(), (arg,)),
        ensures
            call_ensures(self.callable(), (arg,), ret),
    {
        proof {
            use_type_invariant(self);
        }
        invoke(self.storage.ptr::<F>(), arg)
    }
}

impl<F> LocalDynFn<F, Box<F>> {
    /// Stores the callable of `f`, in its own heap block.
    pub fn new_box(f: StdBox<F>) -> (container: Self)
        ensures
            container.callable() == *f,
    {
        Self::new_impl(Box::new_box(f))
    }
}

impl<F, const SIZE: usize, const ALIGN: usize> LocalDynFn<F, RawOrBox<F, SIZE, ALIGN>> where AlignTo<ALIGN>: ValidAlign {
    /// Stores the callable of `f`, in its own heap block.
    pub fn new_box(f: StdBox<F>) -> (container: Self)
        ensures
            container.callable() == *f,
    {
        Self::new_impl(RawOrBox::new_box(f))
    }
}

impl<F> LocalDynFn<F, Rc<F>> {
    /// Stores the callable of `f`, shared with the other handles on it.
    pub fn new_rc(f: StdRc<F>) -> (container: Self)
        ensures
            container.callable() == *f,
    {
        Self::new_impl(Rc::new_rc(f))
    }
}

impl<F> LocalDynFn<F, Arc<F>> {
    /// Stores the callable of `f`, shared with the other handles on it.
    pub fn new_arc(f: StdArc<F>) -> (container: Self)
        ensures
            container.callable() == *f,
    {
        Self::new_impl(Arc::new_arc(f))
    }
}

impl<F, FnStorage: StorageShared<F>> Clone for LocalDynFn<F, FnStorage> {
    /// Another container on the same callable.
    fn clone(&self) -> (container: Self)
        ensures
            container.callable() == self.callable(),
            container.spec_vtable() == self.spec_vtable(),
    {
        proof {
            use_type_invariant(self);
        }
        let storage = self.storage.clone();
        proof {
            FnStorage::clone_shares(self.storage.spec_storage(), storage.spec_storage());
        }
        LocalDynFn { storage, _callable: PhantomData }
    }
}

/// A callable invoked by shared reference, held in `FnStorage`, that can
/// cross threads.
pub struct DynFn<F: Send + Sync, FnStorage: Storage<F> + StorageSend>(LocalDynFn<F, FnStorage>);

impl<F: Send + Sync, FnStorage: Storage<F> + StorageSend> DynFn<F, FnStorage> {
    /// The callable held.
    pub closed spec fn callable(&self) -> F {
        self.0.callable()
    }

    /// The dispatch table.
    pub closed spec fn spec_vtable(&self) -> SyncVTable {
        self.0.spec_vtable()
    }

    fn new_impl(storage: FnStorage) -> (container: Self)
        requires
            storage.content() is Holding,
            !storage.released(),
        ensures
            Content::Holding(container.callable()) == storage.content(),
            container.spec_vtable().convention == Convention::ByRef,
            container.spec_vtable().drop_vtable.describes::<FnStorage, F>(),
    {
        DynFn(LocalDynFn::new_impl(storage))
    }

    /// Stores `f` in a new `FnStorage`.
    pub fn new(f: F) -> (container: Self)
        requires
            FnStorage::spec_accepts(),
        ensures
            container.callable() == f,
    {
        Self::new_impl(FnStorage::new(f))
    }

    /// Hands out the storage with its dispatch table, for the container to
    /// be torn down.
    pub fn into_storage(self) -> (paired: DynStorage<FnStorage, SyncVTable>)
        ensures
            paired.live::<F>(),
            paired.content::<F>() == Content::Holding(self.callable()),
            paired.spec_vtable() == self.spec_vtable(),
    {
        self.0.into_storage()
    }

    /// Invokes the callable.
    pub fn call<Arg, Ret>(&self, arg: Arg) -> (ret: Ret) where F: Fn(Arg) -> Ret
        requires
            call_requires(self.callable(), (arg,)),
        ensures
            call_ensures(self.callable(), (arg,), ret),
    {
        self.0.call(arg)
    }
}

impl<F: Send + Sync> DynFn<F, Box<F>> {
    /// Stores the callable of `f`, in its own heap block.
    pub fn new_box(f: StdBox<F>) -> (container: Self)
        ensures
            container.callable() == *f,
    {
        Self::new_impl(Box::new_box(f))
    }
}

impl<F: Send + Sync, const SIZE: usize, const ALIGN: usize> DynFn<F, RawOrBox<F, SIZE, ALIGN>> where AlignTo<ALIGN>: ValidAlign {
    /// Stores the callable of `f`, in its own heap block.
    pub fn new_box(f: StdBox<F>) -> (container: Self)
        ensures
            container.callable() == *f,
    {
        Self::new_impl(RawOrBox::new_box(f))
    }
}

impl<F: Send + Sync> DynFn<F, Arc<F>> {
    /// Stores the callable of `f`, shared with the other handles on it.
    pub fn new_arc(f: StdArc<F>) -> (container: Self)
        ensures
            container.callable() == *f,
    {
        Self::new_impl(Arc::new_arc(f))
    }
}

impl<F: Send + Sync, FnStorage: StorageShared<F> + StorageSend> Clone for DynFn<F, FnStorage> {
    /// Another container on the same callable.
    fn clone(&self) -> (container: Self)
        ensures
            container.callable() == self.callable(),
            container.spec_vtable() == self.spec_vtable(),
    {
        DynFn(self.0.clone())
    }
}

/// A callable invoked by exclusive reference, held in `FnStorage`.
pub struct LocalDynFnMut<F, FnStorage: StorageMut<F>> {
    storage: DynStorage<FnStorage, SyncVTable>,
    _callable: PhantomData<F>,
}

impl<F, FnStorage: StorageMut<F>> LocalDynFnMut<F, FnStorage> {
    /// Whether the container holds its callable. Every container that this
    /// crate hands out does, and every method keeps it so.
    pub closed spec fn wf(&self) -> bool {
        &&& self.storage.live::<F>()
        &&& self.storage.spec_vtable().convention == Convention::ByMut
    }

    /// The callable held.
    pub closed spec fn callable(&self) -> F {
        self.storage.content::<F>()->Holding_0
    }

    /// The dispatch table.
    pub closed spec fn spec_vtable(&self) -> SyncVTable {
        self.storage.spec_vtable()
    }

    fn new_impl(storage: FnStorage) -> (container: Self)
        requires
            storage.content() is Holding,
            !storage.released(),
        ensures
            container.wf(),
            Content::Holding(container.callable()) == storage.content(),
            container.spec_vtable().convention == Convention::ByMut,
            container.spec_vtable().drop_vtable.describes::<FnStorage, F>(),
    {
        let vtable = SyncVTable {
            convention: Convention::ByMut,
            drop_vtable: DropVTable::new::<FnStorage, F>(),
        };
        LocalDynFnMut { storage: DynStorage::new(storage, vtable), _callable: PhantomData }
    }

    /// Stores `f` in a new `FnStorage`.
    pub fn new(f: F) -> (container: Self)
        requires
            FnStorage::spec_accepts(),
        ensures
            container.wf(),
            container.callable() == f,
    {
        Self::new_impl(FnStorage::new(f))
    }

    /// Hands out the storage with its dispatch table, for the container to
    /// be torn down.
    pub fn into_storage(self) -> (paired: DynStorage<FnStorage, SyncVTable>)
        requires
            self.wf(),
        ensures
            paired.live::<F>(),
            paired.content::<F>() == Content::Holding(self.callable()),
            paired.spec_vtable() == self.spec_vtable(),
    {
        self.storage
    }

    /// Invokes the callable.
    pub fn call<Arg, Ret>(&mut self, arg: Arg) -> (ret: Ret) where F: FnMut(Arg) -> Ret
        requires
            old(self).wf(),
            call_requires(old(self).callable(), (arg,)),
        ensures
            final(self).wf(),
            call_ensures(old(self).callable(), (arg,), ret),
            final(self).callable() == old(self).callable(),
            final(self).spec_vtable() == old(self).spec_vtable(),
    {
        invoke_mut(self.storage.ptr_mut::<F>(), arg)
    }
}

impl<F> LocalDynFnMut<F, Box<F>> {
    /// Stores the callable of `f`, in its own heap block.
    pub fn new_box(f: StdBox<F>) -> (container: Self)
        ensures
            container.wf(),
            container.callable() == *f,
    {
        Self::new_impl(Box::new_box(f))
    }
}

impl<F, const SIZE: usize, const ALIGN: usize> LocalDynFnMut<F, RawOrBox<F, SIZE, ALIGN>> where AlignTo<ALIGN>: ValidAlign {
    /// Stores the callable of `f`, in its own heap block.
    pub fn new_box(f: StdBox<F>) -> (container: Self)
        ensures
            container.wf(),
            container.callable() == *f,
    {
        Self::new_impl(RawOrBox::new_box(f))
    }
}

/// A callable invoked by exclusive reference, held in `FnStorage`, that can
/// cross threads.
pub struct DynFnMut<F: Send + Sync, FnStorage: StorageMut<F> + StorageSend>(LocalDynFnMut<F, FnStorage>);

impl<F: Send + Sync, FnStorage: StorageMut<F> + StorageSend> DynFnMut<F, FnStorage> {
    /// Whether the container holds its callable. Every container that this
    /// crate hands out does, and every method keeps it so.
    pub closed spec fn wf(&self) -> bool {
        self.0.wf()
    }

    /// The callable held.
    pub closed spec fn callable(&self) -> F {
        self.0.callable()
    }

    /// The dispatch table.
    pub closed spec fn spec_vtable(&self) -> SyncVTable {
        self.0.spec_vtable()
    }

    fn new_impl(storage: FnStorage) -> (container: Self)
        requires
            storage.content() is Holding,
            !storage.released(),
        ensures
            container.wf(),
            Content::Holding(container.callable()) == storage.content(),
            container.spec_vtable().convention == Convention::ByMut,
            container.spec_vtable().drop_vtable.describes::<FnStorage, F>(),
    {
        DynFnMut(LocalDynFnMut::new_impl(storage))
    }

    /// Stores `f` in a new `FnStorage`.
    pub fn new(f: F) -> (container: Self)
        requires
            FnStorage::spec_accepts(),
        ensures
            container.wf(),
            container.callable() == f,
    {
        Self::new_impl(FnStorage::new(f))
    }

    /// Hands out the storage with its dispatch table, for the container to
    /// be torn down.
    pub fn into_storage(self) -> (paired: DynStorage<FnStorage, SyncVTable>)
        requires
            self.wf(),
        ensures
            paired.live::<F>(),
            paired.content::<F>() == Content::Holding(self.callable()),
            paired.spec_vtable() == self.spec_vtable(),
    {
        self.0.into_storage()
    }

    /// Invokes the callable.
    pub fn call<Arg, Ret>(&mut self, arg: Arg) -> (ret: Ret) where F: FnMut(Arg) -> Ret
        requires
            old(self).wf(),
            call_requires(old(self).callable(), (arg,)),
        ensures
            final(self).wf(),
            call_ensures(old(self).callable(), (arg,), ret),
            final(self).callable() == old(self).callable(),
            final(self).spec_vtable() == old(self).spec_vtable(),
    {
        self.0.call(arg)
    }
}

impl<F: Send + Sync> DynFnMut<F, Box<F>> {
    /// Stores the callable of `f`, in its own heap block.
    pub fn new_box(f: StdBox<F>) -> (container: Self)
        ensures
            container.wf(),
            container.callable() == *f,
    {
        Self::new_impl(Box::new_box(f))
    }
}

impl<F: Send + Sync, const SIZE: usize, const ALIGN: usize> DynFnMut<F, RawOrBox<F, SIZE, ALIGN>> where AlignTo<ALIGN>: ValidAlign {
    /// Stores the callable of `f`, in its own heap block.
    pub fn new_box(f: StdBox<F>) -> (container: Self)
        ensures
            container.wf(),
            container.callable() == *f,
    {
        Self::new_impl(RawOrBox::new_box(f))
    }
}

/// A callable invoked once, by value, held in `FnStorage`.
pub struct LocalDynFnOnce<F, FnStorage: StorageMut<F>> {
    storage: DynStorage<FnStorage, SyncVTable>,
    _callable: PhantomData<F>,
}

impl<F, FnStorage: StorageMut<F>> LocalDynFnOnce<F, FnStorage> {
    #[verifier::type_invariant]
    spec fn well_formed(self) -> bool {
        &&& self.storage.live::<F>()
        &&& self.storage.spec_vtable().convention == Convention::Once
    }

    /// The callable held.
    pub closed spec fn callable(&self) -> F {
        self.storage.content::<F>()->Holding_0
    }

    /// The dispatch table.
    pub closed spec fn spec_vtable(&self) -> SyncVTable {
        self.storage.spec_vtable()
    }

    fn new_impl(storage: FnStorage) -> (container: Self)
        requires
            storage.content() is Holding,
            !storage.released(),
        ensures
            Content::Holding(container.callable()) == storage.content(),
            container.spec_vtable().convention == Convention::Once,
            container.spec_vtable().drop_vtable.describes::<FnStorage, F>(),
    {
        let vtable = SyncVTable {
            convention: Convention::Once,
            drop_vtable: DropVTable::new::<FnStorage, F>(),
        };
        LocalDynFnOnce { storage: DynStorage::new(storage, vtable), _callable: PhantomData }
    }

    /// Stores `f` in a new `FnStorage`.
    pub fn new(f: F) -> (container: Self)
        requires
            FnStorage::spec_accepts(),
        ensures
            container.callable() == f,
    {
        Self::new_impl(FnStorage::new(f))
    }

    /// Hands out the storage with its dispatch table, for the container to
    /// be torn down.
    pub fn into_storage(self) -> (paired: DynStorage<FnStorage, SyncVTable>)
        ensures
            paired.live::<F>(),
            paired.content::<F>() == Content::Holding(self.callable()),
            paired.spec_vtable() == self.spec_vtable(),
    {
        proof {
            use_type_invariant(&self);
        }
        self.storage
    }

    /// Invokes the callable, which consumes it and the container.
    pub fn call<Arg, Ret>(self, arg: Arg) -> (ret: Ret) where F: FnOnce(Arg) -> Ret
        requires
            call_requires(self.callable(), (arg,)),
        ensures
            call_ensures(self.callable(), (arg,), ret),
    {
        proof {
            use_type_invariant(&self);
        }
        let mut moved = StorageMoved::new(self.storage.move_storage());
        invoke_once(&mut moved, arg)
    }
}

impl<F> LocalDynFnOnce<F, Box<F>> {
    /// Stores the callable of `f`, in its own heap block.
    pub fn new_box(f: StdBox<F>) -> (container: Self)
        ensures
            container.callable() == *f,
    {
        Self::new_impl(Box::new_box(f))
    }
}

impl<F, const SIZE: usize, const ALIGN: usize> LocalDynFnOnce<F, RawOrBox<F, SIZE, ALIGN>> where AlignTo<ALIGN>: ValidAlign {
    /// Stores the callable of `f`, in its own heap block.
    pub fn new_box(f: StdBox<F>) -> (container: Self)
        ensures
            container.callable() == *f,
    {
        Self::new_impl(RawOrBox::new_box(f))
    }
}

/// A callable invoked once, by value, held in `FnStorage`, that can cross
/// threads.
pub struct DynFnOnce<F: Send + Sync, FnStorage: StorageMut<F> + StorageSend>(LocalDynFnOnce<F, FnStorage>);

impl<F: Send + Sync, FnStorage: StorageMut<F> + StorageSend> DynFnOnce<F, FnStorage> {
    /// The callable held.
    pub closed spec fn callable(&self) -> F {
        self.0.callable()
    }

    /// The dispatch table.
    pub closed spec fn spec_vtable(&self) -> SyncVTable {
        self.0.spec_vtable()
    }

    fn new_impl(storage: FnStorage) -> (container: Self)
        requires
            storage.content() is Holding,
            !storage.released(),
        ensures
            Content::Holding(container.callable()) == storage.content(),
            container.spec_vtable().convention == Convention::Once,
            container.spec_vtable().drop_vtable.describes::<FnStorage, F>(),
    {
        DynFnOnce(LocalDynFnOnce::new_impl(storage))
    }

    /// Stores `f` in a new `FnStorage`.
    pub fn new(f: F) -> (container: Self)
        requires
            FnStorage::spec_accepts(),
        ensures
            container.callable() == f,
    {
        Self::new_impl(FnStorage::new(f))
    }

    /// Hands out the storage with its dispatch table, for the container to
    /// be torn down.
    pub fn into_storage(self) -> (paired: DynStorage<FnStorage, SyncVTable>)
        ensures
            paired.live::<F>(),
            paired.content::<F>() == Content::Holding(self.callable()),
            paired.spec_vtable() == self.spec_vtable(),
    {
        self.0.into_storage()
    }

    /// Invokes the callable.
    pub fn call<Arg, Ret>(self, arg: Arg) -> (ret: Ret) where F: FnOnce(Arg) -> Ret
        requires
            call_requires(self.callable(), (arg,)),
        ensures
            call_ensures(self.callable(), (arg,), ret),
    {
        self.0.call(arg)
    }
}

impl<F: Send + Sync> DynFnOnce<F, Box<F>> {
    /// Stores the callable of `f`, in its own heap block.
    pub fn new_box(f: StdBox<F>) -> (container: Self)
        ensures
            container.callable() == *f,
    {
        Self::new_impl(Box::new_box(f))
    }
}

impl<F: Send + Sync, const SIZE: usize, const ALIGN: usize> DynFnOnce<F, RawOrBox<F, SIZE, ALIGN>> where AlignTo<ALIGN>: ValidAlign {
    /// Stores the callable of `f`, in its own heap block.
    pub fn new_box(f: StdBox<F>) -> (container: Self)
        ensures
            container.callable() == *f,
    {
        Self::new_impl(RawOrBox::new_box(f))
    }
}

} // verus!
