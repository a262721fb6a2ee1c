//! The release descriptor of a stored payload, and the pairing of a storage
//! with the dispatch table of what it holds.

use crate::storage::{view_of, Content, Layout, Lifecycle, Storage, StorageMut, StorageView};
use core::marker::PhantomData;
use vstd::prelude::*;

verus! {

/// Calls `core::mem::needs_drop`: whether dropping a `T` does anything.
/// Nothing is claimed of the answer.
#[verifier::external_body]
fn payload_needs_drop<T>() -> bool {
    core::mem::needs_drop::<T>()
}

/// How a payload is released: whether it is destroyed through its storage
/// first, and the layout that the storage gets back.
#[derive(Clone, Copy, Debug, PartialEq, Eq, Structural)]
pub struct DropVTable {
    pub drop_inner: bool,
    pub layout: Layout,
}

impl DropVTable {
    /// The descriptor of a payload of layout `layout`, which has a
    /// destructor if `needs_drop`, in a storage that has bookkeeping of its
    /// own if `needs_drop_inner`.
    pub open spec fn spec_for_payload(
        needs_drop_inner: bool,
        needs_drop: bool,
        layout: Layout,
    ) -> DropVTable {
        DropVTable { drop_inner: needs_drop_inner || needs_drop, layout }
    }

    /// Whether this is a descriptor for a `T` held in an `S`.
    pub open spec fn describes<S: Storage<T>, T>(self) -> bool {
        &&& self.layout == Layout::of::<T>()
        &&& S::spec_needs_drop_inner() ==> self.drop_inner
    }

    #[verifier::when_used_as_spec(spec_for_payload)]
    pub fn for_payload(needs_drop_inner: bool, needs_drop: bool, layout: Layout) -> (vtable: Self)
        ensures
            vtable == Self::spec_for_payload(needs_drop_inner, needs_drop, layout),
    {
        DropVTable { drop_inner: needs_drop_inner || needs_drop, layout }
    }

    /// The descriptor for a `T` held in an `S`. Destruction is skipped only
    /// for a payload without a destructor in a storage without bookkeeping.
    pub fn new<S: Storage<T>, T>() -> (vtable: Self)
        ensures
            vtable.describes::<S, T>(),
            exists|needs_drop: bool|
                vtable == Self::spec_for_payload(
                    S::spec_needs_drop_inner(),
                    needs_drop,
                    Layout::of::<T>(),
                ),
    {
        let needs_drop = payload_needs_drop::<T>();
        Self::for_payload(S::needs_drop_inner(), needs_drop, Layout::new::<T>())
    }

    /// Releases `storage` and the payload it holds: the payload is destroyed
    /// through the storage if the descriptor asks for it, then the storage
    /// is given back.
    pub fn drop_storage<S: Storage<T>, T>(&self, storage: &mut S)
        requires
            old(storage).content() is Holding,
            !old(storage).released(),
            self.layout == Layout::of::<T>(),
        ensures
            final(storage).released(),
            final(storage).in_place() == old(storage).in_place(),
            old(storage).content().torn_down_to(
                false,
                self.drop_inner,
                final(storage).content(),
                S::spec_needs_drop_inner(),
            ),
    {
        if self.drop_inner {
            storage.drop_inner();
        }
        storage.drop_in_place(self.layout);
    }
}

/// A dispatch table: what a container keeps about the payload of its
/// storage.
pub trait VTable {
    spec fn spec_drop_vtable(&self) -> DropVTable;

    /// How the payload is released.
    fn drop_vtable(&self) -> (vtable: &DropVTable)
        ensures
            *vtable == self.spec_drop_vtable(),
    ;
}

impl VTable for DropVTable {
    open spec fn spec_drop_vtable(&self) -> DropVTable {
        *self
    }

    fn drop_vtable(&self) -> (vtable: &DropVTable) {
        self
    }
}

/// A storage paired with the dispatch table of its payload.
#[derive(Debug)]
pub struct DynStorage<S, VT> {
    storage: S,
    vtable: VT,
}

impl<S, VT> DynStorage<S, VT> {
    /// The storage.
    pub closed spec fn spec_storage(&self) -> S {
        self.storage
    }

    /// The dispatch table.
    pub closed spec fn spec_vtable(&self) -> VT {
        self.vtable
    }
}

impl<S, VT: VTable> DynStorage<S, VT> {
    /// What the storage holds.
    pub open spec fn content<T>(&self) -> Content<T> where S: Storage<T> {
        self.spec_storage().content()
    }

    /// Whether the storage has been given back.
    pub open spec fn released<T>(&self) -> bool where S: Storage<T> {
        self.spec_storage().released()
    }

    /// Whether the storage took its payload in place.
    pub open spec fn in_place<T>(&self) -> bool where S: Storage<T> {
        self.spec_storage().in_place()
    }

    /// The pair, as the contracts see it: the storage and the dispatch
    /// table.
    pub open spec fn view<T>(&self) -> (StorageView<T>, VT) where S: Storage<T> {
        (view_of(self.spec_storage()), self.spec_vtable())
    }

    /// Whether the dispatch table is one for a `T` held in an `S`.
    pub open spec fn matched<T>(&self) -> bool where S: Storage<T> {
        self.spec_vtable().spec_drop_vtable().describes::<S, T>()
    }

    /// Whether the payload can be reached: it is held, and the storage has
    /// not been given back.
    pub open spec fn live<T>(&self) -> bool where S: Storage<T> {
        &&& self.content::<T>() is Holding
        &&& !self.released::<T>()
        &&& self.matched::<T>()
    }

    /// Pairs `storage` with `vtable`, which must describe what it holds.
    pub fn new<T>(storage: S, vtable: VT) -> (paired: Self) where S: Storage<T>
        requires
            storage.content() is Holding,
            !storage.released(),
            vtable.spec_drop_vtable().describes::<S, T>(),
        ensures
            paired.spec_storage() == storage,
            paired.spec_vtable() == vtable,
            paired.view::<T>() == (view_of(storage), vtable),
            paired.live::<T>(),
    {
        DynStorage { storage, vtable }
    }

    pub fn vtable(&self) -> (vtable: &VT)
        ensures
            *vtable == self.spec_vtable(),
    {
        &self.vtable
    }

    pub fn storage(&self) -> (storage: &S)
        ensures
            *storage == self.spec_storage(),
    {
        &self.storage
    }

    /// Hands the storage over, to be read from once and then given back.
    pub fn move_storage(self) -> (storage: S)
        ensures
            storage == self.spec_storage(),
    {
        self.storage
    }

    pub fn ptr<T>(&self) -> (payload: &T) where S: Storage<T>
        requires
            self.content::<T>() is Holding,
            !self.released::<T>(),
        ensures
            self.content::<T>() == Content::Holding(*payload),
    {
        self.storage.ptr()
    }

    pub fn ptr_mut<T>(&mut self) -> (payload: &mut T) where S: StorageMut<T>
        requires
            old(self).content::<T>() is Holding,
            !old(self).released::<T>(),
        ensures
            old(self).content::<T>() == Content::Holding(*payload),
            final(self).content::<T>() == Content::Holding(*final(payload)),
            final(self).released::<T>() == old(self).released::<T>(),
            final(self).in_place::<T>() == old(self).in_place::<T>(),
            final(self).spec_vtable() == old(self).spec_vtable(),
    {
        self.storage.ptr_mut()
    }

    /// Moves the payload out. The storage stays, to be given back.
    pub fn read<T>(&mut self) -> (payload: T) where S: StorageMut<T>
        requires
            old(self).content::<T>() is Holding,
            !old(self).released::<T>(),
        ensures
            old(self).content::<T>() == Content::Holding(payload),
            final(self).content::<T>() == Content::<T>::Moved,
            !final(self).released::<T>(),
            final(self).in_place::<T>() == old(self).in_place::<T>(),
            final(self).spec_vtable() == old(self).spec_vtable(),
    {
        self.storage.read()
    }

    /// Gives the storage back, without destroying the payload through it
    /// first: for a storage whose payload was moved out.
    pub fn drop_in_place<T>(&mut self) where S: Storage<T>
        requires
            !old(self).released::<T>(),
            old(self).matched::<T>(),
        ensures
            final(self).released::<T>(),
            final(self).in_place::<T>() == old(self).in_place::<T>(),
            final(self).spec_vtable() == old(self).spec_vtable(),
            old(self).content::<T>().given_back_to(
                final(self).content::<T>(),
                S::spec_needs_drop_inner(),
            ),
    {
        let layout = self.vtable.drop_vtable().layout;
        self.storage.drop_in_place(layout);
    }

    /// Where the payload stands.
    pub fn state<T>(&self) -> (state: Lifecycle) where S: Storage<T>
        ensures
            state == self.content::<T>().lifecycle(),
    {
        self.storage.state()
    }

    /// Whether the storage has been given back.
    pub fn is_released<T>(&self) -> (released: bool) where S: Storage<T>
        ensures
            released == self.released::<T>(),
    {
        self.storage.is_released()
    }

    /// Whether the storage took its payload in place.
    pub fn is_in_place<T>(&self) -> (in_place: bool) where S: Storage<T>
        ensures
            in_place == self.in_place::<T>(),
    {
        self.storage.is_in_place()
    }

    /// Tears the pair down: a payload that is still held is released as the
    /// dispatch table says, with its storage; a storage whose payload has
    /// left is given back as it is; a storage that was given back is left
    /// alone.
    pub fn drop<T>(&mut self) where S: Storage<T>
        requires
            old(self).matched::<T>(),
        ensures
            final(self).released::<T>(),
            final(self).in_place::<T>() == old(self).in_place::<T>(),
            final(self).spec_vtable() == old(self).spec_vtable(),
            old(self).content::<T>().torn_down_to(
                old(self).released::<T>(),
                old(self).spec_vtable().spec_drop_vtable().drop_inner,
                final(self).content::<T>(),
                S::spec_needs_drop_inner(),
            ),
    {
        if self.storage.is_released() {
            return ;
        }
        let vtable = *self.vtable.drop_vtable();
        match self.storage.state() {
            Lifecycle::Holding => vtable.drop_storage(&mut self.storage),
            _ => self.storage.drop_in_place(vtable.layout),
        }
    }
}

impl<S: Clone, VT: Copy> Clone for DynStorage<S, VT> {
    /// A clone of the storage, under the same dispatch table.
    fn clone(&self) -> (paired: Self)
        ensures
            cloned(self.spec_storage(), paired.spec_storage()),
            paired.spec_vtable() == self.spec_vtable(),
    {
        DynStorage { storage: self.storage.clone(), vtable: self.vtable }
    }
}

/// A storage whose payload is being moved out: it is read from once and
/// then given back, without the payload being destroyed in it.
pub struct StorageMoved<S, T> {
    storage: S,
    _payload: PhantomData<T>,
}

impl<S: StorageMut<T>, T> StorageMoved<S, T> {
    /// What the storage holds.
    pub closed spec fn content(&self) -> Content<T> {
        self.storage.content()
    }

    /// Whether the storage has been given back.
    pub closed spec fn released(&self) -> bool {
        self.storage.released()
    }

    /// Whether the storage took its payload in place.
    pub closed spec fn in_place(&self) -> bool {
        self.storage.in_place()
    }

    /// The storage, as the contracts see it.
    pub open spec fn view(&self) -> StorageView<T> {
        StorageView {
            content: self.content(),
            released: self.released(),
            in_place: self.in_place(),
        }
    }

    pub fn new(storage: S) -> (moved: Self)
        ensures
            moved.view() == view_of(storage),
            moved.content() == storage.content(),
            moved.released() == storage.released(),
            moved.in_place() == storage.in_place(),
    {
        StorageMoved { storage, _payload: PhantomData }
    }

    /// Moves the payload out.
    pub fn read(&mut self) -> (payload: T)
        requires
            old(self).content() is Holding,
            !old(self).released(),
        ensures
            old(self).content() == Content::Holding(payload),
            final(self).content() == Content::<T>::Moved,
            !final(self).released(),
            final(self).in_place() == old(self).in_place(),
    {
        self.storage.read()
    }

    /// Where the payload stands.
    pub fn state(&self) -> (state: Lifecycle)
        ensures
            state == self.content().lifecycle(),
    {
        self.storage.state()
    }

    /// Whether the storage has been given back.
    pub fn is_released(&self) -> (released: bool)
        ensures
            released == self.released(),
    {
        self.storage.is_released()
    }

    /// Whether the storage took its payload in place.
    pub fn is_in_place(&self) -> (in_place: bool)
        ensures
            in_place == self.in_place(),
    {
        self.storage.is_in_place()
    }

    /// Gives the storage back. A payload that was moved out is left alone.
    pub fn drop(&mut self)
        requires
            !old(self).released(),
        ensures
            final(self).released(),
            final(self).in_place() == old(self).in_place(),
            old(self).content().given_back_to(final(self).content(), S::spec_needs_drop_inner()),
    {
        self.storage.drop_in_place(Layout::new::<T>());
    }
}

} // verus!
