//! The computation that an asynchronous call starts, kept in a storage of
//! its own until it completes or is abandoned.

use crate::dispatch::{DropVTable, DynStorage, VTable};
use crate::storage::{Content, Layout, Lifecycle, Storage, StorageMut, StorageView};
use core::marker::PhantomData;
use vstd::prelude::*;

verus! {

/// What polling a stored computation takes.
#[derive(Clone, Copy, Debug, PartialEq, Eq, Structural)]
pub enum PollKind {
    /// The stored value is the result: a synchronous callable produced it.
    Ready,
    /// The stored value is a computation that whoever drives it has to poll.
    Future,
}

/// What one poll of a computation gave.
pub enum Polled<Ret> {
    Ready(Ret),
    Pending,
}

/// The dispatch table of a stored computation.
#[derive(Clone, Copy, Debug, PartialEq, Eq, Structural)]
pub struct FutureVTable {
    pub poll: PollKind,
    pub drop_vtable: DropVTable,
}

impl VTable for FutureVTable {
    open spec fn spec_drop_vtable(&self) -> DropVTable {
        self.drop_vtable
    }

    fn drop_vtable(&self) -> (vtable: &DropVTable) {
        &self.drop_vtable
    }
}

/// A computation in its storage. The storage is given back once: when the
/// computation completes, or when it is abandoned.
pub struct PendingFuture<Fut, FutureStorage: StorageMut<Fut>> {
    storage: DynStorage<FutureStorage, FutureVTable>,
    _future: PhantomData<Fut>,
}

/// Places `future` in a new `FutureStorage`, under the dispatch table of
/// what it is.
pub fn store_future<Fut, FutureStorage: StorageMut<Fut>>(
    future: Fut,
    poll: PollKind,
) -> (pending: PendingFuture<Fut, FutureStorage>)
    requires
        FutureStorage::spec_accepts(),
    ensures
        pending.driving(),
        pending.content() == Content::Holding(future),
        pending.poll_kind() == poll,
        pending.in_place() == FutureStorage::spec_places_in_place(),
        exists|needs_drop: bool|
            pending.spec_vtable().drop_vtable == DropVTable::spec_for_payload(
                FutureStorage::spec_needs_drop_inner(),
                needs_drop,
                Layout::of::<Fut>(),
            ),
{
    let vtable = FutureVTable { poll, drop_vtable: DropVTable::new::<FutureStorage, Fut>() };
    PendingFuture {
        storage: DynStorage::new(FutureStorage::new(future), vtable),
        _future: PhantomData,
    }
}

impl<Fut, FutureStorage: StorageMut<Fut>> PendingFuture<Fut, FutureStorage> {
    /// What the storage holds.
    pub closed spec fn content(&self) -> Content<Fut> {
        self.storage.content::<Fut>()
    }

    /// Whether the storage has been given back.
    pub closed spec fn released(&self) -> bool {
        self.storage.released::<Fut>()
    }

    /// The dispatch table.
    pub closed spec fn spec_vtable(&self) -> FutureVTable {
        self.storage.spec_vtable()
    }

    /// What polling takes.
    pub open spec fn poll_kind(&self) -> PollKind {
        self.spec_vtable().poll
    }

    /// Whether the storage took the computation in place.
    pub closed spec fn in_place(&self) -> bool {
        self.storage.in_place::<Fut>()
    }

    /// The computation, as the contracts see it: its storage and its
    /// dispatch table.
    pub open spec fn view(&self) -> (StorageView<Fut>, FutureVTable) {
        (
            StorageView {
                content: self.content(),
                released: self.released(),
                in_place: self.in_place(),
            },
            self.spec_vtable(),
        )
    }

    /// Whether the dispatch table is one for a `Fut` held in a
    /// `FutureStorage`. It is, for every computation that this crate hands
    /// out.
    pub open spec fn matched(&self) -> bool {
        self.spec_vtable().drop_vtable.describes::<FutureStorage, Fut>()
    }

    /// Whether the computation is still to be driven: it is in its storage,
    /// which has not been given back.
    pub open spec fn driving(&self) -> bool {
        &&& self.content() is Holding
        &&& !self.released()
        &&& self.matched()
    }

    /// The stored computation.
    pub open spec fn future(&self) -> Fut {
        self.content()->Holding_0
    }

    /// What polling takes.
    pub fn kind(&self) -> (kind: PollKind)
        ensures
            kind == self.poll_kind(),
    {
        self.storage.vtable().poll
    }

    /// Where the computation stands.
    pub fn state(&self) -> (state: Lifecycle)
        ensures
            state == self.content().lifecycle(),
    {
        self.storage.state::<Fut>()
    }

    /// Whether the storage has been given back.
    pub fn is_released(&self) -> (released: bool)
        ensures
            released == self.released(),
    {
        self.storage.is_released::<Fut>()
    }

    /// Whether the storage took the computation in place.
    pub fn is_in_place(&self) -> (in_place: bool)
        ensures
            in_place == self.in_place(),
    {
        self.storage.is_in_place::<Fut>()
    }

    /// The stored computation, for whoever drives it to poll. It stays
    /// where it is.
    pub fn future_mut(&mut self) -> (future: &mut Fut)
        requires
            old(self).driving(),
        ensures
            *future == old(self).future(),
            final(self).driving(),
            final(self).content() == Content::Holding(*final(future)),
            final(self).spec_vtable() == old(self).spec_vtable(),
    {
        self.storage.ptr_mut::<Fut>()
    }

    /// Takes what one poll of the stored computation gave. On completion
    /// the computation is released with its storage, as its dispatch table
    /// says; while it is pending, nothing changes.
    pub fn poll_future<Ret>(&mut self, polled: Polled<Ret>) -> (ret: Polled<Ret>)
        requires
            old(self).driving(),
        ensures
            ret == polled,
            polled is Pending ==> *final(self) == *old(self),
            polled is Pending ==> final(self).view() == old(self).view(),
            polled is Ready ==> final(self).released() && old(self).content().torn_down_to(
                false,
                old(self).spec_vtable().drop_vtable.drop_inner,
                final(self).content(),
                FutureStorage::spec_needs_drop_inner(),
            ),
            final(self).in_place() == old(self).in_place(),
            final(self).spec_vtable() == old(self).spec_vtable(),
    {
        if let Polled::Ready(_) = &polled {
            self.storage.drop::<Fut>();
        }
        polled
    }

    /// Moves what is stored out, and gives the storage back: the way to
    /// the result that a synchronous callable left there.
    pub fn poll_ready(&mut self) -> (ret: Fut)
        requires
            old(self).driving(),
        ensures
            ret == old(self).future(),
            final(self).content() == Content::<Fut>::Moved,
            final(self).released(),
            final(self).in_place() == old(self).in_place(),
            final(self).spec_vtable() == old(self).spec_vtable(),
    {
        let ret = self.storage.read::<Fut>();
        self.storage.drop_in_place::<Fut>();
        ret
    }

    /// Abandons the computation: if its storage has not been given back,
    /// the computation is released with it, as its dispatch table says;
    /// otherwise nothing changes.
    pub fn drop(&mut self)
        requires
            old(self).matched(),
        ensures
            final(self).released(),
            final(self).in_place() == old(self).in_place(),
            final(self).spec_vtable() == old(self).spec_vtable(),
            old(self).content().torn_down_to(
                old(self).released(),
                old(self).spec_vtable().drop_vtable.drop_inner,
                final(self).content(),
                FutureStorage::spec_needs_drop_inner(),
            ),
    {
        self.storage.drop::<Fut>();
    }
}

} // verus!
