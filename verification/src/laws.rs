//! What holds of every storage, payload and callable.

use crate::align::{AlignTo, ValidAlign};
use crate::dispatch::DropVTable;
use crate::async_fn::LocalDynAsyncFn;
use crate::pending::{store_future, PendingFuture, PollKind};
use crate::storage::{
    spec_share_given_back, Content, Layout, Lifecycle, Raw, RawOrBox, Storage, StorageMut,
};
use vstd::layout::*;
use vstd::prelude::*;

verus! {

/// A storage that is built and torn down without its payload having been
/// moved out has disposed of the payload, and never twice. A payload with
/// a destructor is destroyed through the storage: once if the storage is
/// exclusive, and at most once if it is shared, where the payload lives on
/// with the handles that are left. A payload without one is discarded with
/// an exclusive storage. Tearing the storage down again changes nothing.
pub proof fn lemma_teardown_destroys_once<S: Storage<T>, T>(
    data: T,
    needs_drop: bool,
    built: S,
    torn: S,
    again: S,
)
    requires
        call_ensures(<S as Storage<T>>::new, (data,), built),
        torn.released(),
        built.content().torn_down_to(
            built.released(),
            DropVTable::spec_for_payload(
                S::spec_needs_drop_inner(),
                needs_drop,
                Layout::of::<T>(),
            ).drop_inner,
            torn.content(),
            S::spec_needs_drop_inner(),
        ),
        torn.content().torn_down_to(
            torn.released(),
            DropVTable::spec_for_payload(
                S::spec_needs_drop_inner(),
                needs_drop,
                Layout::of::<T>(),
            ).drop_inner,
            again.content(),
            S::spec_needs_drop_inner(),
        ),
    ensures
        !(torn.content() is Holding),
        torn.content().moves() == 0,
        needs_drop && !S::spec_needs_drop_inner() ==> torn.content().destructions() == 1,
        !needs_drop && !S::spec_needs_drop_inner() ==> torn.content() is Discarded,
        S::spec_needs_drop_inner() ==> torn.content() is Destroyed || torn.content() is Detached,
        again.content() == torn.content(),
{
}

/// A payload that was moved out of its storage by the one invocation of a
/// single-shot callable is not destroyed when the storage is torn down,
/// whatever its release descriptor says: it left once, by the move.
pub proof fn lemma_consumed_payload_is_left_alone<S: StorageMut<T>, T>(
    data: T,
    drop_inner: bool,
    built: S,
    consumed: S,
    torn: S,
)
    requires
        call_ensures(<S as Storage<T>>::new, (data,), built),
        consumed.content() == built.content().taken(),
        torn.released(),
        consumed.content().torn_down_to(
            consumed.released(),
            drop_inner,
            torn.content(),
            S::spec_needs_drop_inner(),
        ),
    ensures
        torn.content() is Moved,
        torn.content().moves() == 1,
        torn.content().destructions() == 0,
{
}

/// How many of the releases of the handles on one shared payload destroyed
/// the payload, by what the shared block handed out at each release.
pub open spec fn destroyed_among<T>(answers: Seq<Option<T>>) -> nat
    decreases answers.len(),
{
    if answers.len() == 0 {
        0
    } else if spec_share_given_back(answers.last()) == Lifecycle::Destroyed {
        destroyed_among(answers.drop_last()) + 1
    } else {
        destroyed_among(answers.drop_last())
    }
}

/// Releases that were all told by the shared block that other handles are
/// left destroy nothing.
proof fn lemma_detached_releases_destroy_nothing<T>(answers: Seq<Option<T>>)
    requires
        forall|i: int| 0 <= i < answers.len() ==> #[trigger] answers[i] is None,
    ensures
        destroyed_among(answers) == 0,
    decreases answers.len(),
{
    if answers.len() > 0 {
        assert(answers.last() is None);
        lemma_detached_releases_destroy_nothing(answers.drop_last());
    }
}

/// The handles on one shared payload are released one after another, and
/// the shared block hands the payload out to the last of them and to no
/// other, as a reference count does. Then every release but the last
/// detaches from a payload that lives on, the last one destroys it, and it
/// is destroyed once. A storage that was never cloned is the case of one
/// handle.
pub proof fn lemma_shared_payload_is_destroyed_by_the_last_release<T>(answers: Seq<Option<T>>)
    requires
        answers.len() >= 1,
        forall|i: int|
            0 <= i < answers.len() ==> (#[trigger] answers[i] is Some <==> i == answers.len() - 1),
    ensures
        forall|i: int|
            0 <= i < answers.len() - 1 ==> spec_share_given_back(#[trigger] answers[i])
                == Lifecycle::Detached,
        spec_share_given_back(answers.last()) == Lifecycle::Destroyed,
        destroyed_among(answers) == 1,
{
    assert(answers[answers.len() - 1] is Some);
    assert forall|i: int| 0 <= i < answers.drop_last().len() implies #[trigger] answers.drop_last()[i]
        is None by {
        assert(answers.drop_last()[i] == answers[i]);
    }
    lemma_detached_releases_destroy_nothing(answers.drop_last());
}

/// A payload as large and as aligned as an in-place storage allows is
/// accepted by it, and what the storage then lends is the payload it was
/// built with.
pub proof fn lemma_raw_round_trip<T, const SIZE: usize, const ALIGN: usize>(
    data: T,
    built: Raw<T, SIZE, ALIGN>,
    lent: &T,
) where AlignTo<ALIGN>: ValidAlign
    requires
        size_of::<T>() == SIZE,
        align_of::<T>() == ALIGN,
        call_ensures(<Raw<T, SIZE, ALIGN> as Storage<T>>::new, (data,), built),
        call_ensures(<Raw<T, SIZE, ALIGN> as Storage<T>>::ptr, (&built,), lent),
    ensures
        Raw::<T, SIZE, ALIGN>::spec_accepts(),
        built.in_place(),
        *lent == data,
{
}

/// An adaptive storage holds its payload in place exactly when the
/// payload's size and alignment are within its own: one byte more, or a
/// stricter alignment, sends the payload to the heap.
pub proof fn lemma_adaptive_threshold<T, const SIZE: usize, const ALIGN: usize>(
    data: T,
    built: RawOrBox<T, SIZE, ALIGN>,
) where AlignTo<ALIGN>: ValidAlign
    requires
        call_ensures(<RawOrBox<T, SIZE, ALIGN> as Storage<T>>::new, (data,), built),
    ensures
        built.in_place() <==> size_of::<T>() <= SIZE && align_of::<T>() <= ALIGN,
        size_of::<T>() > SIZE ==> !built.in_place(),
        align_of::<T>() > ALIGN ==> !built.in_place(),
        built.content() == Content::Holding(data),
{
}

/// For a synchronous callable whose result is a function of its argument,
/// the result that a call leaves in the future storage, to be handed out
/// when the computation is polled, is the one that the synchronous path
/// returns.
pub proof fn lemma_async_path_matches_sync_path<
    F: Fn(Arg) -> Ret,
    FnStorage: Storage<F>,
    FutureStorage: StorageMut<Ret>,
    Arg,
    Ret,
>(
    container: LocalDynAsyncFn<F, FnStorage, FutureStorage>,
    arg: Arg,
    sync_ret: Option<Ret>,
    pending: PendingFuture<Ret, FutureStorage>,
)
    requires
        container.spec_is_sync(),
        forall|a: Ret, b: Ret|
            call_ensures(container.callable(), (arg,), a) && call_ensures(
                container.callable(),
                (arg,),
                b,
            ) ==> a == b,
        call_ensures(
            LocalDynAsyncFn::<F, FnStorage, FutureStorage>::call_sync::<Arg, Ret>,
            (&container, arg),
            sync_ret,
        ),
        call_ensures(
            LocalDynAsyncFn::<F, FnStorage, FutureStorage>::call::<Arg, Ret>,
            (&container, arg),
            pending,
        ),
    ensures
        pending.driving(),
        pending.poll_kind() == PollKind::Ready,
        sync_ret == Some(pending.future()),
{
}

/// A computation that is abandoned while it is driven leaves with its
/// storage, which is given back once: the computation is destroyed through
/// the storage if its release descriptor asks for it, and discarded with
/// the storage otherwise. Abandoning it again changes nothing.
pub proof fn lemma_abandoned_future_is_released_once<Fut, FutureStorage: StorageMut<Fut>>(
    future: Fut,
    poll: PollKind,
    driven: PendingFuture<Fut, FutureStorage>,
    abandoned: PendingFuture<Fut, FutureStorage>,
    again: PendingFuture<Fut, FutureStorage>,
)
    requires
        call_ensures(store_future::<Fut, FutureStorage>, (future, poll), driven),
        abandoned.released(),
        abandoned.spec_vtable() == driven.spec_vtable(),
        driven.content().torn_down_to(
            driven.released(),
            driven.spec_vtable().drop_vtable.drop_inner,
            abandoned.content(),
            FutureStorage::spec_needs_drop_inner(),
        ),
        again.released(),
        abandoned.content().torn_down_to(
            abandoned.released(),
            abandoned.spec_vtable().drop_vtable.drop_inner,
            again.content(),
            FutureStorage::spec_needs_drop_inner(),
        ),
    ensures
        !(abandoned.content() is Holding),
        abandoned.content().moves() == 0,
        driven.spec_vtable().drop_vtable.drop_inner && !FutureStorage::spec_needs_drop_inner()
            ==> abandoned.content().destructions() == 1,
        again.content() == abandoned.content(),
{
}

} // verus!
