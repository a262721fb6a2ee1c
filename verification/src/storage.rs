//! The storages available for callables and for the computations they start.

use crate::align::{AlignTo, Padded, ValidAlign};
use std::boxed::Box as StdBox;
use std::rc::Rc as StdRc;
use std::sync::Arc as StdArc;
use vstd::layout::*;
use vstd::pervasive::unreached;
use vstd::prelude::*;

verus! {

/// Size and alignment of a payload type, in bytes.
#[derive(Clone, Copy, Debug, PartialEq, Eq, Structural)]
pub struct Layout {
    pub size: usize,
    pub align: usize,
}

impl Layout {
    /// The layout of `T`.
    pub open spec fn of<T>() -> Layout {
        Layout { size: size_of::<T>() as usize, align: align_of::<T>() as usize }
    }

    /// Whether a payload of this layout fits a region of `capacity` bytes
    /// aligned to `alignment`.
    pub open spec fn spec_fits(self, capacity: usize, alignment: usize) -> bool {
        self.size <= capacity && self.align <= alignment
    }

    pub fn new<T>() -> (layout: Layout)
        ensures
            layout == Layout::of::<T>(),
            layout.size == size_of::<T>(),
            layout.align == align_of::<T>(),
    {
        Layout { size: core::mem::size_of::<T>(), align: core::mem::align_of::<T>() }
    }

    #[verifier::when_used_as_spec(spec_fits)]
    pub fn fits(self, capacity: usize, alignment: usize) -> (fits: bool)
        ensures
            fits == self.spec_fits(capacity, alignment),
    {
        self.size <= capacity && self.align <= alignment
    }
}

/// What a storage holds of the payload it was built with.
///
/// `Holding` is the only state a payload can be reached in, and no
/// operation leads back to it: a payload is moved out or destroyed at most
/// once.
#[derive(Debug)]
pub enum Content<T> {
    /// The payload is in the storage.
    Holding(T),
    /// The payload was moved out to a caller, which now owns it.
    Moved,
    /// The payload was destroyed through the storage.
    Destroyed,
    /// A shared storage gave its share back while other handles still hold
    /// the payload.
    Detached,
    /// The payload went with its storage, which was given back while it
    /// held the payload, without the storage having been asked to destroy
    /// it first. This is how a payload without a destructor ends. A payload
    /// that has one and is discarded all the same, under a release
    /// descriptor that does not ask for its destruction, still has its
    /// destructor run as it goes: the language sees to that, not the
    /// storage.
    Discarded,
}

/// A [`Content`] without its payload.
#[derive(Clone, Copy, Debug, PartialEq, Eq, Structural)]
pub enum Lifecycle {
    Holding,
    Moved,
    Destroyed,
    Detached,
    Discarded,
}

impl<T> Content<T> {
    pub open spec fn lifecycle(self) -> Lifecycle {
        match self {
            Content::Holding(_) => Lifecycle::Holding,
            Content::Moved => Lifecycle::Moved,
            Content::Destroyed => Lifecycle::Destroyed,
            Content::Detached => Lifecycle::Detached,
            Content::Discarded => Lifecycle::Discarded,
        }
    }

    /// The content once the payload has been moved out.
    pub open spec fn taken(self) -> Content<T> {
        if self is Holding {
            Content::Moved
        } else {
            self
        }
    }

    /// Whether `after` is what destroying the payload of `self` through its
    /// storage may leave. An exclusive storage destroys the payload; a
    /// shared one destroys it or detaches from it. Where no payload is
    /// held, nothing changes.
    pub open spec fn disposed_to(self, after: Content<T>, shared: bool) -> bool {
        if self is Holding {
            after is Destroyed || (shared && after is Detached)
        } else {
            after == self
        }
    }

    /// Whether `after` is what giving back a storage that holds `self` may
    /// leave. A payload that an exclusive storage still holds is discarded
    /// with it; a shared storage gives its share back as it does when the
    /// payload is destroyed through it. Where no payload is held, nothing
    /// changes.
    pub open spec fn given_back_to(self, after: Content<T>, shared: bool) -> bool {
        if self is Holding && !shared {
            after is Discarded
        } else {
            self.disposed_to(after, shared)
        }
    }

    /// Whether `after` is what tearing down a storage that holds `self`
    /// may leave. A storage that was given back is left alone. Of any
    /// other, the payload is first destroyed through the storage if
    /// `drop_inner`, and the storage is then given back.
    pub open spec fn torn_down_to(
        self,
        released: bool,
        drop_inner: bool,
        after: Content<T>,
        shared: bool,
    ) -> bool {
        if released {
            after == self
        } else if drop_inner {
            self.disposed_to(after, shared)
        } else {
            self.given_back_to(after, shared)
        }
    }

    /// How many times the storage was asked to destroy the payload and did.
    /// A discarded payload counts for nothing here, though its destructor,
    /// if it has one, has run with it.
    pub open spec fn destructions(self) -> nat {
        if self is Destroyed {
            1
        } else {
            0
        }
    }

    /// How many times the payload was moved out of the storage.
    pub open spec fn moves(self) -> nat {
        if self is Moved {
            1
        } else {
            0
        }
    }

    /// The content of a storage that its payload has left as `tag` says.
    fn left(tag: Lifecycle) -> (content: Content<T>)
        requires
            tag != Lifecycle::Holding,
        ensures
            content.lifecycle() == tag,
    {
        match tag {
            Lifecycle::Holding => unreached(),
            Lifecycle::Moved => Content::Moved,
            Lifecycle::Destroyed => Content::Destroyed,
            Lifecycle::Detached => Content::Detached,
            Lifecycle::Discarded => Content::Discarded,
        }
    }

    fn tag(&self) -> (tag: Lifecycle)
        ensures
            tag == self.lifecycle(),
    {
        match self {
            Content::Holding(_) => Lifecycle::Holding,
            Content::Moved => Lifecycle::Moved,
            Content::Destroyed => Lifecycle::Destroyed,
            Content::Detached => Lifecycle::Detached,
            Content::Discarded => Lifecycle::Discarded,
        }
    }
}

/// All that the contracts of this crate say of a storage: what became of
/// its payload, whether it has been given back, and where it took its
/// payload.
pub struct StorageView<T> {
    pub content: Content<T>,
    pub released: bool,
    pub in_place: bool,
}

/// The storage, as the contracts see it.
pub open spec fn view_of<S: Storage<T>, T>(storage: S) -> StorageView<T> {
    StorageView {
        content: storage.content(),
        released: storage.released(),
        in_place: storage.in_place(),
    }
}

/// Where a shared storage stands once it has given its share back, by what
/// the shared block handed out then: the payload, if the share was the last
/// on it, and nothing otherwise.
pub open spec fn spec_share_given_back<T>(last: Option<T>) -> Lifecycle {
    if last is Some {
        Lifecycle::Destroyed
    } else {
        Lifecycle::Detached
    }
}

/// Where a shared storage stands once it has given its share back. The
/// last share takes the payload with it, which is destroyed; any other
/// detaches from a payload that lives on.
pub fn share_given_back<T>(last: &Option<T>) -> (after: Lifecycle)
    ensures
        after == spec_share_given_back(*last),
{
    match last {
        Some(_) => Lifecycle::Destroyed,
        None => Lifecycle::Detached,
    }
}

/// A storage that can hold one payload of type `T`.
///
/// A storage is built holding its payload. The payload leaves through
/// [`drop_inner`](Storage::drop_inner) or, for a [`StorageMut`], through
/// [`read`](StorageMut::read); [`drop_in_place`](Storage::drop_in_place)
/// gives the storage itself back, once, after which nothing may reach it.
pub trait Storage<T>: Sized {
    /// Whether release has to go through the storage's own bookkeeping even
    /// for a payload without a destructor. True of the shared storages.
    spec fn spec_needs_drop_inner() -> bool;

    /// Whether the storage can take a payload of type `T`: whether the
    /// payload fits, for a storage of fixed capacity and alignment.
    spec fn spec_accepts() -> bool;

    /// Whether a new storage takes its payload in place, in the storage
    /// itself, and not in a heap block.
    spec fn spec_places_in_place() -> bool;

    /// What the storage holds.
    spec fn content(&self) -> Content<T>;

    /// Whether the storage has been given back.
    spec fn released(&self) -> bool;

    /// Whether the storage took its payload in place. The choice is made
    /// when the storage is built, and stands for as long as the storage
    /// does.
    spec fn in_place(&self) -> bool;

    fn needs_drop_inner() -> (needed: bool)
        ensures
            needed == Self::spec_needs_drop_inner(),
    ;

    fn accepts() -> (accepted: bool)
        ensures
            accepted == Self::spec_accepts(),
    ;

    fn new(data: T) -> (storage: Self)
        requires
            Self::spec_accepts(),
        ensures
            storage.content() == Content::Holding(data),
            !storage.released(),
            storage.in_place() == Self::spec_places_in_place(),
    ;

    /// The payload, by shared reference.
    fn ptr(&self) -> (payload: &T)
        requires
            self.content() is Holding,
            !self.released(),
        ensures
            self.content() == Content::Holding(*payload),
    ;

    /// Where the payload stands.
    fn state(&self) -> (state: Lifecycle)
        ensures
            state == self.content().lifecycle(),
    ;

    /// Whether the storage has been given back.
    fn is_released(&self) -> (released: bool)
        ensures
            released == self.released(),
    ;

    /// Whether the storage took its payload in place.
    fn is_in_place(&self) -> (in_place: bool)
        ensures
            in_place == self.in_place(),
    ;

    /// Destroys the payload where it stands.
    fn drop_inner(&mut self)
        requires
            old(self).content() is Holding,
            !old(self).released(),
        ensures
            !final(self).released(),
            final(self).in_place() == old(self).in_place(),
            old(self).content().disposed_to(final(self).content(), Self::spec_needs_drop_inner()),
    ;

    /// Gives the storage back. A payload still held goes with it.
    fn drop_in_place(&mut self, layout: Layout)
        requires
            !old(self).released(),
            layout == Layout::of::<T>(),
        ensures
            final(self).released(),
            final(self).in_place() == old(self).in_place(),
            old(self).content().given_back_to(final(self).content(), Self::spec_needs_drop_inner()),
    ;
}

/// A [`Storage`] whose exclusive access gives exclusive access to the
/// payload, and from which the payload can be moved out.
pub trait StorageMut<T>: Storage<T> {
    /// The payload, by exclusive reference.
    fn ptr_mut(&mut self) -> (payload: &mut T)
        requires
            old(self).content() is Holding,
            !old(self).released(),
        ensures
            old(self).content() == Content::Holding(*payload),
            final(self).content() == Content::Holding(*final(payload)),
            final(self).released() == old(self).released(),
            final(self).in_place() == old(self).in_place(),
    ;

    /// Moves the payload out.
    fn read(&mut self) -> (payload: T)
        requires
            old(self).content() is Holding,
            !old(self).released(),
        ensures
            old(self).content() == Content::Holding(payload),
            final(self).content() == Content::<T>::Moved,
            !final(self).released(),
            final(self).in_place() == old(self).in_place(),
    ;
}

/// A storage that can cross threads whenever its payload can.
pub trait StorageSend {}

/// A [`Storage`] whose clones are further handles on the same payload.
pub trait StorageShared<T>: Storage<T> + Clone {
    /// A clone holds what the storage it was cloned from holds.
    proof fn clone_shares(source: Self, handle: Self)
        requires
            cloned(source, handle),
        ensures
            view_of(handle) == view_of(source),
            handle.content() == source.content(),
            handle.released() == source.released(),
            handle.in_place() == source.in_place(),
    ;
}

/// The capacity in bytes of the default future storage: sixteen words of
/// eight bytes.
pub const DEFAULT_FUTURE_SIZE: usize = 128;

/// The alignment in bytes of the default future storage: that of a word of
/// eight bytes.
pub const DEFAULT_ALIGN: usize = 8;

/// Default function storage.
pub type DefaultFnStorage<T> = Box<T>;

/// Default future storage.
pub type DefaultFutureStorage<T> = RawOrBox<T, DEFAULT_FUTURE_SIZE, DEFAULT_ALIGN>;

/// A storage where the payload is stored in place, without allocation.
///
/// The payload's size and alignment must not exceed `SIZE` and `ALIGN`.
/// The payload is kept at an address that is a multiple of `ALIGN`.
#[derive(Debug)]
pub struct Raw<T, const SIZE: usize, const ALIGN: usize> where AlignTo<ALIGN>: ValidAlign {
    slot: Content<Padded<T, <AlignTo<ALIGN> as ValidAlign>::Marker>>,
    released: bool,
}

impl<T, const SIZE: usize, const ALIGN: usize> Raw<T, SIZE, ALIGN> where AlignTo<ALIGN>: ValidAlign {
    fn new_unchecked(data: T) -> (storage: Self)
        ensures
            storage.content() == Content::Holding(data),
            !storage.released(),
            storage.in_place(),
    {
        Raw {
            slot: Content::Holding(Padded { value: data, marker: Default::default() }),
            released: false,
        }
    }
}

impl<T, const SIZE: usize, const ALIGN: usize> Storage<T> for Raw<T, SIZE, ALIGN> where AlignTo<ALIGN>: ValidAlign {
    open spec fn spec_needs_drop_inner() -> bool {
        false
    }

    open spec fn spec_accepts() -> bool {
        size_of::<T>() <= SIZE && align_of::<T>() <= ALIGN
    }

    open spec fn spec_places_in_place() -> bool {
        true
    }

    open spec fn in_place(&self) -> bool {
        true
    }

    closed spec fn content(&self) -> Content<T> {
        match self.slot {
            Content::Holding(padded) => Content::Holding(padded.value),
            Content::Moved => Content::Moved,
            Content::Destroyed => Content::Destroyed,
            Content::Detached => Content::Detached,
            Content::Discarded => Content::Discarded,
        }
    }

    closed spec fn released(&self) -> bool {
        self.released
    }

    fn needs_drop_inner() -> (needed: bool) {
        false
    }

    fn accepts() -> (accepted: bool) {
        Layout::new::<T>().fits(SIZE, ALIGN)
    }

    fn new(data: T) -> (storage: Self) {
        Self::new_unchecked(data)
    }

    fn ptr(&self) -> (payload: &T) {
        match &self.slot {
            Content::Holding(padded) => &padded.value,
            _ => unreached(),
        }
    }

    fn state(&self) -> (state: Lifecycle) {
        self.slot.tag()
    }

    fn is_released(&self) -> (released: bool) {
        self.released
    }

    fn is_in_place(&self) -> (in_place: bool) {
        true
    }

    fn drop_inner(&mut self) {
        self.slot = Content::Destroyed;
    }

    fn drop_in_place(&mut self, layout: Layout) {
        if let Content::Holding(_) = &self.slot {
            self.slot = Content::Discarded;
        }
        self.released = true;
    }
}

impl<T, const SIZE: usize, const ALIGN: usize> StorageMut<T> for Raw<T, SIZE, ALIGN> where AlignTo<ALIGN>: ValidAlign {
    fn ptr_mut(&mut self) -> (payload: &mut T) {
        match &mut self.slot {
            Content::Holding(padded) => &mut padded.value,
            _ => unreached(),
        }
    }

    fn read(&mut self) -> (payload: T) {
        let mut slot = Content::Moved;
        core::mem::swap(&mut self.slot, &mut slot);
        match slot {
            Content::Holding(padded) => padded.value,
            _ => unreached(),
        }
    }
}

impl<T, const SIZE: usize, const ALIGN: usize> StorageSend for Raw<T, SIZE, ALIGN> where AlignTo<ALIGN>: ValidAlign {
}

/// A storage where the payload lives in a heap block with a single owner.
#[derive(Debug)]
pub struct Box<T> {
    slot: Content<StdBox<T>>,
    released: bool,
}

impl<T> Box<T> {
    /// Takes over the block of `data`.
    pub fn new_box(data: StdBox<T>) -> (storage: Self)
        ensures
            storage.content() == Content::Holding(*data),
            !storage.released(),
    {
        Box { slot: Content::Holding(data), released: false }
    }
}

impl<T> Storage<T> for Box<T> {
    open spec fn spec_needs_drop_inner() -> bool {
        false
    }

    open spec fn spec_accepts() -> bool {
        true
    }

    open spec fn spec_places_in_place() -> bool {
        false
    }

    open spec fn in_place(&self) -> bool {
        false
    }

    closed spec fn content(&self) -> Content<T> {
        match self.slot {
            Content::Holding(block) => Content::Holding(*block),
            Content::Moved => Content::Moved,
            Content::Destroyed => Content::Destroyed,
            Content::Detached => Content::Detached,
            Content::Discarded => Content::Discarded,
        }
    }

    closed spec fn released(&self) -> bool {
        self.released
    }

    fn needs_drop_inner() -> (needed: bool) {
        false
    }

    fn accepts() -> (accepted: bool) {
        true
    }

    fn new(data: T) -> (storage: Self) {
        Self::new_box(StdBox::new(data))
    }

    fn ptr(&self) -> (payload: &T) {
        match &self.slot {
            Content::Holding(block) => &**block,
            _ => unreached(),
        }
    }

    fn state(&self) -> (state: Lifecycle) {
        self.slot.tag()
    }

    fn is_released(&self) -> (released: bool) {
        self.released
    }

    fn is_in_place(&self) -> (in_place: bool) {
        false
    }

    fn drop_inner(&mut self) {
        self.slot = Content::Destroyed;
    }

    fn drop_in_place(&mut self, layout: Layout) {
        if let Content::Holding(_) = &self.slot {
            self.slot = Content::Discarded;
        }
        self.released = true;
    }
}

impl<T> StorageMut<T> for Box<T> {
    fn ptr_mut(&mut self) -> (payload: &mut T) {
        match &mut self.slot {
            Content::Holding(block) => &mut **block,
            _ => unreached(),
        }
    }

    fn read(&mut self) -> (payload: T) {
        let mut slot = Content::Moved;
        core::mem::swap(&mut self.slot, &mut slot);
        match slot {
            Content::Holding(block) => *block,
            _ => unreached(),
        }
    }
}

impl<T> StorageSend for Box<T> {
}

/// A storage where the payload lives in a heap block shared, within one
/// thread, by every clone of the storage.
#[derive(Debug)]
pub struct Rc<T> {
    slot: Content<StdRc<T>>,
    released: bool,
}

impl<T> Rc<T> {
    /// Takes over the share of `data`.
    pub fn new_rc(data: StdRc<T>) -> (storage: Self)
        ensures
            storage.content() == Content::Holding(*data),
            !storage.released(),
    {
        Rc { slot: Content::Holding(data), released: false }
    }

    /// Gives the share back; the payload is destroyed if it was the last.
    fn give_back(&mut self)
        ensures
            final(self).released == old(self).released,
            old(self).content().disposed_to(final(self).content(), true),
    {
        let mut slot = Content::Detached;
        core::mem::swap(&mut self.slot, &mut slot);
        match slot {
            Content::Holding(share) => {
                let last = StdRc::into_inner(share);
                self.slot = Content::left(share_given_back(&last));
            },
            Content::Moved => {
                self.slot = Content::Moved;
            },
            Content::Destroyed => {
                self.slot = Content::Destroyed;
            },
            Content::Detached => {},
            Content::Discarded => {
                self.slot = Content::Discarded;
            },
        }
    }
}

impl<T> Clone for Rc<T> {
    /// Another handle on the same payload.
    fn clone(&self) -> (handle: Self)
        ensures
            view_of(handle) == view_of(*self),
            handle.content() == self.content(),
            handle.released() == self.released(),
    {
        let slot = match &self.slot {
            Content::Holding(share) => Content::Holding(share.clone()),
            Content::Moved => Content::Moved,
            Content::Destroyed => Content::Destroyed,
            Content::Detached => Content::Detached,
            Content::Discarded => Content::Discarded,
        };
        Rc { slot, released: self.released }
    }
}

impl<T> StorageShared<T> for Rc<T> {
    proof fn clone_shares(source: Self, handle: Self) {
    }
}

impl<T> Storage<T> for Rc<T> {
    open spec fn spec_needs_drop_inner() -> bool {
        true
    }

    open spec fn spec_accepts() -> bool {
        true
    }

    open spec fn spec_places_in_place() -> bool {
        false
    }

    open spec fn in_place(&self) -> bool {
        false
    }

    closed spec fn content(&self) -> Content<T> {
        match self.slot {
            Content::Holding(share) => Content::Holding(*share),
            Content::Moved => Content::Moved,
            Content::Destroyed => Content::Destroyed,
            Content::Detached => Content::Detached,
            Content::Discarded => Content::Discarded,
        }
    }

    closed spec fn released(&self) -> bool {
        self.released
    }

    fn needs_drop_inner() -> (needed: bool) {
        true
    }

    fn accepts() -> (accepted: bool) {
        true
    }

    fn new(data: T) -> (storage: Self) {
        Self::new_rc(StdRc::new(data))
    }

    fn ptr(&self) -> (payload: &T) {
        match &self.slot {
            Content::Holding(share) => &**share,
            _ => unreached(),
        }
    }

    fn state(&self) -> (state: Lifecycle) {
        self.slot.tag()
    }

    fn is_released(&self) -> (released: bool) {
        self.released
    }

    fn is_in_place(&self) -> (in_place: bool) {
        false
    }

    fn drop_inner(&mut self) {
        self.give_back();
    }

    fn drop_in_place(&mut self, layout: Layout) {
        self.give_back();
        self.released = true;
    }
}

/// Calls `Arc::into_inner`: the payload if `share` was the last handle on
/// it, and nothing otherwise. Either way the share is given back.
#[verifier::external_body]
fn last_share<T>(share: StdArc<T>) -> (payload: Option<T>)
    ensures
        payload matches Some(inner) ==> inner == *share,
{
    StdArc::into_inner(share)
}

/// A storage where the payload lives in a heap block shared, across
/// threads, by every clone of the storage.
#[derive(Debug)]
pub struct Arc<T> {
    slot: Content<StdArc<T>>,
    released: bool,
}

impl<T> Arc<T> {
    /// Takes over the share of `data`.
    pub fn new_arc(data: StdArc<T>) -> (storage: Self)
        ensures
            storage.content() == Content::Holding(*data),
            !storage.released(),
    {
        Arc { slot: Content::Holding(data), released: false }
    }

    /// Gives the share back; the payload is destroyed if it was the last.
    fn give_back(&mut self)
        ensures
            final(self).released == old(self).released,
            old(self).content().disposed_to(final(self).content(), true),
    {
        let mut slot = Content::Detached;
        core::mem::swap(&mut self.slot, &mut slot);
        match slot {
            Content::Holding(share) => {
                let last = last_share(share);
                self.slot = Content::left(share_given_back(&last));
            },
            Content::Moved => {
                self.slot = Content::Moved;
            },
            Content::Destroyed => {
                self.slot = Content::Destroyed;
            },
            Content::Detached => {},
            Content::Discarded => {
                self.slot = Content::Discarded;
            },
        }
    }
}

impl<T> Clone for Arc<T> {
    /// Another handle on the same payload.
    fn clone(&self) -> (handle: Self)
        ensures
            view_of(handle) == view_of(*self),
            handle.content() == self.content(),
            handle.released() == self.released(),
    {
        let slot = match &self.slot {
            Content::Holding(share) => Content::Holding(share.clone()),
            Content::Moved => Content::Moved,
            Content::Destroyed => Content::Destroyed,
            Content::Detached => Content::Detached,
            Content::Discarded => Content::Discarded,
        };
        Arc { slot, released: self.released }
    }
}

impl<T> StorageShared<T> for Arc<T> {
    proof fn clone_shares(source: Self, handle: Self) {
    }
}

impl<T> Storage<T> for Arc<T> {
    open spec fn spec_needs_drop_inner() -> bool {
        true
    }

    open spec fn spec_accepts() -> bool {
        true
    }

    open spec fn spec_places_in_place() -> bool {
        false
    }

    open spec fn in_place(&self) -> bool {
        false
    }

    closed spec fn content(&self) -> Content<T> {
        match self.slot {
            Content::Holding(share) => Content::Holding(*share),
            Content::Moved => Content::Moved,
            Content::Destroyed => Content::Destroyed,
            Content::Detached => Content::Detached,
            Content::Discarded => Content::Discarded,
        }
    }

    closed spec fn released(&self) -> bool {
        self.released
    }

    fn needs_drop_inner() -> (needed: bool) {
        true
    }

    fn accepts() -> (accepted: bool) {
        true
    }

    fn new(data: T) -> (storage: Self) {
        Self::new_arc(StdArc::new(data))
    }

    fn ptr(&self) -> (payload: &T) {
        match &self.slot {
            Content::Holding(share) => &**share,
            _ => unreached(),
        }
    }

    fn state(&self) -> (state: Lifecycle) {
        self.slot.tag()
    }

    fn is_released(&self) -> (released: bool) {
        self.released
    }

    fn is_in_place(&self) -> (in_place: bool) {
        false
    }

    fn drop_inner(&mut self) {
        self.give_back();
    }

    fn drop_in_place(&mut self, layout: Layout) {
        self.give_back();
        self.released = true;
    }
}

impl<T> StorageSend for Arc<T> {
}

#[derive(Debug)]
enum RawOrBoxInner<T, const SIZE: usize, const ALIGN: usize> where AlignTo<ALIGN>: ValidAlign {
    Raw(Raw<T, SIZE, ALIGN>),
    Box(Box<T>),
}

/// A [`Raw`] storage with a [`Box`] to fall back on when the payload does
/// not fit in place.
#[derive(Debug)]
pub struct RawOrBox<T, const SIZE: usize, const ALIGN: usize>(
    RawOrBoxInner<T, SIZE, ALIGN>,
) where AlignTo<ALIGN>: ValidAlign;

impl<T, const SIZE: usize, const ALIGN: usize> RawOrBox<T, SIZE, ALIGN> where AlignTo<ALIGN>: ValidAlign {
    /// Stores `data` in place.
    pub fn new_raw(data: T) -> (storage: Self)
        requires
            Raw::<T, SIZE, ALIGN>::spec_accepts(),
        ensures
            storage.in_place(),
            storage.content() == Content::Holding(data),
            !storage.released(),
    {
        RawOrBox(RawOrBoxInner::Raw(Raw::new(data)))
    }

    /// Takes over the block of `data`.
    pub fn new_box(data: StdBox<T>) -> (storage: Self)
        ensures
            !storage.in_place(),
            storage.content() == Content::Holding(*data),
            !storage.released(),
    {
        RawOrBox(RawOrBoxInner::Box(Box::new_box(data)))
    }

    /// Whether the payload was placed in the storage itself.
    pub fn is_raw(&self) -> (raw: bool)
        ensures
            raw == self.in_place(),
    {
        match &self.0 {
            RawOrBoxInner::Raw(_) => true,
            RawOrBoxInner::Box(_) => false,
        }
    }

    /// Whether the payload was placed in a heap block.
    pub fn is_box(&self) -> (boxed: bool)
        ensures
            boxed == !self.in_place(),
    {
        !self.is_raw()
    }
}

impl<T, const SIZE: usize, const ALIGN: usize> Storage<T> for RawOrBox<T, SIZE, ALIGN> where AlignTo<ALIGN>: ValidAlign {
    open spec fn spec_needs_drop_inner() -> bool {
        false
    }

    open spec fn spec_accepts() -> bool {
        true
    }

    open spec fn spec_places_in_place() -> bool {
        <Raw<T, SIZE, ALIGN> as Storage<T>>::spec_accepts()
    }

    closed spec fn in_place(&self) -> bool {
        self.0 is Raw
    }

    closed spec fn content(&self) -> Content<T> {
        match self.0 {
            RawOrBoxInner::Raw(storage) => storage.content(),
            RawOrBoxInner::Box(storage) => storage.content(),
        }
    }

    closed spec fn released(&self) -> bool {
        match self.0 {
            RawOrBoxInner::Raw(storage) => storage.released(),
            RawOrBoxInner::Box(storage) => storage.released(),
        }
    }

    fn needs_drop_inner() -> (needed: bool) {
        false
    }

    fn accepts() -> (accepted: bool) {
        true
    }

    /// Stores `data` in place if it fits, and in a heap block otherwise.
    fn new(data: T) -> (storage: Self) {
        if Layout::new::<T>().fits(SIZE, ALIGN) {
            RawOrBox(RawOrBoxInner::Raw(Raw::new_unchecked(data)))
        } else {
            RawOrBox(RawOrBoxInner::Box(Box::new(data)))
        }
    }

    fn ptr(&self) -> (payload: &T) {
        match &self.0 {
            RawOrBoxInner::Raw(storage) => storage.ptr(),
            RawOrBoxInner::Box(storage) => storage.ptr(),
        }
    }

    fn state(&self) -> (state: Lifecycle) {
        match &self.0 {
            RawOrBoxInner::Raw(storage) => storage.state(),
            RawOrBoxInner::Box(storage) => storage.state(),
        }
    }

    fn is_released(&self) -> (released: bool) {
        match &self.0 {
            RawOrBoxInner::Raw(storage) => storage.is_released(),
            RawOrBoxInner::Box(storage) => storage.is_released(),
        }
    }

    fn is_in_place(&self) -> (in_place: bool) {
        self.is_raw()
    }

    fn drop_inner(&mut self) {
        match &mut self.0 {
            RawOrBoxInner::Raw(storage) => storage.drop_inner(),
            RawOrBoxInner::Box(storage) => storage.drop_inner(),
        }
    }

    fn drop_in_place(&mut self, layout: Layout) {
        match &mut self.0 {
            RawOrBoxInner::Raw(storage) => storage.drop_in_place(layout),
            RawOrBoxInner::Box(storage) => storage.drop_in_place(layout),
        }
    }
}

impl<T, const SIZE: usize, const ALIGN: usize> StorageMut<T> for RawOrBox<T, SIZE, ALIGN> where AlignTo<ALIGN>: ValidAlign {
    fn ptr_mut(&mut self) -> (payload: &mut T) {
        match &mut self.0 {
            RawOrBoxInner::Raw(storage) => storage.ptr_mut(),
            RawOrBoxInner::Box(storage) => storage.ptr_mut(),
        }
    }

    fn read(&mut self) -> (payload: T) {
        match &mut self.0 {
            RawOrBoxInner::Raw(storage) => storage.read(),
            RawOrBoxInner::Box(storage) => storage.read(),
        }
    }
}

impl<T, const SIZE: usize, const ALIGN: usize> StorageSend for RawOrBox<T, SIZE, ALIGN> where AlignTo<ALIGN>: ValidAlign {
}

} // verus!
