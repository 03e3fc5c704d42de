//! A strong handle that always holds a value, with its weak observer.
//!
//! Because every clone of an [`Arcm`] reaches the same content slot, and any
//! of them may change it between two calls, a contract here never names "the"
//! current content. Instead it quantifies over the borrow of the content that
//! the lock handed to the operation: what the operation did to that borrow,
//! and how the result relates to it, is stated exactly.
//!
//! Beside that, each handle carries a ghost record of its origin: the value
//! its storage was created with ([`Arcm::created_with`]) and an abstract
//! label for the allocation it references ([`Arcm::storage_id`]), which
//! cloning and downgrading preserve. The record states where a handle came
//! from; it does not track the current content, which only the executable
//! tests can observe across calls.

use crate::storage::Storage;
use crate::storage::WeakStorage;
use vstd::pervasive::cloned;
use vstd::prelude::*;

verus! {

/// A shareable handle to mutable storage that always holds a `T`.
///
/// Cloning the handle shares the storage; dropping the last clone frees it.
#[verifier::reject_recursive_types(T)]
pub struct Arcm<T: Clone> {
    storage: Storage<T>,
    sid: Ghost<int>,
    init: Ghost<T>,
}

impl<T: Clone> Arcm<T> {
    /// An abstract label for the storage allocation this handle references.
    /// Cloning and downgrading keep it, so handles derived from one another
    /// carry equal labels; nothing is claimed about labels of separately
    /// created cells.
    pub closed spec fn storage_id(&self) -> int {
        self.sid@
    }

    /// The value the referenced storage was created with. This is a record
    /// of creation, not of the current content: any handle sharing the
    /// storage may have mutated the slot since.
    pub closed spec fn created_with(&self) -> T {
        self.init@
    }

    /// Allocates fresh storage holding `value`.
    pub fn new(value: T) -> (r: Arcm<T>)
        ensures
            r.created_with() == value,
    {
        let init: Ghost<T> = Ghost(value);
        Arcm { storage: Storage::new(value), sid: Ghost(vstd::pervasive::arbitrary()), init }
    }

    /// Applies `f` once to the content in place, under the lock, and returns
    /// `f`'s result.
    ///
    /// `f` must accept every value of `T`: the content it will find is
    /// whatever the previous lock holder left there, including a partial
    /// mutation left behind by a panicked operation, so an operation that is
    /// only safe on some values (an unchecked increment, an indexing) must
    /// test its input itself. The pair of the borrow `f` received and the
    /// returned result satisfies `f`'s postcondition.
    pub fn modify<R, F: FnOnce(&mut T) -> R>(&self, f: F) -> (r: R)
        requires
            forall|m: &mut T| call_requires(f, (m,)),
        ensures
            exists|m: &mut T| #[trigger] call_ensures(f, (m,), r),
    {
        self.storage.apply(f)
    }

    /// Returns a clone of the content, leaving the content unchanged.
    pub fn value(&self) -> (r: T)
        ensures
            exists|m: &mut T| *final(m) == *m && #[trigger] cloned::<T>(*m, r),
    {
        let read = |m: &mut T| -> (c: T)
            ensures
                *final(m) == *old(m),
                cloned::<T>(*old(m), c),
            {
                let c = (*m).clone();
                c
            };
        self.storage.apply(read)
    }

    /// Swaps `value` into the content slot and returns the previous content
    /// without cloning it. The borrow the lock handed out starts at the
    /// returned value and ends at `value`.
    pub fn replace(&self, value: T) -> (prior: T)
        ensures
            exists|m: &mut T| *m == prior && *final(m) == value,
    {
        let swap_in = |m: &mut T| -> (out: T)
            ensures
                *old(m) == out,
                *final(m) == value,
            {
                let mut v = value;
                core::mem::swap(m, &mut v);
                v
            };
        self.storage.apply(swap_in)
    }

    /// Returns a non-owning observer of the same storage. The ownership
    /// count is unchanged, so the observer never keeps the storage alive.
    pub fn downgrade(&self) -> (r: WeakArcm<T>)
        ensures
            r.storage_id() == self.storage_id(),
            r.created_with() == self.created_with(),
    {
        WeakArcm { storage: self.storage.observe(), sid: self.sid, init: self.init }
    }
}

impl<T: Clone> Clone for Arcm<T> {
    /// Returns a second handle to the same storage; the content is shared,
    /// not copied, so the new handle keeps the storage label and the record
    /// of the value the storage was created with.
    fn clone(&self) -> (r: Arcm<T>)
        ensures
            r.storage_id() == self.storage_id(),
            r.created_with() == self.created_with(),
    {
        Arcm { storage: self.storage.share(), sid: self.sid, init: self.init }
    }
}

impl<T: Clone + Default> Default for Arcm<T> {
    /// Allocates storage holding `T`'s default value.
    fn default() -> (r: Arcm<T>)
        ensures
            T::default.ensures((), r.created_with()),
    {
        let value = T::default();
        Arcm::new(value)
    }
}

impl<T: Clone> From<T> for Arcm<T> {
    /// Allocates storage holding `value`; equivalent to [`Arcm::new`].
    fn from(value: T) -> (r: Arcm<T>)
        ensures
            r.created_with() == value,
    {
        Arcm::new(value)
    }
}

/// `obeys_from_spec` stays `false` because `from_spec` would have to name
/// the whole result value, storage included, and the storage is opaque. What
/// `From::from` does promise stands on the impl itself: the created content
/// record equals the given value, as for [`Arcm::new`].
impl<T: Clone> vstd::std_specs::convert::FromSpecImpl<T> for Arcm<T> {
    open spec fn obeys_from_spec() -> bool {
        false
    }

    open spec fn from_spec(value: T) -> Arcm<T> {
        vstd::pervasive::arbitrary()
    }
}

/// An operation whose postcondition admits only one outcome pins `modify`
/// down completely: whatever content the lock handed out, [`Arcm::modify`]'s
/// contract then forces the returned result to be `x`, and the content borrow
/// to end at `w` — so `w` is what the storage holds when the lock is
/// released, and what any handle reads until the next mutation.
pub proof fn lemma_determinate_op_pins_modify<T, R, F: FnOnce(&mut T) -> R>(
    f: F,
    r: R,
    w: T,
    x: R,
)
    requires
        exists|m: &mut T| #[trigger] call_ensures(f, (m,), r),
        forall|m: &mut T, out: R| #[trigger] call_ensures(f, (m,), out) ==> *final(m) == w && out
            == x,
    ensures
        r == x,
        exists|m: &mut T| #[trigger] call_ensures(f, (m,), r) && *final(m) == w,
{
    let m0: &mut T = choose|m: &mut T| call_ensures(f, (m,), r);
    assert(call_ensures(f, (m0,), r) && *final(m0) == w);
}

/// A non-owning observer of an [`Arcm`]'s storage.
///
/// Each operation first tries to reacquire a strong handle; once the last
/// strong handle is gone, the operation reports absence with `None`.
#[verifier::reject_recursive_types(T)]
pub struct WeakArcm<T: Clone> {
    storage: WeakStorage<T>,
    sid: Ghost<int>,
    init: Ghost<T>,
}

impl<T: Clone> WeakArcm<T> {
    /// The storage label of the strong handle this observer was derived
    /// from; see [`Arcm::storage_id`].
    pub closed spec fn storage_id(&self) -> int {
        self.sid@
    }

    /// The value the observed storage was created with; see
    /// [`Arcm::created_with`].
    pub closed spec fn created_with(&self) -> T {
        self.init@
    }

    /// Applies `f` to the content as [`Arcm::modify`] does, if the storage is
    /// still alive; returns `None`, without invoking `f`, once every strong
    /// handle has been dropped.
    pub fn modify<R, F: FnOnce(&mut T) -> R>(&self, f: F) -> (r: Option<R>)
        requires
            forall|m: &mut T| call_requires(f, (m,)),
        ensures
            r is Some ==> exists|m: &mut T| call_ensures(f, (m,), r.unwrap()),
    {
        match self.storage.acquire() {
            Some(storage) => {
                let strong = Arcm { storage, sid: self.sid, init: self.init };
                let out = strong.modify(f);
                let r = Some(out);
                proof {
                    let m0: &mut T = choose|m: &mut T| call_ensures(f, (m,), out);
                    assert(call_ensures(f, (m0,), r.unwrap()));
                }
                r
            },
            None => None,
        }
    }

    /// Returns a clone of the content as [`Arcm::value`] does, if the storage
    /// is still alive, and `None` otherwise.
    pub fn value(&self) -> (r: Option<T>)
        ensures
            r is Some ==> exists|m: &mut T| *final(m) == *m && cloned::<T>(*m, r.unwrap()),
    {
        match self.storage.acquire() {
            Some(storage) => {
                let strong = Arcm { storage, sid: self.sid, init: self.init };
                let c = strong.value();
                let r = Some(c);
                proof {
                    let m0: &mut T = choose|m: &mut T|
                        *final(m) == *m && #[trigger] cloned::<T>(*m, c);
                    assert(*final(m0) == *m0 && cloned::<T>(*m0, r.unwrap()));
                }
                r
            },
            None => None,
        }
    }

    /// Swaps `value` in as [`Arcm::replace`] does, if the storage is still
    /// alive; once it is gone, returns `None` and discards `value`.
    pub fn replace(&self, value: T) -> (r: Option<T>)
        ensures
            r is Some ==> exists|m: &mut T| *m == r.unwrap() && *final(m) == value,
    {
        match self.storage.acquire() {
            Some(storage) => {
                let strong = Arcm { storage, sid: self.sid, init: self.init };
                Some(strong.replace(value))
            },
            None => None,
        }
    }
}

} // verus!
