//! A strong handle whose content slot may be empty, with its weak observer.
//!
//! The content slot holds `Option<T>`: `None` is the empty state, `Some(v)`
//! the occupied one. Emptying (`take`), filling (`replace`) and reading
//! (`value`, `is_some`, `is_none`) follow the obvious transitions; `modify`
//! follows the materializing policy: an empty slot is filled with `T`'s
//! default value before the operation runs, and the mutated value is
//! committed, all inside one critical section. The contracts quantify over
//! the borrow of the slot that the lock handed to the operation, and each
//! handle carries a ghost record of its origin (the slot content its storage
//! was created with, and a storage label that cloning and downgrading
//! preserve), as in [`crate::arcm`].

use crate::storage::Storage;
use crate::storage::WeakStorage;
use vstd::pervasive::cloned;
use vstd::prelude::*;

verus! {

/// The materializing transition on a bare slot: applies `f` to the held
/// value, or to a freshly made default value that is then committed, and
/// returns `f`'s result. The slot is occupied afterwards in either case.
///
/// This is the whole `modify` policy in one verified function;
/// [`Arcmo::modify`] runs it under the lock. The contract reads: the borrow
/// `f` received started at the held value (or at a default value of `T` for
/// an empty slot), the slot afterwards holds that borrow's final value, and
/// the pair of borrow and result satisfies `f`'s postcondition.
pub fn slot_modify<T: Default, R, F: FnOnce(&mut T) -> R>(slot: &mut Option<T>, f: F) -> (r: R)
    requires
        forall|m: &mut T| call_requires(f, (m,)),
    ensures
        *final(slot) is Some,
        (match *old(slot) {
            Some(v) => exists|im: &mut T|
                *im == v && *final(slot) == Some(*final(im)) && #[trigger] call_ensures(
                    f,
                    (im,),
                    r,
                ),
            None => exists|im: &mut T|
                T::default.ensures((), *im) && *final(slot) == Some(*final(im))
                    && #[trigger] call_ensures(f, (im,), r),
        }),
{
    match slot {
        Some(value) => f(value),
        None => {
            let mut value = T::default();
            let dm = &mut value;
            let r = f(dm);
            *slot = Some(value);
            r
        },
    }
}

/// An operation whose postcondition admits only one outcome pins the
/// materializing `modify` step down completely. The first premise is the
/// slot transition that [`slot_modify`] (and, through its lock,
/// [`Arcmo::modify`]) ensures; when `f` can only leave `w` behind and return
/// `x`, the slot afterwards holds exactly `Some(w)` and the result is `x`,
/// whether the slot was occupied or had to be materialized from a default.
pub proof fn lemma_determinate_op_pins_modify<T: Default, R, F: FnOnce(&mut T) -> R>(
    f: F,
    r: R,
    prior: Option<T>,
    updated: Option<T>,
    w: T,
    x: R,
)
    requires
        (match prior {
            Some(v) => exists|im: &mut T|
                *im == v && updated == Some(*final(im)) && #[trigger] call_ensures(f, (im,), r),
            None => exists|im: &mut T|
                T::default.ensures((), *im) && updated == Some(*final(im))
                    && #[trigger] call_ensures(f, (im,), r),
        }),
        forall|m: &mut T, out: R| #[trigger] call_ensures(f, (m,), out) ==> *final(m) == w && out
            == x,
    ensures
        updated == Some(w),
        r == x,
{
    if prior is Some {
        let im0: &mut T = choose|im: &mut T|
            *im == prior.unwrap() && updated == Some(*final(im)) && #[trigger] call_ensures(
                f,
                (im,),
                r,
            );
        assert(call_ensures(f, (im0,), r) && updated == Some(*final(im0)));
    } else {
        let im0: &mut T = choose|im: &mut T|
            T::default.ensures((), *im) && updated == Some(*final(im)) && #[trigger] call_ensures(
                f,
                (im,),
                r,
            );
        assert(call_ensures(f, (im0,), r) && updated == Some(*final(im0)));
    }
}

/// A shareable handle to mutable storage holding an optional `T`.
///
/// Cloning the handle shares the storage; dropping the last clone frees it.
#[verifier::reject_recursive_types(T)]
pub struct Arcmo<T: Clone> {
    storage: Storage<Option<T>>,
    sid: Ghost<int>,
    init: Ghost<Option<T>>,
}

impl<T: Clone> Arcmo<T> {
    /// An abstract label for the storage allocation this handle references.
    /// Cloning and downgrading keep it, so handles derived from one another
    /// carry equal labels; nothing is claimed about labels of separately
    /// created cells.
    pub closed spec fn storage_id(&self) -> int {
        self.sid@
    }

    /// The slot content the referenced storage was created with: `None` for
    /// a cell built empty, `Some(v)` for one built occupied. This is a
    /// record of creation, not of the current content: any handle sharing
    /// the storage may have emptied or refilled the slot since.
    pub closed spec fn created_with(&self) -> Option<T> {
        self.init@
    }

    /// Allocates fresh storage with an empty slot.
    pub fn none() -> (r: Arcmo<T>)
        ensures
            r.created_with() == None::<T>,
    {
        Arcmo {
            storage: Storage::new(None),
            sid: Ghost(vstd::pervasive::arbitrary()),
            init: Ghost(None),
        }
    }

    /// Allocates fresh storage whose slot holds `value`.
    pub fn some(value: T) -> (r: Arcmo<T>)
        ensures
            r.created_with() == Some(value),
    {
        let init: Ghost<Option<T>> = Ghost(Some(value));
        Arcmo {
            storage: Storage::new(Some(value)),
            sid: Ghost(vstd::pervasive::arbitrary()),
            init,
        }
    }

    /// Applies `f` under the lock, materializing a default value first when
    /// the slot is empty, and commits the result, as [`slot_modify`] states;
    /// the whole step is one critical section, so no other handle can see
    /// the intermediate default value. `f` must accept every value of `T`
    /// (the held value is whatever the previous lock holder left), so an
    /// operation that is only safe on some values must test its input
    /// itself.
    pub fn modify<R, F: FnOnce(&mut T) -> R>(&self, f: F) -> (r: R) where T: Default
        requires
            forall|m: &mut T| call_requires(f, (m,)),
        ensures
            exists|s: &mut Option<T>|
                *final(s) is Some && (match *s {
                    Some(v) => exists|im: &mut T|
                        *im == v && *final(s) == Some(*final(im)) && #[trigger] call_ensures(
                            f,
                            (im,),
                            r,
                        ),
                    None => exists|im: &mut T|
                        T::default.ensures((), *im) && *final(s) == Some(*final(im))
                            && #[trigger] call_ensures(f, (im,), r),
                }),
    {
        let step = |s: &mut Option<T>| -> (out: R)
            requires
                forall|m: &mut T| call_requires(f, (m,)),
            ensures
                *final(s) is Some,
                (match *old(s) {
                    Some(v) => exists|im: &mut T|
                        *im == v && *final(s) == Some(*final(im)) && #[trigger] call_ensures(
                            f,
                            (im,),
                            out,
                        ),
                    None => exists|im: &mut T|
                        T::default.ensures((), *im) && *final(s) == Some(*final(im))
                            && #[trigger] call_ensures(f, (im,), out),
                }),
            {
                slot_modify(s, f)
            };
        self.storage.apply(step)
    }

    /// Empties the slot and returns what it held.
    pub fn take(&self) -> (prior: Option<T>)
        ensures
            exists|s: &mut Option<T>| *s == prior && *final(s) is None,
    {
        let empty_out = |s: &mut Option<T>| -> (out: Option<T>)
            ensures
                *old(s) == out,
                *final(s) is None,
            {
                s.take()
            };
        self.storage.apply(empty_out)
    }

    /// Fills the slot with `value` and returns what it held before.
    pub fn replace(&self, value: T) -> (prior: Option<T>)
        ensures
            exists|s: &mut Option<T>| *s == prior && *final(s) == Some(value),
    {
        let fill = |s: &mut Option<T>| -> (out: Option<T>)
            ensures
                *old(s) == out,
                *final(s) == Some(value),
            {
                let mut v = Some(value);
                core::mem::swap(s, &mut v);
                v
            };
        self.storage.apply(fill)
    }

    /// Returns a clone of the held value, or `None` for an empty slot; the
    /// slot is unchanged.
    pub fn value(&self) -> (r: Option<T>)
        ensures
            r is Some ==> exists|s: &mut Option<T>|
                *final(s) == *s && *s is Some && cloned::<T>((*s).unwrap(), r.unwrap()),
            r is None ==> exists|s: &mut Option<T>| *final(s) == *s && *s is None,
    {
        let read = |s: &mut Option<T>| -> (out: Option<T>)
            ensures
                *final(s) == *old(s),
                out is Some <==> *old(s) is Some,
                out is Some ==> cloned::<T>((*old(s)).unwrap(), out.unwrap()),
            {
                match s {
                    Some(value) => Some(value.clone()),
                    None => None,
                }
            };
        let out = self.storage.apply(read);
        proof {
            let s0: &mut Option<T> = choose|s: &mut Option<T>| #[trigger] call_ensures(
                read,
                (s,),
                out,
            );
            assert(out is Some ==> *final(s0) == *s0 && *s0 is Some && cloned::<T>(
                (*s0).unwrap(),
                out.unwrap(),
            ));
            assert(out is None ==> *final(s0) == *s0 && *s0 is None);
        }
        out
    }

    /// Reports whether the slot currently holds a value; the slot is
    /// unchanged. `is_some` and `is_none` answer opposite questions, but each
    /// takes the lock on its own, so between the two calls another handle may
    /// change the slot.
    pub fn is_some(&self) -> (r: bool)
        ensures
            exists|s: &mut Option<T>| *final(s) == *s && r == (*s is Some),
    {
        let test = |s: &mut Option<T>| -> (out: bool)
            ensures
                *final(s) == *old(s),
                out == (*old(s) is Some),
            {
                s.is_some()
            };
        self.storage.apply(test)
    }

    /// Reports whether the slot is currently empty; the slot is unchanged.
    pub fn is_none(&self) -> (r: bool)
        ensures
            exists|s: &mut Option<T>| *final(s) == *s && r == (*s is None),
    {
        let test = |s: &mut Option<T>| -> (out: bool)
            ensures
                *final(s) == *old(s),
                out == (*old(s) is None),
            {
                s.is_none()
            };
        self.storage.apply(test)
    }

    /// Returns a non-owning observer of the same storage. The ownership
    /// count is unchanged, so the observer never keeps the storage alive.
    pub fn downgrade(&self) -> (r: WeakArcmo<T>)
        ensures
            r.storage_id() == self.storage_id(),
            r.created_with() == self.created_with(),
    {
        WeakArcmo { storage: self.storage.observe(), sid: self.sid, init: self.init }
    }
}

impl<T: Clone> Clone for Arcmo<T> {
    /// Returns a second handle to the same storage; the content is shared,
    /// not copied, so the new handle keeps the storage label and the record
    /// of the slot content the storage was created with.
    fn clone(&self) -> (r: Arcmo<T>)
        ensures
            r.storage_id() == self.storage_id(),
            r.created_with() == self.created_with(),
    {
        Arcmo { storage: self.storage.share(), sid: self.sid, init: self.init }
    }
}

impl<T: Clone + Default> Default for Arcmo<T> {
    /// Allocates storage with an empty slot: the default handle starts with
    /// no value yet, not with `T`'s default value.
    fn default() -> (r: Arcmo<T>)
        ensures
            r.created_with() == None::<T>,
    {
        Arcmo::none()
    }
}

/// A non-owning observer of an [`Arcmo`]'s storage.
///
/// Each operation first tries to reacquire a strong handle; once the last
/// strong handle is gone, mutating and reading operations report absence.
#[verifier::reject_recursive_types(T)]
pub struct WeakArcmo<T: Clone> {
    storage: WeakStorage<Option<T>>,
    sid: Ghost<int>,
    init: Ghost<Option<T>>,
}

impl<T: Clone> WeakArcmo<T> {
    /// The storage label of the strong handle this observer was derived
    /// from; see [`Arcmo::storage_id`].
    pub closed spec fn storage_id(&self) -> int {
        self.sid@
    }

    /// The slot content the observed storage was created with; see
    /// [`Arcmo::created_with`].
    pub closed spec fn created_with(&self) -> Option<T> {
        self.init@
    }

    /// Applies the materializing `modify` of [`Arcmo::modify`] if the storage
    /// is still alive, wrapping the result; returns `None`, without invoking
    /// `f`, once every strong handle has been dropped. A present result comes
    /// with the same slot transition [`slot_modify`] states.
    pub fn modify<R, F: FnOnce(&mut T) -> R>(&self, f: F) -> (r: Option<R>) where T: Default
        requires
            forall|m: &mut T| call_requires(f, (m,)),
        ensures
            r is Some ==> exists|s: &mut Option<T>, im: &mut T|
                *final(s) == Some(*final(im)) && call_ensures(f, (im,), r.unwrap()) && (match *s {
                    Some(v) => *im == v,
                    None => T::default.ensures((), *im),
                }),
    {
        match self.storage.acquire() {
            Some(storage) => {
                let strong = Arcmo { storage, sid: self.sid, init: self.init };
                let out = strong.modify(f);
                let r = Some(out);
                proof {
                    let s0: &mut Option<T> = choose|s: &mut Option<T>|
                        *final(s) is Some && (match *s {
                            Some(v) => exists|im: &mut T|
                                *im == v && *final(s) == Some(*final(im))
                                    && #[trigger] call_ensures(f, (im,), out),
                            None => exists|im: &mut T|
                                T::default.ensures((), *im) && *final(s) == Some(*final(im))
                                    && #[trigger] call_ensures(f, (im,), out),
                        });
                    let im0: &mut T = choose|im: &mut T|
                        *final(s0) == Some(*final(im)) && #[trigger] call_ensures(f, (im,), out)
                            && (match *s0 {
                            Some(v) => *im == v,
                            None => T::default.ensures((), *im),
                        });
                    assert(*final(s0) == Some(*final(im0)) && call_ensures(f, (im0,), r.unwrap())
                        && (match *s0 {
                        Some(v) => *im0 == v,
                        None => T::default.ensures((), *im0),
                    }));
                }
                r
            },
            None => None,
        }
    }

    /// Returns a clone of the held value if the storage is still alive and
    /// its slot is occupied; returns `None` when the storage is gone, and
    /// also when it is alive with an empty slot.
    pub fn value(&self) -> (r: Option<T>)
        ensures
            r is Some ==> exists|s: &mut Option<T>|
                *final(s) == *s && *s is Some && cloned::<T>((*s).unwrap(), r.unwrap()),
    {
        match self.storage.acquire() {
            Some(storage) => {
                let strong = Arcmo { storage, sid: self.sid, init: self.init };
                let out = strong.value();
                proof {
                    let s0: &mut Option<T> = choose|s: &mut Option<T>|
                        *final(s) == *s && (out is Some <==> *s is Some) && (out is Some
                            ==> cloned::<T>((*s).unwrap(), out.unwrap()));
                    assert(out is Some ==> *final(s0) == *s0 && *s0 is Some && cloned::<T>(
                        (*s0).unwrap(),
                        out.unwrap(),
                    ));
                }
                out
            },
            None => None,
        }
    }

    /// Reports whether the storage is still alive with an occupied slot.
    pub fn is_some(&self) -> (r: bool)
        ensures
            r ==> exists|s: &mut Option<T>| *final(s) == *s && *s is Some,
    {
        match self.storage.acquire() {
            Some(storage) => {
                let strong = Arcmo { storage, sid: self.sid, init: self.init };
                strong.is_some()
            },
            None => false,
        }
    }

    /// Reports absence: true both when the storage is gone and when it is
    /// alive with an empty slot; the two cases are not distinguished.
    pub fn is_none(&self) -> (r: bool)
        ensures
            !r ==> exists|s: &mut Option<T>| *final(s) == *s && *s is Some,
    {
        !self.is_some()
    }

    /// Fills the slot with `value` if the storage is still alive, returning
    /// the prior content wrapped in the outer layer: `None` says the storage
    /// is gone (and `value` was discarded); `Some(prior)` says it was alive,
    /// with `prior` itself `None` for a slot that was empty.
    pub fn replace(&self, value: T) -> (r: Option<Option<T>>)
        ensures
            r is Some ==> exists|s: &mut Option<T>| *s == r.unwrap() && *final(s) == Some(value),
    {
        match self.storage.acquire() {
            Some(storage) => {
                let strong = Arcmo { storage, sid: self.sid, init: self.init };
                Some(strong.replace(value))
            },
            None => None,
        }
    }
}

} // verus!
