//! Shared mutable state behind reference-counted storage and a
//! mutual-exclusion lock.
//!
//! Two families of handles are offered. [`arcm::Arcm`] always holds a value;
//! [`arcmo::Arcmo`] holds an optional value and materializes a default on
//! first mutation of an empty slot. Each strong handle can be cloned (the
//! clones share one storage allocation) and downgraded to a weak observer
//! ([`arcm::WeakArcm`], [`arcmo::WeakArcmo`]) that never keeps the storage
//! alive and reports absence once every strong handle is gone.
//!
//! All access goes through a single exclusive lock per allocation, so the
//! operations on one allocation are linearizable. A panic inside a
//! user-supplied operation poisons the lock; the next access by any handle
//! clears the marker and proceeds with whatever content is present.
//!
//! What the contracts claim, and what they leave to the tests: each
//! operation's contract relates its result exactly to the borrow of the
//! content that the lock handed out, and each handle records, in ghost
//! state, the content its storage was created with and a storage label that
//! cloning and downgrading preserve. What no contract here can state is the
//! current content of a slot across two calls: the content is shared, any
//! clone may change it between the calls, and tracking it through the lock
//! would need a permission model the storage primitive does not carry. The
//! cross-call behaviour (a mutation through one clone read back through
//! another, weak handles dying with their last strong handle) is therefore
//! exercised by the executable tests rather than stated in `ensures`.

pub mod arcm;
pub mod arcmo;
pub mod storage;
