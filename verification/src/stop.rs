//! The stop signal that the workers of one search share.

use std::sync::atomic::AtomicBool;
use std::sync::atomic::Ordering;
use vstd::prelude::*;

verus! {

/// A flag that starts lowered and can only be raised. It may be shared by
/// reference among threads: raising and reading are single atomic
/// operations, sequentially consistent.
///
/// What a reader sees depends on what other threads have done, so the
/// operations promise nothing about each other in their contracts. The type
/// offers no way to lower the flag.
pub struct StopFlag {
    raised: AtomicBool,
}

impl StopFlag {
    /// A lowered flag.
    pub fn new() -> StopFlag {
        StopFlag { raised: AtomicBool::new(false) }
    }

    /// Raises the flag. A plain store: every writer writes the same value,
    /// so it does not matter whose write comes last.
    pub fn raise(&self) {
        self.raised.store(true, Ordering::SeqCst);
    }

    /// Whether the flag has been seen raised.
    pub fn is_raised(&self) -> bool {
        self.raised.load(Ordering::SeqCst)
    }
}

} // verus!
