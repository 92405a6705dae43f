//! The contract between a raw mutual-exclusion primitive and the code that
//! guards a value with it.

use vstd::prelude::*;

verus! {

/// A primitive whose unlocked state can be written down as a constant, so
/// that a guarded value can be placed in constant data and needs no
/// initialization when the program starts.
pub trait ConstInit: Sized {
    /// An unlocked primitive, ready for use. Naming it has no effect and
    /// needs no synchronization.
    const INIT: Self;
}

/// The operations of a raw mutual-exclusion primitive.
///
/// A primitive is either locked or unlocked and carries nothing else. It is
/// shared between threads, so every operation takes `&self`, and other
/// threads may lock and unlock between any two calls. For that reason the
/// trait itself promises nothing about the values these operations return;
/// an implementation whose answers are fixed says so on its own methods.
///
/// An implementation must be exclusive: while the primitive is locked, no
/// `lock` returns and no `try_lock` returns `true`. The one exception in
/// this library is [`StdRawMutex`](crate::std_wrap::StdRawMutex), a
/// placeholder that locks nothing: its `lock` returns at once although it
/// always reports itself locked, and nothing ever calls it to guard a value.
pub trait RawMutex {
    /// Says whether a guard of this primitive may be released by a thread
    /// other than the one that acquired it. Adapters pass the marker of the
    /// primitive they wrap through unchanged.
    type GuardMarker;

    /// Tries to acquire the primitive and returns whether it did. Never
    /// blocks.
    fn try_lock(&self) -> bool;

    /// Acquires the primitive, blocking the calling thread until it is
    /// available. Does not return without having acquired it. On a primitive
    /// that the calling thread already holds and that is not reentrant, this
    /// never returns.
    fn lock(&self);

    /// Releases the primitive.
    ///
    /// The caller must hold the primitive, through a `lock` that returned or
    /// a `try_lock` that returned `true`, and, where `GuardMarker` binds
    /// guards to their thread, must be the thread that acquired it. The
    /// state of a shared primitive is not a value that a precondition can
    /// speak of, so keeping this rule is left to the caller: a guard type
    /// that releases on drop should be the only caller.
    fn unlock(&self);

    /// Reports whether the primitive is locked at the moment of the call.
    /// Never blocks. The answer may be stale when it arrives and is meant
    /// for diagnostics, not for deciding whether to lock.
    fn is_locked(&self) -> bool;
}

} // verus!
