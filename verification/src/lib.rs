//! Mutual exclusion behind a small trait contract.
//!
//! [`RawMutex`] is what a raw primitive has to offer, [`ConstInit`] is how an
//! unlocked primitive is named at compile time, and [`StdBlockingMutex`] is a
//! guarded value backed by the platform's blocking mutex, selected with
//! [`StdRawMutex`] as its primitive parameter.
//!
//! The library acquires without waiting and says what becomes of a guard.
//! It never waits for a lock itself: see [`std_wrap`].

pub mod std_wrap;
pub mod traits;

pub use std_wrap::{
    accepts_value_behind, borrowed_from, carried_by, guard_of_attempt, guard_of_lock,
    is_guard_of_attempt, is_guard_of_lock, ran_on_value_behind, run_held, run_if_held,
    value_behind,
    Attempt, StdBlockingMutex, StdRawMutex,
};
pub use traits::{ConstInit, RawMutex};
