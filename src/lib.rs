//! A reference counter whose value is the total weight of the live strong
//! handles that share it, with a level-triggered signal that is set exactly
//! when the count is zero, for tasks that wait until every holder is gone.

pub mod count;
pub mod lineage;
pub mod shared;
mod handle;

pub use count::{
    add_step, apply_change, follow_up, signal_action, sub_step, wait_action, Change, SignalAction, WaitAction,
};
pub use handle::{Counter, WeakCounter};
pub use shared::{FollowUp, SharedCount, Signal, Transition};
