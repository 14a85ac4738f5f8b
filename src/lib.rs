//! Verified core of a camera take-over controller: patch-state orchestration,
//! trampoline synthesis, the cross-thread channel records and the input
//! accumulator shared with the hook thread.

pub mod channel;
pub mod mouse;
pub mod patch_state;
pub mod ptr;
pub mod session;
pub mod trampoline;
