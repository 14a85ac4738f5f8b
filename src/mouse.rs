//! The controller's side of the mouse hook: a scroll accumulator that the hook
//! thread fills, read as a delta since the last poll, and the cursor
//! visibility requests that the hook thread carries out.

use vstd::prelude::*;

use std::sync::atomic::{AtomicU32, Ordering};
use std::sync::{Arc, Mutex};

verus! {

/// std's `Mutex`, opaque: the hook thread writes the guarded value.
#[verifier::external_type_specification]
#[verifier::external_body]
#[verifier::reject_recursive_types(T)]
pub struct ExMutex<T: ?Sized>(Mutex<T>);

/// Relies on `Mutex::lock`: reads the guarded scroll position. A poisoned lock
/// still holds the last value written, which is read all the same.
#[verifier::external_body]
fn read_scroll(m: &Mutex<i32>) -> (r: i32) {
    match m.lock() {
        Ok(guard) => *guard,
        Err(poisoned) => *poisoned.into_inner(),
    }
}

/// Relies on `Mutex::lock`: overwrites the guarded scroll position.
#[verifier::external_body]
fn write_scroll(m: &Mutex<i32>, value: i32) {
    match m.lock() {
        Ok(mut guard) => *guard = value,
        Err(poisoned) => *poisoned.into_inner() = value,
    }
}

/// The hook thread hides the cursor on its next mouse event.
pub const CURSOR_HIDE: u32 = 0;

/// The hook thread shows the cursor on its next mouse event.
pub const CURSOR_SHOW: u32 = 1;

/// No cursor change is pending.
pub const CURSOR_IDLE: u32 = 2;

/// What the hook thread does with a pending cursor request: `Some(true)` shows
/// the cursor, `Some(false)` hides it, and `None` leaves it alone. After acting
/// on a request the hook thread stores [`CURSOR_IDLE`].
pub fn cursor_action(request: u32) -> (r: Option<bool>)
    ensures
        request == CURSOR_HIDE ==> r == Some(false),
        request == CURSOR_SHOW ==> r == Some(true),
        request != CURSOR_HIDE && request != CURSOR_SHOW ==> r is None,
{
    if request == CURSOR_HIDE {
        Some(false)
    } else if request == CURSOR_SHOW {
        Some(true)
    } else {
        None
    }
}

/// The scroll step of one wheel event, from the high word of its mouse data:
/// one notch away from the user (`120`) is `+1`, anything else `-1`.
pub fn wheel_step(mouse_data: u32) -> (r: i32)
    ensures
        r == (if mouse_data / 0x10000 == 120 { 1i32 } else { -1i32 }),
{
    if mouse_data / 0x10000 == 120 {
        1
    } else {
        -1
    }
}

/// Tracks the mouse's scroll position, which the hook thread accumulates.
pub struct MouseManager {
    scroll_pos: Arc<Mutex<i32>>,
    old_scroll_pos: i32,
    cursor_request: Arc<AtomicU32>,
}

impl MouseManager {
    /// A manager over the accumulator and the cursor request word that the
    /// hook thread shares; no scroll has been seen yet.
    pub fn from_shared(scroll_pos: Arc<Mutex<i32>>, cursor_request: Arc<AtomicU32>) -> (r: Self)
        ensures
            r.last_seen() == 0,
    {
        MouseManager { scroll_pos, old_scroll_pos: 0, cursor_request }
    }

    /// The scroll position seen at the last poll.
    pub closed spec fn last_seen(&self) -> i32 {
        self.old_scroll_pos
    }

    /// Return the current scroll position.
    pub fn get_scroll(&self) -> (r: i32) {
        read_scroll(&self.scroll_pos)
    }

    /// Records a newly seen scroll position and returns how far the scroll
    /// moved since the one seen before.
    pub fn observe_scroll(&mut self, new_pos: i32) -> (r: i32)
        ensures
            r == new_pos.wrapping_sub(old(self).last_seen()),
            final(self).last_seen() == new_pos,
    {
        let delta = new_pos.wrapping_sub(self.old_scroll_pos);
        self.old_scroll_pos = new_pos;
        delta
    }

    /// Return how much the scrolling occurred since the last time this method
    /// was called.
    pub fn get_scroll_delta(&mut self) -> (r: i32)
        ensures
            r == final(self).last_seen().wrapping_sub(old(self).last_seen()),
    {
        let new_pos = read_scroll(&self.scroll_pos);
        self.observe_scroll(new_pos)
    }

    /// Sets the accumulated scroll position back to zero.
    pub fn reset_scroll(&self) {
        write_scroll(&self.scroll_pos, 0);
    }

    /// Asks the hook thread to show the game cursor on its next mouse event.
    pub fn show_cursor(&self) {
        self.cursor_request.store(CURSOR_SHOW, Ordering::Relaxed);
    }

    /// Asks the hook thread to hide the game cursor on its next mouse event.
    pub fn hide_cursor(&self) {
        self.cursor_request.store(CURSOR_HIDE, Ordering::Relaxed);
    }
}

} // verus!
