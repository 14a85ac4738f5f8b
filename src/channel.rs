//! The cells through which the foreign thread hands values to the controller:
//! a one-word telemetry cell and the one-shot teleport command record.
//!
//! Both are written by trampolines on the foreign thread without any lock.
//! Values are kept as the raw bit patterns of the foreign single-precision
//! floats, exactly as the foreign code stores them.

use vstd::prelude::*;

use std::sync::atomic::{AtomicU32, Ordering};
use std::sync::Arc;

use crate::ptr::GameCell;

verus! {

/// Whether the single-precision float with bit pattern `bits` differs from
/// zero, as `!= 0.0` judges it: both `+0.0` and `-0.0` count as zero, and every
/// other pattern (NaN included) does not.
pub open spec fn float_nonzero(bits: u32) -> bool {
    bits != 0 && bits != 0x8000_0000
}

/// Exec form of [`float_nonzero`].
pub fn is_float_nonzero(bits: u32) -> (r: bool)
    ensures
        r == float_nonzero(bits),
{
    bits != 0 && bits != 0x8000_0000
}

/// A teleport command, as the foreign code writes it: the source position
/// followed by the target position, each as `x`, `z`, `y`.
///
/// A command is pending when all six fields are nonzero; consuming it resets
/// all of them to zero. A legitimate all-zero coordinate cannot be told apart
/// from "no command", which is accepted.
#[derive(PartialEq, Eq, Structural, Clone, Copy, Debug)]
pub struct BattleUnitCameraTeleport {
    pub x: u32,
    pub z: u32,
    pub y: u32,
    pub x_target: u32,
    pub z_target: u32,
    pub y_target: u32,
}

/// The record with all six fields zero.
pub open spec fn zeroed_teleport() -> BattleUnitCameraTeleport {
    BattleUnitCameraTeleport { x: 0, z: 0, y: 0, x_target: 0, z_target: 0, y_target: 0 }
}

impl BattleUnitCameraTeleport {
    /// Whether a command is pending: all six fields are nonzero.
    pub open spec fn available(&self) -> bool {
        &&& float_nonzero(self.x)
        &&& float_nonzero(self.y)
        &&& float_nonzero(self.z)
        &&& float_nonzero(self.x_target)
        &&& float_nonzero(self.y_target)
        &&& float_nonzero(self.z_target)
    }

    /// The fields in memory order.
    pub open spec fn words_spec(&self) -> Seq<u32> {
        seq![self.x, self.z, self.y, self.x_target, self.z_target, self.y_target]
    }

    /// The record with no command pending.
    pub fn zeroed() -> (r: Self)
        ensures
            r == zeroed_teleport(),
            !r.available(),
    {
        BattleUnitCameraTeleport { x: 0, z: 0, y: 0, x_target: 0, z_target: 0, y_target: 0 }
    }

    /// Reads a record from its six words in memory order.
    pub fn from_words(w: [u32; 6]) -> (r: Self)
        ensures
            r.words_spec() == w@,
    {
        let r = BattleUnitCameraTeleport { x: w[0], z: w[1], y: w[2], x_target: w[3], z_target: w[4], y_target: w[5] };
        assert(r.words_spec() =~= w@);
        r
    }

    /// The six words of the record in memory order.
    pub fn words(&self) -> (r: [u32; 6])
        ensures
            r@ == self.words_spec(),
    {
        let r = [self.x, self.z, self.y, self.x_target, self.z_target, self.y_target];
        assert(r@ =~= self.words_spec());
        r
    }

    /// Check whether there is a teleport command ready: all six fields differ
    /// from zero.
    pub fn is_available(&self) -> (r: bool)
        ensures
            r == self.available(),
    {
        is_float_nonzero(self.x) && is_float_nonzero(self.y) && is_float_nonzero(self.z)
            && is_float_nonzero(self.x_target) && is_float_nonzero(self.y_target)
            && is_float_nonzero(self.z_target)
    }

    /// Consumes a pending command: returns it and resets the record to zero,
    /// arming it for the next one. Without a pending command nothing changes.
    pub fn take(&mut self) -> (r: Option<Self>)
        ensures
            old(self).available() ==> r == Some(*old(self)) && *final(self) == zeroed_teleport(),
            !old(self).available() ==> r is None && *final(self) == *old(self),
            !final(self).available(),
    {
        if self.is_available() {
            let command = *self;
            *self = Self::zeroed();
            Some(command)
        } else {
            None
        }
    }
}

/// A one-word telemetry cell holding the raw bits of a float.
///
/// A trampoline on the foreign thread stores into it at its own cadence, so a
/// load may return whatever was stored last by either side.
pub struct RemoteFloat {
    cell: Arc<AtomicU32>,
}

impl RemoteFloat {
    /// A cell that starts out holding `bits`.
    pub fn new(bits: u32) -> (r: Self) {
        RemoteFloat { cell: Arc::new(AtomicU32::new(bits)) }
    }

    /// Stores a bit pattern.
    pub fn store(&self, bits: u32) {
        self.cell.store(bits, Ordering::SeqCst);
    }

    /// Loads the bit pattern that was stored last.
    pub fn load(&self) -> (r: u32) {
        self.cell.load(Ordering::SeqCst)
    }

    /// The shared word itself, whose address the foreign code is given.
    pub fn cell(&self) -> (r: &Arc<AtomicU32>) {
        &self.cell
    }
}

/// Everything that the foreign thread writes into during one session.
///
/// The patches that reference these cells must be disabled before the cells are
/// released.
pub struct RemoteData {
    /// The one-shot teleport command record, as its six words in memory order
    /// (see [`BattleUnitCameraTeleport::from_words`]).
    pub teleport_location: Arc<GameCell<[u32; 6]>>,
    /// The camera height that the foreign code computes, continuously.
    pub remote_z: RemoteFloat,
}

impl RemoteData {
    /// Fresh cells: no teleport command pending, height zero.
    pub fn new() -> (r: Self) {
        RemoteData {
            teleport_location: Arc::new(GameCell::new([0u32; 6])),
            remote_z: RemoteFloat::new(0),
        }
    }
}

} // verus!
