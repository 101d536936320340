//! Jump timing: the force-jump value is set while the player stands on the
//! ground with the jump key held, and cleared again shortly after.
use vstd::prelude::*;

verus! {

/// The force-jump value that starts a jump.
pub const FORCE_JUMP_ON: u8 = 5;

/// The force-jump value that ends it.
pub const FORCE_JUMP_OFF: u8 = 4;

/// Milliseconds after a jump before the force-jump value is cleared.
pub const JUMP_RESET_DELAY_MS: u32 = 50;

/// Whether a jump is pending its reset. The time of the last jump stays with
/// the caller, who passes the milliseconds elapsed since it.
#[derive(Debug, Clone, Copy)]
pub struct SusBhop {
    pub needs_reset: bool,
}

impl SusBhop {
    /// No jump pending.
    pub fn new() -> (res: SusBhop)
        ensures
            !res.needs_reset,
    {
        SusBhop { needs_reset: false }
    }

    /// The value to write to end a pending jump, once more than the reset
    /// delay has passed since it (and the clock could tell).
    pub fn reset_due(&mut self, elapsed_ms: Option<u128>) -> (res: Option<u8>)
        ensures
            res == (if old(self).needs_reset && (elapsed_ms matches Some(e) && e > JUMP_RESET_DELAY_MS) {
                Some(FORCE_JUMP_OFF)
            } else {
                None::<u8>
            }),
            final(self).needs_reset == (old(self).needs_reset && res is None),
    {
        if self.needs_reset {
            let due = match elapsed_ms {
                Some(e) => e > JUMP_RESET_DELAY_MS as u128,
                None => false,
            };
            if due {
                self.needs_reset = false;
                return Some(FORCE_JUMP_OFF);
            }
        }
        None
    }

    /// With the jump key held and the player's flags read (zero when they
    /// could not be read): the value to write to jump when the on-ground bit
    /// is set; a reset is then pending and the caller restarts its timer.
    pub fn on_jump_key(&mut self, flags: u64) -> (res: Option<u8>)
        ensures
            res == (if flags & 1 > 0 {
                Some(FORCE_JUMP_ON)
            } else {
                None::<u8>
            }),
            final(self).needs_reset == (old(self).needs_reset || res is Some),
    {
        if flags & 1 > 0 {
            self.needs_reset = true;
            Some(FORCE_JUMP_ON)
        } else {
            None
        }
    }
}

} // verus!
