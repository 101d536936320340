//! Noticing when the local player switches weapons, so that the settings
//! of the new weapon are loaded.
use vstd::prelude::*;

use crate::datatypes::game::WeaponId;

verus! {

/// The weapon held at the last frame.
#[derive(Debug)]
pub struct WeaponTracker {
    pub last_weapon: WeaponId,
}

impl WeaponTracker {
    /// Nothing held yet.
    pub fn new() -> (res: WeaponTracker)
        ensures
            res.last_weapon == WeaponId::NoWeapon,
    {
        WeaponTracker { last_weapon: WeaponId::NoWeapon }
    }

    /// Records the weapon held this frame; returns whether it differs from
    /// the one held before.
    pub fn on_weapon(&mut self, held: WeaponId) -> (changed: bool)
        ensures
            changed == (held != old(self).last_weapon),
            final(self).last_weapon == held,
    {
        let changed = held != self.last_weapon;
        self.last_weapon = held;
        changed
    }
}

} // verus!
