use lyche::datatypes::game::WeaponId;
use lyche::gamedata::weapon_tracker::WeaponTracker;

#[test]
fn weapon_switch_is_reported_once() {
    let mut t = WeaponTracker::new();
    assert_eq!(t.last_weapon, WeaponId::NoWeapon);
    assert!(!t.on_weapon(WeaponId::NoWeapon));
    assert!(t.on_weapon(WeaponId::Awp));
    assert_eq!(t.last_weapon, WeaponId::Awp);
    assert!(!t.on_weapon(WeaponId::Awp));
    assert!(t.on_weapon(WeaponId::NoWeapon));
}
