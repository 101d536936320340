use lyche::datatypes::game::WeaponId;
use lyche::render::instance::InstanceType;
use lyche::user_config::default_config::{AimBot, CameraType, KeyBindings, Radar};
use lyche::utils::math::round_up;

#[test]
fn weapon_ids_from_codes() {
    assert_eq!(WeaponId::from(1u32), WeaponId::Deagle);
    assert_eq!(WeaponId::from(7u32), WeaponId::Ak47);
    assert_eq!(WeaponId::from(9u32), WeaponId::Awp);
    assert_eq!(WeaponId::from(61u32), WeaponId::Usps);
    assert_eq!(WeaponId::from(85u32), WeaponId::BumpMine);
    assert_eq!(WeaponId::from(0u32), WeaponId::NoWeapon);
    assert_eq!(WeaponId::from(5u32), WeaponId::NoWeapon);
    // the Tec-9 is not read back
    assert_eq!(WeaponId::from(30u32), WeaponId::NoWeapon);
}

#[test]
fn all_knives_read_as_knife() {
    assert_eq!(WeaponId::from(41u32), WeaponId::Knife);
    assert_eq!(WeaponId::from(42u32), WeaponId::Knife);
    assert_eq!(WeaponId::from(59u32), WeaponId::Knife);
    assert_eq!(WeaponId::from(80u32), WeaponId::Knife);
    assert_eq!(WeaponId::from(500u32), WeaponId::Knife);
    assert_eq!(WeaponId::from(507u32), WeaponId::Knife);
    assert_eq!(WeaponId::from(5035u32), WeaponId::Knife);
}

#[test]
fn weapon_codes_and_names() {
    assert_eq!(WeaponId::Deagle.code(), 1);
    assert_eq!(WeaponId::Tec9.code(), 30);
    assert_eq!(WeaponId::Knife.code(), 42);
    assert_eq!(WeaponId::Karambit.code(), 507);
    assert_eq!(WeaponId::GloveHydra.code(), 5035);
    assert_eq!(WeaponId::from_code(WeaponId::M4a1s.code()), WeaponId::M4a1s);
    assert_eq!(WeaponId::Ak47.name(), "Ak47");
    assert_eq!(WeaponId::NoWeapon.name(), "None");
    assert_eq!(WeaponId::GloveHydra.name(), "GloveHydra");
}

#[test]
fn camera_type_names() {
    assert_eq!(CameraType::from("Rotating".to_string()), CameraType::Rotating);
    assert_eq!(CameraType::from("RotatingFollow".to_string()), CameraType::RotatingFollow);
    assert_eq!(CameraType::from("Static".to_string()), CameraType::Static);
    assert_eq!(CameraType::from("rotating".to_string()), CameraType::Static);
    assert_eq!(CameraType::from_name(CameraType::RotatingFollow.name()), CameraType::RotatingFollow);
    assert_eq!(CameraType::default(), CameraType::Static);
}

#[test]
fn config_defaults() {
    assert_eq!(KeyBindings::default().trigger, 0x06);
    let r = Radar::default();
    assert!(!r.enabled && !r.show_usernames);
    assert_eq!(r.camera_type, CameraType::Static);
    let a = AimBot::default();
    assert!(!a.visibility_check);
    assert_eq!(a.delay_ms, 0);
}

#[test]
fn instance_types() {
    assert_eq!(InstanceType::from(1), InstanceType::LocalPlayer);
    assert_eq!(InstanceType::from(2), InstanceType::TPlayer);
    assert_eq!(InstanceType::from(3), InstanceType::CTPlayer);
    assert_eq!(InstanceType::from(0), InstanceType::MapTexture);
    assert_eq!(InstanceType::from(-7), InstanceType::MapTexture);
    assert_eq!(InstanceType::CTPlayer.code(), 3);
    assert_eq!(InstanceType::from(InstanceType::TPlayer.code()), InstanceType::TPlayer);
}

#[test]
fn rounding_up() {
    assert_eq!(round_up(10, 4), 12);
    assert_eq!(round_up(12, 4), 12);
    assert_eq!(round_up(0, 4), 0);
    assert_eq!(round_up(7, 0), 7);
    assert_eq!(round_up(1, 4096), 4096);
    assert_eq!(round_up(4097, 4096), 8192);
}
