use lyche::datatypes::game::WeaponId;
use lyche::features::esp::{encode_boxes, BoxCommand};
use lyche::offsets::findpattern::{find_pattern, parse_pattern};
use lyche::offsets::games::csgo::{read_u32_before_end, Module};
use lyche::offsets::hconfig::Signature;
use lyche::offsets::scanner::resolve_signature;
use lyche::utils::math::round_up;

#[test]
fn pattern_text_pieces_join() {
    let a = parse_pattern("8B 0D").unwrap();
    let b = parse_pattern("? C3").unwrap();
    let mut joined = a.clone();
    joined.extend(b);
    assert_eq!(parse_pattern("8B 0D ? C3"), Some(joined));
    assert_eq!(parse_pattern("8B 0D\tZZ"), None);
}

#[test]
fn first_match_survives_more_bytes() {
    let data = vec![1u8, 2, 3, 2, 3];
    let i = find_pattern(&data, "02 03");
    let mut longer = data.clone();
    longer.extend_from_slice(&[2, 3, 2, 3]);
    assert_eq!(i, Some(1));
    assert_eq!(find_pattern(&longer, "02 03"), i);
}

#[test]
fn weapon_reading_is_idempotent_and_codes_roundtrip() {
    for v in 0u32..6000 {
        let w = WeaponId::from(v);
        assert_eq!(WeaponId::from(w.code()), w);
    }
    for w in [WeaponId::Deagle, WeaponId::Awp, WeaponId::C4, WeaponId::BumpMine, WeaponId::Knife] {
        assert_eq!(WeaponId::from(w.code()), w);
    }
}

#[test]
fn round_up_gives_least_multiple() {
    for n in 0u64..200 {
        for m in 1u64..20 {
            let r = round_up(n, m);
            assert_eq!(r % m, 0);
            assert!(n <= r && r < n + m);
        }
    }
}

#[test]
fn absolute_result_is_relative_plus_base() {
    let data = [0x90u8, 0xE8, 1, 0, 0, 0, 0];
    let mut s = Signature {
        name: "x".to_string(),
        extra: -1,
        relative: true,
        module: "m".to_string(),
        offsets: vec![],
        pattern: "E8".to_string(),
        rip_relative: true,
        rip_offset: 1,
    };
    let rel = resolve_signature(&data, 0x7000, &s, true).unwrap();
    s.relative = false;
    assert_eq!(resolve_signature(&data, 0x7000, &s, true), Ok(rel + 0x7000));
    s.relative = true;
    s.extra = 0;
    assert_eq!(resolve_signature(&data, 0x7000, &s, true), Ok(rel + 1));
}

#[test]
fn slice_is_prefix_of_rest() {
    let m = Module::new("m".to_string(), 0, 6, vec![9, 8, 7, 6, 5, 4]);
    let s = m.get_slice(2, 3, true).unwrap();
    let r = m.get(2, true).unwrap();
    assert_eq!(s, &r[..3]);
}

#[test]
fn encoded_boxes_read_back() {
    let b = BoxCommand { x: 0xDEAD_BEEF, y: 7, w: 640, h: 480 };
    let mut bytes = encode_boxes(&[b]);
    bytes.push(0);
    assert_eq!(read_u32_before_end(&bytes, 0), Some(0xDEAD_BEEF));
    assert_eq!(read_u32_before_end(&bytes, 8), Some(640));
    assert_eq!(read_u32_before_end(&bytes, 12), Some(480));
}
