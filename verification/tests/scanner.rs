use lyche::offsets::games::csgo::Module;
use lyche::offsets::hconfig::Signature;
use lyche::offsets::scanner::{is_wow64, resolve_signature, Arch, ScanError, Scanner};

fn sig(module: &str, pattern: &str, offsets: Vec<isize>, extra: isize, relative: bool) -> Signature {
    Signature {
        name: "dwTest".to_string(),
        extra,
        relative,
        module: module.to_string(),
        offsets,
        pattern: pattern.to_string(),
        rip_relative: false,
        rip_offset: 0,
    }
}

#[test]
fn plain_signature_gives_match_index() {
    let data = [0x90u8, 0x90, 0xA1, 0x10, 0x20];
    let s = sig("client.dll", "A1 ? 20", vec![], 0, true);
    assert_eq!(resolve_signature(&data, 0x1000, &s, true), Ok(2));
}

#[test]
fn absolute_adds_base_and_extra() {
    let data = [0x90u8, 0x90, 0xA1, 0x10, 0x20];
    let s = sig("client.dll", "A1", vec![], 3, false);
    assert_eq!(resolve_signature(&data, 0x1000, &s, true), Ok(0x1000 + 2 + 3));
}

#[test]
fn follows_32_bit_pointer() {
    // pattern at 0, pointer stored at 0 + 1 holds base + 0x0C
    let base: usize = 0x4000_0000;
    let p = (base + 0x0C) as u32;
    let mut data = vec![0x8Bu8];
    data.extend_from_slice(&p.to_le_bytes());
    data.extend_from_slice(&[0u8; 16]);
    let s = sig("client.dll", "8B", vec![1], 0, true);
    assert_eq!(resolve_signature(&data, base, &s, true), Ok(0x0C));
}

#[test]
fn follows_64_bit_pointer() {
    let base: usize = 0x1000;
    let p = (base + 0x20) as u64;
    let mut data = vec![0x48u8, 0x8B];
    data.extend_from_slice(&p.to_le_bytes());
    let s = sig("client.dll", "48 8B", vec![2], 0, true);
    assert_eq!(resolve_signature(&data, base, &s, false), Ok(0x20));
}

#[test]
fn negative_offset_and_extra() {
    let base: usize = 0x100;
    // pointer at index 0 (pattern found at 4, offset -4)
    let mut data = ((base + 8) as u32).to_le_bytes().to_vec();
    data.extend_from_slice(&[0xCCu8, 0xDD, 0, 0, 0]);
    let s = sig("client.dll", "CC DD", vec![-4], -2, true);
    assert_eq!(resolve_signature(&data, base, &s, true), Ok(6));
}

#[test]
fn pointer_outside_module_is_out_of_bounds() {
    let data = [0xAAu8, 0x01, 0x02];
    let s = sig("client.dll", "AA", vec![1], 0, true);
    assert_eq!(resolve_signature(&data, 0, &s, true), Err(ScanError::OffsetOutOfBounds));
}

#[test]
fn missing_pattern_is_reported() {
    let data = [0xAAu8, 0x01, 0x02];
    let s = sig("client.dll", "BB", vec![], 0, true);
    assert_eq!(resolve_signature(&data, 0, &s, true), Err(ScanError::PatternNotFound));
    let bad = sig("client.dll", "XYZ", vec![], 0, true);
    assert_eq!(resolve_signature(&data, 0, &bad, true), Err(ScanError::PatternNotFound));
}

#[test]
fn rip_relative_displacement() {
    // E8 <rel32 = 0x10> at index 0; rip_offset 1 points at the displacement
    let mut data = vec![0xE8u8];
    data.extend_from_slice(&0x10u32.to_le_bytes());
    data.extend_from_slice(&[0u8; 4]);
    let mut s = sig("client.dll", "E8", vec![], 0, true);
    s.rip_relative = true;
    s.rip_offset = 1;
    assert_eq!(resolve_signature(&data, 0x1000, &s, true), Ok(1 + 0x10 + 4));
}

#[test]
fn rip_relative_needs_a_byte_after_the_displacement() {
    let mut data = vec![0xE8u8];
    data.extend_from_slice(&0x10u32.to_le_bytes());
    let mut s = sig("client.dll", "E8", vec![], 0, true);
    s.rip_relative = true;
    s.rip_offset = 1;
    assert_eq!(resolve_signature(&data, 0x1000, &s, true), Err(ScanError::RIPRelativeFailed));
}

#[test]
fn wow64_detection() {
    assert!(is_wow64(Arch::X86(32), Arch::X86(64)));
    assert!(is_wow64(Arch::X86(32), Arch::AArch64));
    assert!(!is_wow64(Arch::X86(32), Arch::X86(32)));
    assert!(!is_wow64(Arch::X86(64), Arch::X86(64)));
    assert!(!is_wow64(Arch::AArch64, Arch::AArch64));
    assert!(!is_wow64(Arch::X86(32), Arch::Unknown));
    assert!(!is_wow64(Arch::Unknown, Arch::X86(64)));
}

#[test]
fn scanner_resolves_in_named_module() {
    let mut scanner = Scanner::init();
    let s = sig("engine.dll", "C3", vec![], 0, false);
    assert_eq!(scanner.find_signature(&s, true), Err(ScanError::ModuleNotFound));
    scanner.add_module(Module::new("engine.dll".to_string(), 0x2000, 3, vec![0x90, 0xC3, 0x90]));
    scanner.add_module(Module::new("client.dll".to_string(), 0x5000, 2, vec![0xC3, 0x90]));
    assert!(scanner.has_module("client.dll"));
    assert_eq!(scanner.find_module("client.dll"), Some(1));
    assert_eq!(scanner.find_signature(&s, true), Ok(0x2001));
    // replacing the module of the same name
    scanner.add_module(Module::new("engine.dll".to_string(), 0x3000, 1, vec![0xC3]));
    assert_eq!(scanner.find_module("engine.dll"), Some(0));
    assert_eq!(scanner.find_signature(&s, true), Ok(0x3000));
    let all = scanner.scan_signatures(
        &[s, sig("client.dll", "90", vec![], 0, true), sig("server.dll", "90", vec![], 0, true)],
        true,
    );
    assert_eq!(all, vec![Ok(0x3000), Ok(1), Err(ScanError::ModuleNotFound)]);
}
