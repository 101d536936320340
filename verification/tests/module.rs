use lyche::offsets::games::csgo::{read_u32_before_end, Module};

fn module() -> Module {
    Module::new("client.dll".to_string(), 0x1000, 8, vec![1, 2, 3, 4, 5, 6, 7, 8])
}

#[test]
fn get_slice_relative_and_absolute() {
    let m = module();
    assert_eq!(m.get_slice(2, 3, true), Some(&[3u8, 4, 5][..]));
    assert_eq!(m.get_slice(0x1002, 3, false), Some(&[3u8, 4, 5][..]));
    assert_eq!(m.get_slice(6, 2, true), Some(&[7u8, 8][..]));
    assert_eq!(m.get_slice(6, 3, true), None);
    assert_eq!(m.get_slice(8, 0, true), Some(&[][..]));
    assert_eq!(m.get_slice(usize::MAX, 2, true), None);
    // an absolute address below the base wraps around and lies outside
    assert_eq!(m.get_slice(0x10, 1, false), None);
}

#[test]
fn get_rest_of_module() {
    let m = module();
    assert_eq!(m.get(5, true), Some(&[6u8, 7, 8][..]));
    assert_eq!(m.get(0x1008, false), Some(&[][..]));
    assert_eq!(m.get(9, true), None);
}

#[test]
fn get_raw_u32_reads_little_endian() {
    let m = module();
    assert_eq!(m.get_raw_u32(0, true), Some(0x0403_0201));
    assert_eq!(m.get_raw_u32(0x1003, false), Some(0x0706_0504));
    // the four bytes must end before the last byte
    assert_eq!(m.get_raw_u32(4, true), None);
    assert_eq!(read_u32_before_end(&[1, 2, 3, 4, 5], 0), Some(0x0403_0201));
    assert_eq!(read_u32_before_end(&[1, 2, 3, 4], 0), None);
}

#[test]
fn module_find_pattern() {
    let m = module();
    assert_eq!(m.find_pattern("04 ? 06"), Some(3));
    assert_eq!(m.find_pattern("09"), None);
}
