use lyche::offsets::findpattern::{find_pattern, parse_pattern, PatternByte};

#[test]
fn finds_first_exact_match() {
    let data = [0x00u8, 0x8B, 0x0D, 0x11, 0x8B, 0x0D, 0x22];
    assert_eq!(find_pattern(&data, "8B 0D"), Some(1));
}

#[test]
fn wildcards_match_any_byte() {
    let data = [0x55u8, 0x8B, 0xEC, 0x83, 0xE4, 0xF8];
    assert_eq!(find_pattern(&data, "8B ? 83"), Some(1));
    assert_eq!(find_pattern(&data, "? ? ? ? ? ?"), Some(0));
    assert_eq!(find_pattern(&data, "? ? ? ? ? ? ?"), None);
}

#[test]
fn lower_case_hex_and_extra_whitespace() {
    let data = [0x0Du8, 0xF0, 0xCC, 0xC0];
    assert_eq!(find_pattern(&data, "  0d\tf0 \n cc c0 "), Some(0));
}

#[test]
fn invalid_tokens_find_nothing() {
    let data = [0xABu8, 0xCD];
    assert_eq!(find_pattern(&data, "ABC"), None);
    assert_eq!(find_pattern(&data, "A"), None);
    assert_eq!(find_pattern(&data, "???"), None);
    assert_eq!(find_pattern(&data, "?A"), None);
    assert_eq!(find_pattern(&data, "GG"), None);
    assert_eq!(parse_pattern("AB ZZ"), None);
}

#[test]
fn empty_pattern_matches_at_start() {
    let data: [u8; 0] = [];
    assert_eq!(find_pattern(&data, ""), Some(0));
    assert_eq!(find_pattern(&[1u8, 2], "   "), Some(0));
}

#[test]
fn parses_tokens() {
    assert_eq!(
        parse_pattern("53 ? ff"),
        Some(vec![PatternByte::Exact(0x53), PatternByte::Any, PatternByte::Exact(0xFF)])
    );
}

#[test]
fn not_found() {
    let data = [1u8, 2, 3];
    assert_eq!(find_pattern(&data, "03 04"), None);
}

#[test]
fn double_question_mark_is_a_wildcard() {
    let data = [0x11u8, 0x8B, 0x0D, 0x22, 0x8B, 0x46];
    assert_eq!(find_pattern(&data, "8B ?? ?? 8B"), Some(1));
    assert_eq!(find_pattern(&data, "8B ?? ? 8B 46"), Some(1));
    assert_eq!(find_pattern(&data, "??"), Some(0));
}
