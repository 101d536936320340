use lyche::features::esp::{encode_boxes, encode_draw_header, kernel_buffer_offset, user_buffer_offset, BoxCommand};
use lyche::gamedata::entitylist::player_name_from_bytes;

#[test]
fn buffer_offsets_skip_magic() {
    let dump = [0u8, 0, 0x0D, 0xF0, 0xCC, 0xC0, 7, 7];
    assert_eq!(user_buffer_offset(&dump), Some(6));
    assert_eq!(user_buffer_offset(&[1u8, 2, 3]), None);
    let mut k = vec![9u8];
    k.extend_from_slice(&[0x0D, 0xF0, 0xCC, 0xC0, 0xC0, 0xCC, 0xC0, 0xCC, 0xF0, 0x0D, 0xF0, 0x0D]);
    assert_eq!(kernel_buffer_offset(&k), Some(13));
    assert_eq!(kernel_buffer_offset(&dump), None);
}

#[test]
fn box_encoding() {
    let b = BoxCommand { x: 1, y: 0x0100, w: 0x0102_0304, h: 0xFFFF_FFFF };
    let bytes = encode_boxes(&[b]);
    assert_eq!(bytes, vec![1, 0, 0, 0, 0, 1, 0, 0, 4, 3, 2, 1, 0xFF, 0xFF, 0xFF, 0xFF]);
    let many = vec![b; 40];
    assert_eq!(encode_boxes(&many).len(), 32 * 16);
    assert_eq!(encode_boxes(&[]).len(), 0);
    assert_eq!(encode_draw_header(40), vec![40, 0, 0, 0, 1, 0, 0, 0]);
}

#[test]
fn player_names() {
    assert_eq!(player_name_from_bytes(b"bob"), "bob".to_string());
    assert_eq!(player_name_from_bytes(b"al\0\0"), "al\0\0".to_string());
    assert_eq!(player_name_from_bytes(&[0xFF, 0xFE]), "NO NAME".to_string());
}
