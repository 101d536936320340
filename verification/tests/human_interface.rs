use lyche::features::bhop::SusBhop;
use lyche::gamedata::map_tracker::MapTracker;
use lyche::human_interface::{clamp_i16, click_command, mouse_move_command, ClickState, MouseButton};

#[test]
fn move_commands() {
    assert_eq!(mouse_move_command(12, -3), b"mv<12><-3>\n".to_vec());
    assert_eq!(mouse_move_command(0, 0), b"mv<0><0>\n".to_vec());
    assert_eq!(mouse_move_command(100000, -100000), b"mv<32767><-32768>\n".to_vec());
    assert_eq!(mouse_move_command(i32::MIN, i32::MAX), b"mv<-32768><32767>\n".to_vec());
    assert_eq!(clamp_i16(-40000), -32768);
    assert_eq!(clamp_i16(123), 123);
}

#[test]
fn click_commands() {
    assert_eq!(click_command(MouseButton::Left, true), b"ml\n".to_vec());
    assert_eq!(click_command(MouseButton::Right, true), b"mr\n".to_vec());
    assert_eq!(click_command(MouseButton::Left, false), b"mlu\n".to_vec());
    assert_eq!(click_command(MouseButton::Right, false), b"mru\n".to_vec());
}

#[test]
fn click_timing() {
    let mut c = ClickState::new();
    assert!(!c.press(MouseButton::Left, Some(100)));
    assert!(!c.left_clicked);
    assert!(!c.press(MouseButton::Left, None));
    assert!(c.press(MouseButton::Left, Some(101)));
    assert!(c.left_clicked && !c.right_clicked);
    assert!(!c.release(MouseButton::Left, Some(70)));
    assert!(c.left_clicked);
    assert!(!c.release(MouseButton::Right, Some(1000)));
    assert!(c.release(MouseButton::Left, Some(71)));
    assert!(!c.left_clicked);
    assert!(!c.release(MouseButton::Left, Some(500)));
}

#[test]
fn jump_timing() {
    let mut b = SusBhop::new();
    assert_eq!(b.reset_due(Some(1000)), None);
    assert_eq!(b.on_jump_key(0), None);
    assert!(!b.needs_reset);
    assert_eq!(b.on_jump_key(0x101), Some(5));
    assert!(b.needs_reset);
    assert_eq!(b.reset_due(Some(50)), None);
    assert_eq!(b.reset_due(None), None);
    assert_eq!(b.reset_due(Some(51)), Some(4));
    assert!(!b.needs_reset);
}

#[test]
fn map_changes() {
    let mut t = MapTracker::new();
    assert_eq!(t.on_map_read(Some("de_dust2".to_string())), Some("de_dust2".to_string()));
    assert_eq!(t.on_map_read(Some("de_dust2".to_string())), None);
    assert_eq!(t.current_map, Some("de_dust2".to_string()));
    assert_eq!(t.on_map_read(Some(String::new())), None);
    assert_eq!(t.current_map, None);
    assert_eq!(t.old_map_name, None);
    assert_eq!(t.on_map_read(None), None);
    assert_eq!(t.on_map_read(Some("de_mirage".to_string())), Some("de_mirage".to_string()));
}
