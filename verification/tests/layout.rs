use zwm::layout::{hotkey_command, place_auxiliary, place_primary, ResizeCommand, WindowPlacement};
use zwm::math::Vector2;
use zwm::winapi::key::VirtualKey;

fn tuple(p: &WindowPlacement) -> (i32, i32, i32, i32) {
    (p.position.x, p.position.y, p.size.x, p.size.y)
}

#[test]
fn tile_three_auxiliary_windows() {
    let desktop = Vector2::new(1920, 1080);
    assert_eq!(tuple(&place_primary(&desktop, 1152)), (0, 0, 1152, 1080));
    let auxiliary = place_auxiliary(&desktop, 1152, 3);
    assert_eq!(auxiliary.len(), 3);
    assert_eq!(tuple(&auxiliary[0]), (1152, 0, 768, 360));
    assert_eq!(tuple(&auxiliary[1]), (1152, 360, 768, 360));
    assert_eq!(tuple(&auxiliary[2]), (1152, 720, 768, 360));
}

#[test]
fn tile_leaves_remainder_at_bottom() {
    let desktop = Vector2::new(1000, 100);
    let auxiliary = place_auxiliary(&desktop, 600, 3);
    // 100 / 3 == 33: the column ends at 99, one row short of the desktop.
    assert_eq!(tuple(&auxiliary[0]), (600, 0, 400, 33));
    assert_eq!(tuple(&auxiliary[2]), (600, 66, 400, 33));
    let last = &auxiliary[2];
    assert_eq!(last.position.y + last.size.y, 99);
    assert!(100 - (last.position.y + last.size.y) < 3);
}

#[test]
fn tile_one_auxiliary_window_takes_the_column() {
    let desktop = Vector2::new(800, 600);
    assert_eq!(tuple(&place_primary(&desktop, 480)), (0, 0, 480, 600));
    let auxiliary = place_auxiliary(&desktop, 480, 1);
    assert_eq!(auxiliary.len(), 1);
    assert_eq!(tuple(&auxiliary[0]), (480, 0, 320, 600));
}

#[test]
fn tile_columns_split_width_and_stack() {
    let desktop = Vector2::new(1366, 768);
    let primary = place_primary(&desktop, 819);
    let auxiliary = place_auxiliary(&desktop, 819, 4);
    for (i, p) in auxiliary.iter().enumerate() {
        assert_eq!(primary.size.x + p.size.x, 1366);
        assert_eq!(p.position.x, primary.position.x + primary.size.x);
        if i + 1 < auxiliary.len() {
            let next = &auxiliary[i + 1];
            assert_eq!(p.position.y + p.size.y, next.position.y);
        }
    }
    assert_eq!(auxiliary[0].position.y, 0);
}

#[test]
fn tile_negative_height_rounds_toward_zero() {
    let desktop = Vector2::new(100, -10);
    let auxiliary = place_auxiliary(&desktop, 40, 3);
    assert_eq!(tuple(&auxiliary[1]), (40, -3, 60, -3));
    assert_eq!(tuple(&auxiliary[2]), (40, -6, 60, -3));
}

#[test]
fn tile_primary_wider_than_desktop() {
    let desktop = Vector2::new(100, 50);
    let auxiliary = place_auxiliary(&desktop, 150, 2);
    assert_eq!(tuple(&auxiliary[0]), (150, 0, -50, 25));
}

#[test]
fn hotkeys_resize_primary() {
    assert!(matches!(hotkey_command(VirtualKey::H), Some(ResizeCommand::ShrinkPrimary)));
    assert!(matches!(hotkey_command(VirtualKey::K), Some(ResizeCommand::GrowPrimary)));
    assert!(hotkey_command(VirtualKey::LeftWin).is_none());
    assert!(hotkey_command(VirtualKey::RightWin).is_none());
}
