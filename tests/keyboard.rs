use spectro::{Keyboard, KeyboardCoord, Rgb, ThemeChoice, WootingDeviceType};

#[test]
fn abs_coord_0() {
    let c = KeyboardCoord(1, 3);
    assert_eq!(c.to_absolute(6, 0), (1, 2))
}

#[test]
fn abs_coord_1() {
    let c = KeyboardCoord(1, 3);
    assert_eq!(c.to_absolute(5, 1), (1, 2))
}

#[test]
fn abs_coord_2() {
    let c = KeyboardCoord(0, 0);
    assert_eq!(c.to_absolute(5, 1), (0, 5))
}

#[test]
fn abs_coord_t() {
    let c = KeyboardCoord(1, 2);
    assert_eq!(c.to_absolute_transposed(5, 1), (3, 1))
}

#[test]
fn shift_keys_trade_places() {
    assert_eq!(KeyboardCoord(13, 1).to_absolute(6, 0), (12, 4));
    assert_eq!(KeyboardCoord(12, 1).to_absolute(6, 0), (13, 4));
    assert_eq!(KeyboardCoord(11, 1).to_absolute(6, 0), (11, 4));
}

#[test]
fn compact_keyboard_skips_function_row() {
    let k = Keyboard::from_meta_and_theme(WootingDeviceType::Keyboard60, 6, 14, ThemeChoice::Fire);
    assert_eq!(k.rows(), 5);
    assert_eq!(k.cols(), 14);
    assert_eq!(k.theme(), ThemeChoice::Fire);
    assert_eq!(k.get_db_step(), 600);
    assert_eq!(k.rearrange_coord(1, 2), (3, 1));
    let full = Keyboard::from_meta_and_theme(WootingDeviceType::Keyboard, 6, 21, ThemeChoice::Classic);
    assert_eq!(full.rows(), 6);
    assert_eq!(full.get_db_step(), 500);
}

#[test]
fn set_theme_changes_only_theme() {
    let mut k = Keyboard::new(ThemeChoice::Classic, 6, 0, 21);
    k.set_theme(ThemeChoice::Grape);
    assert_eq!(k.theme(), ThemeChoice::Grape);
    assert_eq!(k.rows(), 6);
    assert_eq!(k.cols(), 21);
}

#[test]
fn from_hex_sets_low_bits() {
    assert_eq!(Rgb::from_hex(0xff0000), Rgb(255, 3, 3));
    assert_eq!(Rgb::from_hex(0x008000), Rgb(3, 131, 3));
    assert_eq!(Rgb::from_hex(0xf61b83), Rgb(247, 27, 131));
}
