use wiimote::bitmask::{get_bit16, get_bit8, set_bit16, set_bit8};

#[test]
fn set_then_clear_restores_mask_without_flag_u8() {
    let m: u8 = 0b0110_0101;
    let f: u8 = 0b0001_0000;
    assert_eq!(set_bit8(set_bit8(m, f, true), f, false), m & !f);

    let already_set: u8 = 0b0011_0001;
    let f2: u8 = 0b0000_0001;
    assert_eq!(set_bit8(set_bit8(already_set, f2, true), f2, false), already_set & !f2);
}

#[test]
fn set_then_clear_restores_mask_without_flag_u16() {
    let m: u16 = 0b0010_1100_0110_0101;
    let f: u16 = 0b0000_0000_1000_0000;
    assert_eq!(set_bit16(set_bit16(m, f, true), f, false), m & !f);
}

#[test]
fn get_after_set_true_is_true_u8() {
    let m: u8 = 0b0100_0010;
    let f: u8 = 0b0000_1000;
    assert!(get_bit8(set_bit8(m, f, true), f));
}

#[test]
fn get_after_set_false_is_false_u8() {
    let m: u8 = 0b1111_1111;
    let f: u8 = 0b0000_1000;
    assert!(!get_bit8(set_bit8(m, f, false), f));
}

#[test]
fn get_after_set_true_is_true_u16() {
    let m: u16 = 0;
    let f: u16 = 0b0001_0000_0000_0000;
    assert!(get_bit16(set_bit16(m, f, true), f));
}

#[test]
fn get_after_set_false_is_false_u16() {
    let m: u16 = 0xffff;
    let f: u16 = 0b0001_0000_0000_0000;
    assert!(!get_bit16(set_bit16(m, f, false), f));
}

#[test]
fn setting_leaves_other_bits_alone() {
    let m: u8 = 0b1010_1010;
    assert_eq!(set_bit8(m, 0b0000_0001, true), 0b1010_1011);
    assert_eq!(set_bit8(m, 0b0000_0010, false), 0b1010_1000);
}
