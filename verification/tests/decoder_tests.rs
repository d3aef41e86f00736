use wiimote::report::{RawIrSource, RawState, WiiMoteState};
use wiimote::state_enums::{Button, IRSensor, IRSource};

fn empty_slot() -> RawIrSource {
    RawIrSource { valid: 0, pos: [0, 0], size: 0 }
}

fn snapshot(battery: u8, buttons: u16, acc: [u8; 3], ir_src: [RawIrSource; 4]) -> WiiMoteState {
    WiiMoteState {
        state_data: RawState {
            rpt_mode: 0,
            led: 0,
            rumble: 0,
            battery,
            buttons,
            acc,
            ir_src,
        },
        id: 1,
    }
}

#[test]
fn battery_full_is_100_percent() {
    let s = snapshot(208, 0, [0, 0, 0], [empty_slot(); 4]);
    assert_eq!(s.battery(), 100);
}

#[test]
fn battery_empty_is_0_percent() {
    let s = snapshot(0, 0, [0, 0, 0], [empty_slot(); 4]);
    assert_eq!(s.battery(), 0);
}

#[test]
fn battery_half_is_50_percent() {
    let s = snapshot(104, 0, [0, 0, 0], [empty_slot(); 4]);
    assert_eq!(s.battery(), 50);
}

#[test]
fn acceleration_reads_fixed_axis_indices() {
    let s = snapshot(0, 0, [11, 22, 33], [empty_slot(); 4]);
    let a = s.acceleration();
    assert_eq!(a.x, 11);
    assert_eq!(a.y, 22);
    assert_eq!(a.z, 33);
}

#[test]
fn ir_decoder_keeps_valid_slots_in_order() {
    let slots = [
        empty_slot(),
        RawIrSource { valid: 1, pos: [300, 400], size: 5 },
        empty_slot(),
        RawIrSource { valid: 1, pos: [10, 20], size: -1 },
    ];
    let s = snapshot(0, 0, [0, 0, 0], slots);
    let ir = s.ir_sensor();
    let sources = ir.sources();
    assert_eq!(sources.len(), 2);
    assert_eq!(sources[0], IRSource { x: 300, y: 400, size: 5 });
    assert_eq!(sources[1], IRSource { x: 10, y: 20, size: -1 });
}

#[test]
fn ir_decoder_drops_all_invalid_slots() {
    let ir = IRSensor::new(&[empty_slot(); 4]);
    assert!(ir.sources().is_empty());
}

#[test]
fn ir_decoder_keeps_all_four_valid_slots() {
    let slots = [
        RawIrSource { valid: 1, pos: [1, 2], size: 0 },
        RawIrSource { valid: 2, pos: [3, 4], size: 1 },
        RawIrSource { valid: 1, pos: [5, 6], size: 2 },
        RawIrSource { valid: -1, pos: [7, 8], size: 3 },
    ];
    let ir = IRSensor::new(&slots);
    let sources = ir.sources();
    assert_eq!(sources.len(), 4);
    assert_eq!(sources[3], IRSource { x: 7, y: 8, size: 3 });
}

#[test]
fn button_decode_a_and_home_in_declared_order() {
    let mask = 0x0008 | 0x0080;
    let s = snapshot(0, mask, [0, 0, 0], [empty_slot(); 4]);
    assert_eq!(s.button(), vec![Button::A, Button::Home]);
}

#[test]
fn button_decode_empty_mask_is_empty() {
    let s = snapshot(0, 0, [0, 0, 0], [empty_slot(); 4]);
    assert!(s.button().is_empty());
}

#[test]
fn button_decode_full_mask_follows_declaration_order() {
    let mask = 0x0001 | 0x0002 | 0x0004 | 0x0008 | 0x0010 | 0x0080 | 0x0100 | 0x0200 | 0x0400
        | 0x0800 | 0x1000;
    let s = snapshot(0, mask, [0, 0, 0], [empty_slot(); 4]);
    assert_eq!(
        s.button(),
        vec![
            Button::Num2,
            Button::Num1,
            Button::B,
            Button::A,
            Button::Minus,
            Button::Home,
            Button::Left,
            Button::Right,
            Button::Down,
            Button::Up,
            Button::Plus,
        ]
    );
}

#[test]
fn button_ordinals_match_protocol_bits() {
    assert_eq!(Button::Num2.ordinal(), 0x0001);
    assert_eq!(Button::Num1.ordinal(), 0x0002);
    assert_eq!(Button::B.ordinal(), 0x0004);
    assert_eq!(Button::A.ordinal(), 0x0008);
    assert_eq!(Button::Minus.ordinal(), 0x0010);
    assert_eq!(Button::Home.ordinal(), 0x0080);
    assert_eq!(Button::Left.ordinal(), 0x0100);
    assert_eq!(Button::Right.ordinal(), 0x0200);
    assert_eq!(Button::Down.ordinal(), 0x0400);
    assert_eq!(Button::Up.ordinal(), 0x0800);
    assert_eq!(Button::Plus.ordinal(), 0x1000);
}

#[test]
fn button_set_writes_its_bit_into_a_mask() {
    let mut mask: u16 = 0;
    Button::Plus.set(&mut mask, true);
    assert_eq!(mask, 0x1000);
    assert!(Button::Plus.get(&mask));
    Button::Plus.set(&mut mask, false);
    assert_eq!(mask, 0);
}

#[test]
fn variants_list_all_eleven_buttons() {
    let v = Button::variants();
    assert_eq!(v.len(), 11);
    assert_eq!(v[0], Button::Num2);
    assert_eq!(v[10], Button::Plus);
}
