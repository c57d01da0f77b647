use gba_keypad::button::Button;
use gba_keypad::interrupt::KeyInterruptSetting;
use gba_keypad::keypad::{read_key_input, KeyInput, TriBool, KEY_MASK};

const ALL_BUTTONS: [Button; 10] = [
    Button::A,
    Button::B,
    Button::Select,
    Button::Start,
    Button::Right,
    Button::Left,
    Button::Up,
    Button::Down,
    Button::R,
    Button::L,
];

fn named_getters(k: KeyInput) -> [bool; 10] {
    [
        k.a_pressed(),
        k.b_pressed(),
        k.select_pressed(),
        k.start_pressed(),
        k.right_pressed(),
        k.left_pressed(),
        k.up_pressed(),
        k.down_pressed(),
        k.r_pressed(),
        k.l_pressed(),
    ]
}

#[test]
fn button_positions_follow_register_layout() {
    for (i, b) in ALL_BUTTONS.iter().enumerate() {
        assert_eq!(b.position() as usize, i);
        assert_eq!(b.mask(), 1u16 << i);
    }
}

#[test]
fn read_key_input_flips_only_button_bits() {
    assert_eq!(read_key_input(0).bits(), 0x03FF);
    assert_eq!(read_key_input(0x03FF).bits(), 0);
    assert_eq!(read_key_input(0x0155).bits(), 0x0155 ^ 0x03FF);
    assert_eq!(read_key_input(0xFC00).bits(), 0xFFFF);
    assert_eq!(KEY_MASK, 0x03FF);
}

#[test]
fn read_key_input_twice_gives_raw_back() {
    for raw in [0u16, 1, 0x0200, 0x02AA, 0x03FF, 0x0123] {
        let once = read_key_input(raw).bits();
        assert_eq!(once, raw ^ 0x03FF);
        assert_eq!(read_key_input(once).bits(), raw);
        assert_eq!(once & 0xFC00, 0);
    }
}

#[test]
fn read_key_input_only_a_pressed() {
    // Low-active: A (bit 0) held reads 0, the nine other buttons read 1.
    let k = read_key_input(0b11_1111_1110);
    assert_eq!(named_getters(k), [true, false, false, false, false, false, false, false, false, false]);
    assert_eq!(k, KeyInput(1));
}

#[test]
fn read_key_input_bit_one_low_is_b() {
    // Bit 1 reads 0 and bit 0 reads 1: B is held and A is released.
    let k = read_key_input(0b11_1111_1101);
    assert!(!k.a_pressed());
    assert!(k.b_pressed());
    assert_eq!(named_getters(k), [false, true, false, false, false, false, false, false, false, false]);
    assert_eq!(k.bits(), 0b10);
}

#[test]
fn each_button_reads_its_own_bit() {
    for (i, b) in ALL_BUTTONS.iter().enumerate() {
        let mask = 1u16 << i;
        for others in [0u16, 0xFFFF, 0x5555, 0xAAAA] {
            let set = KeyInput::from_bits(others | mask);
            let clear = KeyInput::from_bits(others & !mask);
            assert!(set.pressed(*b));
            assert!(!clear.pressed(*b));
            assert!(named_getters(set)[i]);
            assert!(!named_getters(clear)[i]);
        }
    }
}

#[test]
fn difference_with_self_is_empty() {
    for v in [0u16, 1, 0x03FF, 0xFFFF, 0x1234] {
        let x = KeyInput(v);
        assert_eq!(x.difference(x), KeyInput::new());
        assert_eq!(x.difference(x).bits(), 0);
    }
}

#[test]
fn difference_is_symmetric() {
    let x = KeyInput(0b00_0000_0011);
    let y = KeyInput(0b00_0000_0110);
    assert_eq!(x.difference(y), y.difference(x));
    assert_eq!(x.difference(y).bits(), 0b101);
}

#[test]
fn difference_is_exclusive_or_not_subtraction() {
    let before = KeyInput(0b01);
    let after = KeyInput(0b10);
    let changed = before.difference(after);
    assert!(changed.a_pressed());
    assert!(changed.b_pressed());
    assert_eq!(changed.bits(), 0b11);
}

#[test]
fn column_direction_truth_table() {
    let right = Button::Right.mask();
    let left = Button::Left.mask();
    assert_eq!(KeyInput(right).column_direction(), TriBool::Plus);
    assert_eq!(KeyInput(left).column_direction(), TriBool::Minus);
    assert_eq!(KeyInput(right | left).column_direction(), TriBool::Plus);
    assert_eq!(KeyInput(0).column_direction(), TriBool::Neutral);
    assert_eq!(KeyInput(Button::Up.mask()).column_direction(), TriBool::Neutral);
}

#[test]
fn row_direction_truth_table() {
    let down = Button::Down.mask();
    let up = Button::Up.mask();
    assert_eq!(KeyInput(down).row_direction(), TriBool::Plus);
    assert_eq!(KeyInput(up).row_direction(), TriBool::Minus);
    assert_eq!(KeyInput(down | up).row_direction(), TriBool::Plus);
    assert_eq!(KeyInput(0).row_direction(), TriBool::Neutral);
    assert_eq!(KeyInput(Button::Right.mask()).row_direction(), TriBool::Neutral);
}

#[test]
fn tribool_values() {
    assert_eq!(TriBool::Minus.value(), -1);
    assert_eq!(TriBool::Neutral.value(), 0);
    assert_eq!(TriBool::Plus.value(), 1);
}

#[test]
fn key_input_default_is_empty() {
    assert_eq!(KeyInput::default(), KeyInput(0));
    assert_eq!(KeyInput::new().bits(), 0);
}

#[test]
fn interrupt_default_is_inert() {
    let s = KeyInterruptSetting::default();
    assert!(!s.irq_enabled());
    assert!(!s.irq_logical_and());
    for b in ALL_BUTTONS {
        assert!(!s.pressed(b));
    }
    assert_eq!(s.bits(), 0);
    assert_eq!(s, KeyInterruptSetting::new());
}

#[test]
fn interrupt_set_then_get_and_clear() {
    for (i, b) in ALL_BUTTONS.iter().enumerate() {
        let mut s = KeyInterruptSetting::from_bits(0);
        s.set_pressed(*b, true);
        assert!(s.pressed(*b));
        assert_eq!(s.bits(), 1u16 << i);
        s.set_pressed(*b, false);
        assert!(!s.pressed(*b));
        assert_eq!(s.bits(), 0);
    }
}

#[test]
fn interrupt_button_setter_keeps_other_bits() {
    let mut s = KeyInterruptSetting::new();
    s.set_irq_enabled(true);
    s.set_irq_logical_and(true);
    s.set_b_pressed(true);
    s.set_a_pressed(true);
    s.set_l_pressed(true);
    s.set_a_pressed(false);
    assert!(s.irq_enabled());
    assert!(s.irq_logical_and());
    assert!(s.b_pressed());
    assert!(!s.a_pressed());
    assert!(s.l_pressed());
    assert_eq!(s.bits(), 0b1100_0010_0000_0010);
}

#[test]
fn interrupt_named_setters_hit_their_bits() {
    let mut s = KeyInterruptSetting::new();
    s.set_select_pressed(true);
    s.set_start_pressed(true);
    s.set_right_pressed(true);
    s.set_left_pressed(true);
    s.set_up_pressed(true);
    s.set_down_pressed(true);
    s.set_r_pressed(true);
    assert_eq!(s.bits(), 0b01_1111_1100);
    assert!(s.select_pressed() && s.start_pressed() && s.right_pressed());
    assert!(s.left_pressed() && s.up_pressed() && s.down_pressed() && s.r_pressed());
    assert!(!s.a_pressed() && !s.b_pressed() && !s.l_pressed());
    assert!(!s.irq_enabled() && !s.irq_logical_and());
}

#[test]
fn interrupt_control_bits_toggle_alone() {
    let mut s = KeyInterruptSetting::from_bits(0x03FF);
    s.set_irq_enabled(true);
    assert_eq!(s.bits(), 0x43FF);
    s.set_irq_logical_and(true);
    assert_eq!(s.bits(), 0xC3FF);
    s.set_irq_enabled(false);
    assert_eq!(s.bits(), 0x83FF);
    s.set_irq_logical_and(false);
    assert_eq!(s.bits(), 0x03FF);
}

#[test]
fn interrupt_encoding_round_trip() {
    for v in [0u16, 0xC003, 0xFFFF, 0x4200, 0x8001] {
        let s = KeyInterruptSetting::from_bits(v);
        assert_eq!(s.bits(), v);
        assert_eq!(KeyInterruptSetting::from_bits(s.bits()), s);
    }
}

#[test]
fn interrupt_a_and_b_all_required_enabled() {
    let mut s = KeyInterruptSetting::default();
    s.set_a_pressed(true);
    s.set_b_pressed(true);
    s.set_irq_logical_and(true);
    s.set_irq_enabled(true);
    assert_eq!(s.bits(), 0b1100_0000_0000_0011);
    assert_eq!(s.bits(), 0xC003);
}
