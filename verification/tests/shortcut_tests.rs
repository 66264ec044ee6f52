use menubar::Key;
use menubar::Shortcut;

fn flags_from_bits(bits: u32) -> Shortcut {
    Shortcut::new(Key::A)
        .capslock(bits & 1 != 0)
        .shift(bits & 2 != 0)
        .control(bits & 4 != 0)
        .option(bits & 8 != 0)
        .command(bits & 16 != 0)
}

#[test]
fn mask_is_or_of_set_bits_for_all_combinations() {
    for bits in 0u32..32 {
        let s = flags_from_bits(bits);
        let mut expected: usize = 0;
        if bits & 1 != 0 {
            expected |= 1 << 16;
        }
        if bits & 2 != 0 {
            expected |= 1 << 17;
        }
        if bits & 4 != 0 {
            expected |= 1 << 18;
        }
        if bits & 8 != 0 {
            expected |= 1 << 19;
        }
        if bits & 16 != 0 {
            expected |= 1 << 20;
        }
        assert_eq!(s.mask(), expected, "combination {}", bits);
    }
}

#[test]
fn mask_is_zero_with_no_flags() {
    assert_eq!(Shortcut::new(Key::Q).mask(), 0);
}

#[test]
fn mask_single_flags_hit_bits_16_through_20() {
    assert_eq!(Shortcut::new(Key::A).capslock(true).mask(), 1 << 16);
    assert_eq!(Shortcut::new(Key::A).shift(true).mask(), 1 << 17);
    assert_eq!(Shortcut::new(Key::A).control(true).mask(), 1 << 18);
    assert_eq!(Shortcut::new(Key::A).option(true).mask(), 1 << 19);
    assert_eq!(Shortcut::new(Key::A).command(true).mask(), 1 << 20);
}

#[test]
fn mask_all_flags_is_full_range() {
    let s = Shortcut::new(Key::Z)
        .capslock(true)
        .shift(true)
        .control(true)
        .option(true)
        .command(true);
    assert_eq!(s.mask(), 0x1F0000);
}

#[test]
fn builders_keep_the_other_flags() {
    let s = Shortcut::new(Key::C).command(true).shift(true);
    assert!(s.command);
    assert!(s.shift);
    assert!(!s.control);
    assert!(!s.option);
    assert!(!s.capslock);
    assert!(matches!(s.key, Key::C));
}

#[test]
fn letters_and_digits_map_to_themselves() {
    assert_eq!(Key::A.to_string(), "a");
    assert_eq!(Key::B.to_string(), "b");
    assert_eq!(Key::M.to_string(), "m");
    assert_eq!(Key::Z.to_string(), "z");
    assert_eq!(Key::Num0.to_string(), "0");
    assert_eq!(Key::Num1.to_string(), "1");
    assert_eq!(Key::Num5.to_string(), "5");
    assert_eq!(Key::Num9.to_string(), "9");
}

#[test]
fn function_keys_map_to_reserved_code_points() {
    assert_eq!(Key::F1.to_string(), "\u{F704}");
    assert_eq!(Key::F2.to_string(), "\u{F705}");
    assert_eq!(Key::F3.to_string(), "\u{F706}");
    assert_eq!(Key::F4.to_string(), "\u{F707}");
    assert_eq!(Key::F5.to_string(), "\u{F708}");
    assert_eq!(Key::F6.to_string(), "\u{F709}");
    assert_eq!(Key::F7.to_string(), "\u{F70A}");
    assert_eq!(Key::F8.to_string(), "\u{F70B}");
    assert_eq!(Key::F9.to_string(), "\u{F70C}");
    assert_eq!(Key::F10.to_string(), "\u{F70D}");
    assert_eq!(Key::F11.to_string(), "\u{F70E}");
    assert_eq!(Key::F12.to_string(), "\u{F70F}");
}

#[test]
fn editing_keys_map_to_control_characters() {
    assert_eq!(Key::Delete.to_string(), "\u{7F}");
    assert_eq!(Key::Backspace.to_string(), "\u{8}");
    assert_eq!(Key::Enter.to_string(), "\r");
    assert_eq!(Key::Tab.to_string(), "\t");
}

#[test]
fn other_round_trips_exactly() {
    assert_eq!(Key::Other(String::from("xyz")).to_string(), "xyz");
    assert_eq!(Key::Other(String::new()).to_string(), "");
    assert_eq!(Key::Other(String::from("\u{2318}")).to_string(), "\u{2318}");
}
