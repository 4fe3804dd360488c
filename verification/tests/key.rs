use semantic_editor::key::{Press, Special, Symbol};

#[test]
fn press_from_raw_char() {
    let result = Press::from_raw(0, 0, 'a' as u32);
    assert_eq!(result, Some(Press {
        ctrl: false,
        alt: false,
        symbol: Symbol::Char('a'),
    }));
}

#[test]
fn press_from_raw_alt_char() {
    let result = Press::from_raw(0x01, 0, 'a' as u32);
    assert_eq!(result, Some(Press {
        ctrl: false,
        alt: true,
        symbol: Symbol::Char('a'),
    }));
}

#[test]
fn press_from_raw_ctrl_char() {
    let result = Press::from_raw(0, '\x01' as u16, 0);
    assert_eq!(result, Some(Press {
        ctrl: true,
        alt: false,
        symbol: Symbol::Char('a'),
    }));
}

#[test]
fn press_from_raw_ctrl_alt_char() {
    let result = Press::from_raw(0x01, '\x01' as u16, 0);
    assert_eq!(result, Some(Press {
        ctrl: true,
        alt: true,
        symbol: Symbol::Char('a'),
    }));
}

#[test]
fn press_from_raw_special_f1() {
    let result = Press::from_raw(0, 0xffff, 0);
    assert_eq!(result, Some(Press {
        ctrl: false,
        alt: false,
        symbol: Symbol::Special(Special::F(1)),
    }));
}

#[test]
fn press_from_raw_special_right() {
    let result = Press::from_raw(0, 0xffff - 21, 0);
    assert_eq!(result, Some(Press {
        ctrl: false,
        alt: false,
        symbol: Symbol::Special(Special::Right),
    }));
}

fn special(key: u16) -> Option<Special> {
    match Press::from_raw(0, key, 0) {
        Some(Press { ctrl: false, alt: false, symbol: Symbol::Special(s) }) => Some(s),
        _ => None,
    }
}

#[test]
fn every_special_key_code() {
    assert_eq!(special(0x7f), Some(Special::Backspace));
    for n in 1..=12u32 {
        assert_eq!(special((0x10000 - n) as u16), Some(Special::F(n)));
    }
    assert_eq!(special(0xfff3), Some(Special::Insert));
    assert_eq!(special(0xfff2), Some(Special::Delete));
    assert_eq!(special(0xfff1), Some(Special::Home));
    assert_eq!(special(0xfff0), Some(Special::End));
    assert_eq!(special(0xffef), Some(Special::PageUp));
    assert_eq!(special(0xffee), Some(Special::PageDown));
    assert_eq!(special(0xffed), Some(Special::Up));
    assert_eq!(special(0xffec), Some(Special::Down));
    assert_eq!(special(0xffeb), Some(Special::Left));
    assert_eq!(special(0xffea), Some(Special::Right));
}

#[test]
fn unknown_key_codes_decode_to_nothing() {
    assert_eq!(Press::from_raw(0, 0x21, 0), None);
    assert_eq!(Press::from_raw(0, 0x7e, 0), None);
    assert_eq!(Press::from_raw(0, 0x80, 0), None);
    assert_eq!(Press::from_raw(0, 0xffe9, 0), None);
}

#[test]
fn invalid_code_points_decode_to_nothing() {
    assert_eq!(Press::from_raw(0, 0, 0xD800), None);
    assert_eq!(Press::from_raw(0, 0, 0xDFFF), None);
    assert_eq!(Press::from_raw(0, 0, 0x110000), None);
    assert_eq!(Press::from_raw(0, 0, 0x10FFFF), Some(Press {
        ctrl: false,
        alt: false,
        symbol: Symbol::Char('\u{10FFFF}'),
    }));
}

#[test]
fn space_and_last_control_chord() {
    assert_eq!(Press::from_raw(0, 0x20, 0), Some(Press {
        ctrl: false,
        alt: false,
        symbol: Symbol::Char(' '),
    }));
    assert_eq!(Press::from_raw(0, 0x1f, 0), Some(Press {
        ctrl: true,
        alt: false,
        symbol: Symbol::Char('\x7f'),
    }));
    // only the modifier byte 0x01 means alt
    assert_eq!(Press::from_raw(0x02, 0x1a, 0), Some(Press {
        ctrl: true,
        alt: false,
        symbol: Symbol::Char('z'),
    }));
}

#[test]
fn press_text() {
    let p = Press { ctrl: true, alt: true, symbol: Symbol::Char('a') };
    assert_eq!(p.to_string(), "C-M-a");
    let p = Press { ctrl: false, alt: true, symbol: Symbol::Special(Special::PageUp) };
    assert_eq!(p.to_string(), "M-page-up");
    let p = Press { ctrl: true, alt: false, symbol: Symbol::Special(Special::F(12)) };
    assert_eq!(p.to_string(), "C-f12");
    let p = Press { ctrl: false, alt: false, symbol: Symbol::Char('x') };
    assert_eq!(p.to_string(), "x");
}

#[test]
fn special_text() {
    assert_eq!(Special::Backspace.to_string(), "backspace");
    assert_eq!(Special::F(0).to_string(), "f0");
    assert_eq!(Special::F(7).to_string(), "f7");
    assert_eq!(Special::F(4294967295).to_string(), "f4294967295");
    assert_eq!(Special::Insert.to_string(), "insert");
    assert_eq!(Special::Delete.to_string(), "delete");
    assert_eq!(Special::Home.to_string(), "home");
    assert_eq!(Special::End.to_string(), "end");
    assert_eq!(Special::PageDown.to_string(), "page-down");
    assert_eq!(Special::Up.to_string(), "up");
    assert_eq!(Special::Down.to_string(), "down");
    assert_eq!(Special::Left.to_string(), "left");
    assert_eq!(Special::Right.to_string(), "right");
    assert_eq!(Symbol::Char('q').to_string(), "q");
    assert_eq!(Symbol::Special(Special::Home).to_string(), "home");
}

#[test]
fn plain_character_round_trip() {
    let p = Press::from_raw(0x01, 0, 'é' as u32).unwrap();
    assert_eq!(p.to_string(), "M-é");
}
