use semantic_editor::term::{config_tios, Event, RawModeFlags, Termios, WinSize};

fn flags() -> RawModeFlags {
    RawModeFlags {
        ignbrk: 0x1,
        brkint: 0x2,
        parmrk: 0x8,
        istrip: 0x20,
        inlcr: 0x40,
        igncr: 0x80,
        icrnl: 0x100,
        ixon: 0x400,
        opost: 0x1,
        echo: 0x8,
        echonl: 0x40,
        icanon: 0x2,
        isig: 0x1,
        iexten: 0x8000,
        csize: 0x30,
        parenb: 0x100,
        cs8: 0x30,
        vmin: 6,
        vtime: 5,
    }
}

fn sample() -> Termios {
    Termios {
        input_flags: 0x2d02,
        output_flags: 0x5,
        local_flags: 0x8a3b,
        control_flags: 0x1bf,
        control_chars: vec![3, 28, 127, 21, 4, 9, 1, 0, 17, 19, 26],
    }
}

#[test]
fn raw_mode_clears_and_sets_flags() {
    let mut t = sample();
    config_tios(&mut t, &flags());
    assert_eq!(t.input_flags, 0x2d02 & !0x5eb);
    assert_eq!(t.output_flags, 0x4);
    assert_eq!(t.local_flags, 0x8a3b & !0x804b);
    assert_eq!(t.control_flags, (0x1bf & !0x130) | 0x30);
    assert_eq!(t.control_chars, vec![3, 28, 127, 21, 4, 0, 0, 0, 17, 19, 26]);
}

#[test]
fn raw_mode_twice_is_raw_mode_once() {
    let mut once = sample();
    config_tios(&mut once, &flags());
    let mut twice = sample();
    config_tios(&mut twice, &flags());
    config_tios(&mut twice, &flags());
    assert_eq!(once.input_flags, twice.input_flags);
    assert_eq!(once.output_flags, twice.output_flags);
    assert_eq!(once.local_flags, twice.local_flags);
    assert_eq!(once.control_flags, twice.control_flags);
    assert_eq!(once.control_chars, twice.control_chars);
}

#[test]
fn window_sizes_become_resize_events() {
    let ws = WinSize { ws_row: 24, ws_col: 80, ws_xpixel: 640, ws_ypixel: 480 };
    assert_eq!(ws.to_event(), Event::Resized(80, 24));
}
