use raddio::config::{config_path_segments, hex_color_readable, parse_hex_color, Rgb, UiConfig};
use raddio::ui::{constrained_centered, key_action, Action, Area, Key, KeyInput, Theme};

fn press(key: Key, ctrl: bool) -> KeyInput {
    KeyInput { key, ctrl, pressed: true }
}

#[test]
fn keys_follow_the_bindings() {
    for m in [false, true] {
        assert_eq!(key_action(&press(Key::Enter, false), m), Action::Submit);
        assert_eq!(key_action(&press(Key::Esc, false), m), Action::Quit);
        assert_eq!(key_action(&press(Key::Char('c'), true), m), Action::Quit);
        assert_eq!(key_action(&press(Key::Char('h'), true), m), Action::MoveBackward);
        assert_eq!(key_action(&press(Key::Char('l'), true), m), Action::MoveForward);
        assert_eq!(key_action(&press(Key::Char('a'), false), m), Action::Edit);
        assert_eq!(key_action(&press(Key::Char('c'), false), m), Action::Edit);
        assert_eq!(key_action(&press(Key::Other, false), m), Action::Edit);
        assert_eq!(key_action(&press(Key::Char('w'), true), m), Action::Edit);
        let release = KeyInput { key: Key::Enter, ctrl: false, pressed: false };
        assert_eq!(key_action(&release, m), Action::Ignore);
    }
}

#[test]
fn multiline_keys_only_in_multiline_mode() {
    assert_eq!(key_action(&press(Key::Enter, true), true), Action::LineBreak);
    assert_eq!(key_action(&press(Key::Char('j'), true), true), Action::MoveDown);
    assert_eq!(key_action(&press(Key::Char('k'), true), true), Action::MoveUp);
    assert_eq!(key_action(&press(Key::Enter, true), false), Action::Edit);
    assert_eq!(key_action(&press(Key::Char('j'), true), false), Action::Edit);
    assert_eq!(key_action(&press(Key::Char('k'), true), false), Action::Edit);
}

#[test]
fn box_is_centered_and_bounded() {
    let area = Area { x: 0, y: 0, width: 100, height: 30 };
    assert_eq!(constrained_centered(40, 3, area), Area { x: 30, y: 13, width: 40, height: 3 });
    assert_eq!(constrained_centered(41, 4, area), Area { x: 29, y: 13, width: 41, height: 4 });
    let small = Area { x: 5, y: 2, width: 10, height: 2 };
    assert_eq!(constrained_centered(40, 3, small), Area { x: 5, y: 2, width: 10, height: 2 });
    assert_eq!(
        constrained_centered(u16::MAX, u16::MAX, area),
        Area { x: 0, y: 0, width: 100, height: 30 }
    );
}

#[test]
fn hex_colors_are_read() {
    assert_eq!(parse_hex_color("#33FF33"), Rgb { r: 0x33, g: 0xff, b: 0x33 });
    assert_eq!(parse_hex_color("#ffffff"), Rgb { r: 255, g: 255, b: 255 });
    assert_eq!(parse_hex_color("0a0B0c"), Rgb { r: 10, g: 11, b: 12 });
    assert_eq!(parse_hex_color("###102030ff"), Rgb { r: 0x10, g: 0x20, b: 0x30 });
}

#[test]
fn bad_components_read_as_255() {
    assert_eq!(parse_hex_color("#zz0000"), Rgb { r: 255, g: 0, b: 0 });
    assert_eq!(parse_hex_color("#00 000"), Rgb { r: 0, g: 255, b: 0 });
    assert_eq!(parse_hex_color("#-10000"), Rgb { r: 255, g: 0, b: 0 });
    assert_eq!(parse_hex_color("#+f0000"), Rgb { r: 15, g: 0, b: 0 });
    assert_eq!(parse_hex_color("#0000+g"), Rgb { r: 0, g: 0, b: 255 });
    assert_eq!(parse_hex_color("#\u{e9}0000"), Rgb { r: 255, g: 0, b: 0 });
}

#[test]
fn config_path_prefers_xdg() {
    assert_eq!(
        config_path_segments(Some("/x".to_string()), Some("/home/u".to_string())),
        Some(vec!["/x".to_string(), "raddio".to_string(), "config.json".to_string()])
    );
    assert_eq!(
        config_path_segments(None, Some("/home/u".to_string())),
        Some(vec![
            "/home/u".to_string(),
            ".config".to_string(),
            "raddio".to_string(),
            "config.json".to_string()
        ])
    );
    assert_eq!(config_path_segments(None, None), None);
}

#[test]
fn theme_from_defaults() {
    let t = Theme::from_ui(&UiConfig::default());
    assert_eq!(t.max_width, 40);
    assert_eq!(t.max_height, 3);
    assert!(t.rounded_corners);
    assert!(t.border);
    assert_eq!(t.border_color, Rgb { r: 255, g: 255, b: 255 });
    assert_eq!(t.prefix_color, Rgb { r: 255, g: 255, b: 255 });
    assert_eq!(t.prefix, " \u{f044} ");
    assert_eq!(t.prefix_width, 3);
    assert!(!t.multiline);
}

#[test]
fn prefix_color_falls_back_to_border_color() {
    let mut ui = UiConfig::default();
    ui.border_color = Some("#ff0000".to_string());
    let t = Theme::from_ui(&ui);
    assert_eq!(t.prefix_color, Rgb { r: 255, g: 0, b: 0 });
    ui.prefix_color = Some("#00ff00".to_string());
    let t = Theme::from_ui(&ui);
    assert_eq!(t.prefix_color, Rgb { r: 0, g: 255, b: 0 });
    assert_eq!(t.border_color, Rgb { r: 255, g: 0, b: 0 });
}

#[test]
fn theme_sizes_and_prefix_width() {
    let mut ui = UiConfig::default();
    ui.max_width = None;
    ui.max_height = Some(70000);
    ui.prefix = Some("\u{65e5}\u{672c}> ".to_string());
    let t = Theme::from_ui(&ui);
    assert_eq!(t.max_width, u16::MAX);
    assert_eq!(t.max_height, u16::MAX);
    assert_eq!(t.prefix_width, 6);
    ui.prefix = Some(String::new());
    assert_eq!(Theme::from_ui(&ui).prefix_width, 0);
    ui.max_width = Some(65536);
    ui.max_height = Some(65535);
    let t = Theme::from_ui(&ui);
    assert_eq!(t.max_width, u16::MAX);
    assert_eq!(t.max_height, u16::MAX);
    let full = Area { x: 0, y: 0, width: 100, height: 30 };
    assert_eq!(constrained_centered(t.max_width, t.max_height, full), full);
    ui.max_width = Some(0);
    assert_eq!(Theme::from_ui(&ui).max_width, 0);
}

#[test]
fn readable_colors_are_recognised() {

    assert!(hex_color_readable("#ffffff"));
    assert!(hex_color_readable("ffffff"));
    assert!(hex_color_readable("##12345678"));
    assert!(hex_color_readable("#\u{e9}0000"));
    assert!(!hex_color_readable("#fff"));
    assert!(!hex_color_readable("######"));
    assert!(!hex_color_readable(""));
    assert!(!hex_color_readable("#a\u{e9}000"));
    assert!(!hex_color_readable("#0000a\u{e9}"));
    assert!(hex_color_readable("#0000\u{e9}"));
}

#[test]
fn theme_readiness() {
    assert!(Theme::is_ready(&UiConfig::default()));
    let mut ui = UiConfig::default();
    ui.border = None;
    assert!(!Theme::is_ready(&ui));
    let mut ui = UiConfig::default();
    ui.prefix_color = Some("#12".to_string());
    assert!(!Theme::is_ready(&ui));
    let mut ui = UiConfig::default();
    ui.border_color = None;
    assert!(!Theme::is_ready(&ui));
    let mut ui = UiConfig::default();
    ui.max_width = None;
    ui.max_height = None;
    assert!(Theme::is_ready(&ui));
}
