use screen_pds::{
    Binding, ExportFormat, Modifier, Settings, Stamp, capture_delay_ms, choices_distinct,
    default_export_name, format_from_selection, frame_file_name, key_index, key_name,
    modifier_index, modifier_name, parse_binding, push_decimal, push_signed_decimal, text_equals,
};

#[test]
fn frame_file_names() {
    assert_eq!(frame_file_name(0), "tmp0.png");
    assert_eq!(frame_file_name(1), "tmp1.png");
    assert_eq!(frame_file_name(1234), "tmp1234.png");
}

#[test]
fn export_names() {
    let t = Stamp { year: 2024, month: 3, day: 7, hour: 9, minute: 5, second: 42 };
    assert_eq!(default_export_name(t, ExportFormat::Png), "capture2024-3-7-9_5_42.png");
    assert_eq!(default_export_name(t, ExportFormat::Jpeg), "capture2024-3-7-9_5_42.jpg");
    assert_eq!(default_export_name(t, ExportFormat::Gif), "capture2024-3-7-9_5_42.gif");
    let old = Stamp { year: -44, month: 12, day: 31, hour: 23, minute: 59, second: 0 };
    assert_eq!(default_export_name(old, ExportFormat::Png), "capture-44-12-31-23_59_0.png");
}

#[test]
fn decimal_text() {
    let mut s = String::from("n=");
    push_decimal(&mut s, 0);
    assert_eq!(s, "n=0");
    let mut s = String::new();
    push_decimal(&mut s, u64::MAX);
    assert_eq!(s, u64::MAX.to_string());
    let mut s = String::new();
    push_signed_decimal(&mut s, -907);
    assert_eq!(s, "-907");
}

#[test]
fn selections() {
    assert_eq!(format_from_selection(0), Some(ExportFormat::Png));
    assert_eq!(format_from_selection(1), Some(ExportFormat::Jpeg));
    assert_eq!(format_from_selection(2), Some(ExportFormat::Gif));
    assert_eq!(format_from_selection(3), None);
    assert_eq!(capture_delay_ms(0), 0);
    assert_eq!(capture_delay_ms(1), 3000);
    assert_eq!(capture_delay_ms(2), 5000);
    assert_eq!(capture_delay_ms(3), 10000);
    assert_eq!(capture_delay_ms(4), 0);
}

#[test]
fn modifier_names_and_positions() {
    assert_eq!(modifier_index("CONTROL"), 0);
    assert_eq!(modifier_index("SHIFT"), 1);
    assert_eq!(modifier_index("ALT"), 2);
    assert_eq!(modifier_index("alt"), 0);
    assert_eq!(modifier_name(0), "CONTROL");
    assert_eq!(modifier_name(1), "SHIFT");
    assert_eq!(modifier_name(2), "ALT");
    assert_eq!(modifier_name(7), "CONTROL");
}

#[test]
fn key_names_and_positions() {
    assert_eq!(key_index("A"), 0);
    assert_eq!(key_index("N"), 13);
    assert_eq!(key_index("Z"), 25);
    assert_eq!(key_index("a"), 0);
    assert_eq!(key_index("AB"), 0);
    assert_eq!(key_index(""), 0);
    assert_eq!(key_name(0), "A");
    assert_eq!(key_name(23), "X");
    assert_eq!(key_name(25), "Z");
    assert_eq!(key_name(26), "ERR");
    for i in 0..26 {
        assert_eq!(key_index(&key_name(i)), i);
    }
}

#[test]
fn bindings_from_names() {
    assert_eq!(parse_binding("SHIFT", "Q"), Binding { modifier: Modifier::Shift, key: 16 });
    assert_eq!(parse_binding("ALT", "B"), Binding { modifier: Modifier::Alt, key: 1 });
    assert_eq!(parse_binding("META", "?"), Binding { modifier: Modifier::Control, key: 0 });
}

#[test]
fn text_equality() {
    assert!(text_equals("SHIFT", "SHIFT"));
    assert!(!text_equals("SHIFT", "SHIFTY"));
    assert!(!text_equals("ALT", "ALt"));
    assert!(text_equals("", ""));
}

#[test]
fn distinct_shortcuts() {
    assert!(choices_distinct(&[(0, 13), (0, 18), (0, 25), (0, 24), (0, 4)]));
    assert!(!choices_distinct(&[(0, 13), (0, 18), (0, 25), (0, 24), (0, 13)]));
    assert!(!choices_distinct(&[(1, 2), (1, 2), (0, 25), (0, 24), (0, 4)]));
    assert!(choices_distinct(&[(1, 2), (2, 2), (0, 2), (0, 24), (0, 4)]));
}

#[test]
fn fallback_settings() {
    let s = Settings::fallback();
    assert_eq!(s.new_shortcut_modif, "CONTROL");
    assert_eq!(s.new_shortcut_key, "N");
    assert_eq!(s.save_shortcut_key, "S");
    assert_eq!(s.undo_shortcut_key, "Z");
    assert_eq!(s.redo_shortcut_key, "Y");
    assert_eq!(s.cancel_shortcut_key, "E");
    assert_eq!(s.default_location, "/.");
    assert!(s.has_default_location());
    assert_eq!(s.choices(), [(0, 13), (0, 18), (0, 25), (0, 24), (0, 4)]);
    let b = s.bindings();
    assert_eq!(b[2], Binding { modifier: Modifier::Control, key: 25 });
}

#[test]
fn settings_from_editor_choices() {
    let s = Settings::from_choices(&[(1, 0), (2, 1), (0, 2), (9, 3), (0, 30)], String::from("out"));
    assert_eq!(s.new_shortcut_modif, "SHIFT");
    assert_eq!(s.new_shortcut_key, "A");
    assert_eq!(s.save_shortcut_modif, "ALT");
    assert_eq!(s.save_shortcut_key, "B");
    assert_eq!(s.undo_shortcut_key, "C");
    assert_eq!(s.redo_shortcut_modif, "CONTROL");
    assert_eq!(s.cancel_shortcut_key, "ERR");
    assert_eq!(s.default_location, "out");
    let mut empty = Settings::fallback();
    empty.default_location = String::new();
    assert!(!empty.has_default_location());
}
