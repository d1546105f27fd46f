use rustarok_client::console_history::{slide, space_inserted, trim, ConsoleHistory};

#[test]
fn browsing_the_history() {
    let mut h = ConsoleHistory::new();
    assert_eq!(h.history_up(), "");
    assert_eq!(h.add_command("  first  "), "first");
    h.add_command("second");
    h.add_command("third");
    assert_eq!(h.history_up(), "third");
    assert_eq!(h.history_up(), "second");
    assert_eq!(h.history_up(), "first");
    assert_eq!(h.history_up(), "first");
    assert_eq!(h.history_down(), "second");
    assert_eq!(h.history_down(), "third");
    assert_eq!(h.history_down(), "");
    assert_eq!(h.history_pos, 0);
    assert_eq!(h.history_down(), "");
    h.history_up();
    h.add_command("fourth");
    assert_eq!(h.history_pos, 0);
    assert_eq!(h.command_history.len(), 4);
}

#[test]
fn trim_like_std() {
    for s in ["", "  ", " a ", "a", "\t x y \n", "\u{3000}z\u{a0}"].iter() {
        assert_eq!(trim(s), s.trim());
    }
}

#[test]
fn panel_slides_four_pixels() {
    assert_eq!(slide(0, true, 200), 4);
    assert_eq!(slide(200, true, 200), 200);
    assert_eq!(slide(2, false, 200), -2);
    assert_eq!(slide(-2, false, 200), -2);
}

#[test]
fn blanks_are_not_doubled() {
    assert!(space_inserted("ab", 2, false));
    assert!(!space_inserted("ab ", 3, false));
    assert!(!space_inserted("", 0, false));
    assert!(space_inserted("ab ", 3, true));
    assert!(space_inserted("ab", 9, false));
}

#[test]
fn closed_panel_at_any_height_only_moves_up() {
    assert_eq!(slide(i32::MIN, false, 200), i32::MIN);
    assert_eq!(slide(i32::MAX, false, 200), i32::MAX - 4);
    assert_eq!(slide(i32::MIN, true, 200), i32::MIN + 4);
}

#[test]
fn blank_test_agrees_with_std() {
    for code in 0u32..0x3100 {
        if let Some(c) = char::from_u32(code) {
            assert_eq!(space_inserted(&c.to_string(), 1, false), !c.is_whitespace(), "{:x}", code);
        }
    }
}
