use rustarok_client::console_edit::{
    cursor_inside_quotes, handle_backspace, handle_delete_key, handle_left_cursor,
    handle_right_cursor, insert_str_to_prompt,
};

#[test]
fn backspace_removes_char_before_cursor() {
    assert_eq!(handle_backspace("abc", 2, false), ("ac".to_string(), 1));
    assert_eq!(handle_backspace("abc", 3, false), ("ab".to_string(), 2));
}

#[test]
fn ctrl_backspace_removes_word() {
    assert_eq!(handle_backspace("hello world", 11, true), ("hello ".to_string(), 6));
    assert_eq!(handle_backspace("hello world", 6, true), ("helloworld".to_string(), 5));
    assert_eq!(handle_backspace("hello", 5, true), ("".to_string(), 0));
}

#[test]
fn delete_removes_char_at_cursor() {
    assert_eq!(handle_delete_key("abc", 0, false), "bc");
    assert_eq!(handle_delete_key("abc", 1, false), "ac");
    assert_eq!(handle_delete_key("abc", 2, false), "ab");
}

#[test]
fn ctrl_delete_removes_word() {
    assert_eq!(handle_delete_key("hello world", 0, true), " world");
    assert_eq!(handle_delete_key("hello world", 5, true), "helloworld");
    assert_eq!(handle_delete_key("hello world", 6, true), "hello ");
}

#[test]
fn right_cursor_moves() {
    assert_eq!(handle_right_cursor("hello world", 3, false), 4);
    assert_eq!(handle_right_cursor("hello world", 10, false), 11);
    assert_eq!(handle_right_cursor("hello world", 0, true), 5);
    assert_eq!(handle_right_cursor("hello world", 5, true), 6);
    assert_eq!(handle_right_cursor("hello world", 6, true), 11);
}

#[test]
fn left_cursor_moves() {
    assert_eq!(handle_left_cursor("hello world", 3, false), 2);
    assert_eq!(handle_left_cursor("hello world", 11, true), 6);
    assert_eq!(handle_left_cursor("hello world", 6, true), 5);
    assert_eq!(handle_left_cursor("hello", 5, true), 0);
}

#[test]
fn insert_moves_cursor_one_on() {
    assert_eq!(insert_str_to_prompt("helo", 3, "l"), ("hello".to_string(), 4));
    assert_eq!(insert_str_to_prompt("", 0, "x"), ("x".to_string(), 1));
}

#[test]
fn backspace_undoes_insert() {
    let (s, c) = insert_str_to_prompt("abd", 2, "c");
    assert_eq!(handle_backspace(&s, c, false), ("abd".to_string(), 2));
}

#[test]
fn quotes_before_cursor() {
    assert!(cursor_inside_quotes("say \"hi there", 8));
    assert!(!cursor_inside_quotes("\"a\" b", 5));
    assert!(!cursor_inside_quotes("say \"hi\"", 3));
}
