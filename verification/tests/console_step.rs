use rustarok_client::console_history::{ConsoleHistory};
use rustarok_client::console_step::{console_step, key_action, ConsoleEvent, ConsoleKeyAction, ConsoleState};

fn no_keys() -> ConsoleEvent {
    ConsoleEvent {
        is_console_open: true,
        console_height: 200,
        repeat_ready: true,
        ctrl_down: false,
        up_just_pressed: false,
        down_just_pressed: false,
        left_down: false,
        right_down: false,
        home_down: false,
        end_down: false,
        backspace_down: false,
        delete_down: false,
        space_down: false,
        space_just_released: false,
        tab_just_released: false,
        return_just_released: false,
        r_just_released: false,
        escape_just_released: false,
        text: String::new(),
    }
}

fn typed(state: &mut ConsoleState, text: &str) {
    let mut ev = no_keys();
    ev.text = text.to_string();
    assert_eq!(console_step(state, &ev), ConsoleKeyAction::TypeText);
}

#[test]
fn closed_console_slides_up_and_ignores_keys() {
    let mut s = ConsoleState::new();
    s.y_pos = 10;
    let mut ev = no_keys();
    ev.is_console_open = false;
    ev.text = "x".to_string();
    assert_eq!(console_step(&mut s, &ev), ConsoleKeyAction::Nothing);
    assert_eq!(s.y_pos, 6);
    assert_eq!(s.input, "");
}

#[test]
fn typing_moves_the_cursor_one_on() {
    let mut s = ConsoleState::new();
    typed(&mut s, "a");
    typed(&mut s, "b");
    assert_eq!(s.input, "ab");
    assert_eq!(s.cursor_x, 2);
    assert_eq!(s.y_pos, 8);
    typed(&mut s, "cd");
    assert_eq!(s.input, "abcd");
    assert_eq!(s.cursor_x, 3);
}

#[test]
fn cursor_keys_and_editing() {
    let mut s = ConsoleState::new();
    s.input = "hello world".to_string();
    s.cursor_x = 11;
    let mut ev = no_keys();
    ev.left_down = true;
    ev.ctrl_down = true;
    assert_eq!(console_step(&mut s, &ev), ConsoleKeyAction::CursorLeft);
    assert_eq!(s.cursor_x, 6);
    let mut ev = no_keys();
    ev.home_down = true;
    assert_eq!(console_step(&mut s, &ev), ConsoleKeyAction::CursorHome);
    assert_eq!(s.cursor_x, 0);
    let mut ev = no_keys();
    ev.delete_down = true;
    assert_eq!(console_step(&mut s, &ev), ConsoleKeyAction::Delete);
    assert_eq!(s.input, "ello world");
    let mut ev = no_keys();
    ev.end_down = true;
    console_step(&mut s, &ev);
    assert_eq!(s.cursor_x, 10);
    let mut ev = no_keys();
    ev.backspace_down = true;
    assert_eq!(console_step(&mut s, &ev), ConsoleKeyAction::Backspace);
    assert_eq!(s.input, "ello worl");
    assert_eq!(s.cursor_x, 9);
}

#[test]
fn key_repeat_delay_blocks_moves() {
    let mut s = ConsoleState::new();
    s.input = "ab".to_string();
    s.cursor_x = 2;
    let mut ev = no_keys();
    ev.left_down = true;
    ev.repeat_ready = false;
    assert_eq!(console_step(&mut s, &ev), ConsoleKeyAction::Nothing);
    assert_eq!(s.cursor_x, 2);
}

#[test]
fn history_up_and_down() {
    let mut s = ConsoleState::new();
    s.history = ConsoleHistory::new();
    s.history.add_command("first");
    s.history.add_command("second");
    let mut up = no_keys();
    up.up_just_pressed = true;
    assert_eq!(console_step(&mut s, &up), ConsoleKeyAction::HistoryPrev);
    assert_eq!(s.input, "second");
    assert_eq!(s.cursor_x, 6);
    console_step(&mut s, &up);
    assert_eq!(s.input, "first");
    let mut down = no_keys();
    down.down_just_pressed = true;
    assert_eq!(console_step(&mut s, &down), ConsoleKeyAction::HistoryNext);
    assert_eq!(s.input, "second");
    console_step(&mut s, &down);
    assert_eq!(s.input, "");
    assert_eq!(s.cursor_x, 0);
}

#[test]
fn space_is_not_doubled() {
    let mut s = ConsoleState::new();
    typed(&mut s, "a");
    let mut space = no_keys();
    space.space_just_released = true;
    assert_eq!(console_step(&mut s, &space), ConsoleKeyAction::TypeSpace);
    assert_eq!(s.input, "a ");
    console_step(&mut s, &space);
    assert_eq!(s.input, "a ");
    assert_eq!(s.cursor_x, 2);
}

#[test]
fn key_priorities() {
    let mut ev = no_keys();
    ev.return_just_released = true;
    assert_eq!(key_action(&ev, false, 0, 0), ConsoleKeyAction::Submit { ctrl: false });
    assert_eq!(
        key_action(&ev, true, 0, 0),
        ConsoleKeyAction::ChooseCompletion { close: true, by_enter: true }
    );
    ev.ctrl_down = true;
    assert_eq!(key_action(&ev, true, 0, 0), ConsoleKeyAction::Submit { ctrl: true });
    let mut ev = no_keys();
    ev.ctrl_down = true;
    ev.space_just_released = true;
    assert_eq!(key_action(&ev, false, 0, 0), ConsoleKeyAction::OpenCompletion);
    let mut ev = no_keys();
    ev.ctrl_down = true;
    ev.r_just_released = true;
    assert_eq!(key_action(&ev, false, 0, 0), ConsoleKeyAction::SearchHistory);
    let mut ev = no_keys();
    ev.escape_just_released = true;
    assert_eq!(key_action(&ev, true, 0, 0), ConsoleKeyAction::CloseCompletion);
    assert_eq!(key_action(&ev, false, 0, 0), ConsoleKeyAction::Nothing);
    let mut ev = no_keys();
    ev.text = "x".to_string();
    ev.space_down = true;
    assert_eq!(key_action(&ev, false, 0, 0), ConsoleKeyAction::Nothing);
}

#[test]
fn cursor_past_the_line_types_at_its_end() {
    let mut s = ConsoleState::new();
    s.input = "ab".to_string();
    s.cursor_x = 5;
    typed(&mut s, "c");
    assert_eq!(s.input, "abc");
    assert_eq!(s.cursor_x, 6);
    let mut ev = no_keys();
    ev.backspace_down = true;
    console_step(&mut s, &ev);
    assert_eq!(s.input, "ab");
    assert_eq!(s.cursor_x, 5);
}
