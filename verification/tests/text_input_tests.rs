use chronobind::text_input::{is_word_boundary_character, text_edit_for, InputMode, TextEdit, TextInput};
use chronobind::ui::{KeyInput, KeyPress};

fn input_with(text: &str, cursor: usize) -> TextInput {
    let mut t = TextInput::new();
    t.input = text.to_string();
    t.set_cursor_pos(cursor);
    t
}

#[test]
fn new_input_is_empty() {
    let t = TextInput::new();
    assert!(t.is_empty());
    assert_eq!(t.character_count(), 0);
    assert_eq!(t.character_index, 0);
    assert_eq!(t.mode, InputMode::Normal);
    assert!(t.placeholder.is_none());
    let p = TextInput::new_with_placeholder("type here".to_string());
    assert_eq!(p.placeholder.as_deref(), Some("type here"));
    assert!(p.is_empty());
}

#[test]
fn enter_chars_moves_cursor() {
    let mut t = TextInput::new();
    for c in "héllo".chars() {
        t.enter_char(c);
    }
    assert_eq!(t.input, "héllo");
    assert_eq!(t.character_index, 5);
    assert_eq!(t.character_count(), 5);
    t.set_cursor_pos(1);
    t.enter_char('X');
    assert_eq!(t.input, "hXéllo");
    assert_eq!(t.character_index, 2);
}

#[test]
fn cursor_is_clamped() {
    let mut t = input_with("abc", 99);
    assert_eq!(t.character_index, 3);
    t.move_cursor_right();
    assert_eq!(t.character_index, 3);
    t.reset_cursor();
    assert_eq!(t.character_index, 0);
    t.move_cursor_left();
    assert_eq!(t.character_index, 0);
    t.move_cursor_right();
    assert_eq!(t.character_index, 1);
    assert_eq!(t.clamp_cursor_pos(7), 3);
    assert_eq!(t.clamp_cursor_pos(2), 2);
}

#[test]
fn backspace_removes_before_cursor() {
    let mut t = input_with("abc", 2);
    t.backspace();
    assert_eq!(t.input, "ac");
    assert_eq!(t.character_index, 1);
    let mut at_start = input_with("abc", 0);
    at_start.backspace();
    assert_eq!(at_start.input, "abc");
    assert_eq!(at_start.character_index, 0);
}

#[test]
fn backspace_undoes_enter_char() {
    let mut t = input_with("wörld", 2);
    t.enter_char('!');
    assert_eq!(t.input, "wö!rld");
    t.backspace();
    assert_eq!(t.input, "wörld");
    assert_eq!(t.character_index, 2);
}

#[test]
fn del_removes_at_cursor() {
    let mut t = input_with("abc", 1);
    t.del();
    assert_eq!(t.input, "ac");
    assert_eq!(t.character_index, 1);
    let mut at_end = input_with("abc", 3);
    at_end.del();
    assert_eq!(at_end.input, "abc");
}

#[test]
fn word_boundaries() {
    let t = input_with("hello world", 11);
    assert_eq!(t.find_left_boundary(11), 6);
    assert_eq!(t.find_left_boundary(6), 0);
    assert_eq!(t.find_left_boundary(0), 0);
    assert_eq!(t.find_right_boundary(0), 5);
    assert_eq!(t.find_right_boundary(5), 11);
    assert_eq!(t.find_right_boundary(11), 11);
    let runs = input_with("a  b", 0);
    assert_eq!(runs.find_right_boundary(1), 3);
    assert_eq!(runs.find_left_boundary(3), 1);
    assert!(is_word_boundary_character(' '));
    assert!(is_word_boundary_character('-'));
    assert!(is_word_boundary_character('\''));
    assert!(!is_word_boundary_character('x'));
}

#[test]
fn word_editing() {
    let mut t = input_with("hello world", 11);
    t.word_backspace();
    assert_eq!(t.input, "hello ");
    assert_eq!(t.character_index, 6);
    t.word_backspace();
    assert_eq!(t.input, "");
    assert_eq!(t.character_index, 0);

    let mut d = input_with("hello world", 0);
    d.word_del();
    assert_eq!(d.input, " world");
    assert_eq!(d.character_index, 0);
    let mut end = input_with("abc", 3);
    end.word_del();
    assert_eq!(end.input, "abc");
}

#[test]
fn word_movement() {
    let mut t = input_with("one two three", 0);
    t.move_cursor_right_word();
    assert_eq!(t.character_index, 3);
    t.move_cursor_right_word();
    assert_eq!(t.character_index, 7);
    t.move_cursor_left_word();
    assert_eq!(t.character_index, 4);
    t.move_cursor_left_word();
    assert_eq!(t.character_index, 0);
}

#[test]
fn byte_ranges() {
    let t = input_with("héllo", 0);
    assert_eq!(t.index_range_as_byte_range(1..3), 1..4);
    assert_eq!(t.index_range_as_byte_range(0..5), 0..6);
    assert_eq!(t.index_range_as_byte_range(2..9), 3..6);
    assert_eq!(t.index_range_as_byte_range(5..5), 6..6);
    assert_eq!(t.index_range_as_byte_range(7..9), 6..6);
    let plain = input_with("abc", 0);
    assert_eq!(plain.index_range_as_byte_range(3..3), 3..3);
    assert_eq!(plain.index_range_as_byte_range(0..0), 0..0);
}

#[test]
fn clear_resets() {
    let mut t = input_with("abc", 2);
    t.clear();
    assert!(t.is_empty());
    assert_eq!(t.character_index, 0);
}

fn press(t: &mut TextInput, code: KeyPress, ctrl: bool, shift: bool) {
    t.handle_key(&KeyInput { code, ctrl }, shift);
}

#[test]
fn keys_edit_only_while_editing() {
    let mut t = input_with("hello world", 11);
    press(&mut t, KeyPress::Char('x'), false, false);
    assert_eq!(t.input, "hello world");
    t.mode = InputMode::Editing;
    press(&mut t, KeyPress::Char('!'), false, true);
    assert_eq!(t.input, "hello world!");
    press(&mut t, KeyPress::Char('v'), true, false);
    assert_eq!(t.input, "hello world!");
    press(&mut t, KeyPress::Backspace, false, false);
    assert_eq!(t.input, "hello world");
    press(&mut t, KeyPress::Backspace, true, false);
    assert_eq!(t.input, "hello ");
    press(&mut t, KeyPress::Left, true, false);
    assert_eq!(t.character_index, 0);
    press(&mut t, KeyPress::Right, false, false);
    assert_eq!(t.character_index, 1);
    press(&mut t, KeyPress::Delete, false, false);
    assert_eq!(t.input, "hllo ");
    press(&mut t, KeyPress::Delete, true, false);
    assert_eq!(t.input, "h ");
    press(&mut t, KeyPress::Right, true, false);
    assert_eq!(t.character_index, 2);
    press(&mut t, KeyPress::Left, false, false);
    assert_eq!(t.character_index, 1);
    press(&mut t, KeyPress::Backspace, true, true);
    assert_eq!(t.input, "");
    assert_eq!(t.character_index, 0);
    press(&mut t, KeyPress::Home, false, false);
    assert_eq!(t.mode, InputMode::Editing);
    press(&mut t, KeyPress::Esc, false, false);
    assert_eq!(t.mode, InputMode::Normal);
    assert_eq!(text_edit_for(&KeyInput { code: KeyPress::Enter, ctrl: false }, false), TextEdit::FinishEditing);
    assert_eq!(text_edit_for(&KeyInput { code: KeyPress::Char('a'), ctrl: true }, false), TextEdit::Insert('a'));
}
