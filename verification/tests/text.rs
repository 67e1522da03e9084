use promkit::editor::text::TextEditor;
use promkit::event::{Event, KeyCode, KeyEvent, KeyEventKind, KeyEventState, KeyModifiers};
use promkit::grapheme::{Grapheme, Graphemes};
use promkit::text::{EditOp, State, TextBuffer};
use promkit::style::ContentStyle;
use promkit::PaneFactory;

fn key(code: KeyCode) -> Event {
    Event::Key(KeyEvent::new(code, KeyModifiers::none()))
}

fn ctrl(c: char) -> Event {
    Event::Key(KeyEvent::new(KeyCode::Char(c), KeyModifiers::control()))
}

#[test]
fn text_buffer_starts_empty() {
    let b = TextBuffer::new();
    assert_eq!(b.position(), 0);
    assert_eq!(b.to_string(), "");
}

#[test]
fn text_buffer_insert_advances_the_cursor() {
    let mut b = TextBuffer::new();
    b.insert(Grapheme::from('a'));
    b.insert(Grapheme::from('b'));
    assert_eq!((b.to_string().as_str(), b.position()), ("ab", 2));
    b.prev();
    b.insert(Grapheme::from('c'));
    assert_eq!((b.to_string().as_str(), b.position()), ("acb", 2));
}

#[test]
fn text_buffer_moves_stop_at_the_ends() {
    let mut b = TextBuffer::new();
    b.prev();
    assert_eq!(b.position(), 0);
    b.next();
    assert_eq!(b.position(), 0);
    b.replace(Graphemes::from("abc"));
    assert_eq!(b.position(), 3);
    b.next();
    assert_eq!(b.position(), 3);
    b.to_head();
    assert_eq!(b.position(), 0);
    b.prev();
    assert_eq!(b.position(), 0);
    b.to_tail();
    assert_eq!(b.position(), 3);
}

#[test]
fn text_buffer_erase_removes_the_grapheme_before_the_cursor() {
    let mut b = TextBuffer::new();
    b.erase();
    assert_eq!((b.to_string().as_str(), b.position()), ("", 0));
    b.replace(Graphemes::from("abc"));
    b.prev();
    b.erase();
    assert_eq!((b.to_string().as_str(), b.position()), ("ac", 1));
    b.to_head();
    b.erase();
    assert_eq!((b.to_string().as_str(), b.position()), ("ac", 0));
}

#[test]
fn text_buffer_overwrite_replaces_or_appends() {
    let mut b = TextBuffer::new();
    b.replace(Graphemes::from("abc"));
    b.to_head();
    b.overwrite(Grapheme::from('x'));
    assert_eq!((b.to_string().as_str(), b.position()), ("xbc", 1));
    b.to_tail();
    b.overwrite(Grapheme::from('y'));
    assert_eq!((b.to_string().as_str(), b.position()), ("xbcy", 4));
}

#[test]
fn cursor_stays_within_the_text_after_any_steps() {
    let steps = [0usize, 5, 1, 1, 4, 0, 0, 0, 5, 5, 5, 2, 4, 6, 1, 3, 5, 5, 5, 5, 0, 4, 6, 6, 1, 1];
    let mut b = TextBuffer::new();
    for (n, step) in steps.iter().cycle().take(200).enumerate() {
        let op = match (step + n / 7) % 7 {
            0 => EditOp::Prev,
            1 => EditOp::Next,
            2 => EditOp::ToHead,
            3 => EditOp::ToTail,
            4 => EditOp::Insert(Grapheme::from('x')),
            5 => EditOp::Erase,
            _ => EditOp::Overwrite(Grapheme::from('y')),
        };
        b.apply(op);
        assert!(b.position() <= b.graphemes().len());
    }
}

#[test]
fn text_editor_insert_left_insert() {
    let mut editor = TextEditor::new();
    for event in [key(KeyCode::Char('h')), key(KeyCode::Char('i')), key(KeyCode::Left), key(KeyCode::Char('o'))] {
        editor.handle_event(&event);
    }
    assert_eq!(editor.to_string(), "hoi");
    assert_eq!(editor.textbuffer().position(), 2);
}

#[test]
fn text_editor_keys() {
    let mut editor = TextEditor::new();
    for c in "abc".chars() {
        editor.handle_event(&key(KeyCode::Char(c)));
    }
    editor.handle_event(&Event::Key(KeyEvent::new(KeyCode::Char('D'), KeyModifiers::shift())));
    assert_eq!(editor.to_string(), "abcD");
    editor.handle_event(&ctrl('a'));
    assert_eq!(editor.textbuffer().position(), 0);
    editor.handle_event(&key(KeyCode::Right));
    assert_eq!(editor.textbuffer().position(), 1);
    editor.handle_event(&key(KeyCode::Backspace));
    assert_eq!(editor.to_string(), "bcD");
    editor.handle_event(&ctrl('e'));
    assert_eq!(editor.textbuffer().position(), 3);
    editor.handle_event(&key(KeyCode::Left));
    assert_eq!(editor.textbuffer().position(), 2);
}

#[test]
fn text_editor_leaves_other_events_alone() {
    let mut editor = TextEditor::new();
    editor.handle_event(&key(KeyCode::Char('a')));
    let others = [
        key(KeyCode::Enter),
        key(KeyCode::Tab),
        key(KeyCode::Esc),
        key(KeyCode::Up),
        Event::Resize(10, 10),
        Event::Paste(String::from("zz")),
        Event::FocusGained,
        ctrl('x'),
        Event::Key(KeyEvent::new(KeyCode::Left, KeyModifiers::shift())),
        Event::Key(KeyEvent {
            code: KeyCode::Char('q'),
            modifiers: KeyModifiers::none(),
            kind: KeyEventKind::Release,
            state: KeyEventState::none(),
        }),
        Event::Key(KeyEvent {
            code: KeyCode::Char('q'),
            modifiers: KeyModifiers::none(),
            kind: KeyEventKind::Press,
            state: KeyEventState { keypad: true, caps_lock: false, num_lock: false },
        }),
    ];
    for event in others.iter() {
        editor.handle_event(event);
        assert_eq!(editor.to_string(), "a");
        assert_eq!(editor.textbuffer().position(), 1);
    }
}

#[test]
fn text_editor_reset_empties_the_buffer() {
    let mut editor = TextEditor::new();
    editor.handle_event(&key(KeyCode::Char('a')));
    editor.reset();
    assert_eq!(editor.to_string(), "");
    assert_eq!(editor.textbuffer().position(), 0);
    assert_eq!(editor.prefix(), &Graphemes::from("❯❯ "));
}

#[test]
fn text_editor_gen_pane_wraps_label_and_text() {
    let mut editor = TextEditor::new();
    for c in "abcdefg".chars() {
        editor.handle_event(&key(KeyCode::Char(c)));
    }
    let pane = editor.gen_pane((4, 10));
    assert_eq!(
        pane.extract(10),
        vec![Graphemes::from("❯❯ a"), Graphemes::from("bcde"), Graphemes::from("fg")]
    );
    // The cursor stands at 7, which counts to row 7 / 4 = 1.
    assert_eq!(
        pane.extract(2),
        vec![Graphemes::from("bcde"), Graphemes::from("fg")]
    );
    editor.handle_event(&ctrl('a'));
    assert_eq!(
        editor.gen_pane((4, 10)).extract(2),
        vec![Graphemes::from("❯❯ a"), Graphemes::from("bcde")]
    );
}

#[test]
fn text_editor_gen_pane_without_columns() {
    let mut editor = TextEditor::new();
    for c in "abc".chars() {
        editor.handle_event(&key(KeyCode::Char(c)));
    }
    // Nothing that takes a column is laid out, and the first row is shown.
    let pane = editor.gen_pane((0, 10));
    assert!(pane.is_empty());
    assert_eq!(pane.extract(10), vec![Graphemes::from("")]);
    let mut editor = TextEditor::new().label(Graphemes::from(""));
    editor.handle_event(&key(KeyCode::Char('\u{301}')));
    assert_eq!(editor.gen_pane((0, 10)).extract(10), vec![Graphemes::from("\u{301}")]);
}

#[test]
fn text_editor_replace_puts_the_cursor_behind_the_text() {
    let mut editor = TextEditor::new().label(Graphemes::from("> "));
    editor.replace("hello");
    assert_eq!(editor.to_string(), "hello");
    assert_eq!(editor.textbuffer().position(), 5);
    assert_eq!(editor.prefix(), &Graphemes::from("> "));
}

#[test]
fn message_pane_of_an_empty_text_is_empty() {
    let state = State::default();
    assert!(state.create_pane(10, 5).is_empty());
    let state = State { text: String::from("hello world"), style: ContentStyle::new() };
    let pane = state.create_pane(6, 5);
    assert!(!pane.is_empty());
    let rows = pane.extract(5);
    assert_eq!(rows.len(), 2);
    assert_eq!(rows[0].graphemes(), Graphemes::from("hello "));
    assert_eq!(rows[1].graphemes(), Graphemes::from("world"));
    assert!(rows.iter().all(|r| r.0.iter().all(|g| g.style == ContentStyle::new())));
}
