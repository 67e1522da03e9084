use promkit::event::{Event, KeyCode, KeyEvent, KeyEventKind, KeyEventState, KeyModifiers};
use promkit::history::History;
use promkit::keybind::KeyBind;
use promkit::style::{Attribute, Attributes, Color, ContentStyle, Style};
use promkit::suggest::Suggest;
use promkit::switch::ActiveKeySwitcher;
use promkit::validate::{Unchecked, Validate, Validator};

#[test]
fn history_keeps_the_empty_line_last() {
    let mut h = History::default();
    assert_eq!(h.get(), "");
    assert!(!h.backward());
    assert!(!h.forward());
    h.insert(String::from("one"));
    h.insert(String::from("two"));
    assert_eq!(h.get(), "");
    assert!(h.backward());
    assert_eq!(h.get(), "two");
    assert!(h.backward());
    assert_eq!(h.get(), "one");
    assert!(!h.backward());
    assert_eq!(h.get(), "one");
    assert!(h.forward());
    assert!(h.forward());
    assert_eq!(h.get(), "");
    assert!(!h.forward());
}

#[test]
fn history_takes_an_entry_only_once() {
    let mut h = History::default();
    h.insert(String::from("one"));
    h.backward();
    h.insert(String::from("one"));
    h.insert(String::new());
    assert_eq!(h.get(), "");
    assert!(h.holds(&String::from("one")));
    assert!(h.holds(&String::new()));
    assert!(!h.holds(&String::from("two")));
    assert!(h.backward());
    assert_eq!(h.get(), "one");
    assert!(!h.backward());
    let copy = h.clone();
    assert_eq!(copy.get(), "one");
}

fn sorted(found: Option<Vec<String>>) -> Option<Vec<String>> {
    found.map(|mut f| {
        f.sort();
        f
    })
}

#[test]
fn suggest_finds_candidates_by_prefix() {
    let mut s = Suggest::new();
    for item in ["apple", "applet", "apricot", "banana", "éclair", "éc"] {
        s.insert(item);
    }
    assert_eq!(
        sorted(s.prefix_search("ap")),
        Some(vec![String::from("apple"), String::from("applet"), String::from("apricot")])
    );
    assert_eq!(
        sorted(s.prefix_search("apple")),
        Some(vec![String::from("apple"), String::from("applet")])
    );
    assert_eq!(sorted(s.prefix_search("applet")), Some(vec![String::from("applet")]));
    assert_eq!(sorted(s.prefix_search("b")), Some(vec![String::from("banana")]));
    assert_eq!(
        sorted(s.prefix_search("é")),
        Some(vec![String::from("éc"), String::from("éclair")])
    );
    assert_eq!(s.prefix_search("applets"), None);
    assert_eq!(s.prefix_search("c"), None);
    assert_eq!(s.prefix_search("apz"), None);
    assert_eq!(sorted(s.prefix_search("")).map(|f| f.len()), Some(6));
}

#[test]
fn suggest_without_candidates_finds_nothing() {
    let s = Suggest::new();
    assert_eq!(s.prefix_search(""), None);
    assert_eq!(s.prefix_search("a"), None);
}

#[test]
fn suggest_from_items_holds_each_item_once() {
    let items = vec![String::from("b"), String::from("a"), String::from("b")];
    let s = Suggest::from_items(&items);
    assert_eq!(sorted(s.prefix_search("")), Some(vec![String::from("a"), String::from("b")]));
}

#[test]
fn switcher_has_one_active_keymap() {
    let mut s = ActiveKeySwitcher::new("default", 1u8).register("other", 2u8);
    assert_eq!(s.get(), 1);
    assert_eq!(s.active_key_name(), "default");
    s.switch("other");
    assert_eq!(s.get(), 2);
    assert_eq!(s.active_key_name(), "other");
    s.switch("missing");
    assert_eq!(s.get(), 2);
    assert_eq!(s.active_key_name(), "other");
    s.switch("default");
    assert_eq!(s.get(), 1);
}

#[test]
fn switcher_register_replaces_what_was_there() {
    let mut s = ActiveKeySwitcher::new("default", 1u8).register("other", 2u8).register("default", 3u8);
    assert_eq!(s.get(), 3);
    assert_eq!(s.active_key_name(), "default");
    s.switch("other");
    assert_eq!(s.get(), 2);
    let mut s = s.register("other", 4u8);
    assert_eq!(s.get(), 4);
    s.switch("default");
    assert_eq!(s.get(), 3);
}

#[test]
fn keybind_gives_the_latest_binding() {
    let up = KeyEvent::new(KeyCode::Up, KeyModifiers::none());
    let down = KeyEvent::new(KeyCode::Down, KeyModifiers::none());
    let mut k: KeyBind<u8> = KeyBind::new();
    assert_eq!(k.lookup(&up), None);
    k.assign(up, 1);
    k.assign(down, 2);
    assert_eq!(k.lookup(&up), Some(1));
    assert_eq!(k.lookup(&down), Some(2));
    k.assign(up, 3);
    assert_eq!(k.lookup(&up), Some(3));
    assert_eq!(k.lookup(&down), Some(2));
    assert_eq!(k.lookup(&KeyEvent::new(KeyCode::Up, KeyModifiers::shift())), None);
}

#[test]
fn style_builder_collects_what_it_is_given() {
    assert_eq!(Style::new().build(), ContentStyle::new());
    let style = Style::new()
        .fgc(Color::Red)
        .bgc(Color::Rgb { r: 1, g: 2, b: 3 })
        .ulc(Color::AnsiValue(7))
        .attrs(Attributes::from(Attribute::Bold).with(Attribute::Italic))
        .build();
    assert_eq!(style.foreground_color, Some(Color::Red));
    assert_eq!(style.background_color, Some(Color::Rgb { r: 1, g: 2, b: 3 }));
    assert_eq!(style.underline_color, Some(Color::AnsiValue(7)));
    assert!(style.attributes.has(Attribute::Bold));
    assert!(style.attributes.has(Attribute::Italic));
    assert!(!style.attributes.has(Attribute::Dim));
}

#[test]
fn attributes_hold_what_was_added() {
    let all = [
        Attribute::Bold,
        Attribute::Dim,
        Attribute::Italic,
        Attribute::Underlined,
        Attribute::SlowBlink,
        Attribute::RapidBlink,
        Attribute::Reverse,
        Attribute::Hidden,
        Attribute::CrossedOut,
    ];
    for a in all {
        assert!(!Attributes::none().has(a));
        let set = Attributes::from(a);
        for b in all {
            assert_eq!(set.has(b), a == b);
        }
        assert_eq!(set.with(a), set);
    }
}

#[test]
fn key_event_is_compares_every_part() {
    let plain = KeyEvent::new(KeyCode::Char('c'), KeyModifiers::none());
    assert!(plain.is(KeyCode::Char('c'), KeyModifiers::none()));
    assert!(!plain.is(KeyCode::Char('d'), KeyModifiers::none()));
    assert!(!plain.is(KeyCode::Char('c'), KeyModifiers::control()));
    let released = KeyEvent { kind: KeyEventKind::Release, ..plain };
    assert!(!released.is(KeyCode::Char('c'), KeyModifiers::none()));
    let keypad = KeyEvent {
        state: KeyEventState { keypad: true, caps_lock: false, num_lock: false },
        ..plain
    };
    assert!(!keypad.is(KeyCode::Char('c'), KeyModifiers::none()));
    assert_eq!(KeyModifiers::shift().shift, true);
    assert_eq!(KeyModifiers::control().control, true);
    assert_eq!(KeyModifiers::control().shift, false);
}

#[test]
fn interrupt_is_control_c() {
    assert!(Event::Key(KeyEvent::new(KeyCode::Char('c'), KeyModifiers::control())).interrupts());
    assert!(!Event::Key(KeyEvent::new(KeyCode::Char('c'), KeyModifiers::none())).interrupts());
    assert!(!Event::Key(KeyEvent::new(KeyCode::Char('d'), KeyModifiers::control())).interrupts());
    assert!(!Event::Resize(1, 1).interrupts());
    assert!(!Event::Paste(String::from("c")).interrupts());
}

#[test]
fn validator_asks_its_functions() {
    let v = Validator::new(|s: &str| s.len() > 2, |s: &str| format!("{} is too short", s));
    assert!(v.validate("abc"));
    assert!(!v.validate("ab"));
    assert_eq!(v.error_message("ab"), "ab is too short");
}

#[test]
fn unchecked_lets_every_input_pass() {
    assert!(Unchecked.validate(""));
    assert!(Unchecked.validate("anything"));
    assert_eq!(Unchecked.error_message("anything"), "");
}
