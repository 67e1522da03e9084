use promkit::checkbox::state::State;
use promkit::checkbox::Checkbox;
use promkit::error::Error;
use promkit::listbox;
use promkit::selector::Selector;
use promkit::style::{Color, ContentStyle, Style};
use promkit::PaneFactory;

fn items(n: usize) -> Vec<String> {
    (0..n).map(|i| format!("{}", i)).collect()
}

fn state(n: usize, lines: Option<usize>) -> State {
    State {
        checkbox: Checkbox::new(items(n)).ok().unwrap(),
        cursor: String::from("❯ "),
        active_mark: '☒',
        inactive_mark: '☐',
        active_item_style: Style::new().fgc(Color::DarkCyan).build(),
        inactive_item_style: ContentStyle::new(),
        lines,
    }
}

fn texts(state: &State, width: u16, height: u16) -> Vec<String> {
    state.create_pane(width, height).extract(usize::MAX).iter().map(|r| r.to_string()).collect()
}

#[test]
fn checkbox_wants_an_item() {
    assert!(matches!(Checkbox::new(vec![]), Err(Error::NoItems)));
}

#[test]
fn checkbox_toggle_keeps_the_position() {
    let mut c = Checkbox::new(items(3)).ok().unwrap();
    assert!(c.picked_indexes().is_empty());
    c.next();
    c.toggle();
    assert_eq!(c.position(), 1);
    assert!(c.picked_indexes().contains(&1));
    assert_eq!(c.picked_indexes().len(), 1);
    c.toggle();
    assert!(c.picked_indexes().is_empty());
    assert_eq!(c.position(), 1);
}

#[test]
fn checkbox_toggles_stay_while_moving() {
    let mut c = Checkbox::new(items(4)).ok().unwrap();
    c.toggle();
    c.next();
    c.next();
    c.toggle();
    c.to_tail();
    c.to_head();
    assert!(!c.prev());
    c.next();
    let mut picked: Vec<usize> = c.picked_indexes().iter().copied().collect();
    picked.sort();
    assert_eq!(picked, vec![0, 2]);
    let copy = c.clone();
    let mut picked: Vec<usize> = copy.picked_indexes().iter().copied().collect();
    picked.sort();
    assert_eq!(picked, vec![0, 2]);
    assert_eq!(copy.position(), 1);
    assert_eq!(copy.items(), &items(4));
}

#[test]
fn checkbox_get_gives_the_picked_items_in_order() {
    let mut c = Checkbox::new(items(5)).ok().unwrap();
    assert_eq!(c.get(), Vec::<String>::new());
    c.to_tail();
    c.toggle();
    c.to_head();
    c.next();
    c.toggle();
    assert_eq!(c.get(), vec![String::from("1"), String::from("4")]);
    c.toggle();
    assert_eq!(c.get(), vec![String::from("4")]);
}

#[test]
fn checkbox_pane_marks_and_leads_the_rows() {
    let mut s = state(4, None);
    s.checkbox.next();
    s.checkbox.toggle();
    s.checkbox.next();
    s.checkbox.next();
    s.checkbox.toggle();
    s.checkbox.to_head();
    s.checkbox.next();
    assert_eq!(texts(&s, 20, 10), vec!["❯ ☒ 1", "  ☐ 2", "  ☒ 3"]);
    let rows = s.create_pane(20, 10).extract(10);
    assert_eq!(rows[0].0[0].style.foreground_color, Some(Color::DarkCyan));
    assert_eq!(rows[1].0[0].style, ContentStyle::new());
}

#[test]
fn checkbox_pane_shows_no_more_rows_than_allowed() {
    let s = state(10, Some(5));
    assert_eq!(texts(&s, 20, 3).len(), 3);
    assert_eq!(texts(&s, 20, 8).len(), 5);
    assert_eq!(texts(&s, 20, 0).len(), 0);
    let s = state(10, None);
    assert_eq!(texts(&s, 20, 8).len(), 8);
    assert_eq!(texts(&s, 20, 80).len(), 10);
    let s = state(2, Some(0));
    assert_eq!(texts(&s, 20, 8).len(), 0);
}

#[test]
fn checkbox_pane_cuts_rows_off_at_the_width() {
    let s = state(2, None);
    assert_eq!(texts(&s, 3, 10), vec!["❯ ☐", "  ☐"]);
    assert_eq!(texts(&s, 1, 10), vec!["❯", " "]);
}

#[test]
fn listbox_pane_leads_the_rows() {
    let mut list = Selector::new(items(5)).ok().unwrap();
    list.next();
    list.next();
    let s = listbox::State {
        listbox: Some(list),
        cursor: String::from("> "),
        active_item_style: Style::new().fgc(Color::Red).build(),
        inactive_item_style: ContentStyle::new(),
        lines: Some(2),
    };
    let rows = s.create_pane(10, 10).extract(10);
    let texts: Vec<String> = rows.iter().map(|r| r.to_string()).collect();
    assert_eq!(texts, vec!["> 2", "  3"]);
    assert_eq!(rows[0].0[0].style.foreground_color, Some(Color::Red));
    assert_eq!(rows[1].0[0].style.foreground_color, None);
}

#[test]
fn listbox_pane_without_a_list_has_no_rows() {
    let s = listbox::State {
        listbox: None,
        cursor: String::from("> "),
        active_item_style: ContentStyle::new(),
        inactive_item_style: ContentStyle::new(),
        lines: None,
    };
    let pane = s.create_pane(10, 10);
    assert!(!pane.is_empty());
    assert_eq!(pane.extract(10).len(), 0);
}
