use promkit::snapshot::Snapshot;
use promkit::style::{Color, ContentStyle};
use promkit::text::State;
use promkit::PaneFactory;

fn message(text: &str) -> State {
    State { text: String::from(text), style: ContentStyle::new() }
}

#[test]
fn snapshot_begins_with_three_equal_states() {
    let s = Snapshot::new(message("init"));
    assert_eq!(s.init().text, "init");
    assert_eq!(s.before().text, "init");
    assert_eq!(s.after().text, "init");
}

#[test]
fn snapshot_finalize_hands_out_after_and_resets_it() {
    let mut s = Snapshot::new(message("init"));
    s.after_mut().text = String::from("typed");
    s.after_mut().style.foreground_color = Some(Color::Red);
    let first = s.finalize();
    assert_eq!(first.text, "typed");
    assert_eq!(first.style.foreground_color, Some(Color::Red));
    assert_eq!(s.after().text, "init");
    assert_eq!(s.after().style.foreground_color, None);
    let second = s.finalize();
    assert_eq!(second.text, "init");
    assert_eq!(s.after().text, "init");
    assert_eq!(s.init().text, "init");
}

#[test]
fn snapshot_commit_and_revert() {
    let mut s = Snapshot::new(message("init"));
    s.set_after(message("one"));
    assert_eq!(s.before().text, "init");
    s.commit();
    assert_eq!(s.before().text, "one");
    s.after_mut().text = String::from("two");
    s.revert();
    assert_eq!(s.after().text, "one");
    assert_eq!(s.init().text, "init");
    s.reset_after_to_init();
    assert_eq!(s.after().text, "init");
    assert_eq!(s.before().text, "one");
}

#[test]
fn snapshot_draws_the_working_state() {
    let mut s = Snapshot::new(message(""));
    assert!(s.create_pane(10, 10).is_empty());
    s.after_mut().text = String::from("now");
    assert!(!s.create_pane(10, 10).is_empty());
}
