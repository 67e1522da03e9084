use promkit::error::Error;
use promkit::event::{Event, KeyCode, KeyEvent, KeyModifiers};
use promkit::grapheme::Graphemes;
use promkit::keybind::KeyBind;
use promkit::prompt::Outcome;
use promkit::select::action::{move_down, move_head, move_tail, move_up};
use promkit::select::builder::Builder;
use promkit::select::{Action, Dispatcher};
use promkit::selector::Selector;
use promkit::style::Color;
use promkit::PromptSignal;

fn items(n: usize) -> Vec<String> {
    (0..n).map(|i| format!("choice {}", i)).collect()
}

fn key(code: KeyCode) -> Event {
    Event::Key(KeyEvent::new(code, KeyModifiers::none()))
}

fn dispatcher(n: usize) -> Dispatcher {
    match Builder::new(items(n)).dispatcher() {
        Ok(d) => d,
        Err(e) => panic!("{}", e.to_string()),
    }
}

#[test]
fn selector_wants_an_item() {
    assert!(matches!(Selector::new(vec![]), Err(Error::NoItems)));
    assert_eq!(Error::NoItems.to_string(), "no items to choose from");
    let s = Selector::new(items(2)).ok().unwrap();
    assert_eq!(s.position(), 0);
    assert_eq!(s.items(), &items(2));
    assert_eq!(s.get(), "choice 0");
}

#[test]
fn selector_prev_at_head_stays() {
    let mut s = Selector::new(items(3)).ok().unwrap();
    assert!(!s.prev());
    assert_eq!(s.position(), 0);
    assert!(s.next());
    assert!(s.prev());
    assert_eq!(s.position(), 0);
}

#[test]
fn selector_next_at_tail_stays() {
    let mut s = Selector::new(items(3)).ok().unwrap();
    assert!(s.next());
    assert!(s.next());
    assert!(!s.next());
    assert_eq!(s.position(), 2);
    assert_eq!(s.get(), "choice 2");
    s.to_head();
    assert_eq!(s.position(), 0);
    s.to_tail();
    assert_eq!(s.position(), 2);
}

#[test]
fn selector_of_one_item_never_moves() {
    let mut s = Selector::new(items(1)).ok().unwrap();
    assert!(!s.prev());
    assert!(!s.next());
    assert_eq!(s.position(), 0);
}

#[test]
fn wrapping_prev_visits_every_position_once() {
    for n in 1..7usize {
        for start in 0..n {
            let mut s = Selector::new(items(n)).ok().unwrap();
            for _ in 0..start {
                s.next();
            }
            let mut seen = vec![];
            for _ in 0..n {
                seen.push(s.position());
                if !s.prev() {
                    s.to_tail();
                }
            }
            assert_eq!(s.position(), start);
            let mut sorted = seen.clone();
            sorted.sort();
            assert_eq!(sorted, (0..n).collect::<Vec<_>>());
        }
    }
}

#[test]
fn selector_prev_then_next_three_times() {
    let mut s = Selector::new(items(5)).ok().unwrap();
    let mut to_tail = 0;
    let mut to_head = 0;
    if !s.prev() {
        s.to_tail();
        to_tail += 1;
    }
    assert_eq!(s.position(), 4);
    for _ in 0..3 {
        if !s.next() {
            s.to_head();
            to_head += 1;
        }
    }
    assert_eq!(s.position(), 2);
    assert_eq!((to_tail, to_head), (1, 1));
}

#[test]
fn select_actions_prev_then_next_three_times() {
    let mut d = dispatcher(5);
    let size = (80, 24);
    move_up(&mut d.state, size);
    assert_eq!(d.state.editor.position(), 4);
    assert_eq!(d.state.screen_position, 4);
    move_down(&mut d.state, size);
    assert_eq!((d.state.editor.position(), d.state.screen_position), (0, 0));
    move_down(&mut d.state, size);
    move_down(&mut d.state, size);
    assert_eq!((d.state.editor.position(), d.state.screen_position), (2, 2));
}

#[test]
fn select_window_follows_the_cursor() {
    let mut d = match Builder::new(items(10)).window(3).dispatcher() {
        Ok(d) => d,
        Err(_) => panic!(),
    };
    let size = (80, 24);
    assert_eq!(d.state.selector_lines(size), 3);
    for expected in [(1, 1), (2, 2), (3, 2), (4, 2)] {
        move_down(&mut d.state, size);
        assert_eq!((d.state.editor.position(), d.state.screen_position), expected);
    }
    for expected in [(3, 1), (2, 0), (1, 0), (0, 0), (9, 2)] {
        move_up(&mut d.state, size);
        assert_eq!((d.state.editor.position(), d.state.screen_position), expected);
    }
    move_head(&mut d.state);
    assert_eq!((d.state.editor.position(), d.state.screen_position), (0, 0));
    move_tail(&mut d.state, size);
    assert_eq!((d.state.editor.position(), d.state.screen_position), (9, 2));
}

#[test]
fn select_lines_are_what_is_left_below_the_title() {
    let d = match Builder::new(items(10)).title("pick one of these").init_move_down_lines(2).dispatcher() {
        Ok(d) => d,
        Err(_) => panic!(),
    };
    assert_eq!(d.state.title_lines(80), 1);
    assert_eq!(d.state.title_lines(10), 2);
    // 8 rows, 1 for the title, 2 moved down: 5 are left.
    assert_eq!(d.state.selector_lines((80, 8)), 5);
    assert_eq!(d.state.last_line((80, 8)), 4);
    // Nothing is left where the title and the moved lines take it all.
    assert_eq!(d.state.selector_lines((80, 3)), 0);
    assert_eq!(d.state.selector_lines((80, 2)), 0);
    assert_eq!(d.state.last_line((80, 2)), 0);
    // No more rows than items.
    assert_eq!(d.state.selector_lines((80, 100)), 10);
}

#[test]
fn select_builder_wants_an_item() {
    assert!(matches!(Builder::new(vec![]).dispatcher(), Err(Error::NoItems)));
}

#[test]
fn select_builder_sets_what_it_is_told() {
    let d = match Builder::new(items(2))
        .title("title")
        .title_color(Color::Red)
        .label("> ")
        .label_color(Color::Green)
        .init_move_down_lines(1)
        .window(4)
        .suffix_after_trim("..")
        .dispatcher()
    {
        Ok(d) => d,
        Err(_) => panic!(),
    };
    let title = d.state.title.as_ref().unwrap();
    assert_eq!(title.text, "title");
    assert_eq!(title.style.foreground_color, Some(Color::Red));
    assert_eq!(d.state.label, Graphemes::from("> "));
    assert_eq!(d.state.label_color, Color::Green);
    assert_eq!(d.state.init_move_down_lines, 1);
    assert_eq!(d.state.window, Some(4));
    assert_eq!(d.state.suffix_after_trim, Graphemes::from(".."));
    assert_eq!(d.state.screen_position, 0);
    assert_eq!(d.state.editor.position(), 0);
}

#[test]
fn select_builder_defaults() {
    let d = dispatcher(2);
    assert!(d.state.title.is_none());
    assert_eq!(d.state.label, Graphemes::from("❯ "));
    assert_eq!(d.state.label_color, Color::Reset);
    assert_eq!(d.state.init_move_down_lines, 0);
    assert_eq!(d.state.window, None);
    assert_eq!(d.state.suffix_after_trim, Graphemes::from("…"));
    // Without a title there is no colour to set.
    let d = match Builder::new(items(2)).title_color(Color::Red).dispatcher() {
        Ok(d) => d,
        Err(_) => panic!(),
    };
    assert!(d.state.title.is_none());
}

#[test]
fn select_dispatcher_takes_the_bound_action() {
    let mut d = dispatcher(4);
    let size = (80, 24);
    assert_eq!(d.handle(&key(KeyCode::Down), size), PromptSignal::Continue);
    assert_eq!(d.handle(&key(KeyCode::Down), size), PromptSignal::Continue);
    assert_eq!(d.state.editor.position(), 2);
    assert_eq!(d.handle(&key(KeyCode::Up), size), PromptSignal::Continue);
    assert_eq!(d.state.editor.position(), 1);
    assert_eq!(d.handle(&key(KeyCode::Char('x')), size), PromptSignal::Continue);
    assert_eq!(d.handle(&Event::Resize(3, 3), size), PromptSignal::Continue);
    assert_eq!(d.state.editor.position(), 1);
    let ctrl_e = Event::Key(KeyEvent::new(KeyCode::Char('e'), KeyModifiers::control()));
    assert_eq!(d.handle(&ctrl_e, size), PromptSignal::Continue);
    assert_eq!(d.state.editor.position(), 3);
    let ctrl_a = Event::Key(KeyEvent::new(KeyCode::Char('a'), KeyModifiers::control()));
    assert_eq!(d.handle(&ctrl_a, size), PromptSignal::Continue);
    assert_eq!(d.state.editor.position(), 0);
    assert_eq!(d.handle(&key(KeyCode::Down), size), PromptSignal::Continue);
    assert_eq!(d.handle(&key(KeyCode::Enter), size), PromptSignal::Quit);
    assert_eq!(d.finalize(), "choice 1");
}

#[test]
fn select_step_says_what_is_to_be_done() {
    let mut d = dispatcher(3);
    let size = (80, 24);
    match d.step(&key(KeyCode::Down), size) {
        Outcome::Draw(panes) => assert_eq!(panes.len(), 1),
        _ => panic!(),
    }
    let interrupt = Event::Key(KeyEvent::new(KeyCode::Char('c'), KeyModifiers::control()));
    assert!(matches!(d.step(&interrupt, size), Outcome::Interrupted));
    assert_eq!(d.state.editor.position(), 1);
    match d.step(&key(KeyCode::Enter), size) {
        Outcome::Finished(item) => assert_eq!(item, "choice 1"),
        _ => panic!(),
    }
}

#[test]
fn select_keybind_can_be_replaced() {
    let mut keybind: KeyBind<Action> = KeyBind::new();
    keybind.assign(KeyEvent::new(KeyCode::Char('j'), KeyModifiers::none()), Action::MoveDown);
    keybind.assign(KeyEvent::new(KeyCode::Char('q'), KeyModifiers::none()), Action::MoveUp);
    keybind.assign(KeyEvent::new(KeyCode::Char('q'), KeyModifiers::none()), Action::Finish);
    let mut d = match Builder::new(items(3)).keybind(keybind).dispatcher() {
        Ok(d) => d,
        Err(_) => panic!(),
    };
    let size = (80, 24);
    assert_eq!(d.handle(&key(KeyCode::Down), size), PromptSignal::Continue);
    assert_eq!(d.state.editor.position(), 0);
    assert_eq!(d.handle(&key(KeyCode::Char('j')), size), PromptSignal::Continue);
    assert_eq!(d.state.editor.position(), 1);
    // The later binding of a key is the one that counts.
    assert_eq!(d.handle(&key(KeyCode::Char('q')), size), PromptSignal::Quit);
}

#[test]
fn select_panes_show_the_window() {
    let mut d = match Builder::new(items(6)).title("pick").window(3).dispatcher() {
        Ok(d) => d,
        Err(_) => panic!(),
    };
    let size = (10, 10);
    for _ in 0..4 {
        move_down(&mut d.state, size);
    }
    let panes = d.create_panes(size);
    assert_eq!(panes.len(), 2);
    let title = panes[0].extract(10);
    assert_eq!(title.len(), 1);
    assert_eq!(title[0].graphemes(), Graphemes::from("pick"));
    let rows = panes[1].extract(10);
    let texts: Vec<String> = rows.iter().map(|r| r.to_string()).collect();
    assert_eq!(texts, vec!["  choice 2", "  choice 3", "❯ choice 4"]);
    assert_eq!(rows[2].0[0].style.foreground_color, Some(Color::Reset));
    assert_eq!(rows[0].0[0].style.foreground_color, None);
    // Rows that do not fit are cut off and end with the suffix.
    let rows = d.create_panes((6, 10)).pop().unwrap().extract(10);
    let texts: Vec<String> = rows.iter().map(|r| r.to_string()).collect();
    assert_eq!(texts, vec!["  cho…", "  cho…", "❯ cho…"]);
}
