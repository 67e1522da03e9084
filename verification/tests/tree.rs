use promkit::error::Error;
use promkit::event::{Event, KeyCode, KeyEvent, KeyModifiers};
use promkit::preset::theme::tree::Theme;
use promkit::preset::tree::render::Renderer;
use promkit::preset::tree::Tree as TreePrompt;
use promkit::prompt::{Outcome, Phase, Prompt};
use promkit::style::{Color, ContentStyle, Style};
use promkit::tree::{Node, Tree};
use promkit::Finalizer;

fn key(code: KeyCode) -> Event {
    Event::Key(KeyEvent::new(code, KeyModifiers::none()))
}

fn node(path: &[usize], id: &str, folded: bool) -> Node {
    Node { path: path.to_vec(), id: String::from(id), folded }
}

/// root
///   a (folded)
///     a1
///     a2
///   b
///     b1
///       b1x
///   c
fn nodes() -> Vec<Node> {
    vec![
        node(&[], "root", false),
        node(&[0], "a", true),
        node(&[0, 0], "a1", false),
        node(&[0, 1], "a2", false),
        node(&[1], "b", false),
        node(&[1, 0], "b1", false),
        node(&[1, 0, 0], "b1x", false),
        node(&[2], "c", true),
    ]
}

fn prompt() -> Prompt<Renderer> {
    match TreePrompt::new(nodes()).title("Pick").prompt() {
        Ok(p) => p,
        Err(_) => panic!(),
    }
}

fn rows(p: &Prompt<Renderer>, width: u16, height: u16) -> Vec<String> {
    p.draw(width, height)[1].extract(usize::MAX).iter().map(|r| r.to_string()).collect()
}

#[test]
fn tree_wants_a_node_that_shows() {
    assert!(matches!(Tree::new(vec![]), Err(Error::NoItems)));
    assert_eq!(Tree::new(nodes()).ok().unwrap().position(), 0);
}

#[test]
fn tree_cursor_skips_what_is_hidden() {
    let mut t = Tree::new(nodes()).ok().unwrap();
    let mut seen = vec![t.position()];
    while t.forward() {
        seen.push(t.position());
    }
    // a1 and a2 lie below the folded a.
    assert_eq!(seen, vec![0, 1, 4, 5, 6, 7]);
    assert!(!t.forward());
    assert_eq!(t.position(), 7);
    let mut back = vec![];
    while t.backward() {
        back.push(t.position());
    }
    assert_eq!(back, vec![6, 5, 4, 1, 0]);
    assert!(!t.backward());
}

#[test]
fn tree_toggle_turns_the_node_under_the_cursor() {
    let mut t = Tree::new(nodes()).ok().unwrap();
    t.forward();
    t.toggle();
    let folded: Vec<bool> = t.nodes().iter().map(|n| n.folded).collect();
    assert_eq!(folded, vec![false, false, false, false, false, false, false, true]);
    assert_eq!(t.position(), 1);
    assert!(t.forward());
    assert_eq!(t.position(), 2);
    t.backward();
    t.toggle();
    assert_eq!(t.nodes(), &nodes());
    assert!(t.forward());
    assert_eq!(t.position(), 4);
}

#[test]
fn tree_folding_the_root_hides_everything_below() {
    let mut t = Tree::new(nodes()).ok().unwrap();
    t.toggle();
    assert!(!t.forward());
    assert_eq!(t.position(), 0);
    assert_eq!(t.get(), vec![String::from("root")]);
}

#[test]
fn tree_get_gives_the_way_from_the_root() {
    let mut t = Tree::new(nodes()).ok().unwrap();
    assert_eq!(t.get(), vec![String::from("root")]);
    for _ in 0..4 {
        t.forward();
    }
    assert_eq!(t.position(), 6);
    assert_eq!(
        t.get(),
        vec![String::from("root"), String::from("b"), String::from("b1"), String::from("b1x")]
    );
    let copy = t.clone();
    assert_eq!(copy.position(), 6);
    assert_eq!(copy.nodes(), t.nodes());
}

#[test]
fn tree_begins_on_the_first_node_that_shows() {
    // Without a root, the nodes below the folded first one are hidden.
    let t = Tree::new(vec![node(&[0], "a", true), node(&[0, 0], "a1", false)]).ok().unwrap();
    assert_eq!(t.position(), 0);
    let hidden = vec![node(&[0, 0], "a1", false), node(&[0], "a", true)];
    assert_eq!(Tree::new(hidden).ok().unwrap().position(), 1);
}

#[test]
fn tree_theme_defaults() {
    let theme = Theme::default();
    assert!(theme.title_style.attributes.bold);
    assert_eq!(theme.item_style, ContentStyle::new());
    assert_eq!(theme.folded_symbol, "\u{25b6}\u{fe0e} ");
    assert_eq!(theme.unfolded_symbol, "\u{25bc} ");
    assert_eq!(theme.cursor_style, Style::new().fgc(Color::DarkCyan).build());
}

#[test]
fn tree_prompt_draws_what_shows() {
    let mut p = prompt();
    assert_eq!(p.phase(), Phase::Idle);
    assert_eq!(
        rows(&p, 20, 10),
        vec!["▼ root", " ▶\u{fe0e} a", " ▼ b", "  ▼ b1", "   ▼ b1x", " ▶\u{fe0e} c"]
    );
    let panes = p.draw(20, 10);
    assert_eq!(panes[0].extract(10)[0].to_string(), "Pick");
    let tree = panes[1].extract(10);
    assert_eq!(tree[0].0[0].style.foreground_color, Some(Color::DarkCyan));
    assert_eq!(tree[1].0[0].style.foreground_color, None);
    // The rows begin with the node under the cursor.
    p.handle(&key(KeyCode::Down), 20, 10);
    p.handle(&key(KeyCode::Char(' ')), 20, 10);
    assert_eq!(
        rows(&p, 20, 3),
        vec![" ▼ a", "  ▼ a1", "  ▼ a2"]
    );
    assert_eq!(rows(&p, 4, 1), vec![" ▼ a"]);
    assert_eq!(rows(&p, 3, 1), vec![" ▼ "]);
}

#[test]
fn tree_prompt_ends_with_the_way_to_the_node() {
    let mut p = prompt();
    for _ in 0..3 {
        assert!(matches!(p.handle(&key(KeyCode::Down), 20, 10), Outcome::Draw(_)));
    }
    assert!(matches!(p.handle(&key(KeyCode::Char('x')), 20, 10), Outcome::Draw(_)));
    assert!(matches!(p.handle(&key(KeyCode::Up), 20, 10), Outcome::Draw(_)));
    match p.handle(&key(KeyCode::Enter), 20, 10) {
        Outcome::Finished(ids) => assert_eq!(ids, vec![String::from("root"), String::from("b")]),
        _ => panic!(),
    }
    assert_eq!(p.phase(), Phase::Terminated);
}

#[test]
fn tree_prompt_wants_a_node() {
    assert!(matches!(TreePrompt::new(vec![]).prompt(), Err(Error::NoItems)));
}

#[test]
fn tree_prompt_takes_a_theme_and_lines() {
    let theme = Theme {
        title_style: ContentStyle::new(),
        item_style: Style::new().fgc(Color::Grey).build(),
        folded_symbol: String::from("+"),
        unfolded_symbol: String::from("-"),
        cursor_style: Style::new().fgc(Color::Red).build(),
    };
    let p = match TreePrompt::new(nodes()).theme(theme).tree_lines(2).prompt() {
        Ok(p) => p,
        Err(_) => panic!(),
    };
    assert_eq!(rows(&p, 20, 10), vec!["-root", " +a"]);
    let tree = p.draw(20, 10).pop().unwrap().extract(10);
    assert_eq!(tree[0].0[0].style.foreground_color, Some(Color::Red));
    assert_eq!(tree[1].0[0].style.foreground_color, Some(Color::Grey));
}

#[test]
fn tree_prompt_finalize_puts_the_tree_back() {
    let mut r = prompt().into_renderer();
    r.tree_snapshot.after_mut().tree.forward();
    r.tree_snapshot.after_mut().tree.toggle();
    r.tree_snapshot.after_mut().tree.forward();
    assert_eq!(r.finalize(), vec![String::from("root"), String::from("a"), String::from("a1")]);
    assert_eq!(r.tree_snapshot.after().tree.position(), 0);
    assert_eq!(r.tree_snapshot.after().tree.nodes(), &nodes());
    assert_eq!(r.finalize(), vec![String::from("root")]);
    assert_eq!(r.tree_snapshot.init().tree.nodes(), &nodes());
}
