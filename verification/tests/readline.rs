use promkit::event::{Event, KeyCode, KeyEvent, KeyModifiers};
use promkit::grapheme::Graphemes;
use promkit::preset::readline::keymap::Keymap;
use promkit::preset::readline::render::Renderer;
use promkit::preset::readline::Readline;
use promkit::prompt::{Outcome, Phase, Prompt};
use promkit::style::{Color, ContentStyle, Style};
use promkit::suggest::Suggest;
use promkit::text_editor::Mode;
use promkit::validate::Validate;
use promkit::{Finalizer, PromptSignal};
use promkit::Renderer as _;

fn key(code: KeyCode) -> Event {
    Event::Key(KeyEvent::new(code, KeyModifiers::none()))
}

fn typed<C: Validate>(prompt: &mut Prompt<Renderer<C>>, text: &str) {
    for c in text.chars() {
        assert!(matches!(prompt.handle(&key(KeyCode::Char(c)), 80, 24), Outcome::Draw(_)));
    }
}

fn text<C: Validate>(prompt: &Prompt<Renderer<C>>) -> String {
    prompt.renderer().text_editor_snapshot.after().text()
}

fn error<C: Validate>(prompt: &Prompt<Renderer<C>>) -> String {
    prompt.renderer().error_message_snapshot.after().text.clone()
}

fn fruits() -> Suggest {
    let mut s = Suggest::new();
    for item in ["apple", "apricot", "banana"] {
        s.insert(item);
    }
    s
}

#[test]
fn readline_defaults() {
    let p = Readline::default().prompt();
    let r = p.renderer();
    assert_eq!(p.phase(), Phase::Idle);
    assert_eq!(r.keymap.get(), Keymap::Default);
    assert_eq!(r.keymap.active_key_name(), "default");
    assert_eq!(r.title_snapshot.after().text, "");
    assert!(r.title_snapshot.after().style.attributes.bold);
    let editor = r.text_editor_snapshot.after();
    assert_eq!(editor.texteditor.prefix(), &Graphemes::from("❯❯ "));
    assert_eq!(editor.text(), "");
    assert!(editor.history.is_none());
    assert_eq!(editor.mask, None);
    assert_eq!(editor.prefix_style, Style::new().fgc(Color::DarkGreen).build());
    assert_eq!(editor.active_char_style, Style::new().bgc(Color::DarkCyan).build());
    assert_eq!(editor.inactive_char_style, ContentStyle::new());
    assert_eq!(editor.edit_mode, Mode::Insert);
    assert_eq!(editor.lines, None);
    assert!(r.suggest.is_none());
    assert!(r.suggest_snapshot.after().listbox.is_none());
    assert!(r.validator.is_none());
    assert_eq!(r.error_message_snapshot.after().text, "");
    assert_eq!(r.error_message_snapshot.after().style.foreground_color, Some(Color::DarkRed));
    assert!(r.error_message_snapshot.after().style.attributes.bold);
}

#[test]
fn readline_builder_sets_what_it_is_told() {
    let red = Style::new().fgc(Color::Red).build();
    let green = Style::new().fgc(Color::Green).build();
    let blue = Style::new().fgc(Color::Blue).build();
    let grey = Style::new().fgc(Color::Grey).build();
    let p = Readline::default()
        .title("What?")
        .title_style(red)
        .enable_suggest(fruits())
        .enable_history()
        .prefix_string("> ")
        .mask('*')
        .prefix_string_style(green)
        .active_char_style(blue)
        .inactive_char_style(grey)
        .edit_mode(Mode::Overwrite)
        .text_editor_lines(3)
        .validator(|s: &str| s.len() > 1, |s: &str| format!("{} is too short", s))
        .prompt();
    let r = p.renderer();
    assert_eq!(r.title_snapshot.after().text, "What?");
    assert_eq!(r.title_snapshot.after().style, red);
    assert_eq!(r.title_snapshot.init().text, "What?");
    let editor = r.text_editor_snapshot.after();
    assert_eq!(editor.texteditor.prefix(), &Graphemes::from("> "));
    assert!(editor.history.is_some());
    assert_eq!(editor.mask, Some('*'));
    assert_eq!(editor.prefix_style, green);
    assert_eq!(editor.active_char_style, blue);
    assert_eq!(editor.inactive_char_style, grey);
    assert_eq!(editor.edit_mode, Mode::Overwrite);
    assert_eq!(editor.lines, Some(3));
    assert!(r.suggest.is_some());
    assert!(r.validator.is_some());
}

#[test]
fn readline_enter_without_a_check_ends_the_session() {
    let mut p = Readline::default().prompt();
    typed(&mut p, "hello");
    match p.handle(&key(KeyCode::Enter), 80, 24) {
        Outcome::Finished(text) => assert_eq!(text, "hello"),
        _ => panic!(),
    }
    assert_eq!(p.phase(), Phase::Terminated);
    // The editor is back to what it was when the session began.
    assert_eq!(text(&p), "");
    assert!(matches!(p.handle(&key(KeyCode::Char('x')), 80, 24), Outcome::Over));
    assert_eq!(text(&p), "");
    assert_eq!(p.phase(), Phase::Terminated);
}

#[test]
fn readline_check_holds_the_session_until_the_input_passes() {
    let mut p = Readline::default()
        .validator(|s: &str| s.len() > 3, |s: &str| format!("'{}' is too short", s))
        .prompt();
    typed(&mut p, "abc");
    assert!(matches!(p.handle(&key(KeyCode::Enter), 80, 24), Outcome::Draw(_)));
    assert_eq!(p.phase(), Phase::Idle);
    assert_eq!(error(&p), "'abc' is too short");
    assert_eq!(text(&p), "abc");
    // The next event that is not a failing Enter clears the message.
    typed(&mut p, "d");
    assert_eq!(error(&p), "");
    match p.handle(&key(KeyCode::Enter), 80, 24) {
        Outcome::Finished(text) => assert_eq!(text, "abcd"),
        _ => panic!(),
    }
    assert_eq!(error(&p), "");
}

#[test]
fn readline_settle_acts_on_the_verdict() {
    let mut p = Readline::default().enable_history().prompt();
    typed(&mut p, "abc");
    let mut renderer = p.into_renderer();
    assert_eq!(renderer.settle(Some(String::from("no"))), PromptSignal::Continue);
    assert_eq!(renderer.error_message_snapshot.after().text, "no");
    assert_eq!(renderer.text_editor_snapshot.after().text(), "abc");
    assert_eq!(renderer.settle(None), PromptSignal::Quit);
    assert_eq!(renderer.error_message_snapshot.after().text, "");
    let history = renderer.text_editor_snapshot.after().history.as_ref().unwrap();
    assert!(history.holds(&String::from("abc")));
    assert_eq!(renderer.finalize(), "abc");
    assert_eq!(renderer.text_editor_snapshot.after().text(), "");
    assert_eq!(renderer.finalize(), "");
}

#[test]
fn readline_interrupt_ends_the_session_without_a_result() {
    let mut p = Readline::default()
        .validator(|_: &str| false, |_: &str| String::from("never"))
        .prompt();
    typed(&mut p, "abc");
    let interrupt = Event::Key(KeyEvent::new(KeyCode::Char('c'), KeyModifiers::control()));
    assert!(matches!(p.handle(&interrupt, 80, 24), Outcome::Interrupted));
    assert_eq!(p.phase(), Phase::Terminated);
    // No handler ran: the text is as it was and no message is shown.
    assert_eq!(text(&p), "abc");
    assert_eq!(error(&p), "");
    assert!(matches!(p.handle(&key(KeyCode::Enter), 80, 24), Outcome::Over));
}

#[test]
fn readline_tab_offers_suggestions() {
    let mut p = Readline::default().enable_suggest(fruits()).prompt();
    typed(&mut p, "ap");
    assert!(matches!(p.handle(&key(KeyCode::Tab), 80, 24), Outcome::Draw(_)));
    let r = p.renderer();
    assert_eq!(r.keymap.get(), Keymap::OnSuggest);
    let list = r.suggest_snapshot.after().listbox.as_ref().unwrap();
    let mut items = list.items().clone();
    items.sort();
    assert_eq!(items, vec![String::from("apple"), String::from("apricot")]);
    assert_eq!(list.position(), 0);
    let first = list.get().clone();
    assert_eq!(text(&p), first);
    // Tab and the arrows go through the list; the chosen one is the text.
    p.handle(&key(KeyCode::Tab), 80, 24);
    let list = p.renderer().suggest_snapshot.after().listbox.as_ref().unwrap();
    assert_eq!(list.position(), 1);
    assert_eq!(text(&p), list.get().clone());
    assert_ne!(text(&p), first);
    p.handle(&key(KeyCode::Down), 80, 24);
    assert_eq!(p.renderer().suggest_snapshot.after().listbox.as_ref().unwrap().position(), 1);
    p.handle(&key(KeyCode::Up), 80, 24);
    assert_eq!(text(&p), first);
    assert_eq!(p.renderer().keymap.get(), Keymap::OnSuggest);
    // Any other key puts the list away and is then taken as usual.
    p.handle(&key(KeyCode::Char('s')), 80, 24);
    assert_eq!(p.renderer().keymap.get(), Keymap::Default);
    assert!(p.renderer().suggest_snapshot.after().listbox.is_none());
    assert_eq!(text(&p), format!("{}s", first));
}

#[test]
fn readline_enter_on_a_suggestion_ends_the_session() {
    let mut p = Readline::default().enable_suggest(fruits()).prompt();
    typed(&mut p, "b");
    p.handle(&key(KeyCode::Tab), 80, 24);
    match p.handle(&key(KeyCode::Enter), 80, 24) {
        Outcome::Finished(text) => assert_eq!(text, "banana"),
        _ => panic!(),
    }
    assert_eq!(p.renderer().keymap.get(), Keymap::Default);
}

#[test]
fn readline_tab_without_a_match_changes_nothing() {
    let mut p = Readline::default().enable_suggest(fruits()).prompt();
    typed(&mut p, "x");
    assert!(matches!(p.handle(&key(KeyCode::Tab), 80, 24), Outcome::Draw(_)));
    assert_eq!(p.renderer().keymap.get(), Keymap::Default);
    assert!(p.renderer().suggest_snapshot.after().listbox.is_none());
    assert_eq!(text(&p), "x");
    // Without candidates Tab is left to the editor, which has no use for it.
    let mut p = Readline::default().prompt();
    typed(&mut p, "ap");
    p.handle(&key(KeyCode::Tab), 80, 24);
    assert_eq!(text(&p), "ap");
    assert_eq!(p.renderer().keymap.get(), Keymap::Default);
}

#[test]
fn readline_offer_takes_the_first_of_what_was_found() {
    let mut r = Readline::default().prompt().into_renderer();
    r.offer(Some(vec![String::from("zeta"), String::from("alpha")]));
    assert_eq!(r.keymap.get(), Keymap::OnSuggest);
    assert_eq!(r.text_editor_snapshot.after().text(), "zeta");
    assert_eq!(r.suggest_snapshot.after().listbox.as_ref().unwrap().items().len(), 2);
    r.leave_suggest();
    assert_eq!(r.keymap.get(), Keymap::Default);
    assert!(r.suggest_snapshot.after().listbox.is_none());
    assert_eq!(r.text_editor_snapshot.after().text(), "zeta");
    r.offer(None);
    assert_eq!(r.keymap.get(), Keymap::Default);
    r.offer(Some(vec![]));
    assert_eq!(r.keymap.get(), Keymap::Default);
    assert!(r.suggest_snapshot.after().listbox.is_none());
}

#[test]
fn readline_history_is_gone_through_with_the_arrows() {
    let mut r = Readline::default().enable_history().prompt().into_renderer();
    for line in ["first", "second"] {
        r.text_editor_snapshot.after_mut().texteditor.replace(line);
        assert_eq!(r.evaluate(&key(KeyCode::Enter)), PromptSignal::Quit);
        // What was taken into the history stays for the next session.
        r.text_editor_snapshot.after_mut().texteditor.replace("");
    }
    assert_eq!(r.evaluate(&key(KeyCode::Up)), PromptSignal::Continue);
    assert_eq!(r.text_editor_snapshot.after().text(), "second");
    r.evaluate(&key(KeyCode::Up));
    assert_eq!(r.text_editor_snapshot.after().text(), "first");
    r.evaluate(&key(KeyCode::Up));
    assert_eq!(r.text_editor_snapshot.after().text(), "first");
    r.evaluate(&key(KeyCode::Down));
    assert_eq!(r.text_editor_snapshot.after().text(), "second");
    r.evaluate(&key(KeyCode::Down));
    assert_eq!(r.text_editor_snapshot.after().text(), "");
    r.evaluate(&key(KeyCode::Down));
    assert_eq!(r.text_editor_snapshot.after().text(), "");
    // Without a history the arrows do nothing.
    let mut p = Readline::default().prompt();
    typed(&mut p, "abc");
    p.handle(&key(KeyCode::Up), 80, 24);
    assert_eq!(text(&p), "abc");
}

#[test]
fn readline_overwrite_mode_replaces_the_character_at_the_cursor() {
    let mut p = Readline::default().edit_mode(Mode::Overwrite).prompt();
    typed(&mut p, "abc");
    p.handle(&Event::Key(KeyEvent::new(KeyCode::Char('a'), KeyModifiers::control())), 80, 24);
    typed(&mut p, "xy");
    assert_eq!(text(&p), "xyc");
    assert_eq!(p.renderer().text_editor_snapshot.after().texteditor.textbuffer().position(), 2);
}

#[test]
fn readline_panes_stand_in_a_fixed_order() {
    let mut p = Readline::default()
        .title("Name?")
        .validator(|s: &str| s.len() > 9, |_: &str| String::from("too short"))
        .enable_suggest(fruits())
        .prompt();
    let panes = p.draw(10, 24);
    assert_eq!(panes.len(), 4);
    assert!(!panes[0].is_empty());
    // Widgets with nothing to show still have their pane.
    assert!(panes[1].is_empty());
    assert!(!panes[2].is_empty());
    assert_eq!(panes[3].extract(24).len(), 0);
    typed(&mut p, "ap");
    match p.handle(&key(KeyCode::Enter), 10, 24) {
        Outcome::Draw(panes) => {
            let rows: Vec<Vec<String>> = panes
                .iter()
                .map(|p| p.extract(24).iter().map(|r| r.to_string()).collect())
                .collect();
            assert_eq!(
                rows,
                vec![
                    vec![String::from("Name?")],
                    vec![String::from("too short")],
                    vec![String::from("❯❯ ap ")],
                    vec![],
                ]
            );
        }
        _ => panic!(),
    }
    match p.handle(&key(KeyCode::Tab), 10, 24) {
        Outcome::Draw(panes) => {
            assert!(panes[1].is_empty());
            assert_eq!(panes[3].extract(24).len(), 2);
        }
        _ => panic!(),
    }
}

#[test]
fn readline_editor_is_drawn_in_three_styles() {
    let red = Style::new().fgc(Color::Red).build();
    let green = Style::new().fgc(Color::Green).build();
    let blue = Style::new().fgc(Color::Blue).build();
    let mut p = Readline::default()
        .prefix_string("> ")
        .prefix_string_style(red)
        .active_char_style(green)
        .inactive_char_style(blue)
        .prompt();
    typed(&mut p, "abc");
    let row = p.draw(80, 24).swap_remove(2).extract(1).swap_remove(0);
    assert_eq!(row.to_string(), "> abc ");
    let styles: Vec<ContentStyle> = row.0.iter().map(|g| g.style).collect();
    // The cursor stands behind the text and is shown as a space.
    assert_eq!(styles, vec![red, red, blue, blue, blue, green]);
    p.handle(&key(KeyCode::Left), 80, 24);
    p.handle(&key(KeyCode::Left), 80, 24);
    let row = p.draw(80, 24).swap_remove(2).extract(1).swap_remove(0);
    assert_eq!(row.to_string(), "> abc");
    let styles: Vec<ContentStyle> = row.0.iter().map(|g| g.style).collect();
    assert_eq!(styles, vec![red, red, blue, green, blue]);
}

#[test]
fn readline_mask_hides_the_text() {
    let mut p = Readline::default().mask('*').prefix_string("> ").text_editor_lines(1).prompt();
    typed(&mut p, "secret");
    let panes = p.draw(5, 24);
    let rows: Vec<String> = panes[2].extract(24).iter().map(|r| r.to_string()).collect();
    // One line is shown, scrolled to the row that the cursor counts to.
    assert_eq!(rows, vec![String::from("*** ")]);
    assert_eq!(text(&p), "secret");
}

#[test]
fn readline_failed_check_blocks_the_end_and_shows_its_message() {
    let mut r = Readline::default()
        .validator(|s: &str| s.starts_with('a'), |s: &str| format!("{} does not begin with a", s))
        .prompt()
        .into_renderer();
    r.text_editor_snapshot.after_mut().texteditor.replace("bcd");
    assert_eq!(r.evaluate(&key(KeyCode::Enter)), PromptSignal::Continue);
    assert_eq!(r.error_message_snapshot.after().text, "bcd does not begin with a");
    assert_eq!(r.text_editor_snapshot.after().text(), "bcd");
    r.text_editor_snapshot.after_mut().texteditor.replace("abc");
    assert_eq!(r.evaluate(&key(KeyCode::Enter)), PromptSignal::Quit);
    assert_eq!(r.error_message_snapshot.after().text, "");
    assert_eq!(r.text_editor_snapshot.after().text(), "abc");
}

#[test]
fn readline_setters_keep_the_check() {
    let p = Readline::default()
        .validator(|s: &str| s.len() > 3, |s: &str| format!("{} is too short", s))
        .title("t")
        .mask('*')
        .text_editor_lines(0)
        .edit_mode(Mode::Overwrite)
        .prefix_string("> ")
        .enable_history()
        .prompt();
    let check = p.renderer().validator.as_ref().unwrap();
    assert!(!check.validate("abc"));
    assert!(check.validate("abcd"));
    assert_eq!(check.error_message("abc"), "abc is too short");
    assert_eq!(p.renderer().text_editor_snapshot.after().lines, Some(0));
}

#[test]
fn readline_later_check_stands_in_place_of_the_earlier_one() {
    let mut p = Readline::default()
        .validator(|_: &str| false, |_: &str| String::from("never"))
        .validator(|_: &str| true, |_: &str| String::from("always"))
        .prompt();
    typed(&mut p, "x");
    assert!(matches!(p.handle(&key(KeyCode::Enter), 80, 24), Outcome::Finished(_)));
}

#[test]
fn readline_is_drawn_without_columns() {
    let mut p = Readline::default().title("Name?").prompt();
    typed(&mut p, "abc");
    let panes = p.draw(0, 24);
    assert_eq!(panes.len(), 4);
    assert!(panes[0].is_empty());
    assert!(panes[2].is_empty());
    assert!(matches!(p.handle(&key(KeyCode::Char('d')), 0, 0), Outcome::Draw(_)));
    assert_eq!(text(&p), "abcd");
}
