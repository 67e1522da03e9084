use promkit::grapheme::{matrixify, Grapheme, Graphemes, StyledGrapheme, StyledGraphemes};
use promkit::style::{Color, Style};

#[test]
fn grapheme_test() {
    let expect = vec![
        Graphemes::from(">>"),
        Graphemes::from(" a"),
        Graphemes::from("aa"),
        Graphemes::from(" "),
    ];
    assert_eq!(expect, matrixify(2, Graphemes::from(">> aaa ")),);
}

#[test]
fn test_with_emoji() {
    let expect = vec![
        Graphemes::from(">>"),
        Graphemes::from(" "),
        Graphemes::from("😎"),
        Graphemes::from("😎"),
        Graphemes::from(" "),
    ];
    assert_eq!(expect, matrixify(2, Graphemes::from(">> 😎😎 ")),);
}

#[test]
fn test_with_emoji_at_narrow_terminal() {
    let expect = vec![
        Graphemes::from(">"),
        Graphemes::from(">"),
        Graphemes::from(" "),
        Graphemes::from(" "),
    ];
    assert_eq!(expect, matrixify(1, Graphemes::from(">> 😎😎 ")),);
}

#[test]
fn grapheme_from_char_measures_width() {
    assert_eq!(Grapheme::from('a'), Grapheme { ch: 'a', width: 1 });
    assert_eq!(Grapheme::from('😎'), Grapheme { ch: '😎', width: 2 });
    assert_eq!(Grapheme::from('\u{7}'), Grapheme { ch: '\u{7}', width: 0 });
    assert_eq!(Grapheme::from('\u{301}'), Grapheme { ch: '\u{301}', width: 0 });
}

#[test]
fn grapheme_widths_of_ascii_and_control_characters() {
    for c in ' '..='~' {
        assert_eq!(Grapheme::from(c).width, 1);
    }
    for c in ('\u{0}'..' ').chain('\u{7f}'..'\u{a0}') {
        assert_eq!(Grapheme::from(c).width, 0);
    }
}

#[test]
fn grapheme_widths_are_at_most_two_but_for_one_character() {
    for c in '\u{0}'..=char::MAX {
        if c != '\u{17d8}' {
            assert!(Grapheme::from(c).width <= 2);
        }
    }
    assert_eq!(Grapheme::from('\u{17d8}').width, 3);
}

fn widths(g: &Graphemes) -> usize {
    g.0.iter().map(|g| g.width).sum()
}

fn joined(rows: &[Graphemes]) -> Vec<Grapheme> {
    rows.iter().flat_map(|r| r.0.iter().copied()).collect()
}

#[test]
fn wrapping_keeps_rows_within_width_and_loses_nothing() {
    let text = "The quick 茶色の狐 jumps 😎 over the lazy 犬 again and again";
    for width in 2..12 {
        let input = Graphemes::from(text);
        let rows = matrixify(width, input.clone());
        assert!(rows.iter().all(|r| widths(r) <= width));
        assert_eq!(joined(&rows), input.0);
    }
}

#[test]
fn wrapping_nothing_gives_one_empty_row() {
    assert_eq!(matrixify(5, Graphemes::from("")), vec![Graphemes::from("")]);
    assert_eq!(matrixify(0, Graphemes::from("")), vec![Graphemes::from("")]);
}

#[test]
fn wrapping_drops_what_is_wider_than_the_width() {
    // The emoji closes the row that is being filled and is then left out.
    assert_eq!(
        matrixify(1, Graphemes::from("a😎b")),
        vec![Graphemes::from("a"), Graphemes::from("b")]
    );
    assert_eq!(matrixify(1, Graphemes::from("😎")), vec![Graphemes::from("")]);
    assert_eq!(
        matrixify(1, Graphemes::from("a😎")),
        vec![Graphemes::from("a"), Graphemes::from("")]
    );
    assert_eq!(matrixify(0, Graphemes::from("ab")), vec![Graphemes::from("")]);
}

#[test]
fn wrapping_keeps_graphemes_without_width_in_the_row() {
    let rows = matrixify(2, Graphemes::from("a\u{7}b\u{7}c"));
    assert_eq!(rows, vec![Graphemes::from("a\u{7}b\u{7}"), Graphemes::from("c")]);
}

#[test]
fn graphemes_to_string_gives_the_characters_back() {
    assert_eq!(Graphemes::from(">> 😎 茶").to_string(), ">> 😎 茶");
    assert_eq!(Graphemes::from("").to_string(), "");
}

#[test]
fn graphemes_encode_bytes_is_utf8() {
    assert_eq!(Graphemes::from("aé😎").encode_bytes(), "aé😎".as_bytes().to_vec());
}

#[test]
fn graphemes_extend_appends() {
    let mut g = Graphemes::from("ab");
    g.extend(&Graphemes::from("cd"));
    assert_eq!(g, Graphemes::from("abcd"));
    assert_eq!(g.len(), 4);
}

#[test]
fn truncate_to_width_stops_at_the_first_grapheme_that_does_not_fit() {
    let g = Graphemes::from("ab😎c");
    assert_eq!(g.truncate_to_width(0), Graphemes::from(""));
    assert_eq!(g.truncate_to_width(2), Graphemes::from("ab"));
    assert_eq!(g.truncate_to_width(3), Graphemes::from("ab"));
    assert_eq!(g.truncate_to_width(4), Graphemes::from("ab😎"));
    assert_eq!(g.truncate_to_width(5), Graphemes::from("ab😎c"));
    assert_eq!(g.truncate_to_width(50), Graphemes::from("ab😎c"));
}

#[test]
fn trim_to_width_puts_the_suffix_behind_what_is_cut_off() {
    let suffix = Graphemes::from("…");
    let g = Graphemes::from("abcdef");
    assert_eq!(g.trim_to_width(6, &suffix), Graphemes::from("abcdef"));
    assert_eq!(g.trim_to_width(5, &suffix), Graphemes::from("abcd…"));
    assert_eq!(g.trim_to_width(1, &suffix), Graphemes::from("…"));
    assert_eq!(g.trim_to_width(0, &suffix), Graphemes::from(""));
    assert_eq!(Graphemes::from("a😎b").trim_to_width(3, &suffix), Graphemes::from("a…"));
}

#[test]
fn width_within_gives_the_width_up_to_the_limit() {
    let g = Graphemes::from("a😎");
    assert_eq!(g.width_within(3), Some(3));
    assert_eq!(g.width_within(10), Some(3));
    assert_eq!(g.width_within(2), None);
    assert_eq!(Graphemes::from("").width_within(0), Some(0));
}

#[test]
fn padding_is_as_wide_as_the_row() {
    assert_eq!(Graphemes::from("❯ ").padding(), Graphemes::from("  "));
    assert_eq!(Graphemes::from("😎a").padding(), Graphemes::from("   "));
    assert_eq!(Graphemes::blank(3), Graphemes::from("   "));
}

#[test]
fn is_blank_tells_rows_without_width() {
    assert!(Graphemes::from("").is_blank());
    assert!(Graphemes::from("\u{7}").is_blank());
    assert!(!Graphemes::from("\u{7}a").is_blank());
}

#[test]
fn styled_graphemes_carry_their_style() {
    let red = Style::new().fgc(Color::Red).build();
    let blue = Style::new().fgc(Color::Blue).build();
    let mut g = StyledGraphemes::from_str("a😎", red);
    assert_eq!(
        g.0,
        vec![
            StyledGrapheme { grapheme: Grapheme { ch: 'a', width: 1 }, style: red },
            StyledGrapheme { grapheme: Grapheme { ch: '😎', width: 2 }, style: red },
        ]
    );
    g.extend(&StyledGraphemes::from_graphemes(&Graphemes::from("b"), blue));
    assert_eq!(g.len(), 3);
    assert_eq!(g.to_string(), "a😎b");
    assert_eq!(g.graphemes(), Graphemes::from("a😎b"));
    assert_eq!(g.0[2].style, blue);
    assert_eq!(g.truncate_to_width(2).to_string(), "a");
    assert_eq!(g.clone(), g);
}

#[test]
fn styled_graphemes_wrap_as_plain_ones_do() {
    let red = Style::new().fgc(Color::Red).build();
    for width in 0..6 {
        let plain = matrixify(width, Graphemes::from(">> 😎😎 a"));
        let styled = StyledGraphemes::from_str(">> 😎😎 a", red).matrixify(width);
        assert_eq!(styled.iter().map(|r| r.graphemes()).collect::<Vec<_>>(), plain);
        assert!(styled.iter().all(|r| r.0.iter().all(|g| g.style == red)));
    }
}
