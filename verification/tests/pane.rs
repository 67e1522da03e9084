use promkit::grapheme::{matrixify, Graphemes};
use promkit::pane::{compose, Pane};

#[test]
fn pane_test() {
    assert_eq!(
        true,
        Pane::new(matrixify(10, Graphemes::new("")), 0, None).is_empty()
    );
}

#[test]
fn test_with_less_extraction_size_than_layout() {
    let expect = vec![
        Graphemes::new("aa"),
        Graphemes::new("bb"),
        Graphemes::new("cc"),
    ];
    assert_eq!(
        expect,
        Pane::new(
            vec![
                Graphemes::new("aa"),
                Graphemes::new("bb"),
                Graphemes::new("cc"),
                Graphemes::new("dd"),
                Graphemes::new("ee"),
            ],
            0,
            None,
        )
        .extract(3)
    );
}

#[test]
fn test_with_much_extraction_size_than_layout() {
    let expect = vec![
        Graphemes::new("aa"),
        Graphemes::new("bb"),
        Graphemes::new("cc"),
        Graphemes::new("dd"),
        Graphemes::new("ee"),
    ];
    assert_eq!(
        expect,
        Pane::new(
            vec![
                Graphemes::new("aa"),
                Graphemes::new("bb"),
                Graphemes::new("cc"),
                Graphemes::new("dd"),
                Graphemes::new("ee"),
            ],
            0,
            None,
        )
        .extract(10)
    );
}

#[test]
fn test_with_within_extraction_size_and_offset_non_zero() {
    let expect = vec![Graphemes::new("cc"), Graphemes::new("dd")];
    assert_eq!(
        expect,
        Pane::new(
            vec![
                Graphemes::new("aa"),
                Graphemes::new("bb"),
                Graphemes::new("cc"),
                Graphemes::new("dd"),
                Graphemes::new("ee"),
            ],
            2, // indicate `cc`
            None,
        )
        .extract(2)
    );
}

#[test]
fn test_with_beyond_extraction_size_and_offset_non_zero() {
    let expect = vec![
        Graphemes::new("cc"),
        Graphemes::new("dd"),
        Graphemes::new("ee"),
    ];
    assert_eq!(
        expect,
        Pane::new(
            vec![
                Graphemes::new("aa"),
                Graphemes::new("bb"),
                Graphemes::new("cc"),
                Graphemes::new("dd"),
                Graphemes::new("ee"),
            ],
            3, // indicate `dd`
            None,
        )
        .extract(3)
    );
}

#[test]
fn test_with_small_fixed_height_and_beyond_extraction_size_and_offset_non_zero() {
    let expect = vec![
        Graphemes::new("bb"),
        Graphemes::new("cc"),
        Graphemes::new("dd"),
        Graphemes::new("ee"),
    ];
    assert_eq!(
        expect,
        Pane::new(
            vec![
                Graphemes::new("aa"),
                Graphemes::new("bb"),
                Graphemes::new("cc"),
                Graphemes::new("dd"),
                Graphemes::new("ee"),
            ],
            3, // indicate `dd`
            Some(5),
        )
        .extract(4)
    );
}

#[test]
fn test_with_large_fixed_height_and_beyond_extraction_size_and_offset_non_zero() {
    let expect = vec![
        Graphemes::new("bb"),
        Graphemes::new("cc"),
        Graphemes::new("dd"),
        Graphemes::new("ee"),
    ];
    assert_eq!(
        expect,
        Pane::new(
            vec![
                Graphemes::new("aa"),
                Graphemes::new("bb"),
                Graphemes::new("cc"),
                Graphemes::new("dd"),
                Graphemes::new("ee"),
            ],
            3, // indicate `dd`
            Some(4),
        )
        .extract(5)
    );
}

fn rows() -> Vec<Graphemes> {
    vec![
        Graphemes::new("aa"),
        Graphemes::new("bb"),
        Graphemes::new("cc"),
        Graphemes::new("dd"),
        Graphemes::new("ee"),
    ]
}

#[test]
fn extract_gives_the_smallest_of_rows_fixed_height_and_viewport() {
    for offset in [0usize, 1, 4, 5, 6, 100, usize::MAX] {
        for fixed in [None, Some(0usize), Some(2), Some(5), Some(9)] {
            for viewport in [0usize, 1, 3, 5, 8] {
                let out = Pane::new(rows(), offset, fixed).extract(viewport);
                let lines = 5.min(fixed.unwrap_or(viewport)).min(viewport);
                assert_eq!(out.len(), lines);
                let start = if offset > 5 - lines { 5 - lines } else { offset };
                assert_eq!(out, rows()[start..start + lines].to_vec());
            }
        }
    }
}

#[test]
fn extract_with_offset_behind_the_rows_ends_with_the_last_row() {
    assert_eq!(
        Pane::new(rows(), 7, None).extract(2),
        vec![Graphemes::new("dd"), Graphemes::new("ee")]
    );
    assert_eq!(
        Pane::new(rows(), usize::MAX, Some(1)).extract(4),
        vec![Graphemes::new("ee")]
    );
}

#[test]
fn extract_of_a_pane_without_rows_is_empty() {
    let none: Vec<Graphemes> = vec![];
    assert_eq!(Pane::new(none.clone(), 3, None).extract(4), none);
}

#[test]
fn is_empty_wants_exactly_one_row_without_width() {
    assert!(Pane::new(vec![Graphemes::new("")], 0, None).is_empty());
    assert!(!Pane::new(vec![Graphemes::new("a")], 0, None).is_empty());
    assert!(!Pane::new(vec![Graphemes::new(""), Graphemes::new("")], 0, None).is_empty());
    let none: Vec<Graphemes> = vec![];
    assert!(!Pane::new(none, 0, None).is_empty());
}

#[test]
fn compose_stacks_the_panes_and_skips_the_empty_ones() {
    let panes = vec![
        Pane::new(vec![Graphemes::new("title")], 0, None),
        Pane::new(vec![Graphemes::new("")], 0, None),
        Pane::new(rows(), 3, Some(2)),
        Pane::new(rows(), 0, None),
    ];
    let texts = |height: usize| -> Vec<String> {
        compose(&panes, height).iter().map(|r| r.to_string()).collect()
    };
    assert_eq!(texts(0), Vec::<String>::new());
    assert_eq!(texts(1), vec!["title"]);
    assert_eq!(texts(2), vec!["title", "dd"]);
    assert_eq!(texts(5), vec!["title", "dd", "ee", "aa", "bb"]);
    assert_eq!(texts(20), vec!["title", "dd", "ee", "aa", "bb", "cc", "dd", "ee"]);
    let none: Vec<Pane<Graphemes>> = vec![];
    assert_eq!(compose(&none, 5).len(), 0);
}
