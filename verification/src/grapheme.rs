//! Characters tagged with the number of terminal columns they occupy, with
//! and without a style, and rows made of them.
use vstd::prelude::*;
use crate::cell::{
    append, copy, fits, is_blank, total_width, trim, trimmed, truncate, truncated, views_of,
    width_within, wrap, wrapped, Cell,
};
use crate::replicate::Replicate;
use crate::style::ContentStyle;

verus! {

/// The number of columns that the Unicode width tables assign to `c`, or
/// `None` where they assign none.
pub uninterp spec fn column_width(c: char) -> Option<usize>;

/// Control characters: the code points below U+0020 and from U+007F up to,
/// but excluding, U+00A0.
pub open spec fn is_control(c: char) -> bool {
    c < ' ' || ('\u{7f}' <= c && c < '\u{a0}')
}

/// Calls `unicode_width::UnicodeWidthChar::width`.
///
/// The result is a function of the character alone and is named
/// [`column_width`]. Three facts about it are taken from the outside crate:
/// it is `None` exactly for control characters, printable ASCII is one
/// column wide, and no character is wider than two columns but U+17D8,
/// which is three columns wide at most.
#[verifier::external_body]
fn measure(c: char) -> (w: Option<usize>)
    ensures
        w == column_width(c),
        w is None <==> is_control(c),
        ' ' <= c && c < '\u{7f}' ==> w == Some(1usize),
        w matches Some(n) ==> n <= 3 && (c != '\u{17d8}' ==> n <= 2),
{
    unicode_width::UnicodeWidthChar::width(c)
}

/// `String::push` appends one character to the end of the string.
pub assume_specification[ String::push ](s: &mut String, ch: char)
    ensures
        final(s)@ == old(s)@.push(ch),
;

/// A character and its width.
#[derive(Clone, Copy, Debug, PartialEq, Eq, Structural)]
pub struct Grapheme {
    pub ch: char,
    pub width: usize,
}

impl Grapheme {
    /// The width a character is displayed with: its column width, or zero
    /// where it has none.
    pub open spec fn display_width(c: char) -> usize {
        match column_width(c) {
            Some(w) => w,
            None => 0,
        }
    }

    /// The grapheme that stands for `c`.
    pub open spec fn of(c: char) -> Grapheme {
        Grapheme { ch: c, width: Self::display_width(c) }
    }
}

impl From<char> for Grapheme {
    /// Measures `c`. A control character has no width, a printable ASCII
    /// character is one column wide, and no character is wider than two
    /// columns but U+17D8, which is three columns wide at most.
    fn from(c: char) -> (g: Self)
        ensures
            g == Grapheme::of(c),
            is_control(c) ==> g.width == 0,
            ' ' <= c && c < '\u{7f}' ==> g.width == 1,
            g.width <= 3,
            c != '\u{17d8}' ==> g.width <= 2,
    {
        let width = match measure(c) {
            Some(w) => w,
            None => 0,
        };
        Grapheme { ch: c, width }
    }
}

impl vstd::std_specs::convert::FromSpecImpl<char> for Grapheme {
    open spec fn obeys_from_spec() -> bool {
        true
    }

    open spec fn from_spec(c: char) -> Grapheme {
        Grapheme::of(c)
    }
}

impl Cell for Grapheme {
    open spec fn span(self) -> nat {
        self.width as nat
    }

    fn columns(&self) -> (w: usize) {
        self.width
    }
}

/// A grapheme and the style it is drawn in.
#[derive(Clone, Copy, Debug, PartialEq, Eq)]
pub struct StyledGrapheme {
    pub grapheme: Grapheme,
    pub style: ContentStyle,
}

impl Cell for StyledGrapheme {
    open spec fn span(self) -> nat {
        self.grapheme.width as nat
    }

    fn columns(&self) -> (w: usize) {
        self.grapheme.width
    }
}

/// The graphemes that stand for the characters of `s`, in order.
pub open spec fn graphemes_of(s: Seq<char>) -> Seq<Grapheme> {
    s.map_values(|c: char| Grapheme::of(c))
}

/// The characters of a grapheme sequence, in order.
pub open spec fn chars_of(s: Seq<Grapheme>) -> Seq<char> {
    s.map_values(|g: Grapheme| g.ch)
}

/// The graphemes of `s`, each drawn in `style`.
pub open spec fn styled(s: Seq<Grapheme>, style: ContentStyle) -> Seq<StyledGrapheme> {
    s.map_values(|g: Grapheme| StyledGrapheme { grapheme: g, style })
}

/// The graphemes of `s`, without their styles.
pub open spec fn unstyled(s: Seq<StyledGrapheme>) -> Seq<Grapheme> {
    s.map_values(|g: StyledGrapheme| g.grapheme)
}

/// `n` spaces.
pub open spec fn spaces(n: nat) -> Seq<Grapheme> {
    Seq::new(n, |i: int| Grapheme::of(' '))
}

/// Where a space is one column wide, `n` spaces are `n` columns wide.
pub proof fn lemma_spaces_width(n: nat)
    requires
        Grapheme::of(' ').width == 1,
    ensures
        total_width(spaces(n)) == n,
    decreases n,
{
    if n > 0 {
        lemma_spaces_width((n - 1) as nat);
        assert(spaces(n).drop_last() =~= spaces((n - 1) as nat));
    }
}

/// A style changes no width.
pub proof fn lemma_styled_width(s: Seq<Grapheme>, style: ContentStyle)
    ensures
        total_width(styled(s, style)) == total_width(s),
        unstyled(styled(s, style)) == s,
    decreases s.len(),
{
    if s.len() > 0 {
        lemma_styled_width(s.drop_last(), style);
        assert(styled(s, style).drop_last() =~= styled(s.drop_last(), style));
    }
    assert(unstyled(styled(s, style)) =~= s);
}

/// Characters and their width.
#[derive(Debug, PartialEq, Eq)]
pub struct Graphemes(pub Vec<Grapheme>);

impl View for Graphemes {
    type V = Seq<Grapheme>;

    open spec fn view(&self) -> Seq<Grapheme> {
        self.0@
    }
}

impl Clone for Graphemes {
    fn clone(&self) -> (r: Self)
        ensures
            r@ == self@,
    {
        Graphemes(copy(&self.0))
    }
}

impl Default for Graphemes {
    fn default() -> (g: Self)
        ensures
            g@ == Seq::<Grapheme>::empty(),
    {
        Graphemes(Vec::new())
    }
}

impl Replicate for Graphemes {
    fn replicate(&self) -> (r: Self) {
        self.clone()
    }
}

impl Graphemes {
    /// Measures every character of `s`.
    pub fn new(s: &str) -> (g: Self)
        ensures
            g@ == graphemes_of(s@),
            forall|i: int| 0 <= i < g@.len() ==> (#[trigger] g@[i]).width <= 3,
            forall|i: int|
                0 <= i < g@.len() && (#[trigger] g@[i]).ch != '\u{17d8}' ==> g@[i].width <= 2,
    {
        let mut items: Vec<Grapheme> = Vec::new();
        for c in it: s.chars()
            invariant
                it.seq() == s@,
                items@ == graphemes_of(s@.take(it.index())),
                forall|i: int| 0 <= i < items@.len() ==> (#[trigger] items@[i]).width <= 3,
                forall|i: int|
                    0 <= i < items@.len() && (#[trigger] items@[i]).ch != '\u{17d8}'
                        ==> items@[i].width <= 2,
        {
            items.push(Grapheme::from(c));
        }
        Graphemes(items)
    }

    /// `n` spaces.
    pub fn blank(n: usize) -> (g: Graphemes)
        ensures
            g@ == spaces(n as nat),
            total_width(g@) == n,
    {
        let space = Grapheme::from(' ');
        proof {
            lemma_spaces_width(n as nat);
        }
        let mut out: Vec<Grapheme> = Vec::new();
        let mut i: usize = 0;
        while i < n
            invariant
                i <= n,
                space == Grapheme::of(' '),
                out@ == spaces(i as nat),
            decreases n - i,
        {
            out.push(space);
            assert(out@ =~= spaces(i as nat + 1));
            i = i + 1;
        }
        Graphemes(out)
    }

    /// The number of graphemes.
    pub fn len(&self) -> (n: usize)
        ensures
            n == self@.len(),
    {
        self.0.len()
    }

    /// Appends the graphemes of `other`.
    pub fn extend(&mut self, other: &Graphemes)
        ensures
            final(self)@ == old(self)@ + other@,
    {
        append(&mut self.0, &other.0);
    }

    /// The characters, without their widths.
    pub fn to_string(&self) -> (s: String)
        ensures
            s@ == chars_of(self@),
    {
        let mut s = String::new();
        let n = self.0.len();
        let mut i: usize = 0;
        while i < n
            invariant
                n == self@.len(),
                i <= n,
                s@ == chars_of(self@.take(i as int)),
            decreases n - i,
        {
            s.push(self.0[i].ch);
            assert(chars_of(self@.take(i + 1)) =~= chars_of(self@.take(i as int)).push(
                self@[i as int].ch,
            ));
            i = i + 1;
        }
        assert(self@.take(n as int) =~= self@);
        s
    }

    /// The characters in UTF-8, as a key for a trie of byte strings.
    pub fn encode_bytes(&self) -> (bytes: Vec<u8>)
        ensures
            bytes@ == vstd::utf8::encode_utf8(chars_of(self@)),
    {
        self.to_string().as_str().as_bytes_vec()
    }

    /// Whether the row takes no column at all.
    pub fn is_blank(&self) -> (b: bool)
        ensures
            b == (total_width(self@) == 0),
    {
        is_blank(&self.0)
    }

    /// The width of the row where that is no more than `limit`.
    pub fn width_within(&self, limit: usize) -> (w: Option<usize>)
        ensures
            match w {
                Some(w) => w == total_width(self@) && w <= limit,
                None => total_width(self@) > limit,
            },
    {
        width_within(&self.0, limit)
    }

    /// Cuts the row off behind the last grapheme that still fits `width`.
    pub fn truncate_to_width(&self, width: usize) -> (g: Graphemes)
        ensures
            g@ == truncated(self@, width as nat),
            total_width(g@) <= width,
    {
        Graphemes(truncate(&self.0, width))
    }

    /// Cuts the row off where it is wider than `width`, and puts `suffix`
    /// behind what is left where there is room for it.
    pub fn trim_to_width(&self, width: usize, suffix: &Graphemes) -> (g: Graphemes)
        ensures
            g@ == trimmed(self@, width as nat, suffix@),
            total_width(g@) <= width,
    {
        Graphemes(trim(&self.0, width, &suffix.0))
    }

    /// As many spaces as the row takes columns.
    pub fn padding(&self) -> (g: Graphemes)
        ensures
            g@ == spaces(total_width(self@)),
            total_width(g@) == total_width(self@),
    {
        let space = Grapheme::from(' ');
        proof {
            lemma_spaces_width(total_width(self@));
        }
        let mut out: Vec<Grapheme> = Vec::new();
        let n = self.0.len();
        let mut i: usize = 0;
        while i < n
            invariant
                n == self@.len(),
                i <= n,
                space == Grapheme::of(' '),
                out@ == spaces(total_width(self@.take(i as int))),
            decreases n - i,
        {
            let w = self.0[i].width;
            let ghost base = total_width(self@.take(i as int));
            proof {
                assert(self@.take(i + 1).drop_last() =~= self@.take(i as int));
            }
            let mut j: usize = 0;
            while j < w
                invariant
                    j <= w,
                    space == Grapheme::of(' '),
                    out@ == spaces(base + j as nat),
                decreases w - j,
            {
                out.push(space);
                assert(out@ =~= spaces(base + j as nat + 1));
                j = j + 1;
            }
            i = i + 1;
        }
        assert(self@.take(n as int) =~= self@);
        Graphemes(out)
    }
}

impl<'a> From<&'a str> for Graphemes {
    fn from(s: &'a str) -> (g: Self)
        ensures
            g@ == graphemes_of(s@),
    {
        Graphemes::new(s)
    }
}

/// Two vectors with the same elements need not be the same value, so no
/// value can be named as the one that `from` returns: what it returns is
/// stated by its view, in the `ensures` of `from` itself.
impl<'a> vstd::std_specs::convert::FromSpecImpl<&'a str> for Graphemes {
    open spec fn obeys_from_spec() -> bool {
        false
    }

    open spec fn from_spec(s: &'a str) -> Graphemes {
        arbitrary()
    }
}

/// Graphemes, each with the style it is drawn in.
#[derive(Debug, PartialEq, Eq)]
pub struct StyledGraphemes(pub Vec<StyledGrapheme>);

/// The view of a styled row.
pub type StyledRow = Seq<StyledGrapheme>;

impl View for StyledGraphemes {
    type V = Seq<StyledGrapheme>;

    open spec fn view(&self) -> Seq<StyledGrapheme> {
        self.0@
    }
}

impl Clone for StyledGraphemes {
    fn clone(&self) -> (r: Self)
        ensures
            r@ == self@,
    {
        StyledGraphemes(copy(&self.0))
    }
}

impl Default for StyledGraphemes {
    fn default() -> (g: Self)
        ensures
            g@ == Seq::<StyledGrapheme>::empty(),
    {
        StyledGraphemes(Vec::new())
    }
}

impl Replicate for StyledGraphemes {
    fn replicate(&self) -> (r: Self) {
        self.clone()
    }
}

impl StyledGraphemes {
    /// The graphemes of `g`, each drawn in `style`.
    pub fn from_graphemes(g: &Graphemes, style: ContentStyle) -> (r: Self)
        ensures
            r@ == styled(g@, style),
    {
        let mut out: Vec<StyledGrapheme> = Vec::new();
        let n = g.0.len();
        let mut i: usize = 0;
        while i < n
            invariant
                n == g@.len(),
                i <= n,
                out@ == styled(g@.take(i as int), style),
            decreases n - i,
        {
            out.push(StyledGrapheme { grapheme: g.0[i], style });
            assert(out@ =~= styled(g@.take(i + 1), style));
            i = i + 1;
        }
        assert(g@.take(n as int) =~= g@);
        StyledGraphemes(out)
    }

    /// Measures every character of `s` and draws each in `style`.
    pub fn from_str(s: &str, style: ContentStyle) -> (g: Self)
        ensures
            g@ == styled(graphemes_of(s@), style),
    {
        Self::from_graphemes(&Graphemes::new(s), style)
    }

    /// The graphemes, without their styles.
    pub fn graphemes(&self) -> (g: Graphemes)
        ensures
            g@ == unstyled(self@),
    {
        let mut out: Vec<Grapheme> = Vec::new();
        let n = self.0.len();
        let mut i: usize = 0;
        while i < n
            invariant
                n == self@.len(),
                i <= n,
                out@ == unstyled(self@.take(i as int)),
            decreases n - i,
        {
            out.push(self.0[i].grapheme);
            assert(out@ =~= unstyled(self@.take(i + 1)));
            i = i + 1;
        }
        assert(self@.take(n as int) =~= self@);
        Graphemes(out)
    }

    /// The characters, without their widths and styles.
    pub fn to_string(&self) -> (s: String)
        ensures
            s@ == chars_of(unstyled(self@)),
    {
        self.graphemes().to_string()
    }

    /// The number of graphemes.
    pub fn len(&self) -> (n: usize)
        ensures
            n == self@.len(),
    {
        self.0.len()
    }

    /// Appends the graphemes of `other`.
    pub fn extend(&mut self, other: &StyledGraphemes)
        ensures
            final(self)@ == old(self)@ + other@,
    {
        append(&mut self.0, &other.0);
    }

    /// Cuts the row off behind the last grapheme that still fits `width`.
    pub fn truncate_to_width(&self, width: usize) -> (g: StyledGraphemes)
        ensures
            g@ == truncated(self@, width as nat),
            total_width(g@) <= width,
    {
        StyledGraphemes(truncate(&self.0, width))
    }

    /// Wraps the graphemes into rows no wider than `width`, as
    /// [`matrixify`] does.
    pub fn matrixify(self, width: usize) -> (rows: Vec<StyledGraphemes>)
        ensures
            views_of(rows@) == wrapped(width, self@),
            rows@.len() >= 1,
            forall|i: int| 0 <= i < rows@.len() ==> total_width(#[trigger] rows@[i]@) <= width,
    {
        let mut wrapped_rows = wrap(width, &self.0);
        let ghost all = views_of(wrapped_rows@);
        let n = wrapped_rows.len();
        let mut rows: Vec<StyledGraphemes> = Vec::new();
        let mut i: usize = 0;
        while i < n
            invariant
                n == wrapped_rows@.len(),
                n == all.len(),
                i <= n,
                forall|k: int| i <= k < n ==> #[trigger] wrapped_rows@[k]@ == all[k],
                views_of(rows@) == all.take(i as int),
            decreases n - i,
        {
            let mut row: Vec<StyledGrapheme> = Vec::new();
            std::mem::swap(&mut wrapped_rows[i], &mut row);
            let ghost before = views_of(rows@);
            rows.push(StyledGraphemes(row));
            assert(views_of(rows@) =~= before.push(all[i as int]));
            assert(all.take(i + 1) =~= all.take(i as int).push(all[i as int]));
            i = i + 1;
        }
        proof {
            assert(all.take(n as int) =~= all);
            assert forall|k: int| 0 <= k < rows@.len() implies total_width(#[trigger] rows@[k]@)
                <= width by {
                assert(rows@[k]@ == views_of(rows@)[k]);
                crate::cell::lemma_wrap_rows_fit(width, self@);
            }
        }
        rows
    }
}

/// What a pane asks of the rows it is made of.
pub trait Row: Replicate {
    /// The number of columns that a row with this view takes.
    spec fn span(v: Self::V) -> nat;

    /// Whether the row takes no column at all.
    fn is_blank(&self) -> (b: bool)
        ensures
            b == (Self::span(self@) == 0),
    ;
}

impl Row for Graphemes {
    open spec fn span(v: Seq<Grapheme>) -> nat {
        total_width(v)
    }

    fn is_blank(&self) -> (b: bool) {
        is_blank(&self.0)
    }
}

impl Row for StyledGraphemes {
    open spec fn span(v: Seq<StyledGrapheme>) -> nat {
        total_width(v)
    }

    fn is_blank(&self) -> (b: bool) {
        is_blank(&self.0)
    }
}

/// The views of a vector of rows, row by row.
pub open spec fn rows_of(rows: Seq<Graphemes>) -> Seq<Seq<Grapheme>> {
    views_of(rows)
}

/// Wraps `g` into rows no wider than `width`.
///
/// Graphemes are placed greedily from left to right. Before one is placed,
/// a row that is not empty and would grow past `width` is closed and a new
/// one begun. A grapheme that is by itself wider than `width` is left out.
/// The last row is always returned, so an empty input gives one empty row.
pub fn matrixify(width: usize, g: Graphemes) -> (rows: Vec<Graphemes>)
    ensures
        rows_of(rows@) == wrapped(width, g@),
        rows@.len() >= 1,
        forall|i: int| 0 <= i < rows@.len() ==> total_width(#[trigger] rows@[i]@) <= width,
        rows_of(rows@).flatten() == g@.filter(fits::<Grapheme>(width)),
        (forall|i: int| 0 <= i < g@.len() ==> (#[trigger] g@[i]).width <= width)
            ==> rows_of(rows@).flatten() == g@,
{
    let mut wrapped_rows = wrap(width, &g.0);
    let ghost all = views_of(wrapped_rows@);
    let n = wrapped_rows.len();
    let mut rows: Vec<Graphemes> = Vec::new();
    let mut i: usize = 0;
    while i < n
        invariant
            n == wrapped_rows@.len(),
            n == all.len(),
            i <= n,
            forall|k: int| i <= k < n ==> #[trigger] wrapped_rows@[k]@ == all[k],
            rows_of(rows@) == all.take(i as int),
        decreases n - i,
    {
        let mut row: Vec<Grapheme> = Vec::new();
        std::mem::swap(&mut wrapped_rows[i], &mut row);
        let ghost before = rows_of(rows@);
        rows.push(Graphemes(row));
        assert(rows_of(rows@) =~= before.push(all[i as int]));
        assert(all.take(i + 1) =~= all.take(i as int).push(all[i as int]));
        i = i + 1;
    }
    proof {
        assert(all.take(n as int) =~= all);
        crate::cell::lemma_wrap_rows_fit(width, g@);
        assert forall|k: int| 0 <= k < rows@.len() implies total_width(#[trigger] rows@[k]@)
            <= width by {
            assert(rows@[k]@ == rows_of(rows@)[k]);
        }
        if forall|i: int| 0 <= i < g@.len() ==> (#[trigger] g@[i]).width <= width {
            assert forall|i: int| 0 <= i < g@.len() implies (#[trigger] g@[i]).span()
                <= width by {}
        }
    }
    rows
}

} // verus!
