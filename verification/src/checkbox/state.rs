//! How a checkbox is drawn.
use vstd::prelude::*;
use crate::checkbox::{Checkbox, CheckboxView};
use crate::cell::views_of;
use crate::grapheme::{graphemes_of, Grapheme, Graphemes, StyledGraphemes, StyledRow};
use crate::listbox::{listed, listed_row, rows_allowed, shown_rows, RowStyle};
use crate::pane::{Pane, PaneView};
use crate::replicate::Replicate;
use crate::PaneFactory;
use crate::style::ContentStyle;

verus! {

broadcast use vstd::std_specs::hash::group_hash_axioms;

/// The view of the state of a checkbox.
pub struct StateView {
    pub checkbox: CheckboxView,
    pub cursor: Seq<char>,
    pub active_mark: char,
    pub inactive_mark: char,
    pub active_item_style: ContentStyle,
    pub inactive_item_style: ContentStyle,
    pub lines: Option<usize>,
}

impl StateView {
    /// How the rows are led in and styled.
    pub open spec fn look(self) -> RowStyle {
        RowStyle {
            cursor: self.cursor,
            active: self.active_item_style,
            inactive: self.inactive_item_style,
        }
    }

    /// The mark in front of item `i`.
    pub open spec fn mark(self, i: int) -> char {
        if self.checkbox.picked.contains(i as usize) {
            self.active_mark
        } else {
            self.inactive_mark
        }
    }

    /// Item `i` behind its mark and a space.
    pub open spec fn entry(self, i: int) -> Seq<Grapheme> {
        seq![Grapheme::of(self.mark(i)), Grapheme::of(' ')] + graphemes_of(
            self.checkbox.selector.items[i],
        )
    }

    /// The pane that the checkbox is drawn as: its rows, not scrolled.
    pub open spec fn pane(self, width: u16, height: u16) -> PaneView<StyledRow> {
        PaneView { rows: self.rows(width, height), offset: 0, fixed_height: None }
    }

    /// The rows drawn in a viewport of the given size: one for each item
    /// from the current one on, as far as the viewport and the number of
    /// lines asked for allow.
    pub open spec fn rows(self, width: u16, height: u16) -> Seq<StyledRow> {
        Seq::new(
            shown_rows(self.checkbox.selector, self.lines, height),
            |k: int|
                listed(self.look(), k == 0, self.entry(self.checkbox.selector.position + k), width),
        )
    }
}

/// Represents the state of a `Checkbox` component.
///
/// This state includes not only the checkbox itself but also various attributes
/// that determine how the checkbox and its items are displayed. These attributes
/// include symbols for indicating active and inactive items, styles for selected
/// and unselected lines, and the number of lines available for rendering.
pub struct State {
    /// The `Checkbox` component to be rendered.
    pub checkbox: Checkbox,
    /// Symbol for the selected line.
    pub cursor: String,
    /// Symbol used to indicate an active (selected) checkbox item.
    pub active_mark: char,
    /// Symbol used to indicate an inactive (unselected) checkbox item.
    pub inactive_mark: char,
    /// Style for the selected line.
    pub active_item_style: ContentStyle,
    /// Style for unselected lines.
    pub inactive_item_style: ContentStyle,
    /// Number of lines available for rendering.
    pub lines: Option<usize>,
}

impl View for State {
    type V = StateView;

    open spec fn view(&self) -> StateView {
        StateView {
            checkbox: self.checkbox@,
            cursor: self.cursor@,
            active_mark: self.active_mark,
            inactive_mark: self.inactive_mark,
            active_item_style: self.active_item_style,
            inactive_item_style: self.inactive_item_style,
            lines: self.lines,
        }
    }
}

impl Clone for State {
    fn clone(&self) -> (r: Self)
        ensures
            r@ == self@,
    {
        State {
            checkbox: self.checkbox.clone(),
            cursor: self.cursor.clone(),
            active_mark: self.active_mark,
            inactive_mark: self.inactive_mark,
            active_item_style: self.active_item_style,
            inactive_item_style: self.inactive_item_style,
            lines: self.lines,
        }
    }
}

impl Replicate for State {
    fn replicate(&self) -> (r: Self) {
        self.clone()
    }
}

impl State {
    /// Item `i` behind its mark and a space.
    fn entry(&self, i: usize) -> (body: Graphemes)
        requires
            i < self@.checkbox.selector.items.len(),
        ensures
            body@ == self@.entry(i as int),
    {
        let mark = if self.checkbox.picked_indexes().contains(&i) {
            self.active_mark
        } else {
            self.inactive_mark
        };
        let mut body = Graphemes::default();
        body.0.push(Grapheme::from(mark));
        body.0.push(Grapheme::from(' '));
        let items = self.checkbox.items();
        assert(items.deep_view()[i as int] == items@[i as int]@);
        body.extend(&Graphemes::new(items[i].as_str()));
        assert(body@ =~= self@.entry(i as int));
        body
    }

}

impl PaneFactory for State {
    open spec fn pane(v: StateView, width: u16, height: u16) -> PaneView<StyledRow> {
        v.pane(width, height)
    }

    /// Draws the items from the current one on, one to a row, as far as the
    /// viewport and the number of lines asked for allow.
    ///
    /// Each row holds the mark of the item, a space and the item. The row of
    /// the current item begins with the cursor and is drawn in the active
    /// style; the others begin with spaces in its place and are drawn in the
    /// inactive style. Rows are cut off at `width` columns.
    fn create_pane(&self, width: u16, height: u16) -> (pane: Pane<StyledGraphemes>) {
        let allowed = rows_allowed(self.lines, height);
        let position = self.checkbox.position();
        let total = self.checkbox.items().len();
        let left = total - position;
        let shown = if left <= allowed { left } else { allowed };
        let mut matrix: Vec<StyledGraphemes> = Vec::new();
        let mut k: usize = 0;
        while k < shown
            invariant
                k <= shown,
                shown == shown_rows(self@.checkbox.selector, self@.lines, height),
                position == self@.checkbox.selector.position,
                total == self@.checkbox.selector.items.len(),
                position + shown <= total,
                views_of(matrix@) == self@.rows(width, height).take(k as int),
            decreases shown - k,
        {
            let body = self.entry(position + k);
            let row = listed_row(
                self.cursor.as_str(),
                self.active_item_style,
                self.inactive_item_style,
                k == 0,
                &body,
                width,
            );
            let ghost before = views_of(matrix@);
            matrix.push(row);
            assert(views_of(matrix@) =~= before.push(row@));
            assert(self@.rows(width, height).take(k + 1) =~= self@.rows(width, height).take(
                k as int,
            ).push(row@));
            k = k + 1;
        }
        assert(self@.rows(width, height).take(shown as int) =~= self@.rows(width, height));
        Pane::new(matrix, 0, None)
    }
}

} // verus!
