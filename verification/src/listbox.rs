//! A list of items drawn one to a row, with a cursor in front of the
//! current one.
use vstd::prelude::*;
use crate::cell::{total_width, truncated, views_of};
use crate::grapheme::{
    graphemes_of, spaces, styled, Grapheme, Graphemes, StyledGraphemes, StyledRow,
};
use crate::pane::{Pane, PaneView};
use crate::replicate::Replicate;
use crate::PaneFactory;
use crate::selector::{Selector, SelectorView};
use crate::style::ContentStyle;

verus! {

/// How the rows of a list are led in and styled.
pub struct RowStyle {
    pub cursor: Seq<char>,
    pub active: ContentStyle,
    pub inactive: ContentStyle,
}

/// The row of a list that holds `body`, cut off at `width` columns.
///
/// The row of the current item begins with the cursor and is drawn in the
/// active style. Every other row begins with as many spaces as the cursor is
/// wide and is drawn in the inactive style.
pub open spec fn listed(look: RowStyle, current: bool, body: Seq<Grapheme>, width: u16) -> StyledRow {
    if current {
        styled(truncated(graphemes_of(look.cursor) + body, width as nat), look.active)
    } else {
        styled(
            truncated(spaces(total_width(graphemes_of(look.cursor))) + body, width as nat),
            look.inactive,
        )
    }
}

/// The number of rows allowed in a viewport of the given height: the
/// height, or the number of lines asked for where that is less.
pub open spec fn allowed_rows(lines: Option<usize>, height: u16) -> nat {
    match lines {
        Some(lines) => if lines <= height { lines as nat } else { height as nat },
        None => height as nat,
    }
}

/// The number of rows drawn for a list: one for each item from the current
/// one on, as far as rows are allowed.
pub open spec fn shown_rows(list: SelectorView, lines: Option<usize>, height: u16) -> nat {
    let left = (list.items.len() - list.position) as nat;
    if left <= allowed_rows(lines, height) {
        left
    } else {
        allowed_rows(lines, height)
    }
}

/// Builds the row of a list that holds `body`.
pub fn listed_row(
    cursor: &str,
    active: ContentStyle,
    inactive: ContentStyle,
    current: bool,
    body: &Graphemes,
    width: u16,
) -> (row: StyledGraphemes)
    ensures
        row@ == listed(RowStyle { cursor: cursor@, active, inactive }, current, body@, width),
{
    let lead = Graphemes::new(cursor);
    let mut line = if current { lead } else { lead.padding() };
    line.extend(body);
    StyledGraphemes::from_graphemes(
        &line.truncate_to_width(width as usize),
        if current { active } else { inactive },
    )
}

/// The number of rows allowed in a viewport of the given height.
pub fn rows_allowed(lines: Option<usize>, height: u16) -> (n: usize)
    ensures
        n == allowed_rows(lines, height),
{
    match lines {
        Some(lines) => if lines <= height as usize { lines } else { height as usize },
        None => height as usize,
    }
}

/// The view of the state of a listbox.
pub struct StateView {
    pub listbox: Option<SelectorView>,
    pub cursor: Seq<char>,
    pub active_item_style: ContentStyle,
    pub inactive_item_style: ContentStyle,
    pub lines: Option<usize>,
}

impl StateView {
    /// How the rows are led in and styled.
    pub open spec fn look(self) -> RowStyle {
        RowStyle {
            cursor: self.cursor,
            active: self.active_item_style,
            inactive: self.inactive_item_style,
        }
    }

    /// The pane that the list is drawn as: its rows, not scrolled.
    pub open spec fn pane(self, width: u16, height: u16) -> PaneView<StyledRow> {
        PaneView { rows: self.rows(width, height), offset: 0, fixed_height: None }
    }

    /// The rows drawn in a viewport of the given size: none where there is
    /// no list, and else one for each item from the current one on, as far
    /// as the viewport and the number of lines asked for allow.
    pub open spec fn rows(self, width: u16, height: u16) -> Seq<StyledRow> {
        match self.listbox {
            Some(list) => Seq::new(
                shown_rows(list, self.lines, height),
                |k: int|
                    listed(
                        self.look(),
                        k == 0,
                        graphemes_of(list.items[list.position + k]),
                        width,
                    ),
            ),
            None => Seq::empty(),
        }
    }
}

/// A list, where there is one to show, and how it is drawn.
pub struct State {
    /// The list, or `None` while there is nothing to choose from.
    pub listbox: Option<Selector>,
    /// Symbol for the selected line.
    pub cursor: String,
    /// Style for the selected line.
    pub active_item_style: ContentStyle,
    /// Style for unselected lines.
    pub inactive_item_style: ContentStyle,
    /// Number of lines available for rendering.
    pub lines: Option<usize>,
}

impl View for State {
    type V = StateView;

    open spec fn view(&self) -> StateView {
        StateView {
            listbox: match self.listbox {
                Some(list) => Some(list@),
                None => None,
            },
            cursor: self.cursor@,
            active_item_style: self.active_item_style,
            inactive_item_style: self.inactive_item_style,
            lines: self.lines,
        }
    }
}

impl Clone for State {
    fn clone(&self) -> (r: Self)
        ensures
            r@ == self@,
    {
        State {
            listbox: match &self.listbox {
                Some(list) => Some(list.clone()),
                None => None,
            },
            cursor: self.cursor.clone(),
            active_item_style: self.active_item_style,
            inactive_item_style: self.inactive_item_style,
            lines: self.lines,
        }
    }
}

impl Replicate for State {
    fn replicate(&self) -> (r: Self) {
        self.clone()
    }
}

impl PaneFactory for State {
    open spec fn pane(v: StateView, width: u16, height: u16) -> PaneView<StyledRow> {
        v.pane(width, height)
    }

    /// Draws the items from the current one on, one to a row.
    fn create_pane(&self, width: u16, height: u16) -> (pane: Pane<StyledGraphemes>) {
        let mut matrix: Vec<StyledGraphemes> = Vec::new();
        match &self.listbox {
            Some(list) => {
                let allowed = rows_allowed(self.lines, height);
                let position = list.position();
                let items = list.items();
                let total = items.len();
                let left = total - position;
                let shown = if left <= allowed { left } else { allowed };
                let mut k: usize = 0;
                while k < shown
                    invariant
                        k <= shown,
                        self.listbox == Some(*list),
                        shown == shown_rows(list@, self.lines, height),
                        position == list@.position,
                        items.deep_view() == list@.items,
                        total == items@.len(),
                        position + shown <= total,
                        views_of(matrix@) == self@.rows(width, height).take(k as int),
                    decreases shown - k,
                {
                    assert(items.deep_view()[position + k] == items@[position + k]@);
                    let body = Graphemes::new(items[position + k].as_str());
                    let row = listed_row(
                        self.cursor.as_str(),
                        self.active_item_style,
                        self.inactive_item_style,
                        k == 0,
                        &body,
                        width,
                    );
                    let ghost before = views_of(matrix@);
                    matrix.push(row);
                    assert(views_of(matrix@) =~= before.push(row@));
                    assert(self@.rows(width, height).take(k + 1) =~= self@.rows(
                        width,
                        height,
                    ).take(k as int).push(row@));
                    k = k + 1;
                }
                assert(self@.rows(width, height).take(shown as int) =~= self@.rows(width, height));
            },
            None => {
                assert(views_of(matrix@) =~= self@.rows(width, height));
            },
        }
        Pane::new(matrix, 0, None)
    }
}

} // verus!
