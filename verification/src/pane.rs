//! A block of rows laid out for one frame, and the window of it that a
//! viewport of a given height shows.
use vstd::prelude::*;
use crate::cell::views_of;
use crate::grapheme::Row;

verus! {

/// The view of a pane: the views of its rows, the row that scrolling starts
/// from, and the height it is held to, if any.
pub struct PaneView<V> {
    pub rows: Seq<V>,
    pub offset: nat,
    pub fixed_height: Option<nat>,
}

impl<V> PaneView<V> {
    /// The number of rows shown in a viewport of the given height: all the
    /// rows, unless the fixed height or the viewport is smaller.
    pub open spec fn lines(self, viewport_height: nat) -> nat {
        let wanted = match self.fixed_height {
            Some(h) => h,
            None => viewport_height,
        };
        let allowed = if wanted <= viewport_height { wanted } else { viewport_height };
        if self.rows.len() <= allowed { self.rows.len() } else { allowed }
    }

    /// The first row shown: the offset, moved up as far as is needed for the
    /// window to end within the rows.
    pub open spec fn start(self, viewport_height: nat) -> nat {
        let lines = self.lines(viewport_height);
        if self.offset + lines > self.rows.len() {
            (self.rows.len() - lines) as nat
        } else {
            self.offset
        }
    }

    /// The rows shown in a viewport of the given height.
    pub open spec fn window(self, viewport_height: nat) -> Seq<V> {
        let start = self.start(viewport_height) as int;
        self.rows.subrange(start, start + self.lines(viewport_height))
    }
}

/// The window is in range for every offset, and is a run of consecutive rows
/// in their order.
pub proof fn lemma_window_in_range<V>(pane: PaneView<V>, viewport_height: nat)
    ensures
        pane.start(viewport_height) + pane.lines(viewport_height) <= pane.rows.len(),
        pane.window(viewport_height).len() == pane.lines(viewport_height),
        forall|i: int|
            0 <= i < pane.lines(viewport_height) ==> #[trigger] pane.window(viewport_height)[i]
                == pane.rows[pane.start(viewport_height) + i],
        pane.offset + pane.lines(viewport_height) <= pane.rows.len() ==> pane.start(
            viewport_height,
        ) == pane.offset,
{
}

/// Represents a pane within a terminal interface, managing a layout of rows.
pub struct Pane<R: Row> {
    /// The rows of the pane.
    layout: Vec<R>,
    /// The offset from the top of the pane, used when extracting rows to display.
    offset: usize,
    /// An optional fixed height for the pane. If set, this limits the number of rows extracted.
    fixed_height: Option<usize>,
}

impl<R: Row> View for Pane<R> {
    type V = PaneView<R::V>;

    closed spec fn view(&self) -> PaneView<R::V> {
        PaneView {
            rows: views_of(self.layout@),
            offset: self.offset as nat,
            fixed_height: match self.fixed_height {
                Some(h) => Some(h as nat),
                None => None,
            },
        }
    }
}

impl<R: Row> Pane<R> {
    /// Constructs a new `Pane` with the specified layout, offset, and optional fixed height.
    pub fn new(layout: Vec<R>, offset: usize, fixed_height: Option<usize>) -> (pane: Self)
        ensures
            pane@.rows == views_of(layout@),
            pane@.offset == offset,
            pane@.fixed_height == match fixed_height {
                Some(h) => Some(h as nat),
                None => None::<nat>,
            },
    {
        Pane { layout, offset, fixed_height }
    }

    /// Checks if the pane is empty. A pane is empty if it holds a single row
    /// that takes no column.
    pub fn is_empty(&self) -> (b: bool)
        ensures
            b == (self@.rows.len() == 1 && R::span(self@.rows[0]) == 0),
    {
        self.layout.len() == 1 && self.layout[0].is_blank()
    }

    /// Extracts the rows to show in a viewport of the given height.
    ///
    /// As many rows are returned as the pane has, the fixed height (where
    /// set) allows, and the viewport holds. They start at the offset; where
    /// that would run past the last row, the window is moved up so that it
    /// ends with the last row.
    pub fn extract(&self, viewport_height: usize) -> (rows: Vec<R>)
        ensures
            views_of(rows@) == self@.window(viewport_height as nat),
            rows@.len() == self@.lines(viewport_height as nat),
    {
        let total = self.layout.len();
        let wanted = match self.fixed_height {
            Some(h) => h,
            None => viewport_height,
        };
        let allowed = if wanted <= viewport_height { wanted } else { viewport_height };
        let lines = if total <= allowed { total } else { allowed };
        let start = if self.offset > total - lines { total - lines } else { self.offset };
        let mut rows: Vec<R> = Vec::new();
        let mut i: usize = 0;
        while i < lines
            invariant
                i <= lines,
                start + lines <= total,
                total == self.layout@.len(),
                rows@.len() == i,
                views_of(rows@) == views_of(self.layout@).subrange(start as int, start + i),
            decreases lines - i,
        {
            let row = self.layout[start + i].replicate();
            let ghost before = views_of(rows@);
            rows.push(row);
            assert(views_of(rows@) =~= before.push(row@));
            assert(views_of(self.layout@).subrange(start as int, start + i + 1) =~= views_of(
                self.layout@,
            ).subrange(start as int, start + i).push(self.layout@[start + i]@));
            i = i + 1;
        }
        rows
    }
}

/// Whether a pane with view `pane` is empty: whether it holds a single row
/// that takes no column.
pub open spec fn is_empty_pane<R: Row>(pane: PaneView<R::V>) -> bool {
    pane.rows.len() == 1 && R::span(pane.rows[0]) == 0
}

/// The rows of a frame of the given height that shows `panes` below each
/// other: each pane takes its window of the rows that are left, and an
/// empty pane takes no row.
pub open spec fn frame<R: Row>(panes: Seq<PaneView<R::V>>, height: nat) -> Seq<R::V>
    decreases panes.len(),
{
    if panes.len() == 0 {
        Seq::empty()
    } else if is_empty_pane::<R>(panes.first()) {
        frame::<R>(panes.drop_first(), height)
    } else {
        let shown = panes.first().window(height);
        shown + frame::<R>(panes.drop_first(), (height - shown.len()) as nat)
    }
}

/// A frame has no more rows than it is high.
pub proof fn lemma_frame_fits<R: Row>(panes: Seq<PaneView<R::V>>, height: nat)
    ensures
        frame::<R>(panes, height).len() <= height,
    decreases panes.len(),
{
    if panes.len() > 0 {
        if is_empty_pane::<R>(panes.first()) {
            lemma_frame_fits::<R>(panes.drop_first(), height);
        } else {
            let shown = panes.first().window(height);
            lemma_window_in_range(panes.first(), height);
            lemma_frame_fits::<R>(panes.drop_first(), (height - shown.len()) as nat);
        }
    }
}

/// Puts a frame of the given height together from `panes`, which stand
/// below each other in their order.
pub fn compose<R: Row>(panes: &Vec<Pane<R>>, height: usize) -> (rows: Vec<R>)
    ensures
        views_of(rows@) == frame::<R>(views_of(panes@), height as nat),
        rows@.len() <= height,
{
    proof {
        lemma_frame_fits::<R>(views_of(panes@), height as nat);
    }
    let mut rows: Vec<R> = Vec::new();
    let mut left: usize = height;
    let n = panes.len();
    let mut i: usize = 0;
    assert(views_of(panes@).skip(0) =~= views_of(panes@));
    while i < n
        invariant
            n == panes@.len(),
            i <= n,
            frame::<R>(views_of(panes@), height as nat) == views_of(rows@) + frame::<R>(
                views_of(panes@).skip(i as int),
                left as nat,
            ),
        decreases n - i,
    {
        let ghost rest = views_of(panes@).skip(i as int);
        proof {
            assert(rest.first() == panes@[i as int]@);
            assert(rest.drop_first() =~= views_of(panes@).skip(i + 1));
        }
        if !panes[i].is_empty() {
            let mut shown = panes[i].extract(left);
            let ghost before = views_of(rows@);
            let ghost window = views_of(shown@);
            left = left - shown.len();
            rows.append(&mut shown);
            assert(views_of(rows@) =~= before + window);
            assert(before + (window + frame::<R>(rest.drop_first(), left as nat)) =~= (before
                + window) + frame::<R>(rest.drop_first(), left as nat));
        }
        i = i + 1;
    }
    assert(views_of(panes@).skip(n as int) =~= Seq::<PaneView<R::V>>::empty());
    assert(views_of(rows@) + Seq::<R::V>::empty() =~= views_of(rows@));
    rows
}

} // verus!
