//! Text that is shown, and text that is edited: a styled message, and a
//! line of text with a cursor in it.
use vstd::prelude::*;
use crate::cell::wrapped;
use crate::grapheme::{graphemes_of, styled, Grapheme, Graphemes, StyledGraphemes, StyledRow};
use crate::pane::{Pane, PaneView};
use crate::replicate::Replicate;
use crate::PaneFactory;
use crate::style::ContentStyle;

verus! {

/// The view of a text buffer: its graphemes and the cursor, counted in
/// graphemes from the start.
pub struct TextBufferView {
    pub buf: Seq<Grapheme>,
    pub position: nat,
}

/// One editing step on a text buffer.
pub enum EditOp {
    /// Move the cursor one grapheme to the left.
    Prev,
    /// Move the cursor one grapheme to the right.
    Next,
    /// Move the cursor before the first grapheme.
    ToHead,
    /// Move the cursor behind the last grapheme.
    ToTail,
    /// Insert a grapheme at the cursor.
    Insert(Grapheme),
    /// Put a grapheme in the place of the one at the cursor.
    Overwrite(Grapheme),
    /// Erase the grapheme before the cursor.
    Erase,
}

/// The row that scrolling starts from for a cursor at `position` in rows
/// `width` columns wide: the number of full rows that the position counts
/// to, and the first row where there is no column to count with.
pub open spec fn scroll_row(position: nat, width: u16) -> nat {
    if width == 0 {
        0
    } else {
        position / (width as nat)
    }
}

/// The row that scrolling starts from for a cursor at `position` in rows
/// `width` columns wide.
pub fn row_of(position: usize, width: u16) -> (row: usize)
    ensures
        row == scroll_row(position as nat, width),
{
    if width == 0 {
        0
    } else {
        position / (width as usize)
    }
}

impl TextBufferView {
    /// The cursor lies within the text or directly behind it.
    pub open spec fn wf(self) -> bool {
        self.position <= self.buf.len()
    }

    /// The empty buffer.
    pub open spec fn empty() -> TextBufferView {
        TextBufferView { buf: Seq::empty(), position: 0 }
    }

    /// One step to the left, unless the cursor is at the start.
    pub open spec fn prev(self) -> TextBufferView {
        if self.position > 0 {
            TextBufferView { position: (self.position - 1) as nat, ..self }
        } else {
            self
        }
    }

    /// One step to the right, unless the cursor is behind the text.
    pub open spec fn next(self) -> TextBufferView {
        if self.position < self.buf.len() {
            TextBufferView { position: self.position + 1, ..self }
        } else {
            self
        }
    }

    /// The cursor before the first grapheme.
    pub open spec fn to_head(self) -> TextBufferView {
        TextBufferView { position: 0, ..self }
    }

    /// The cursor behind the last grapheme.
    pub open spec fn to_tail(self) -> TextBufferView {
        TextBufferView { position: self.buf.len(), ..self }
    }

    /// `g` placed at the cursor, and the cursor moved behind it.
    pub open spec fn insert(self, g: Grapheme) -> TextBufferView {
        TextBufferView { buf: self.buf.insert(self.position as int, g), position: self.position + 1 }
    }

    /// `g` in the place of the grapheme at the cursor, or behind the text
    /// where the cursor stands there, and the cursor moved behind it.
    pub open spec fn overwrite(self, g: Grapheme) -> TextBufferView {
        if self.position < self.buf.len() {
            TextBufferView {
                buf: self.buf.update(self.position as int, g),
                position: self.position + 1,
            }
        } else {
            self.insert(g)
        }
    }

    /// The text `text`, with the cursor behind it.
    pub open spec fn holding(text: Seq<Grapheme>) -> TextBufferView {
        TextBufferView { buf: text, position: text.len() }
    }

    /// The grapheme before the cursor removed, and the cursor moved onto its
    /// place; nothing where the cursor is at the start.
    pub open spec fn erase(self) -> TextBufferView {
        if self.position > 0 {
            TextBufferView {
                buf: self.buf.remove(self.position - 1),
                position: (self.position - 1) as nat,
            }
        } else {
            self
        }
    }

    /// The buffer after one editing step.
    pub open spec fn apply(self, op: EditOp) -> TextBufferView {
        match op {
            EditOp::Prev => self.prev(),
            EditOp::Next => self.next(),
            EditOp::ToHead => self.to_head(),
            EditOp::ToTail => self.to_tail(),
            EditOp::Insert(g) => self.insert(g),
            EditOp::Overwrite(g) => self.overwrite(g),
            EditOp::Erase => self.erase(),
        }
    }

    /// The buffer after the editing steps `ops`, taken from left to right.
    pub open spec fn apply_all(self, ops: Seq<EditOp>) -> TextBufferView
        decreases ops.len(),
    {
        if ops.len() == 0 {
            self
        } else {
            self.apply_all(ops.drop_last()).apply(ops.last())
        }
    }
}

/// One editing step keeps the cursor within the text or directly behind it.
pub proof fn lemma_apply_keeps_cursor_in_bounds(b: TextBufferView, op: EditOp)
    requires
        b.wf(),
    ensures
        b.apply(op).wf(),
{
}

/// After any finite sequence of editing steps the cursor still lies within
/// the text or directly behind it.
pub proof fn lemma_edits_keep_cursor_in_bounds(b: TextBufferView, ops: Seq<EditOp>)
    requires
        b.wf(),
    ensures
        b.apply_all(ops).wf(),
    decreases ops.len(),
{
    if ops.len() > 0 {
        lemma_edits_keep_cursor_in_bounds(b, ops.drop_last());
        lemma_apply_keeps_cursor_in_bounds(b.apply_all(ops.drop_last()), ops.last());
    }
}

/// Text and the position of a cursor in it.
#[derive(Debug, PartialEq, Eq)]
pub struct TextBuffer {
    buf: Graphemes,
    position: usize,
}

impl View for TextBuffer {
    type V = TextBufferView;

    closed spec fn view(&self) -> TextBufferView {
        TextBufferView { buf: self.buf@, position: self.position as nat }
    }
}

impl Clone for TextBuffer {
    fn clone(&self) -> (r: Self)
        ensures
            r@ == self@,
    {
        proof {
            use_type_invariant(self);
        }
        TextBuffer { buf: self.buf.clone(), position: self.position }
    }
}

impl Replicate for TextBuffer {
    fn replicate(&self) -> (r: Self) {
        self.clone()
    }
}

impl TextBuffer {
    /// What holds of every buffer: see [`TextBufferView::wf`].
    #[verifier::type_invariant]
    pub open spec fn cursor_in_bounds(self) -> bool {
        self@.wf()
    }

    /// The empty buffer.
    pub fn new() -> (b: Self)
        ensures
            b@ == TextBufferView::empty(),
    {
        TextBuffer { buf: Graphemes::default(), position: 0 }
    }

    /// The text.
    pub fn graphemes(&self) -> (g: &Graphemes)
        ensures
            g@ == self@.buf,
    {
        &self.buf
    }

    /// The cursor, counted in graphemes from the start.
    pub fn position(&self) -> (p: usize)
        ensures
            p == self@.position,
            self@.wf(),
    {
        proof {
            use_type_invariant(self);
        }
        self.position
    }

    /// Moves the cursor one grapheme to the left; at the start it stays.
    pub fn prev(&mut self)
        ensures
            final(self)@ == old(self)@.prev(),
            final(self)@.wf(),
    {
        proof {
            use_type_invariant(&*self);
        }
        if self.position > 0 {
            self.position = self.position - 1;
        }
    }

    /// Moves the cursor one grapheme to the right; behind the text it stays.
    pub fn next(&mut self)
        ensures
            final(self)@ == old(self)@.next(),
            final(self)@.wf(),
    {
        proof {
            use_type_invariant(&*self);
        }
        if self.position < self.buf.0.len() {
            self.position = self.position + 1;
        }
    }

    /// Moves the cursor before the first grapheme.
    pub fn to_head(&mut self)
        ensures
            final(self)@ == old(self)@.to_head(),
            final(self)@.wf(),
    {
        self.position = 0;
    }

    /// Moves the cursor behind the last grapheme.
    pub fn to_tail(&mut self)
        ensures
            final(self)@ == old(self)@.to_tail(),
            final(self)@.wf(),
    {
        self.position = self.buf.0.len();
    }

    /// Inserts `g` at the cursor and moves the cursor behind it.
    pub fn insert(&mut self, g: Grapheme)
        ensures
            final(self)@ == old(self)@.insert(g),
            final(self)@.wf(),
    {
        proof {
            use_type_invariant(&*self);
        }
        // The text is taken out while it grows, with the cursor at the
        // start, so that the cursor is at no time behind the text.
        let at = self.position;
        let mut items: Vec<Grapheme> = Vec::new();
        self.position = 0;
        std::mem::swap(&mut self.buf.0, &mut items);
        items.insert(at, g);
        assert(at < items.len());
        std::mem::swap(&mut self.buf.0, &mut items);
        self.position = at + 1;
    }

    /// Puts `g` in the place of the grapheme at the cursor, or behind the
    /// text where the cursor stands there, and moves the cursor behind it.
    pub fn overwrite(&mut self, g: Grapheme)
        ensures
            final(self)@ == old(self)@.overwrite(g),
            final(self)@.wf(),
    {
        proof {
            use_type_invariant(&*self);
        }
        let at = self.position;
        if at < self.buf.0.len() {
            let mut items: Vec<Grapheme> = Vec::new();
            self.position = 0;
            std::mem::swap(&mut self.buf.0, &mut items);
            items.set(at, g);
            std::mem::swap(&mut self.buf.0, &mut items);
            self.position = at + 1;
        } else {
            self.insert(g);
        }
    }

    /// Replaces the text and moves the cursor behind it.
    pub fn replace(&mut self, text: Graphemes)
        ensures
            final(self)@ == TextBufferView::holding(text@),
            final(self)@.wf(),
    {
        let mut text = text;
        let n = text.0.len();
        self.position = 0;
        std::mem::swap(&mut self.buf, &mut text);
        self.position = n;
    }

    /// Erases the grapheme before the cursor and moves the cursor onto its
    /// place; at the start nothing changes.
    pub fn erase(&mut self)
        ensures
            final(self)@ == old(self)@.erase(),
            final(self)@.wf(),
    {
        proof {
            use_type_invariant(&*self);
        }
        if self.position > 0 {
            let at = self.position - 1;
            let mut items: Vec<Grapheme> = Vec::new();
            self.position = 0;
            std::mem::swap(&mut self.buf.0, &mut items);
            items.remove(at);
            std::mem::swap(&mut self.buf.0, &mut items);
            self.position = at;
        }
    }

    /// Takes one editing step.
    pub fn apply(&mut self, op: EditOp)
        ensures
            final(self)@ == old(self)@.apply(op),
            final(self)@.wf(),
    {
        match op {
            EditOp::Prev => self.prev(),
            EditOp::Next => self.next(),
            EditOp::ToHead => self.to_head(),
            EditOp::ToTail => self.to_tail(),
            EditOp::Insert(g) => self.insert(g),
            EditOp::Overwrite(g) => self.overwrite(g),
            EditOp::Erase => self.erase(),
        }
    }

    /// The text as a string.
    pub fn to_string(&self) -> (s: String)
        ensures
            s@ == crate::grapheme::chars_of(self@.buf),
    {
        self.buf.to_string()
    }
}

/// The view of a message: its characters and its style.
pub struct StateView {
    pub text: Seq<char>,
    pub style: ContentStyle,
}

impl StateView {
    /// The rows that the message takes at the given width.
    pub open spec fn rows(self, width: usize) -> Seq<StyledRow> {
        wrapped(width, styled(graphemes_of(self.text), self.style))
    }

    /// The pane that the message is drawn as: its rows, not scrolled.
    pub open spec fn pane(self, width: u16) -> PaneView<StyledRow> {
        PaneView { rows: self.rows(width as usize), offset: 0, fixed_height: None }
    }
}

/// A message in one style, such as a title or an error.
pub struct State {
    pub text: String,
    pub style: ContentStyle,
}

impl View for State {
    type V = StateView;

    open spec fn view(&self) -> StateView {
        StateView { text: self.text@, style: self.style }
    }
}

impl Clone for State {
    fn clone(&self) -> (r: Self)
        ensures
            r@ == self@,
    {
        State { text: self.text.clone(), style: self.style }
    }
}

impl Replicate for State {
    fn replicate(&self) -> (r: Self) {
        self.clone()
    }
}

impl Default for State {
    fn default() -> (s: Self)
        ensures
            s@ == (StateView { text: Seq::empty(), style: ContentStyle::plain() }),
    {
        State { text: String::new(), style: ContentStyle::new() }
    }
}

impl PaneFactory for State {
    open spec fn pane(v: StateView, width: u16, height: u16) -> PaneView<StyledRow> {
        v.pane(width)
    }

    /// Lays the message out in rows no wider than `width`. An empty message
    /// gives one empty row, and so an empty pane.
    fn create_pane(&self, width: u16, height: u16) -> (pane: Pane<StyledGraphemes>) {
        let styled = StyledGraphemes::from_str(self.text.as_str(), self.style);
        Pane::new(styled.matrixify(width as usize), 0, None)
    }
}

} // verus!
