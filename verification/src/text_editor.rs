//! How a text editor is drawn, and what it does with an editing step.
use vstd::prelude::*;
use crate::editor::text::{edit_for, TextEditor, TextEditorView};
use crate::event::Event;
use crate::cell::wrapped;
use crate::grapheme::{
    chars_of, graphemes_of, styled, Grapheme, Graphemes, StyledGrapheme, StyledGraphemes,
    StyledRow,
};
use crate::history::{History, HistoryView};
use crate::pane::{Pane, PaneView};
use crate::replicate::Replicate;
use crate::PaneFactory;
use crate::style::ContentStyle;
use crate::text::{row_of, scroll_row, EditOp, TextBufferView};

verus! {

/// Whether a typed character is put between the others or in the place of
/// the one at the cursor.
#[derive(Clone, Copy, Debug, PartialEq, Eq)]
pub enum Mode {
    /// Typed characters are inserted at the cursor.
    Insert,
    /// Typed characters replace the one at the cursor.
    Overwrite,
}

impl Default for Mode {
    fn default() -> (m: Self)
        ensures
            m == Mode::Insert,
    {
        Mode::Insert
    }
}

/// The editing step `op` as the mode has it: in overwrite mode an insertion
/// becomes a replacement.
pub open spec fn in_mode(mode: Mode, op: EditOp) -> EditOp {
    match (mode, op) {
        (Mode::Overwrite, EditOp::Insert(g)) => EditOp::Overwrite(g),
        _ => op,
    }
}

/// `text` with each grapheme replaced by the one that stands for `mask`.
pub open spec fn masked(text: Seq<Grapheme>, mask: char) -> Seq<Grapheme> {
    text.map_values(|g: Grapheme| Grapheme::of(mask))
}

/// The view of the state of a text editor.
pub struct StateView {
    pub texteditor: TextEditorView,
    pub history: Option<HistoryView>,
    pub mask: Option<char>,
    pub prefix_style: ContentStyle,
    pub active_char_style: ContentStyle,
    pub inactive_char_style: ContentStyle,
    pub edit_mode: Mode,
    pub lines: Option<usize>,
}

impl StateView {
    /// The text that was typed.
    pub open spec fn text(self) -> Seq<char> {
        chars_of(self.texteditor.textbuffer.buf)
    }

    /// The state with `text` in the editor and the cursor behind it.
    pub open spec fn holding(self, text: Seq<char>) -> StateView {
        StateView {
            texteditor: TextEditorView {
                textbuffer: TextBufferView::holding(graphemes_of(text)),
                ..self.texteditor
            },
            ..self
        }
    }

    /// The state after the editing step that `event` stands for, taken as
    /// the mode has it; the state as it was where the event stands for none.
    pub open spec fn edit(self, event: Event) -> StateView {
        match edit_for(event) {
            Some(op) => StateView {
                texteditor: TextEditorView {
                    textbuffer: self.texteditor.textbuffer.apply(in_mode(self.edit_mode, op)),
                    ..self.texteditor
                },
                ..self
            },
            None => self,
        }
    }

    /// The state with the next older entry of the history in the editor,
    /// where the history is kept and has one; the state as it was otherwise.
    pub open spec fn recall_older(self) -> StateView {
        match self.history {
            Some(h) => if h.can_backward() {
                StateView { history: Some(h.backward()), ..self }.holding(h.backward().get())
            } else {
                self
            },
            None => self,
        }
    }

    /// The state with the next newer entry of the history in the editor,
    /// where the history is kept and has one; the state as it was otherwise.
    pub open spec fn recall_newer(self) -> StateView {
        match self.history {
            Some(h) => if h.can_forward() {
                StateView { history: Some(h.forward()), ..self }.holding(h.forward().get())
            } else {
                self
            },
            None => self,
        }
    }

    /// The state with the text that was typed taken into the history, where
    /// one is kept.
    pub open spec fn remember(self) -> StateView {
        match self.history {
            Some(h) => StateView { history: Some(h.insert(self.text())), ..self },
            None => self,
        }
    }

    /// The graphemes shown for the text: the text itself, or the mask once
    /// for each of its graphemes where a mask is set.
    pub open spec fn shown(self) -> Seq<Grapheme> {
        match self.mask {
            Some(mask) => masked(self.texteditor.textbuffer.buf, mask),
            None => self.texteditor.textbuffer.buf,
        }
    }

    /// The first `n` graphemes shown for the text, with their styles: the
    /// one under the cursor in the active style, the others in the inactive
    /// one.
    pub open spec fn text_cells(self, n: int) -> Seq<StyledGrapheme> {
        Seq::new(
            n as nat,
            |i: int|
                StyledGrapheme {
                    grapheme: self.shown()[i],
                    style: if i == self.texteditor.textbuffer.position {
                        self.active_char_style
                    } else {
                        self.inactive_char_style
                    },
                },
        )
    }

    /// What shows the cursor where it stands behind the text: a space in
    /// the active style.
    pub open spec fn cursor_cell(self) -> Seq<StyledGrapheme> {
        if self.texteditor.textbuffer.position >= self.texteditor.textbuffer.buf.len() {
            seq![StyledGrapheme { grapheme: Grapheme::of(' '), style: self.active_char_style }]
        } else {
            Seq::empty()
        }
    }

    /// What is drawn: the prefix in its style, then the text, then the
    /// cursor where it stands behind the text.
    pub open spec fn line(self) -> Seq<StyledGrapheme> {
        styled(self.texteditor.label, self.prefix_style) + self.text_cells(
            self.shown().len() as int,
        ) + self.cursor_cell()
    }

    /// The rows that the line takes at the given width.
    pub open spec fn rows(self, width: u16) -> Seq<StyledRow> {
        wrapped(width as usize, self.line())
    }

    /// The pane that the editor is drawn as: its rows, scrolled to the row
    /// that the cursor counts to and held to the number of lines asked for.
    pub open spec fn pane(self, width: u16) -> PaneView<StyledRow> {
        PaneView {
            rows: self.rows(width),
            offset: scroll_row(self.texteditor.textbuffer.position, width),
            fixed_height: match self.lines {
                Some(lines) => Some(lines as nat),
                None => None,
            },
        }
    }
}

/// A text editor and how it is drawn.
pub struct State {
    /// The editor, with the prefix as its label.
    pub texteditor: TextEditor,
    /// The inputs of earlier sessions, where they are kept.
    pub history: Option<History>,
    /// The character shown in place of each typed one, if any.
    pub mask: Option<char>,
    /// Style of the prefix.
    pub prefix_style: ContentStyle,
    /// Style of the character at the cursor.
    pub active_char_style: ContentStyle,
    /// Style of the other characters.
    pub inactive_char_style: ContentStyle,
    /// Whether typed characters are inserted or replace the one at the cursor.
    pub edit_mode: Mode,
    /// Number of lines available for rendering.
    pub lines: Option<usize>,
}

impl View for State {
    type V = StateView;

    open spec fn view(&self) -> StateView {
        StateView {
            texteditor: self.texteditor@,
            history: match self.history {
                Some(h) => Some(h@),
                None => None,
            },
            mask: self.mask,
            prefix_style: self.prefix_style,
            active_char_style: self.active_char_style,
            inactive_char_style: self.inactive_char_style,
            edit_mode: self.edit_mode,
            lines: self.lines,
        }
    }
}

impl Clone for State {
    fn clone(&self) -> (r: Self)
        ensures
            r@ == self@,
    {
        State {
            texteditor: self.texteditor.clone(),
            history: match &self.history {
                Some(h) => Some(h.clone()),
                None => None,
            },
            mask: self.mask,
            prefix_style: self.prefix_style,
            active_char_style: self.active_char_style,
            inactive_char_style: self.inactive_char_style,
            edit_mode: self.edit_mode,
            lines: self.lines,
        }
    }
}

impl Replicate for State {
    fn replicate(&self) -> (r: Self) {
        self.clone()
    }
}

impl State {
    /// The text that was typed.
    pub fn text(&self) -> (s: String)
        ensures
            s@ == self@.text(),
    {
        self.texteditor.to_string()
    }

    /// Takes the editing step that `event` stands for, as the mode has it.
    pub fn edit(&mut self, event: &Event)
        ensures
            final(self)@ == old(self)@.edit(*event),
    {
        match TextEditor::binding(event) {
            Some(op) => {
                let op = match (self.edit_mode, op) {
                    (Mode::Overwrite, EditOp::Insert(g)) => EditOp::Overwrite(g),
                    (_, op) => op,
                };
                self.texteditor.apply(op);
            },
            None => {},
        }
    }

    /// Puts the next older entry of the history into the editor.
    pub fn recall_older(&mut self)
        ensures
            final(self)@ == old(self)@.recall_older(),
    {
        match &mut self.history {
            Some(h) => {
                if h.backward() {
                    self.texteditor.replace(h.get().as_str());
                }
            },
            None => {},
        }
    }

    /// Puts the next newer entry of the history into the editor.
    pub fn recall_newer(&mut self)
        ensures
            final(self)@ == old(self)@.recall_newer(),
    {
        match &mut self.history {
            Some(h) => {
                if h.forward() {
                    self.texteditor.replace(h.get().as_str());
                }
            },
            None => {},
        }
    }

    /// Takes the text that was typed into the history, where one is kept.
    pub fn remember(&mut self)
        ensures
            final(self)@ == old(self)@.remember(),
    {
        let text = self.texteditor.to_string();
        match &mut self.history {
            Some(h) => {
                h.insert(text);
            },
            None => {},
        }
    }

    /// The graphemes shown for the text.
    fn shown(&self) -> (g: Graphemes)
        ensures
            g@ == self@.shown(),
    {
        let text = self.texteditor.textbuffer().graphemes();
        match self.mask {
            Some(mask) => {
                let cell = Grapheme::from(mask);
                let mut out: Vec<Grapheme> = Vec::new();
                let n = text.len();
                let mut i: usize = 0;
                while i < n
                    invariant
                        n == text@.len(),
                        i <= n,
                        cell == Grapheme::of(mask),
                        out@ == masked(text@.take(i as int), mask),
                    decreases n - i,
                {
                    out.push(cell);
                    assert(out@ =~= masked(text@.take(i + 1), mask));
                    i = i + 1;
                }
                assert(text@.take(n as int) =~= text@);
                Graphemes(out)
            },
            None => text.clone(),
        }
    }
}

impl PaneFactory for State {
    open spec fn pane(v: StateView, width: u16, height: u16) -> PaneView<StyledRow> {
        v.pane(width)
    }

    /// Lays the prefix and the text out in rows no wider than `width`,
    /// scrolled to the row that the cursor counts to and held to the
    /// number of lines asked for.
    fn create_pane(&self, width: u16, height: u16) -> (pane: Pane<StyledGraphemes>) {
        let position = self.texteditor.textbuffer().position();
        let shown = self.shown();
        let mut line = StyledGraphemes::from_graphemes(self.texteditor.prefix(), self.prefix_style);
        let ghost prefix = line@;
        let n = shown.len();
        let mut i: usize = 0;
        while i < n
            invariant
                n == shown@.len(),
                i <= n,
                shown@ == self@.shown(),
                position == self@.texteditor.textbuffer.position,
                line@ == prefix + self@.text_cells(i as int),
            decreases n - i,
        {
            line.0.push(
                StyledGrapheme {
                    grapheme: shown.0[i],
                    style: if i == position {
                        self.active_char_style
                    } else {
                        self.inactive_char_style
                    },
                },
            );
            assert(line@ =~= prefix + self@.text_cells(i + 1));
            i = i + 1;
        }
        if position >= n {
            line.0.push(
                StyledGrapheme { grapheme: Grapheme::from(' '), style: self.active_char_style },
            );
        }
        assert(line@ =~= self@.line());
        Pane::new(line.matrixify(width as usize), row_of(position, width), self.lines)
    }
}

} // verus!
