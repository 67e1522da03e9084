//! A one-line text editor: a text buffer behind a label.
use vstd::prelude::*;
use crate::event::{Event, KeyCode, KeyModifiers};
use crate::cell::wrapped;
use crate::grapheme::{chars_of, graphemes_of, matrixify, Grapheme, Graphemes};
use crate::pane::Pane;
use crate::replicate::Replicate;
use crate::text::{row_of, scroll_row, EditOp, TextBuffer, TextBufferView};

verus! {

/// The view of a text editor.
pub struct TextEditorView {
    pub textbuffer: TextBufferView,
    pub label: Seq<Grapheme>,
}

/// The editing step that an event stands for, if any.
///
/// The arrow keys move the cursor, Control with `a` and with `e` move it to
/// the head and to the tail, Backspace erases, and a character typed alone or
/// with Shift is inserted. Every other event stands for nothing.
pub open spec fn edit_for(event: Event) -> Option<EditOp> {
    if event == Event::press(KeyCode::Left, KeyModifiers::spec_none()) {
        Some(EditOp::Prev)
    } else if event == Event::press(KeyCode::Right, KeyModifiers::spec_none()) {
        Some(EditOp::Next)
    } else if event == Event::press(KeyCode::Char('a'), KeyModifiers::spec_control()) {
        Some(EditOp::ToHead)
    } else if event == Event::press(KeyCode::Char('e'), KeyModifiers::spec_control()) {
        Some(EditOp::ToTail)
    } else if event == Event::press(KeyCode::Backspace, KeyModifiers::spec_none()) {
        Some(EditOp::Erase)
    } else {
        match event {
            Event::Key(key) => match key.code {
                KeyCode::Char(ch) => if event == Event::press(
                    KeyCode::Char(ch),
                    KeyModifiers::spec_none(),
                ) || event == Event::press(KeyCode::Char(ch), KeyModifiers::spec_shift()) {
                    Some(EditOp::Insert(Grapheme::of(ch)))
                } else {
                    None
                },
                _ => None,
            },
            _ => None,
        }
    }
}

impl TextEditorView {
    /// The editor after `event`: the buffer after the step that the event
    /// stands for, or the editor as it was where it stands for none.
    pub open spec fn handle(self, event: Event) -> TextEditorView {
        match edit_for(event) {
            Some(op) => TextEditorView { textbuffer: self.textbuffer.apply(op), ..self },
            None => self,
        }
    }

    /// The editor after the events `events`, taken from left to right.
    pub open spec fn handle_all(self, events: Seq<Event>) -> TextEditorView
        decreases events.len(),
    {
        if events.len() == 0 {
            self
        } else {
            self.handle_all(events.drop_last()).handle(events.last())
        }
    }

    /// The editor with an empty buffer.
    pub open spec fn reset(self) -> TextEditorView {
        TextEditorView { textbuffer: TextBufferView::empty(), ..self }
    }

    /// What is drawn on one line after the other: the label, then the text.
    pub open spec fn line(self) -> Seq<Grapheme> {
        self.label + self.textbuffer.buf
    }
}

/// Whatever events an editor is given, its cursor stays within the text or
/// directly behind it, and its label stays what it was.
pub proof fn lemma_events_keep_cursor_in_bounds(e: TextEditorView, events: Seq<Event>)
    requires
        e.textbuffer.wf(),
    ensures
        e.handle_all(events).textbuffer.wf(),
        e.handle_all(events).label == e.label,
    decreases events.len(),
{
    if events.len() > 0 {
        lemma_events_keep_cursor_in_bounds(e, events.drop_last());
    }
}

/// The label of a new editor.
pub open spec fn default_label() -> Seq<char> {
    "❯❯ "@
}

/// A text buffer behind a label.
pub struct TextEditor {
    textbuffer: TextBuffer,
    label: Graphemes,
}

impl View for TextEditor {
    type V = TextEditorView;

    closed spec fn view(&self) -> TextEditorView {
        TextEditorView { textbuffer: self.textbuffer@, label: self.label@ }
    }
}

impl Clone for TextEditor {
    fn clone(&self) -> (r: Self)
        ensures
            r@ == self@,
    {
        TextEditor { textbuffer: self.textbuffer.clone(), label: self.label.clone() }
    }
}

impl Replicate for TextEditor {
    fn replicate(&self) -> (r: Self) {
        self.clone()
    }
}

impl TextEditor {
    /// An editor with an empty buffer behind the default label.
    pub fn new() -> (e: Self)
        ensures
            e@ == (TextEditorView {
                textbuffer: TextBufferView::empty(),
                label: graphemes_of(default_label()),
            }),
    {
        Self { textbuffer: TextBuffer::new(), label: Graphemes::from("❯❯ ") }
    }

    /// Replaces the label.
    pub fn label(self, label: Graphemes) -> (e: Self)
        ensures
            e@ == (TextEditorView { label: label@, ..self@ }),
    {
        let mut e = self;
        e.label = label;
        e
    }

    /// Takes one editing step.
    pub fn apply(&mut self, op: EditOp)
        ensures
            final(self)@ == (TextEditorView {
                textbuffer: old(self)@.textbuffer.apply(op),
                ..old(self)@
            }),
            final(self)@.textbuffer.wf(),
    {
        self.textbuffer.apply(op)
    }

    /// Replaces the text and moves the cursor behind it.
    pub fn replace(&mut self, text: &str)
        ensures
            final(self)@ == (TextEditorView {
                textbuffer: TextBufferView::holding(graphemes_of(text@)),
                ..old(self)@
            }),
            final(self)@.textbuffer.wf(),
    {
        self.textbuffer.replace(Graphemes::new(text))
    }

    /// The label in front of the text.
    pub fn prefix(&self) -> (g: &Graphemes)
        ensures
            g@ == self@.label,
    {
        &self.label
    }

    /// The buffer that the editor works on.
    pub fn textbuffer(&self) -> (b: &TextBuffer)
        ensures
            b@ == self@.textbuffer,
    {
        &self.textbuffer
    }

    /// The editing step that `event` stands for, if any.
    pub fn binding(event: &Event) -> (op: Option<EditOp>)
        ensures
            op == edit_for(*event),
    {
        match event {
            Event::Key(key) => {
                if key.is(KeyCode::Left, KeyModifiers::none()) {
                    Some(EditOp::Prev)
                } else if key.is(KeyCode::Right, KeyModifiers::none()) {
                    Some(EditOp::Next)
                } else if key.is(KeyCode::Char('a'), KeyModifiers::control()) {
                    Some(EditOp::ToHead)
                } else if key.is(KeyCode::Char('e'), KeyModifiers::control()) {
                    Some(EditOp::ToTail)
                } else if key.is(KeyCode::Backspace, KeyModifiers::none()) {
                    Some(EditOp::Erase)
                } else {
                    match key.code {
                        KeyCode::Char(ch) => {
                            if key.is(KeyCode::Char(ch), KeyModifiers::none()) || key.is(
                                KeyCode::Char(ch),
                                KeyModifiers::shift(),
                            ) {
                                Some(EditOp::Insert(Grapheme::from(ch)))
                            } else {
                                None
                            }
                        },
                        _ => None,
                    }
                }
            },
            _ => None,
        }
    }

    /// Lays the label and the text out in rows no wider than `size.0`
    /// columns, scrolled to the row that the cursor counts to. Where there
    /// is no column, nothing that takes one is laid out, and the pane is
    /// scrolled to its first row.
    pub fn gen_pane(&self, size: (u16, u16)) -> (pane: Pane<Graphemes>)
        ensures
            pane@.rows == wrapped(size.0 as usize, self@.line()),
            pane@.offset == scroll_row(self@.textbuffer.position, size.0),
            pane@.fixed_height is None,
    {
        let mut buf = self.label.clone();
        buf.extend(self.textbuffer.graphemes());
        let layout = matrixify(size.0 as usize, buf);
        Pane::new(layout, row_of(self.textbuffer.position(), size.0), None)
    }

    /// Takes the editing step that `event` stands for; other events change
    /// nothing.
    pub fn handle_event(&mut self, event: &Event)
        ensures
            final(self)@ == old(self)@.handle(*event),
            final(self)@.textbuffer.wf(),
    {
        proof {
            use_type_invariant(&self.textbuffer);
        }
        match Self::binding(event) {
            Some(op) => self.textbuffer.apply(op),
            None => {},
        }
    }

    /// Empties the buffer.
    pub fn reset(&mut self)
        ensures
            final(self)@ == old(self)@.reset(),
    {
        self.textbuffer = TextBuffer::new();
    }

    /// The text, without the label.
    pub fn to_string(&self) -> (s: String)
        ensures
            s@ == chars_of(self@.textbuffer.buf),
    {
        self.textbuffer.to_string()
    }
}

} // verus!
