//! The state of a line prompt and what each event does to it.
use vstd::prelude::*;
use crate::event::{Event, KeyCode, KeyModifiers};
use crate::cell::views_of;
use crate::grapheme::{StyledGraphemes, StyledRow};
use crate::listbox;
use crate::pane::{Pane, PaneView};
use crate::preset::readline::keymap;
use crate::preset::readline::keymap::{default_name, on_suggest_name, Keymap};
use crate::selector::{Selector, SelectorView};
use crate::snapshot::{Snapshot, SnapshotView};
use crate::suggest::{beginning_with, Suggest};
use crate::switch::{ActiveKeySwitcher, SwitcherView};
use crate::text;
use crate::text_editor;
use crate::validate::{Unchecked, Validate};
use crate::{PaneFactory, PromptSignal};

verus! {

/// The view of the state of a line prompt.
pub struct RendererView<C> {
    pub keymap: SwitcherView<Keymap>,
    pub title: SnapshotView<text::StateView>,
    pub text_editor: SnapshotView<text_editor::StateView>,
    /// The candidates for completion, where there are any.
    pub suggest: Option<Set<Seq<char>>>,
    pub suggest_list: SnapshotView<listbox::StateView>,
    /// The check that an input has to pass before the session ends with
    /// it, where one is set.
    pub validator: Option<C>,
    pub error_message: SnapshotView<text::StateView>,
}

/// Whether `found` is an answer that a search among `candidates` for those
/// that begin with `query` can give: the matches in some order, each once,
/// or nothing where there is no match.
pub open spec fn answers(
    candidates: Set<Seq<char>>,
    query: Seq<char>,
    found: Option<Seq<Seq<char>>>,
) -> bool {
    match found {
        Some(found) => {
            &&& found.len() > 0
            &&& found.no_duplicates()
            &&& found.to_set() == beginning_with(candidates, query)
        },
        None => beginning_with(candidates, query) == Set::<Seq<char>>::empty(),
    }
}

/// The verdict that `verdict` stands for.
pub open spec fn verdict_of(verdict: &Option<String>) -> Option<Seq<char>> {
    match verdict {
        Some(message) => Some(message@),
        None => None,
    }
}

/// The answer that `found` stands for.
pub open spec fn answer_of(found: &Option<Vec<String>>) -> Option<Seq<Seq<char>>> {
    match found {
        Some(found) => Some(found.deep_view()),
        None => None,
    }
}

impl<C: Validate> RendererView<C> {
    /// The text that was typed.
    pub open spec fn text(self) -> Seq<char> {
        self.text_editor.after.text()
    }

    /// The state with `editor` as the working state of the editor.
    pub open spec fn with_editor(self, editor: text_editor::StateView) -> RendererView<C> {
        RendererView {
            text_editor: SnapshotView { after: editor, ..self.text_editor },
            ..self
        }
    }

    /// The state with `list` as the list of suggestions shown.
    pub open spec fn with_list(self, list: Option<SelectorView>) -> RendererView<C> {
        RendererView {
            suggest_list: SnapshotView {
                after: listbox::StateView { listbox: list, ..self.suggest_list.after },
                ..self.suggest_list
            },
            ..self
        }
    }

    /// The state with the error message as it was when the session began.
    pub open spec fn clear_error(self) -> RendererView<C> {
        RendererView { error_message: self.error_message.reset(), ..self }
    }

    /// The state with `message` as the text of the error message.
    pub open spec fn show_error(self, message: Seq<char>) -> RendererView<C> {
        RendererView {
            error_message: SnapshotView {
                after: text::StateView { text: message, ..self.error_message.after },
                ..self.error_message
            },
            ..self
        }
    }

    /// What the verdict on the typed text leads to. `None` says that the
    /// text passed, `Some` carries the message for a text that did not.
    ///
    /// A text that passed is taken into the history, the error message goes
    /// back to what it was when the session began, and the session ends. A
    /// text that did not pass leaves its message as the error message, and
    /// the session goes on.
    pub open spec fn settle(self, verdict: Option<Seq<char>>) -> (RendererView<C>, PromptSignal) {
        match verdict {
            None => (
                self.with_editor(self.text_editor.after.remember()).clear_error(),
                PromptSignal::Quit,
            ),
            Some(message) => (self.show_error(message), PromptSignal::Continue),
        }
    }

    /// What the answer of a search for suggestions leads to.
    ///
    /// Suggestions that were found are shown as a list with the first of
    /// them chosen, the chosen one replaces the typed text, and the keymap
    /// for going through the list becomes active. The error message goes
    /// back to what it was when the session began either way.
    pub open spec fn offer(self, found: Option<Seq<Seq<char>>>) -> RendererView<C> {
        match found {
            Some(found) => if found.len() > 0 {
                RendererView {
                    keymap: self.keymap.switch(on_suggest_name()),
                    ..self.with_list(Some(SelectorView { items: found, position: 0 })).with_editor(
                        self.text_editor.after.holding(found[0]),
                    ).clear_error()
                }
            } else {
                self.clear_error()
            },
            None => self.clear_error(),
        }
    }

    /// What an event does that neither ends the line nor asks for
    /// suggestions: the up and down arrows go through the history, every
    /// other event is left to the editor.
    pub open spec fn type_in(self, event: Event) -> RendererView<C> {
        let editor = self.text_editor.after;
        if event == Event::press(KeyCode::Up, KeyModifiers::spec_none()) {
            self.with_editor(editor.recall_older()).clear_error()
        } else if event == Event::press(KeyCode::Down, KeyModifiers::spec_none()) {
            self.with_editor(editor.recall_newer()).clear_error()
        } else {
            self.with_editor(editor.edit(event)).clear_error()
        }
    }

    /// Whether the event goes through the list of suggestions.
    pub open spec fn browses(event: Event) -> bool {
        ||| event == Event::press(KeyCode::Tab, KeyModifiers::spec_none())
        ||| event == Event::press(KeyCode::Down, KeyModifiers::spec_none())
        ||| event == Event::press(KeyCode::Up, KeyModifiers::spec_none())
    }

    /// What an event that goes through the list of suggestions does: the up
    /// arrow chooses the one before, Tab and the down arrow the one behind,
    /// and the chosen one replaces the typed text.
    pub open spec fn browse(self, event: Event) -> RendererView<C> {
        match self.suggest_list.after.listbox {
            Some(list) => {
                let list = if event == Event::press(KeyCode::Up, KeyModifiers::spec_none()) {
                    list.prev()
                } else {
                    list.next()
                };
                self.with_list(Some(list)).with_editor(
                    self.text_editor.after.holding(list.items[list.position as int]),
                ).clear_error()
            },
            None => self.clear_error(),
        }
    }

    /// The state with no list of suggestions shown and the keymap for
    /// editing active.
    pub open spec fn leave_suggest(self) -> RendererView<C> {
        RendererView { keymap: self.keymap.switch(default_name()), ..self.with_list(None) }
    }

    /// Whether `self`, on `event` with the keymap for editing, can become
    /// `post` with `signal`.
    ///
    /// Enter ends the line: without a check the text passes. With one, the
    /// check is asked about the text: where it answers that the text
    /// passes, the outcome is that of a text that passed; where it answers
    /// that it does not, the outcome is that of the message that the check
    /// words for the text. Tab asks for suggestions where there are
    /// candidates, and the outcome is that of one of the answers that the
    /// search can give. Every other event is typed in.
    pub open spec fn edits_to(self, event: Event, post: RendererView<C>, signal: PromptSignal) -> bool {
        if event == Event::press(KeyCode::Enter, KeyModifiers::spec_none()) {
            match self.validator {
                Some(check) => {
                    ||| check.judges(self.text(), true) && (post, signal) == self.settle(None)
                    ||| check.judges(self.text(), false) && exists|message: Seq<char>|
                        #[trigger] check.words(self.text(), message) && (post, signal)
                            == self.settle(Some(message))
                },
                None => (post, signal) == self.settle(None),
            }
        } else if event == Event::press(KeyCode::Tab, KeyModifiers::spec_none())
            && self.suggest is Some {
            &&& signal == PromptSignal::Continue
            &&& exists|found: Option<Seq<Seq<char>>>|
                answers(self.suggest->Some_0, self.text(), found) && post == self.offer(found)
        } else {
            post == self.type_in(event) && signal == PromptSignal::Continue
        }
    }

    /// Whether `self`, on `event`, can become `post` with `signal`: whether
    /// the active keymap can make it so.
    pub open spec fn evaluates_to(self, event: Event, post: RendererView<C>, signal: PromptSignal) -> bool {
        match self.keymap.get() {
            Keymap::Default => self.edits_to(event, post, signal),
            Keymap::OnSuggest => self.browses_to(event, post, signal),
        }
    }

    /// Whether `self`, on `event` with the keymap for suggestions, can
    /// become `post` with `signal`.
    ///
    /// An event that goes through the list does so. Any other event puts
    /// the list away, makes the keymap for editing active, and then edits.
    pub open spec fn browses_to(self, event: Event, post: RendererView<C>, signal: PromptSignal) -> bool {
        if Self::browses(event) {
            post == self.browse(event) && signal == PromptSignal::Continue
        } else {
            self.leave_suggest().edits_to(event, post, signal)
        }
    }

    /// The state after the session's result was taken out.
    pub open spec fn finalized(self) -> RendererView<C> {
        RendererView { text_editor: self.text_editor.reset(), ..self }
    }

    /// The panes of the prompt from top to bottom: title, error message,
    /// editor, suggestions.
    pub open spec fn panes(self, width: u16, height: u16) -> Seq<PaneView<StyledRow>> {
        seq![
            self.title.after.pane(width),
            self.error_message.after.pane(width),
            self.text_editor.after.pane(width),
            self.suggest_list.after.pane(width, height),
        ]
    }
}

/// A `Renderer` for the readline preset, responsible for managing the rendering process.
/// It holds references to various components and their states, facilitating the rendering of the readline interface.
pub struct Renderer<C: Validate = Unchecked> {
    /// Manages key bindings and their associated actions within the readline interface.
    pub keymap: ActiveKeySwitcher<Keymap>,
    /// Holds a snapshot of the title's renderer state, used for rendering the title section.
    pub title_snapshot: Snapshot<text::State>,
    /// Holds a snapshot of the text editor's renderer state, used for rendering the text input area.
    pub text_editor_snapshot: Snapshot<text_editor::State>,
    /// Optional suggest component for autocomplete functionality.
    pub suggest: Option<Suggest>,
    /// Holds a snapshot of the suggest box's renderer state, used when rendering suggestions for autocomplete.
    pub suggest_snapshot: Snapshot<listbox::State>,
    /// Optional validator for input validation.
    pub validator: Option<C>,
    /// Holds a snapshot of the error message's renderer state, used for rendering error messages.
    pub error_message_snapshot: Snapshot<text::State>,
}

impl<C: Validate> View for Renderer<C> {
    type V = RendererView<C>;

    open spec fn view(&self) -> RendererView<C> {
        RendererView {
            keymap: self.keymap@,
            title: self.title_snapshot@,
            text_editor: self.text_editor_snapshot@,
            suggest: match self.suggest {
                Some(s) => Some(s@),
                None => None,
            },
            suggest_list: self.suggest_snapshot@,
            validator: self.validator,
            error_message: self.error_message_snapshot@,
        }
    }
}

impl<C: Validate> Renderer<C> {
    /// Acts on the verdict on the typed text. `None` says that the text
    /// passed, `Some` carries the message for a text that did not.
    pub fn settle(&mut self, verdict: Option<String>) -> (signal: PromptSignal)
        ensures
            (final(self)@, signal) == old(self)@.settle(verdict_of(&verdict)),
    {
        match verdict {
            None => {
                self.text_editor_snapshot.after_mut().remember();
                self.error_message_snapshot.reset_after_to_init();
                PromptSignal::Quit
            },
            Some(message) => {
                self.error_message_snapshot.after_mut().text = message;
                PromptSignal::Continue
            },
        }
    }

    /// Acts on the answer of a search for suggestions.
    pub fn offer(&mut self, found: Option<Vec<String>>)
        ensures
            final(self)@ == old(self)@.offer(answer_of(&found)),
    {
        self.error_message_snapshot.reset_after_to_init();
        match found {
            Some(found) => {
                match Selector::new(found) {
                    Ok(list) => {
                        self.text_editor_snapshot.after_mut().texteditor.replace(
                            list.get().as_str(),
                        );
                        self.suggest_snapshot.after_mut().listbox = Some(list);
                        self.keymap.switch("on_suggest");
                    },
                    Err(_) => {},
                }
            },
            None => {},
        }
    }

    /// Acts on an event that neither ends the line nor asks for suggestions.
    pub fn type_in(&mut self, event: &Event)
        ensures
            final(self)@ == old(self)@.type_in(*event),
    {
        self.error_message_snapshot.reset_after_to_init();
        match event {
            Event::Key(key) => {
                if key.is(KeyCode::Up, KeyModifiers::none()) {
                    self.text_editor_snapshot.after_mut().recall_older();
                } else if key.is(KeyCode::Down, KeyModifiers::none()) {
                    self.text_editor_snapshot.after_mut().recall_newer();
                } else {
                    self.text_editor_snapshot.after_mut().edit(event);
                }
            },
            _ => {
                self.text_editor_snapshot.after_mut().edit(event);
            },
        }
    }

    /// Whether the event goes through the list of suggestions.
    pub fn browses(event: &Event) -> (b: bool)
        ensures
            b == RendererView::<C>::browses(*event),
    {
        match event {
            Event::Key(key) => key.is(KeyCode::Tab, KeyModifiers::none()) || key.is(
                KeyCode::Down,
                KeyModifiers::none(),
            ) || key.is(KeyCode::Up, KeyModifiers::none()),
            _ => false,
        }
    }

    /// Acts on an event that goes through the list of suggestions.
    pub fn browse(&mut self, event: &Event)
        ensures
            final(self)@ == old(self)@.browse(*event),
    {
        self.error_message_snapshot.reset_after_to_init();
        let up = match event {
            Event::Key(key) => key.is(KeyCode::Up, KeyModifiers::none()),
            _ => false,
        };
        match &mut self.suggest_snapshot.after_mut().listbox {
            Some(list) => {
                if up {
                    list.prev();
                } else {
                    list.next();
                }
                self.text_editor_snapshot.after_mut().texteditor.replace(list.get().as_str());
            },
            None => {},
        }
    }

    /// Puts the list of suggestions away and makes the keymap for editing
    /// active.
    pub fn leave_suggest(&mut self)
        ensures
            final(self)@ == old(self)@.leave_suggest(),
    {
        self.suggest_snapshot.after_mut().listbox = None;
        self.keymap.switch("default");
    }
}

impl<C: Validate> crate::Finalizer for Renderer<C> {
    type Return = String;

    open spec fn finalizes_to(pre: RendererView<C>, post: RendererView<C>, ret: String) -> bool {
        ret@ == pre.text() && post == pre.finalized()
    }

    /// Hands out the text that was typed and puts the editor back to what
    /// it was when the session began.
    fn finalize(&mut self) -> (text: String) {
        let text = self.text_editor_snapshot.after().text();
        self.text_editor_snapshot.reset_after_to_init();
        text
    }
}

impl<C: Validate> crate::Renderer for Renderer<C> {
    open spec fn frames(v: RendererView<C>, width: u16, height: u16) -> Seq<PaneView<StyledRow>> {
        v.panes(width, height)
    }

    open spec fn evaluates_to(
        pre: RendererView<C>,
        event: Event,
        post: RendererView<C>,
        signal: PromptSignal,
    ) -> bool {
        pre.evaluates_to(event, post, signal)
    }

    /// Acts on one event with the active keymap and says whether the
    /// session goes on.
    fn evaluate(&mut self, event: &Event) -> (signal: PromptSignal) {
        match self.keymap.get() {
            Keymap::Default => keymap::default(event, self),
            Keymap::OnSuggest => keymap::on_suggest(event, self),
        }
    }

    /// Draws the widgets from top to bottom.
    fn create_panes(&self, width: u16, height: u16) -> (panes: Vec<Pane<StyledGraphemes>>) {
        let mut panes: Vec<Pane<StyledGraphemes>> = Vec::new();
        panes.push(self.title_snapshot.create_pane(width, height));
        panes.push(self.error_message_snapshot.create_pane(width, height));
        panes.push(self.text_editor_snapshot.create_pane(width, height));
        panes.push(self.suggest_snapshot.create_pane(width, height));
        assert(views_of(panes@) =~= self@.panes(width, height));
        panes
    }
}

} // verus!
