//! A prompt that reads one line of text.
use vstd::prelude::*;
use crate::editor::text::{TextEditor, TextEditorView};
use crate::grapheme::{graphemes_of, Graphemes};
use crate::listbox;
use crate::preset::readline::keymap::{default_name, on_suggest_name, Keymap};
use crate::preset::readline::render::{Renderer, RendererView};
use crate::prompt::{Phase, Prompt};
use crate::snapshot::{Snapshot, SnapshotView};
use crate::style::{Attribute, Attributes, Color, ContentStyle, Style};
use crate::suggest::Suggest;
use crate::switch::ActiveKeySwitcher;
use crate::text;
use crate::text::TextBufferView;
use crate::text_editor;
use crate::text_editor::Mode;
use crate::history::{History, HistoryView};
use crate::validate::{Unchecked, Validate, Validator};

pub mod keymap;
pub mod render;

verus! {

/// The view of a line prompt that is being put together.
pub struct ReadlineView<C> {
    pub title: text::StateView,
    pub text_editor: text_editor::StateView,
    /// The candidates for completion, where there are any.
    pub suggest: Option<Set<Seq<char>>>,
    pub error_message: text::StateView,
    /// The check that an input has to pass before the session ends with
    /// it, where one is set.
    pub validator: Option<C>,
}

/// The prefix in front of the input, unless another is set.
pub open spec fn default_prefix() -> Seq<char> {
    "❯❯ "@
}

/// The cursor in front of the chosen suggestion.
pub open spec fn suggest_cursor() -> Seq<char> {
    "❯ "@
}

impl ReadlineView<Unchecked> {
    /// The line prompt as it is before anything is set: an empty title in
    /// bold, an empty editor in insert mode behind a dark green prefix, with
    /// the character at the cursor on dark cyan, an empty error message in
    /// bold dark red, and neither history, mask, candidates nor check.
    pub open spec fn initial() -> ReadlineView<Unchecked> {
        ReadlineView {
            title: text::StateView {
                text: Seq::empty(),
                style: ContentStyle {
                    attributes: Attributes::empty().including(Attribute::Bold),
                    ..ContentStyle::plain()
                },
            },
            text_editor: text_editor::StateView {
                texteditor: TextEditorView {
                    textbuffer: TextBufferView::empty(),
                    label: graphemes_of(default_prefix()),
                },
                history: None,
                mask: None,
                prefix_style: ContentStyle {
                    foreground_color: Some(Color::DarkGreen),
                    ..ContentStyle::plain()
                },
                active_char_style: ContentStyle {
                    background_color: Some(Color::DarkCyan),
                    ..ContentStyle::plain()
                },
                inactive_char_style: ContentStyle::plain(),
                edit_mode: Mode::Insert,
                lines: None,
            },
            suggest: None,
            error_message: text::StateView {
                text: Seq::empty(),
                style: ContentStyle {
                    foreground_color: Some(Color::DarkRed),
                    attributes: Attributes::empty().including(Attribute::Bold),
                    ..ContentStyle::plain()
                },
            },
            validator: None,
        }
    }

}

impl<C: Validate> ReadlineView<C> {
    /// The list of suggestions as a session begins with it: no list, to be
    /// drawn on up to three lines with the chosen one in dark cyan.
    pub open spec fn suggest_list() -> listbox::StateView {
        listbox::StateView {
            listbox: None,
            cursor: suggest_cursor(),
            active_item_style: ContentStyle {
                foreground_color: Some(Color::DarkCyan),
                ..ContentStyle::plain()
            },
            inactive_item_style: ContentStyle::plain(),
            lines: Some(3usize),
        }
    }

    /// The state that a session of this prompt begins with: every widget as
    /// it was set, and the keymap for editing active.
    pub open spec fn session(self) -> RendererView<C> {
        RendererView {
            keymap: crate::switch::SwitcherView {
                keymaps: Map::<Seq<char>, Keymap>::empty().insert(
                    default_name(),
                    Keymap::Default,
                ).insert(on_suggest_name(), Keymap::OnSuggest),
                active: default_name(),
            },
            title: SnapshotView::fresh(self.title),
            text_editor: SnapshotView::fresh(self.text_editor),
            suggest: self.suggest,
            suggest_list: SnapshotView::fresh(Self::suggest_list()),
            validator: self.validator,
            error_message: SnapshotView::fresh(self.error_message),
        }
    }
}

/// The `Readline` struct provides functionality for reading a single line of input from the user.
/// It supports various configurations such as input masking, history, suggestions, and custom styles.
pub struct Readline<C: Validate = Unchecked> {
    /// The title displayed above the input field.
    title: text::State,
    /// The text editor where user input is entered.
    text_editor: text_editor::State,
    /// The candidates for completion, where there are any.
    suggest: Option<Suggest>,
    /// The error message shown where an input does not pass the check.
    error_message: text::State,
    /// Optional check on the input, with its error messages.
    validator: Option<C>,
}

impl<C: Validate> View for Readline<C> {
    type V = ReadlineView<C>;

    closed spec fn view(&self) -> ReadlineView<C> {
        ReadlineView {
            title: self.title@,
            text_editor: self.text_editor@,
            suggest: match self.suggest {
                Some(s) => Some(s@),
                None => None,
            },
            error_message: self.error_message@,
            validator: self.validator,
        }
    }
}

impl Default for Readline<Unchecked> {
    fn default() -> (r: Self)
        ensures
            r@ == ReadlineView::initial(),
    {
        Self {
            title: text::State {
                text: String::new(),
                style: Style::new().attrs(Attributes::from(Attribute::Bold)).build(),
            },
            text_editor: text_editor::State {
                texteditor: TextEditor::new(),
                history: None,
                mask: None,
                prefix_style: Style::new().fgc(Color::DarkGreen).build(),
                active_char_style: Style::new().bgc(Color::DarkCyan).build(),
                inactive_char_style: Style::new().build(),
                edit_mode: Mode::default(),
                lines: None,
            },
            suggest: None,
            error_message: text::State {
                text: String::new(),
                style: Style::new().fgc(Color::DarkRed).attrs(
                    Attributes::from(Attribute::Bold),
                ).build(),
            },
            validator: None,
        }
    }
}

impl<C: Validate> Readline<C> {
    /// Sets the title text displayed above the input field.
    pub fn title(self, text: &str) -> (r: Self)
        ensures
            r@ == (ReadlineView {
                title: text::StateView { text: text@, ..self@.title },
                ..self@
            }),
    {
        let mut this = self;
        this.title.text = String::from_str(text);
        this
    }

    /// Sets the style for the title text.
    pub fn title_style(self, style: ContentStyle) -> (r: Self)
        ensures
            r@ == (ReadlineView { title: text::StateView { style, ..self@.title }, ..self@ }),
    {
        let mut this = self;
        this.title.style = style;
        this
    }

    /// Enables suggestion functionality with the provided `Suggest` instance.
    pub fn enable_suggest(self, suggest: Suggest) -> (r: Self)
        ensures
            r@ == (ReadlineView { suggest: Some(suggest@), ..self@ }),
    {
        let mut this = self;
        this.suggest = Some(suggest);
        this
    }

    /// Enables history functionality allowing navigation through previous inputs.
    pub fn enable_history(self) -> (r: Self)
        ensures
            r@ == (ReadlineView {
                text_editor: text_editor::StateView {
                    history: Some(HistoryView::fresh()),
                    ..self@.text_editor
                },
                ..self@
            }),
    {
        let mut this = self;
        this.text_editor.history = Some(History::default());
        this
    }

    /// Sets the prefix string displayed before the input text.
    pub fn prefix_string(self, ps: &str) -> (r: Self)
        ensures
            r@ == (ReadlineView {
                text_editor: text_editor::StateView {
                    texteditor: TextEditorView {
                        label: graphemes_of(ps@),
                        ..self@.text_editor.texteditor
                    },
                    ..self@.text_editor
                },
                ..self@
            }),
    {
        let Readline { title, text_editor, suggest, error_message, validator } = self;
        let text_editor::State {
            texteditor,
            history,
            mask,
            prefix_style,
            active_char_style,
            inactive_char_style,
            edit_mode,
            lines,
        } = text_editor;
        Readline {
            title,
            text_editor: text_editor::State {
                texteditor: texteditor.label(Graphemes::new(ps)),
                history,
                mask,
                prefix_style,
                active_char_style,
                inactive_char_style,
                edit_mode,
                lines,
            },
            suggest,
            error_message,
            validator,
        }
    }

    /// Sets the character used for masking input text, typically used for password fields.
    pub fn mask(self, mask: char) -> (r: Self)
        ensures
            r@ == (ReadlineView {
                text_editor: text_editor::StateView { mask: Some(mask), ..self@.text_editor },
                ..self@
            }),
    {
        let mut this = self;
        this.text_editor.mask = Some(mask);
        this
    }

    /// Sets the style for the prefix string.
    pub fn prefix_string_style(self, style: ContentStyle) -> (r: Self)
        ensures
            r@ == (ReadlineView {
                text_editor: text_editor::StateView { prefix_style: style, ..self@.text_editor },
                ..self@
            }),
    {
        let mut this = self;
        this.text_editor.prefix_style = style;
        this
    }

    /// Sets the style for the currently active character in the input field.
    pub fn active_char_style(self, style: ContentStyle) -> (r: Self)
        ensures
            r@ == (ReadlineView {
                text_editor: text_editor::StateView {
                    active_char_style: style,
                    ..self@.text_editor
                },
                ..self@
            }),
    {
        let mut this = self;
        this.text_editor.active_char_style = style;
        this
    }

    /// Sets the style for characters that are not currently active in the input field.
    pub fn inactive_char_style(self, style: ContentStyle) -> (r: Self)
        ensures
            r@ == (ReadlineView {
                text_editor: text_editor::StateView {
                    inactive_char_style: style,
                    ..self@.text_editor
                },
                ..self@
            }),
    {
        let mut this = self;
        this.text_editor.inactive_char_style = style;
        this
    }

    /// Sets the edit mode for the text editor, either insert or overwrite.
    pub fn edit_mode(self, mode: Mode) -> (r: Self)
        ensures
            r@ == (ReadlineView {
                text_editor: text_editor::StateView { edit_mode: mode, ..self@.text_editor },
                ..self@
            }),
    {
        let mut this = self;
        this.text_editor.edit_mode = mode;
        this
    }

    /// Sets the number of lines available for rendering the text editor.
    pub fn text_editor_lines(self, lines: usize) -> (r: Self)
        ensures
            r@ == (ReadlineView {
                text_editor: text_editor::StateView { lines: Some(lines), ..self@.text_editor },
                ..self@
            }),
    {
        let mut this = self;
        this.text_editor.lines = Some(lines);
        this
    }

    /// Configures a validator for the input with a function to validate the input and another to configure the error message.
    ///
    /// The check that is set is made of the two functions given, and
    /// stands in place of the check that was set before. Everything else
    /// stays as it was.
    pub fn validator<V, F>(self, validator: V, error_message_configure: F) -> (r: Readline<
        Validator<V, F>,
    >) where V: Fn(&str) -> bool + 'static, F: Fn(&str) -> String + 'static
        requires
            forall|text: &str| call_requires(validator, (text,)),
            forall|text: &str| call_requires(error_message_configure, (text,)),
        ensures
            r@.validator matches Some(check) && check.predicate() == validator && check.wording()
                == error_message_configure,
            r@.title == self@.title,
            r@.text_editor == self@.text_editor,
            r@.suggest == self@.suggest,
            r@.error_message == self@.error_message,
    {
        Readline {
            title: self.title,
            text_editor: self.text_editor,
            suggest: self.suggest,
            error_message: self.error_message,
            validator: Some(Validator::new(validator, error_message_configure)),
        }
    }

    /// Begins a session: every widget starts from what was set here, and
    /// the keymap for editing is active.
    pub fn prompt(self) -> (p: Prompt<Renderer<C>>)
        ensures
            p.state() == self@.session(),
            p.stands() == Phase::Idle,
    {
        let keymap = ActiveKeySwitcher::new("default", Keymap::Default).register(
            "on_suggest",
            Keymap::OnSuggest,
        );
        let suggest_list = listbox::State {
            listbox: None,
            cursor: String::from_str("❯ "),
            active_item_style: Style::new().fgc(Color::DarkCyan).build(),
            inactive_item_style: Style::new().build(),
            lines: Some(3),
        };
        Prompt::new(
            Renderer {
                keymap,
                title_snapshot: Snapshot::new(self.title),
                text_editor_snapshot: Snapshot::new(self.text_editor),
                suggest: self.suggest,
                suggest_snapshot: Snapshot::new(suggest_list),
                validator: self.validator,
                error_message_snapshot: Snapshot::new(self.error_message),
            },
        )
    }
}

} // verus!
