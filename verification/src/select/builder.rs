//! Puts a select prompt together.
use vstd::prelude::*;
use crate::error::Error;
use crate::event::KeyEvent;
use crate::grapheme::{graphemes_of, Grapheme, Graphemes};
use crate::keybind::KeyBind;
use crate::select::{default_bindings, default_keybind, Action, Dispatcher, DispatcherView, State, StateView};
use crate::selector::{Selector, SelectorView};
use crate::style::{Color, ContentStyle};
use crate::text;

verus! {

/// The view of a builder.
pub struct BuilderView {
    pub keybind: Seq<(KeyEvent, Action)>,
    pub items: Seq<Seq<char>>,
    pub title: Option<text::StateView>,
    pub label: Seq<Grapheme>,
    pub label_color: Color,
    pub init_move_down_lines: u16,
    pub window: Option<u16>,
    pub suffix_after_trim: Seq<Grapheme>,
}

/// The label in front of the current item, unless another is set.
pub open spec fn default_label() -> Seq<char> {
    "❯ "@
}

/// What stands behind an item that was cut off, unless something else is
/// set.
pub open spec fn default_suffix() -> Seq<char> {
    "…"@
}

impl BuilderView {
    /// The builder for `items` before anything else is set.
    pub open spec fn initial(items: Seq<Seq<char>>) -> BuilderView {
        BuilderView {
            keybind: default_bindings(),
            items,
            title: None,
            label: graphemes_of(default_label()),
            label_color: Color::Reset,
            init_move_down_lines: 0,
            window: None,
            suffix_after_trim: graphemes_of(default_suffix()),
        }
    }

    /// The prompt that a session begins with: the first item current, on
    /// the first row of the window.
    pub open spec fn session(self) -> DispatcherView {
        DispatcherView {
            keybind: self.keybind,
            state: StateView {
                editor: SelectorView { items: self.items, position: 0 },
                title: self.title,
                screen_position: 0,
                label: self.label,
                label_color: self.label_color,
                init_move_down_lines: self.init_move_down_lines,
                window: self.window,
                suffix_after_trim: self.suffix_after_trim,
            },
        }
    }
}

/// Collects what a select prompt is made of.
pub struct Builder {
    _keybind: KeyBind<Action>,
    _items: Vec<String>,
    _title: Option<text::State>,
    _label: Graphemes,
    _label_color: Color,
    _init_move_down_lines: u16,
    _window: Option<u16>,
    _suffix_after_trim: Graphemes,
}

impl View for Builder {
    type V = BuilderView;

    closed spec fn view(&self) -> BuilderView {
        BuilderView {
            keybind: self._keybind@,
            items: self._items.deep_view(),
            title: match self._title {
                Some(t) => Some(t@),
                None => None,
            },
            label: self._label@,
            label_color: self._label_color,
            init_move_down_lines: self._init_move_down_lines,
            window: self._window,
            suffix_after_trim: self._suffix_after_trim@,
        }
    }
}

impl Builder {
    /// A builder for a prompt that lets one of `items` be chosen.
    pub fn new(items: Vec<String>) -> (b: Self)
        ensures
            b@ == BuilderView::initial(items.deep_view()),
    {
        Self {
            _keybind: default_keybind(),
            _items: items,
            _title: None,
            _label: Graphemes::from("❯ "),
            _label_color: Color::Reset,
            _init_move_down_lines: 0,
            _window: None,
            _suffix_after_trim: Graphemes::from("…"),
        }
    }

    /// Puts the prompt together, or says with [`Error::NoItems`] that
    /// there is no item to choose from.
    pub fn dispatcher(self) -> (r: Result<Dispatcher, Error>)
        ensures
            self@.items.len() == 0 <==> r == Err::<Dispatcher, Error>(Error::NoItems),
            self@.items.len() > 0 ==> r is Ok && r->Ok_0@ == self@.session(),
    {
        match Selector::new(self._items) {
            Ok(selector) => Ok(
                Dispatcher {
                    keybind: self._keybind,
                    state: State {
                        editor: selector,
                        title: self._title,
                        screen_position: 0,
                        label: self._label,
                        label_color: self._label_color,
                        init_move_down_lines: self._init_move_down_lines,
                        window: self._window,
                        suffix_after_trim: self._suffix_after_trim,
                    },
                },
            ),
            Err(e) => Err(e),
        }
    }

    /// Replaces the keys of the prompt.
    pub fn keybind(self, keybind: KeyBind<Action>) -> (b: Self)
        ensures
            b@ == (BuilderView { keybind: keybind@, ..self@ }),
    {
        let mut this = self;
        this._keybind = keybind;
        this
    }

    /// Sets the title shown above the items, in the plain style.
    pub fn title(self, title: &str) -> (b: Self)
        ensures
            b@ == (BuilderView {
                title: Some(text::StateView { text: title@, style: ContentStyle::plain() }),
                ..self@
            }),
    {
        let mut this = self;
        this._title = Some(text::State { text: String::from_str(title), style: ContentStyle::new() });
        this
    }

    /// Sets the colour of the title. Without a title nothing changes.
    pub fn title_color(self, color: Color) -> (b: Self)
        ensures
            b@ == (BuilderView {
                title: match self@.title {
                    Some(t) => Some(
                        text::StateView {
                            style: ContentStyle { foreground_color: Some(color), ..t.style },
                            ..t
                        },
                    ),
                    None => None,
                },
                ..self@
            }),
    {
        let mut this = self;
        match &mut this._title {
            Some(t) => {
                t.style.foreground_color = Some(color);
            },
            None => {},
        }
        this
    }

    /// Sets the label in front of the current item.
    pub fn label(self, label: &str) -> (b: Self)
        ensures
            b@ == (BuilderView { label: graphemes_of(label@), ..self@ }),
    {
        let mut this = self;
        this._label = Graphemes::from(label);
        this
    }

    /// Sets the colour of the label and of the current item.
    pub fn label_color(self, color: Color) -> (b: Self)
        ensures
            b@ == (BuilderView { label_color: color, ..self@ }),
    {
        let mut this = self;
        this._label_color = color;
        this
    }

    /// Sets the number of rows that the prompt is moved down by.
    pub fn init_move_down_lines(self, lines: u16) -> (b: Self)
        ensures
            b@ == (BuilderView { init_move_down_lines: lines, ..self@ }),
    {
        let mut this = self;
        this._init_move_down_lines = lines;
        this
    }

    /// Sets the largest number of rows that the items are shown on.
    pub fn window(self, size: u16) -> (b: Self)
        ensures
            b@ == (BuilderView { window: Some(size), ..self@ }),
    {
        let mut this = self;
        this._window = Some(size);
        this
    }

    /// Sets what stands behind an item that was cut off.
    pub fn suffix_after_trim(self, suffix: &str) -> (b: Self)
        ensures
            b@ == (BuilderView { suffix_after_trim: graphemes_of(suffix@), ..self@ }),
    {
        let mut this = self;
        this._suffix_after_trim = Graphemes::from(suffix);
        this
    }
}

} // verus!
