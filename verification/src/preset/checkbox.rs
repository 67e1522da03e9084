//! A prompt that lets any number of items of a list be picked.
use vstd::prelude::*;
use crate::checkbox;
use crate::checkbox::CheckboxView as BoxView;
use crate::error::Error;
use crate::preset::checkbox::keymap::{default_name, Keymap};
use crate::preset::checkbox::render::{Renderer, RendererView};
use crate::prompt::{Phase, Prompt};
use crate::selector::SelectorView;
use crate::snapshot::{Snapshot, SnapshotView};
use crate::style::{Attribute, Attributes, Color, ContentStyle, Style};
use crate::switch::{ActiveKeySwitcher, SwitcherView};
use crate::text;

pub mod keymap;
pub mod render;

verus! {

/// The view of a checkbox prompt that is being put together.
pub struct CheckboxView {
    pub title: text::StateView,
    pub items: Seq<Seq<char>>,
    pub cursor: Seq<char>,
    pub active_mark: char,
    pub inactive_mark: char,
    pub active_item_style: ContentStyle,
    pub inactive_item_style: ContentStyle,
    pub lines: Option<usize>,
}

/// The cursor in front of the current item, unless another is set.
pub open spec fn default_cursor() -> Seq<char> {
    "❯ "@
}

impl CheckboxView {
    /// The prompt for `items` before anything else is set: an empty title
    /// in bold, the current item in dark cyan behind the default cursor,
    /// picked items marked with a crossed box and the others with an empty
    /// one, and no limit on the lines.
    pub open spec fn initial(items: Seq<Seq<char>>) -> CheckboxView {
        CheckboxView {
            title: text::StateView {
                text: Seq::empty(),
                style: ContentStyle {
                    attributes: Attributes::empty().including(Attribute::Bold),
                    ..ContentStyle::plain()
                },
            },
            items,
            cursor: default_cursor(),
            active_mark: '☒',
            inactive_mark: '☐',
            active_item_style: ContentStyle {
                foreground_color: Some(Color::DarkCyan),
                ..ContentStyle::plain()
            },
            inactive_item_style: ContentStyle::plain(),
            lines: None,
        }
    }

    /// The state that a session begins with: the first item current, and
    /// none picked.
    pub open spec fn session(self) -> RendererView {
        RendererView {
            keymap: SwitcherView {
                keymaps: Map::<Seq<char>, Keymap>::empty().insert(default_name(), Keymap::Default),
                active: default_name(),
            },
            title: SnapshotView::fresh(self.title),
            checkbox: SnapshotView::fresh(
                checkbox::state::StateView {
                    checkbox: BoxView {
                        selector: SelectorView { items: self.items, position: 0 },
                        picked: Set::empty(),
                    },
                    cursor: self.cursor,
                    active_mark: self.active_mark,
                    inactive_mark: self.inactive_mark,
                    active_item_style: self.active_item_style,
                    inactive_item_style: self.inactive_item_style,
                    lines: self.lines,
                },
            ),
        }
    }
}

/// A checkbox prompt that is being put together.
pub struct Checkbox {
    title: text::State,
    items: Vec<String>,
    cursor: String,
    active_mark: char,
    inactive_mark: char,
    active_item_style: ContentStyle,
    inactive_item_style: ContentStyle,
    lines: Option<usize>,
}

impl View for Checkbox {
    type V = CheckboxView;

    closed spec fn view(&self) -> CheckboxView {
        CheckboxView {
            title: self.title@,
            items: self.items.deep_view(),
            cursor: self.cursor@,
            active_mark: self.active_mark,
            inactive_mark: self.inactive_mark,
            active_item_style: self.active_item_style,
            inactive_item_style: self.inactive_item_style,
            lines: self.lines,
        }
    }
}

impl Checkbox {
    /// A prompt that lets any of `items` be picked.
    pub fn new(items: Vec<String>) -> (b: Self)
        ensures
            b@ == CheckboxView::initial(items.deep_view()),
    {
        Checkbox {
            title: text::State {
                text: String::new(),
                style: Style::new().attrs(Attributes::from(Attribute::Bold)).build(),
            },
            items,
            cursor: String::from_str("❯ "),
            active_mark: '☒',
            inactive_mark: '☐',
            active_item_style: Style::new().fgc(Color::DarkCyan).build(),
            inactive_item_style: Style::new().build(),
            lines: None,
        }
    }

    /// Sets the title text displayed above the items.
    pub fn title(self, text: &str) -> (b: Self)
        ensures
            b@ == (CheckboxView { title: text::StateView { text: text@, ..self@.title }, ..self@ }),
    {
        let mut this = self;
        this.title.text = String::from_str(text);
        this
    }

    /// Sets the style for the title text.
    pub fn title_style(self, style: ContentStyle) -> (b: Self)
        ensures
            b@ == (CheckboxView { title: text::StateView { style, ..self@.title }, ..self@ }),
    {
        let mut this = self;
        this.title.style = style;
        this
    }

    /// Sets the cursor in front of the current item.
    pub fn cursor(self, cursor: &str) -> (b: Self)
        ensures
            b@ == (CheckboxView { cursor: cursor@, ..self@ }),
    {
        let mut this = self;
        this.cursor = String::from_str(cursor);
        this
    }

    /// Sets the mark in front of a picked item.
    pub fn active_mark(self, mark: char) -> (b: Self)
        ensures
            b@ == (CheckboxView { active_mark: mark, ..self@ }),
    {
        let mut this = self;
        this.active_mark = mark;
        this
    }

    /// Sets the mark in front of an item that is not picked.
    pub fn inactive_mark(self, mark: char) -> (b: Self)
        ensures
            b@ == (CheckboxView { inactive_mark: mark, ..self@ }),
    {
        let mut this = self;
        this.inactive_mark = mark;
        this
    }

    /// Sets the style of the current item.
    pub fn active_item_style(self, style: ContentStyle) -> (b: Self)
        ensures
            b@ == (CheckboxView { active_item_style: style, ..self@ }),
    {
        let mut this = self;
        this.active_item_style = style;
        this
    }

    /// Sets the style of the other items.
    pub fn inactive_item_style(self, style: ContentStyle) -> (b: Self)
        ensures
            b@ == (CheckboxView { inactive_item_style: style, ..self@ }),
    {
        let mut this = self;
        this.inactive_item_style = style;
        this
    }

    /// Sets the number of lines available for rendering the items.
    pub fn lines(self, lines: usize) -> (b: Self)
        ensures
            b@ == (CheckboxView { lines: Some(lines), ..self@ }),
    {
        let mut this = self;
        this.lines = Some(lines);
        this
    }

    /// Begins a session with the first item current and none picked, or
    /// says with [`Error::NoItems`] that there is no item to pick.
    pub fn prompt(self) -> (r: Result<Prompt<Renderer>, Error>)
        ensures
            self@.items.len() == 0 <==> r == Err::<Prompt<Renderer>, Error>(Error::NoItems),
            self@.items.len() > 0 ==> r is Ok && r->Ok_0.state() == self@.session()
                && r->Ok_0.stands() == Phase::Idle,
    {
        match checkbox::Checkbox::new(self.items) {
            Ok(checkbox) => Ok(
                Prompt::new(
                    Renderer {
                        keymap: ActiveKeySwitcher::new("default", Keymap::Default),
                        title_snapshot: Snapshot::new(self.title),
                        checkbox_snapshot: Snapshot::new(
                            checkbox::state::State {
                                checkbox,
                                cursor: self.cursor,
                                active_mark: self.active_mark,
                                inactive_mark: self.inactive_mark,
                                active_item_style: self.active_item_style,
                                inactive_item_style: self.inactive_item_style,
                                lines: self.lines,
                            },
                        ),
                    },
                ),
            ),
            Err(e) => Err(e),
        }
    }
}

} // verus!
