//! A prompt that lets one item of a list be chosen.
use vstd::prelude::*;
use crate::error::Error;
use crate::listbox;
use crate::preset::listbox::keymap::{default_name, Keymap};
use crate::preset::listbox::render::{Renderer, RendererView};
use crate::prompt::{Phase, Prompt};
use crate::selector::{Selector, SelectorView};
use crate::snapshot::{Snapshot, SnapshotView};
use crate::style::{Attribute, Attributes, Color, ContentStyle, Style};
use crate::switch::{ActiveKeySwitcher, SwitcherView};
use crate::text;

pub mod keymap;
pub mod render;

verus! {

/// The view of a list prompt that is being put together.
pub struct ListboxView {
    pub title: text::StateView,
    pub items: Seq<Seq<char>>,
    pub cursor: Seq<char>,
    pub active_item_style: ContentStyle,
    pub inactive_item_style: ContentStyle,
    pub lines: Option<usize>,
}

/// The cursor in front of the current item, unless another is set.
pub open spec fn default_cursor() -> Seq<char> {
    "❯ "@
}

impl ListboxView {
    /// The prompt for `items` before anything else is set: an empty title
    /// in bold, the current item in dark cyan behind the default cursor, and
    /// no limit on the lines.
    pub open spec fn initial(items: Seq<Seq<char>>) -> ListboxView {
        ListboxView {
            title: text::StateView {
                text: Seq::empty(),
                style: ContentStyle {
                    attributes: Attributes::empty().including(Attribute::Bold),
                    ..ContentStyle::plain()
                },
            },
            items,
            cursor: default_cursor(),
            active_item_style: ContentStyle {
                foreground_color: Some(Color::DarkCyan),
                ..ContentStyle::plain()
            },
            inactive_item_style: ContentStyle::plain(),
            lines: None,
        }
    }

    /// The state that a session begins with: the first item current.
    pub open spec fn session(self) -> RendererView {
        RendererView {
            keymap: SwitcherView {
                keymaps: Map::<Seq<char>, Keymap>::empty().insert(default_name(), Keymap::Default),
                active: default_name(),
            },
            title: SnapshotView::fresh(self.title),
            listbox: SnapshotView::fresh(
                listbox::StateView {
                    listbox: Some(SelectorView { items: self.items, position: 0 }),
                    cursor: self.cursor,
                    active_item_style: self.active_item_style,
                    inactive_item_style: self.inactive_item_style,
                    lines: self.lines,
                },
            ),
        }
    }
}

/// A list prompt that is being put together.
pub struct Listbox {
    title: text::State,
    items: Vec<String>,
    cursor: String,
    active_item_style: ContentStyle,
    inactive_item_style: ContentStyle,
    lines: Option<usize>,
}

impl View for Listbox {
    type V = ListboxView;

    closed spec fn view(&self) -> ListboxView {
        ListboxView {
            title: self.title@,
            items: self.items.deep_view(),
            cursor: self.cursor@,
            active_item_style: self.active_item_style,
            inactive_item_style: self.inactive_item_style,
            lines: self.lines,
        }
    }
}

impl Listbox {
    /// A prompt that lets one of `items` be chosen.
    pub fn new(items: Vec<String>) -> (b: Self)
        ensures
            b@ == ListboxView::initial(items.deep_view()),
    {
        Listbox {
            title: text::State {
                text: String::new(),
                style: Style::new().attrs(Attributes::from(Attribute::Bold)).build(),
            },
            items,
            cursor: String::from_str("❯ "),
            active_item_style: Style::new().fgc(Color::DarkCyan).build(),
            inactive_item_style: Style::new().build(),
            lines: None,
        }
    }

    /// Sets the title text displayed above the list.
    pub fn title(self, text: &str) -> (b: Self)
        ensures
            b@ == (ListboxView { title: text::StateView { text: text@, ..self@.title }, ..self@ }),
    {
        let mut this = self;
        this.title.text = String::from_str(text);
        this
    }

    /// Sets the style for the title text.
    pub fn title_style(self, style: ContentStyle) -> (b: Self)
        ensures
            b@ == (ListboxView { title: text::StateView { style, ..self@.title }, ..self@ }),
    {
        let mut this = self;
        this.title.style = style;
        this
    }

    /// Sets the cursor in front of the current item.
    pub fn cursor(self, cursor: &str) -> (b: Self)
        ensures
            b@ == (ListboxView { cursor: cursor@, ..self@ }),
    {
        let mut this = self;
        this.cursor = String::from_str(cursor);
        this
    }

    /// Sets the style of the current item.
    pub fn active_item_style(self, style: ContentStyle) -> (b: Self)
        ensures
            b@ == (ListboxView { active_item_style: style, ..self@ }),
    {
        let mut this = self;
        this.active_item_style = style;
        this
    }

    /// Sets the style of the other items.
    pub fn inactive_item_style(self, style: ContentStyle) -> (b: Self)
        ensures
            b@ == (ListboxView { inactive_item_style: style, ..self@ }),
    {
        let mut this = self;
        this.inactive_item_style = style;
        this
    }

    /// Sets the number of lines available for rendering the list.
    pub fn listbox_lines(self, lines: usize) -> (b: Self)
        ensures
            b@ == (ListboxView { lines: Some(lines), ..self@ }),
    {
        let mut this = self;
        this.lines = Some(lines);
        this
    }

    /// Begins a session with the first item current, or says with
    /// [`Error::NoItems`] that there is no item to choose from.
    pub fn prompt(self) -> (r: Result<Prompt<Renderer>, Error>)
        ensures
            self@.items.len() == 0 <==> r == Err::<Prompt<Renderer>, Error>(Error::NoItems),
            self@.items.len() > 0 ==> r is Ok && r->Ok_0.state() == self@.session()
                && r->Ok_0.stands() == Phase::Idle,
    {
        match Selector::new(self.items) {
            Ok(list) => Ok(
                Prompt::new(
                    Renderer {
                        keymap: ActiveKeySwitcher::new("default", Keymap::Default),
                        title_snapshot: Snapshot::new(self.title),
                        listbox_snapshot: Snapshot::new(
                            listbox::State {
                                listbox: Some(list),
                                cursor: self.cursor,
                                active_item_style: self.active_item_style,
                                inactive_item_style: self.inactive_item_style,
                                lines: self.lines,
                            },
                        ),
                    },
                ),
            ),
            Err(e) => Err(e),
        }
    }
}

} // verus!
