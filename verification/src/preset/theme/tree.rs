//! The look of a tree prompt.
use vstd::prelude::*;
use crate::style::{Attribute, Attributes, Color, ContentStyle, Style};

verus! {

/// The view of a theme.
pub struct ThemeView {
    pub title_style: ContentStyle,
    pub item_style: ContentStyle,
    pub folded_symbol: Seq<char>,
    pub unfolded_symbol: Seq<char>,
    pub cursor_style: ContentStyle,
}

/// The symbol in front of a folded node, unless another is set.
pub open spec fn default_folded_symbol() -> Seq<char> {
    "\u{25b6}\u{fe0e} "@
}

/// The symbol in front of an unfolded node, unless another is set.
pub open spec fn default_unfolded_symbol() -> Seq<char> {
    "\u{25bc} "@
}

impl ThemeView {
    /// The look of a tree prompt unless told otherwise: the title in bold,
    /// the nodes plain, the node under the cursor in dark cyan.
    pub open spec fn initial() -> ThemeView {
        ThemeView {
            title_style: ContentStyle {
                attributes: Attributes::empty().including(Attribute::Bold),
                ..ContentStyle::plain()
            },
            item_style: ContentStyle::plain(),
            folded_symbol: default_folded_symbol(),
            unfolded_symbol: default_unfolded_symbol(),
            cursor_style: ContentStyle {
                foreground_color: Some(Color::DarkCyan),
                ..ContentStyle::plain()
            },
        }
    }
}

/// The styles and symbols that a tree prompt is drawn with.
pub struct Theme {
    pub title_style: ContentStyle,
    pub item_style: ContentStyle,
    pub folded_symbol: String,
    pub unfolded_symbol: String,
    pub cursor_style: ContentStyle,
}

impl View for Theme {
    type V = ThemeView;

    open spec fn view(&self) -> ThemeView {
        ThemeView {
            title_style: self.title_style,
            item_style: self.item_style,
            folded_symbol: self.folded_symbol@,
            unfolded_symbol: self.unfolded_symbol@,
            cursor_style: self.cursor_style,
        }
    }
}

impl Default for Theme {
    fn default() -> (theme: Self)
        ensures
            theme@ == ThemeView::initial(),
    {
        Self {
            title_style: Style::new().attrs(Attributes::from(Attribute::Bold)).build(),
            item_style: Style::new().build(),
            folded_symbol: String::from_str("\u{25b6}\u{fe0e} "),
            unfolded_symbol: String::from_str("\u{25bc} "),
            cursor_style: Style::new().fgc(Color::DarkCyan).build(),
        }
    }
}

} // verus!
