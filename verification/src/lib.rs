//! State and layout engine for interactive terminal prompts.
//!
//! The crate holds the parts of a prompt that can be reasoned about without a
//! terminal: width-aware text layout, scrolling windows over rows, the
//! dual-buffered widget state, and the per-widget state machines.
pub mod cell;
pub mod checkbox;
pub mod editor;
pub mod error;
pub mod event;
pub mod grapheme;
pub mod history;
pub mod keybind;
pub mod listbox;
pub mod pane;
pub mod preset;
pub mod prompt;
pub mod replicate;
pub mod select;
pub mod selector;
pub mod snapshot;
pub mod style;
pub mod suggest;
pub mod switch;
pub mod text;
pub mod text_editor;
pub mod tree;
pub mod validate;

use vstd::prelude::*;
use crate::event::Event;
use crate::cell::views_of;
use crate::grapheme::{StyledGraphemes, StyledRow};
use crate::pane::{Pane, PaneView};

verus! {

/// What a handler tells the loop to do next.
#[derive(Clone, Copy, Debug, PartialEq, Eq)]
pub enum PromptSignal {
    /// Go on with the next event.
    Continue,
    /// End the session.
    Quit,
}

/// Widget states that can be drawn.
pub trait PaneFactory: View + Sized {
    /// The pane that a state with view `v` is drawn as in a viewport of the
    /// given size.
    spec fn pane(v: Self::V, width: u16, height: u16) -> PaneView<StyledRow>;

    /// Draws the state for a viewport of `width` columns and `height` rows.
    fn create_pane(&self, width: u16, height: u16) -> (pane: Pane<StyledGraphemes>)
        ensures
            pane@ == Self::pane(self@, width, height),
    ;
}

/// States of a prompt that a session's result can be taken out of.
pub trait Finalizer: View + Sized {
    /// What a session results in.
    type Return;

    /// Whether taking the result out of a state with view `pre` can leave a
    /// state with view `post` and hand out `ret`.
    spec fn finalizes_to(pre: Self::V, post: Self::V, ret: Self::Return) -> bool;

    /// Takes the session's result out and makes the state ready for the
    /// next session.
    fn finalize(&mut self) -> (ret: Self::Return)
        ensures
            Self::finalizes_to(old(self)@, final(self)@, ret),
    ;
}

/// States of a prompt that events act on and that can be drawn.
pub trait Renderer: Finalizer {
    /// The panes that a state with view `v` is drawn as, from top to
    /// bottom.
    spec fn frames(v: Self::V, width: u16, height: u16) -> Seq<PaneView<StyledRow>>;

    /// Whether `event` can turn a state with view `pre` into one with view
    /// `post` and give `signal`.
    spec fn evaluates_to(pre: Self::V, event: Event, post: Self::V, signal: PromptSignal) -> bool;

    /// Draws every widget, in the order in which they stand below each
    /// other. A widget with nothing to show still has its pane.
    fn create_panes(&self, width: u16, height: u16) -> (panes: Vec<Pane<StyledGraphemes>>)
        ensures
            views_of(panes@) == Self::frames(self@, width, height),
    ;

    /// Acts on one event with the active keymap and says whether the
    /// session goes on.
    fn evaluate(&mut self, event: &Event) -> (signal: PromptSignal)
        ensures
            Self::evaluates_to(old(self)@, *event, final(self)@, signal),
    ;
}

} // verus!
