//! The state of a checkbox prompt and what each event does to it.
use vstd::prelude::*;
use crate::cell::views_of;
use crate::checkbox;
use crate::checkbox::CheckboxView;
use crate::event::{Event, KeyCode, KeyModifiers};
use crate::grapheme::{StyledGraphemes, StyledRow};
use crate::pane::{Pane, PaneView};
use crate::preset::checkbox::keymap;
use crate::preset::checkbox::keymap::Keymap;
use crate::snapshot::{Snapshot, SnapshotView};
use crate::switch::{ActiveKeySwitcher, SwitcherView};
use crate::text;
use crate::{PaneFactory, PromptSignal};

verus! {

/// The view of the state of a checkbox prompt.
pub struct RendererView {
    pub keymap: SwitcherView<Keymap>,
    pub title: SnapshotView<text::StateView>,
    pub checkbox: SnapshotView<checkbox::state::StateView>,
}

impl RendererView {
    /// The checkbox that is worked on.
    pub open spec fn working(self) -> CheckboxView {
        self.checkbox.after.checkbox
    }

    /// The state with `checkbox` as the checkbox that is worked on.
    pub open spec fn with_checkbox(self, checkbox: CheckboxView) -> RendererView {
        RendererView {
            checkbox: SnapshotView {
                after: checkbox::state::StateView { checkbox, ..self.checkbox.after },
                ..self.checkbox
            },
            ..self
        }
    }

    /// The state after `event` with the one keymap there is, and whether
    /// the session goes on.
    ///
    /// Enter ends the session. The up and down arrows move to the
    /// neighbouring item, and from the first item to the last and back;
    /// what is picked stays. The space bar turns the pick of the current
    /// item over. Every other event changes nothing.
    pub open spec fn moves(self, event: Event) -> (RendererView, PromptSignal) {
        let working = self.working();
        if event == Event::press(KeyCode::Enter, KeyModifiers::spec_none()) {
            (self, PromptSignal::Quit)
        } else if event == Event::press(KeyCode::Up, KeyModifiers::spec_none()) {
            (
                self.with_checkbox(
                    CheckboxView { selector: working.selector.cyclic_prev(), ..working },
                ),
                PromptSignal::Continue,
            )
        } else if event == Event::press(KeyCode::Down, KeyModifiers::spec_none()) {
            (
                self.with_checkbox(
                    CheckboxView { selector: working.selector.cyclic_next(), ..working },
                ),
                PromptSignal::Continue,
            )
        } else if event == Event::press(KeyCode::Char(' '), KeyModifiers::spec_none()) {
            (self.with_checkbox(working.toggle()), PromptSignal::Continue)
        } else {
            (self, PromptSignal::Continue)
        }
    }

    /// The state after the session's result was taken out: the checkbox is
    /// what it was when the session began.
    pub open spec fn finalized(self) -> RendererView {
        RendererView { checkbox: self.checkbox.reset(), ..self }
    }

    /// The panes of the prompt from top to bottom: title, items.
    pub open spec fn panes(self, width: u16, height: u16) -> Seq<PaneView<StyledRow>> {
        seq![self.title.after.pane(width), self.checkbox.after.pane(width, height)]
    }
}

/// The state of a checkbox prompt: its keymaps, its title and its items.
pub struct Renderer {
    /// Manages key mappings specific to this renderer.
    pub keymap: ActiveKeySwitcher<Keymap>,
    /// Snapshot of the title.
    pub title_snapshot: Snapshot<text::State>,
    /// Snapshot of the checkbox.
    pub checkbox_snapshot: Snapshot<checkbox::state::State>,
}

impl View for Renderer {
    type V = RendererView;

    open spec fn view(&self) -> RendererView {
        RendererView {
            keymap: self.keymap@,
            title: self.title_snapshot@,
            checkbox: self.checkbox_snapshot@,
        }
    }
}

impl crate::Finalizer for Renderer {
    type Return = Vec<String>;

    open spec fn finalizes_to(pre: RendererView, post: RendererView, ret: Vec<String>) -> bool {
        ret.deep_view() == pre.working().get() && post == pre.finalized()
    }

    /// Hands out the picked items, in the order of the items, and puts the
    /// checkbox back to what it was when the session began.
    fn finalize(&mut self) -> (items: Vec<String>) {
        let items = self.checkbox_snapshot.after().checkbox.get();
        self.checkbox_snapshot.reset_after_to_init();
        items
    }
}

impl crate::Renderer for Renderer {
    open spec fn frames(v: RendererView, width: u16, height: u16) -> Seq<PaneView<StyledRow>> {
        v.panes(width, height)
    }

    open spec fn evaluates_to(
        pre: RendererView,
        event: Event,
        post: RendererView,
        signal: PromptSignal,
    ) -> bool {
        match pre.keymap.get() {
            Keymap::Default => (post, signal) == pre.moves(event),
        }
    }

    /// Draws the widgets from top to bottom.
    fn create_panes(&self, width: u16, height: u16) -> (panes: Vec<Pane<StyledGraphemes>>) {
        let mut panes: Vec<Pane<StyledGraphemes>> = Vec::new();
        panes.push(self.title_snapshot.create_pane(width, height));
        panes.push(self.checkbox_snapshot.create_pane(width, height));
        assert(views_of(panes@) =~= self@.panes(width, height));
        panes
    }

    /// Acts on one event with the active keymap and says whether the
    /// session goes on.
    fn evaluate(&mut self, event: &Event) -> (signal: PromptSignal) {
        match self.keymap.get() {
            Keymap::Default => keymap::default(event, self),
        }
    }
}

} // verus!
