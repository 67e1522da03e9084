//! The state of a list prompt and what each event does to it.
use vstd::prelude::*;
use crate::cell::views_of;
use crate::event::{Event, KeyCode, KeyModifiers};
use crate::grapheme::{StyledGraphemes, StyledRow};
use crate::listbox;
use crate::pane::{Pane, PaneView};
use crate::preset::listbox::keymap;
use crate::preset::listbox::keymap::Keymap;
use crate::selector::SelectorView;
use crate::snapshot::{Snapshot, SnapshotView};
use crate::switch::{ActiveKeySwitcher, SwitcherView};
use crate::text;
use crate::{PaneFactory, PromptSignal};

verus! {

/// The view of the state of a list prompt.
pub struct RendererView {
    pub keymap: SwitcherView<Keymap>,
    pub title: SnapshotView<text::StateView>,
    pub listbox: SnapshotView<listbox::StateView>,
}

impl RendererView {
    /// The state with `list` as the list that is worked on.
    pub open spec fn with_list(self, list: Option<SelectorView>) -> RendererView {
        RendererView {
            listbox: SnapshotView {
                after: listbox::StateView { listbox: list, ..self.listbox.after },
                ..self.listbox
            },
            ..self
        }
    }

    /// The state after `event` with the one keymap there is, and whether
    /// the session goes on.
    ///
    /// Enter ends the session. The up and down arrows move to the
    /// neighbouring item, and from the first item to the last and back.
    /// Every other event changes nothing.
    pub open spec fn moves(self, event: Event) -> (RendererView, PromptSignal) {
        if event == Event::press(KeyCode::Enter, KeyModifiers::spec_none()) {
            (self, PromptSignal::Quit)
        } else if event == Event::press(KeyCode::Up, KeyModifiers::spec_none()) {
            (
                match self.listbox.after.listbox {
                    Some(list) => self.with_list(Some(list.cyclic_prev())),
                    None => self,
                },
                PromptSignal::Continue,
            )
        } else if event == Event::press(KeyCode::Down, KeyModifiers::spec_none()) {
            (
                match self.listbox.after.listbox {
                    Some(list) => self.with_list(Some(list.cyclic_next())),
                    None => self,
                },
                PromptSignal::Continue,
            )
        } else {
            (self, PromptSignal::Continue)
        }
    }

    /// What a session results in: the current item, or nothing where there
    /// is no list.
    pub open spec fn result(self) -> Seq<char> {
        match self.listbox.after.listbox {
            Some(list) => list.items[list.position as int],
            None => Seq::empty(),
        }
    }

    /// The state after the session's result was taken out: the list is
    /// what it was when the session began.
    pub open spec fn finalized(self) -> RendererView {
        RendererView { listbox: self.listbox.reset(), ..self }
    }

    /// The panes of the prompt from top to bottom: title, list.
    pub open spec fn panes(self, width: u16, height: u16) -> Seq<PaneView<StyledRow>> {
        seq![self.title.after.pane(width), self.listbox.after.pane(width, height)]
    }
}

/// The state of a list prompt: its keymaps, its title and its list.
pub struct Renderer {
    /// Manages key mappings specific to this renderer.
    pub keymap: ActiveKeySwitcher<Keymap>,
    /// Snapshot of the title.
    pub title_snapshot: Snapshot<text::State>,
    /// Snapshot of the list.
    pub listbox_snapshot: Snapshot<listbox::State>,
}

impl View for Renderer {
    type V = RendererView;

    open spec fn view(&self) -> RendererView {
        RendererView {
            keymap: self.keymap@,
            title: self.title_snapshot@,
            listbox: self.listbox_snapshot@,
        }
    }
}

impl crate::Finalizer for Renderer {
    type Return = String;

    open spec fn finalizes_to(pre: RendererView, post: RendererView, ret: String) -> bool {
        ret@ == pre.result() && post == pre.finalized()
    }

    /// Hands out the current item, and puts the list back to what it was
    /// when the session began.
    fn finalize(&mut self) -> (item: String) {
        let item = match &self.listbox_snapshot.after().listbox {
            Some(list) => list.get().clone(),
            None => String::new(),
        };
        self.listbox_snapshot.reset_after_to_init();
        item
    }
}

impl crate::Renderer for Renderer {
    open spec fn frames(v: RendererView, width: u16, height: u16) -> Seq<PaneView<StyledRow>> {
        v.panes(width, height)
    }

    open spec fn evaluates_to(
        pre: RendererView,
        event: Event,
        post: RendererView,
        signal: PromptSignal,
    ) -> bool {
        match pre.keymap.get() {
            Keymap::Default => (post, signal) == pre.moves(event),
        }
    }

    /// Draws the widgets from top to bottom.
    fn create_panes(&self, width: u16, height: u16) -> (panes: Vec<Pane<StyledGraphemes>>) {
        let mut panes: Vec<Pane<StyledGraphemes>> = Vec::new();
        panes.push(self.title_snapshot.create_pane(width, height));
        panes.push(self.listbox_snapshot.create_pane(width, height));
        assert(views_of(panes@) =~= self@.panes(width, height));
        panes
    }

    /// Acts on one event with the active keymap and says whether the
    /// session goes on.
    fn evaluate(&mut self, event: &Event) -> (signal: PromptSignal) {
        match self.keymap.get() {
            Keymap::Default => keymap::default(event, self),
        }
    }
}

} // verus!
