//! The state of a tree prompt and what each event does to it.
use vstd::prelude::*;
use crate::event::{Event, KeyCode, KeyModifiers};
use crate::cell::views_of;
use crate::grapheme::{StyledGraphemes, StyledRow};
use crate::pane::{Pane, PaneView};
use crate::preset::tree::keymap;
use crate::preset::tree::keymap::Keymap;
use crate::snapshot::{Snapshot, SnapshotView};
use crate::switch::{ActiveKeySwitcher, SwitcherView};
use crate::text;
use crate::tree;
use crate::{PaneFactory, PromptSignal};

verus! {

/// The view of the state of a tree prompt.
pub struct RendererView {
    pub keymap: SwitcherView<Keymap>,
    pub title: SnapshotView<text::StateView>,
    pub tree: SnapshotView<tree::StateView>,
}

impl RendererView {
    /// The tree that is worked on.
    pub open spec fn working(self) -> tree::TreeView {
        self.tree.after.tree
    }

    /// The state with `tree` as the tree that is worked on.
    pub open spec fn with_tree(self, tree: tree::TreeView) -> RendererView {
        RendererView {
            tree: SnapshotView {
                after: tree::StateView { tree, ..self.tree.after },
                ..self.tree
            },
            ..self
        }
    }

    /// Whether `post` is the state after a step of the cursor to the next
    /// node that shows: the cursor is on that node, or, where there is none,
    /// nothing has changed.
    pub open spec fn steps_forward_to(self, post: RendererView) -> bool {
        if self.working().can_forward() {
            exists|to: int| self.working().is_next(to) && post == self.with_tree(
                tree::TreeView { position: to as nat, ..self.working() },
            )
        } else {
            post == self
        }
    }

    /// Whether `post` is the state after a step of the cursor to the last
    /// node before it that shows: the cursor is on that node, or, where
    /// there is none, nothing has changed.
    pub open spec fn steps_backward_to(self, post: RendererView) -> bool {
        if self.working().can_backward() {
            exists|to: int| self.working().is_prev(to) && post == self.with_tree(
                tree::TreeView { position: to as nat, ..self.working() },
            )
        } else {
            post == self
        }
    }

    /// Whether `self`, on `event` with the one keymap there is, becomes
    /// `post` with `signal`.
    ///
    /// Enter ends the session. The up and down arrows move the cursor to
    /// the neighbouring node that shows, the space bar turns the fold of the
    /// node under the cursor over. Every other event changes nothing.
    pub open spec fn moves_to(self, event: Event, post: RendererView, signal: PromptSignal) -> bool {
        if event == Event::press(KeyCode::Enter, KeyModifiers::spec_none()) {
            post == self && signal == PromptSignal::Quit
        } else if event == Event::press(KeyCode::Up, KeyModifiers::spec_none()) {
            self.steps_backward_to(post) && signal == PromptSignal::Continue
        } else if event == Event::press(KeyCode::Down, KeyModifiers::spec_none()) {
            self.steps_forward_to(post) && signal == PromptSignal::Continue
        } else if event == Event::press(KeyCode::Char(' '), KeyModifiers::spec_none()) {
            post == self.with_tree(self.working().toggle()) && signal == PromptSignal::Continue
        } else {
            post == self && signal == PromptSignal::Continue
        }
    }

    /// Whether `self`, on `event`, becomes `post` with `signal`: whether the
    /// active keymap makes it so.
    pub open spec fn evaluates_to(self, event: Event, post: RendererView, signal: PromptSignal) -> bool {
        match self.keymap.get() {
            Keymap::Default => self.moves_to(event, post, signal),
        }
    }

    /// The state after the session's result was taken out: the tree is
    /// what it was when the session began.
    pub open spec fn finalized(self) -> RendererView {
        RendererView { tree: self.tree.reset(), ..self }
    }

    /// The panes of the prompt from top to bottom: title, tree.
    pub open spec fn panes(self, width: u16, height: u16) -> Seq<PaneView<StyledRow>> {
        seq![self.title.after.pane(width), self.tree.after.pane(width, height)]
    }
}

/// A `Renderer` responsible for rendering the tree structure.
/// It manages key mappings, title, and tree renderings.
pub struct Renderer {
    /// Manages key mappings specific to this renderer.
    pub keymap: ActiveKeySwitcher<Keymap>,
    /// Snapshot of the title renderer.
    pub title_snapshot: Snapshot<text::State>,
    /// Snapshot of the tree renderer.
    pub tree_snapshot: Snapshot<tree::State>,
}

impl View for Renderer {
    type V = RendererView;

    open spec fn view(&self) -> RendererView {
        RendererView {
            keymap: self.keymap@,
            title: self.title_snapshot@,
            tree: self.tree_snapshot@,
        }
    }
}

impl crate::Finalizer for Renderer {
    type Return = Vec<String>;

    open spec fn finalizes_to(pre: RendererView, post: RendererView, ret: Vec<String>) -> bool {
        ret.deep_view() == pre.working().get() && post == pre.finalized()
    }

    /// Hands out the ids from the root down to the node under the cursor,
    /// and puts the tree back to what it was when the session began.
    fn finalize(&mut self) -> (ids: Vec<String>) {
        let ids = self.tree_snapshot.after().tree.get();
        self.tree_snapshot.reset_after_to_init();
        ids
    }
}

impl crate::Renderer for Renderer {
    open spec fn frames(v: RendererView, width: u16, height: u16) -> Seq<PaneView<StyledRow>> {
        v.panes(width, height)
    }

    open spec fn evaluates_to(
        pre: RendererView,
        event: Event,
        post: RendererView,
        signal: PromptSignal,
    ) -> bool {
        pre.evaluates_to(event, post, signal)
    }

    /// Draws the widgets from top to bottom.
    fn create_panes(&self, width: u16, height: u16) -> (panes: Vec<Pane<StyledGraphemes>>) {
        let mut panes: Vec<Pane<StyledGraphemes>> = Vec::new();
        panes.push(self.title_snapshot.create_pane(width, height));
        panes.push(self.tree_snapshot.create_pane(width, height));
        assert(views_of(panes@) =~= self@.panes(width, height));
        panes
    }

    /// Acts on one event with the active keymap and says whether the
    /// session goes on.
    fn evaluate(&mut self, event: &Event) -> (signal: PromptSignal) {
        match self.keymap.get() {
            Keymap::Default => keymap::default(event, self),
        }
    }
}

} // verus!
