//! A prompt that lets a node of a tree be chosen.
use vstd::prelude::*;
use crate::error::Error;
use crate::cell::views_of;
use crate::preset::theme::tree::{Theme, ThemeView};
use crate::preset::tree::keymap::{default_name, Keymap};
use crate::preset::tree::render::{Renderer, RendererView};
use crate::prompt::{Phase, Prompt};
use crate::snapshot::{Snapshot, SnapshotView};
use crate::switch::{ActiveKeySwitcher, SwitcherView};
use crate::text;
use crate::tree;
use crate::tree::{shows, Node, NodeView};

pub mod keymap;
pub mod render;

verus! {

/// The view of a tree prompt that is being put together.
pub struct TreeView {
    pub title: Seq<char>,
    pub nodes: Seq<NodeView>,
    pub theme: ThemeView,
    pub lines: Option<usize>,
}

impl TreeView {
    /// The state that a session begins with, with the cursor on the node
    /// at `position`.
    pub open spec fn session(self, position: nat) -> RendererView {
        RendererView {
            keymap: SwitcherView {
                keymaps: Map::<Seq<char>, Keymap>::empty().insert(default_name(), Keymap::Default),
                active: default_name(),
            },
            title: SnapshotView::fresh(
                text::StateView { text: self.title, style: self.theme.title_style },
            ),
            tree: SnapshotView::fresh(
                tree::StateView {
                    tree: tree::TreeView { nodes: self.nodes, position },
                    folded_symbol: self.theme.folded_symbol,
                    unfolded_symbol: self.theme.unfolded_symbol,
                    active_item_style: self.theme.cursor_style,
                    inactive_item_style: self.theme.item_style,
                    lines: self.lines,
                },
            ),
        }
    }
}

/// A tree prompt that is being put together.
pub struct Tree {
    title: String,
    nodes: Vec<Node>,
    theme: Theme,
    lines: Option<usize>,
}

impl View for Tree {
    type V = TreeView;

    closed spec fn view(&self) -> TreeView {
        TreeView {
            title: self.title@,
            nodes: views_of(self.nodes@),
            theme: self.theme@,
            lines: self.lines,
        }
    }
}

impl Tree {
    /// A prompt for the tree of `nodes`, given in document order, in the
    /// default theme, without title and without a limit on its lines.
    pub fn new(nodes: Vec<Node>) -> (t: Self)
        ensures
            t@ == (TreeView {
                title: Seq::empty(),
                nodes: views_of(nodes@),
                theme: ThemeView::initial(),
                lines: None,
            }),
    {
        Tree { title: String::new(), nodes, theme: Theme::default(), lines: None }
    }

    /// Sets the title text displayed above the tree.
    pub fn title(self, text: &str) -> (t: Self)
        ensures
            t@ == (TreeView { title: text@, ..self@ }),
    {
        let mut this = self;
        this.title = String::from_str(text);
        this
    }

    /// Sets the look of the prompt.
    pub fn theme(self, theme: Theme) -> (t: Self)
        ensures
            t@ == (TreeView { theme: theme@, ..self@ }),
    {
        let mut this = self;
        this.theme = theme;
        this
    }

    /// Sets the number of lines available for rendering the tree.
    pub fn tree_lines(self, lines: usize) -> (t: Self)
        ensures
            t@ == (TreeView { lines: Some(lines), ..self@ }),
    {
        let mut this = self;
        this.lines = Some(lines);
        this
    }

    /// Begins a session with the cursor on the first node that shows.
    /// Where no node shows, as where there is none, there is nothing to
    /// choose from, and [`Error::NoItems`] says so.
    pub fn prompt(self) -> (r: Result<Prompt<Renderer>, Error>)
        ensures
            match r {
                Ok(p) => exists|position: nat|
                    {
                        &&& p.state() == self@.session(position)
                        &&& position < self@.nodes.len()
                        &&& shows(self@.nodes, position as int)
                        &&& forall|k: int| 0 <= k < position ==> !shows(self@.nodes, k)
                    } && p.stands() == Phase::Idle,
                Err(e) => e == Error::NoItems && forall|k: int|
                    0 <= k < self@.nodes.len() ==> !shows(self@.nodes, k),
            },
    {
        match tree::Tree::new(self.nodes) {
            Ok(tree) => {
                let ghost position = tree@.position;
                let p = Prompt::new(
                    Renderer {
                        keymap: ActiveKeySwitcher::new("default", Keymap::Default),
                        title_snapshot: Snapshot::new(
                            text::State { text: self.title, style: self.theme.title_style },
                        ),
                        tree_snapshot: Snapshot::new(
                            tree::State {
                                tree,
                                folded_symbol: self.theme.folded_symbol,
                                unfolded_symbol: self.theme.unfolded_symbol,
                                active_item_style: self.theme.cursor_style,
                                inactive_item_style: self.theme.item_style,
                                lines: self.lines,
                            },
                        ),
                    },
                );
                assert(p.state() == self@.session(position));
                Ok(p)
            },
            Err(e) => Err(e),
        }
    }
}

} // verus!
