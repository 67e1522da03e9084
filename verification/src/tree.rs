//! A tree whose nodes are addressed by their paths from the root, each of
//! them folded or unfolded, and a cursor on one of the nodes that show.
use vstd::prelude::*;
use crate::error::Error;
use crate::cell::{truncated, views_of};
use crate::grapheme::{graphemes_of, spaces, styled, Graphemes, StyledGraphemes, StyledRow};
use crate::listbox::{allowed_rows, rows_allowed};
use crate::pane::{Pane, PaneView};
use crate::replicate::Replicate;
use crate::style::ContentStyle;
use crate::PaneFactory;

verus! {

/// The view of a node.
pub struct NodeView {
    /// The indices that lead from the root to the node.
    pub path: Seq<usize>,
    pub id: Seq<char>,
    /// Whether what lies below the node is hidden.
    pub folded: bool,
}

impl NodeView {
    /// Whether the node lies above `other`: whether its path is the
    /// beginning of the longer path of `other`.
    pub open spec fn is_above(self, other: NodeView) -> bool {
        self.path.len() < other.path.len() && self.path == other.path.take(self.path.len() as int)
    }

    /// Whether the node lies above `other` or is at its place.
    pub open spec fn leads_to(self, other: NodeView) -> bool {
        self.path.len() <= other.path.len() && self.path == other.path.take(
            self.path.len() as int,
        )
    }

    /// The node with its fold turned over.
    pub open spec fn toggled(self) -> NodeView {
        NodeView { folded: !self.folded, ..self }
    }
}

/// Whether node `i` shows: whether none of the nodes above it is folded.
pub open spec fn shows(nodes: Seq<NodeView>, i: int) -> bool {
    forall|j: int| 0 <= j < nodes.len() && #[trigger] nodes[j].is_above(nodes[i]) ==> !nodes[j].folded
}

/// The places of up to `left` nodes that show, from place `from` on, in
/// document order.
pub open spec fn showing(nodes: Seq<NodeView>, from: int, left: nat) -> Seq<int>
    decreases nodes.len() - from,
{
    if from < 0 || from >= nodes.len() || left == 0 {
        Seq::empty()
    } else if shows(nodes, from) {
        seq![from] + showing(nodes, from + 1, (left - 1) as nat)
    } else {
        showing(nodes, from + 1, left)
    }
}

/// What is listed as showing are places of nodes that show, none before
/// the place asked for, in document order, and no more of them than asked
/// for.
pub proof fn lemma_showing_lists_what_shows(nodes: Seq<NodeView>, from: int, left: nat)
    requires
        0 <= from,
    ensures
        showing(nodes, from, left).len() <= left,
        forall|k: int|
            0 <= k < showing(nodes, from, left).len() ==> {
                let place = #[trigger] showing(nodes, from, left)[k];
                from <= place < nodes.len() && shows(nodes, place)
            },
        forall|j: int, k: int|
            0 <= j < k < showing(nodes, from, left).len() ==> showing(nodes, from, left)[j]
                < showing(nodes, from, left)[k],
    decreases nodes.len() - from,
{
    if from < nodes.len() && left > 0 {
        if shows(nodes, from) {
            lemma_showing_lists_what_shows(nodes, from + 1, (left - 1) as nat);
        } else {
            lemma_showing_lists_what_shows(nodes, from + 1, left);
        }
    }
}

/// The view of a tree: its nodes in document order, and the place of the
/// node that the cursor is on.
pub struct TreeView {
    pub nodes: Seq<NodeView>,
    pub position: nat,
}

impl TreeView {
    /// The cursor is on a node, and that node shows.
    pub open spec fn wf(self) -> bool {
        self.position < self.nodes.len() && shows(self.nodes, self.position as int)
    }

    /// The tree with the fold of the node under the cursor turned over.
    pub open spec fn toggle(self) -> TreeView {
        TreeView {
            nodes: self.nodes.update(
                self.position as int,
                self.nodes[self.position as int].toggled(),
            ),
            ..self
        }
    }

    /// Whether `to` is the place of the first node behind the cursor that
    /// shows.
    pub open spec fn is_next(self, to: int) -> bool {
        &&& self.position < to < self.nodes.len()
        &&& shows(self.nodes, to)
        &&& forall|k: int| self.position < k < to ==> !shows(self.nodes, k)
    }

    /// Whether `to` is the place of the last node before the cursor that
    /// shows.
    pub open spec fn is_prev(self, to: int) -> bool {
        &&& 0 <= to < self.position
        &&& shows(self.nodes, to)
        &&& forall|k: int| to < k < self.position ==> !shows(self.nodes, k)
    }

    /// Whether a node that shows stands behind the cursor.
    pub open spec fn can_forward(self) -> bool {
        exists|k: int| self.position < k < self.nodes.len() && shows(self.nodes, k)
    }

    /// Whether a node that shows stands before the cursor.
    pub open spec fn can_backward(self) -> bool {
        exists|k: int| 0 <= k < self.position && shows(self.nodes, k)
    }

    /// The ids of the nodes on the way from the root to the node under the
    /// cursor, that node included: those of the first `upto` nodes that
    /// lead to it, in document order.
    pub open spec fn waypoints(self, upto: int) -> Seq<Seq<char>>
        decreases upto,
    {
        if upto <= 0 {
            Seq::empty()
        } else {
            let before = self.waypoints(upto - 1);
            if self.nodes[upto - 1].leads_to(self.nodes[self.position as int]) {
                before.push(self.nodes[upto - 1].id)
            } else {
                before
            }
        }
    }

    /// What a session on the tree results in: the ids from the root down to
    /// the node under the cursor.
    pub open spec fn get(self) -> Seq<Seq<char>> {
        self.waypoints(self.nodes.len() as int)
    }
}

/// Turning the fold of a node over changes which of the nodes below it
/// show, and of no others: every node that the toggled node does not lie
/// above shows after as it did before. The node under the cursor itself
/// keeps showing, and turning its fold over twice changes nothing.
pub proof fn lemma_toggle_touches_descendants_only(t: TreeView)
    requires
        t.wf(),
    ensures
        t.toggle().wf(),
        t.toggle().toggle() == t,
        forall|i: int|
            0 <= i < t.nodes.len() && i != t.position ==> #[trigger] t.toggle().nodes[i]
                == t.nodes[i],
        forall|i: int|
            0 <= i < t.nodes.len() && !t.nodes[t.position as int].is_above(t.nodes[i])
                ==> #[trigger] shows(t.toggle().nodes, i) == shows(t.nodes, i),
{
    let p = t.position as int;
    let after = t.toggle().nodes;
    assert(t.toggle().toggle().nodes =~= t.nodes);
    assert forall|i: int|
        0 <= i < t.nodes.len() && !t.nodes[p].is_above(t.nodes[i]) implies #[trigger] shows(
        after,
        i,
    ) == shows(t.nodes, i) by {
        lemma_shows_after_toggle(t, i);
    }
    lemma_shows_after_toggle(t, p);
}

/// A node that the toggled node does not lie above shows after the toggle
/// as it did before.
proof fn lemma_shows_after_toggle(t: TreeView, i: int)
    requires
        t.position < t.nodes.len(),
        0 <= i < t.nodes.len(),
        !t.nodes[t.position as int].is_above(t.nodes[i]),
    ensures
        shows(t.toggle().nodes, i) == shows(t.nodes, i),
{
    let p = t.position as int;
    let after = t.toggle().nodes;
    assert(after[i].path == t.nodes[i].path);
    if shows(t.nodes, i) {
        assert forall|j: int| 0 <= j < after.len() && #[trigger] after[j].is_above(
            after[i],
        ) implies !after[j].folded by {
            assert(after[j].path == t.nodes[j].path);
            assert(t.nodes[j].is_above(t.nodes[i]));
        }
    }
    if shows(after, i) {
        assert forall|j: int| 0 <= j < t.nodes.len() && #[trigger] t.nodes[j].is_above(
            t.nodes[i],
        ) implies !t.nodes[j].folded by {
            assert(after[j].path == t.nodes[j].path);
            assert(after[j].is_above(after[i]));
        }
    }
}

/// A node of a tree.
#[derive(Debug, PartialEq, Eq)]
pub struct Node {
    /// The indices that lead from the root to the node.
    pub path: Vec<usize>,
    pub id: String,
    /// Whether what lies below the node is hidden.
    pub folded: bool,
}

impl View for Node {
    type V = NodeView;

    open spec fn view(&self) -> NodeView {
        NodeView { path: self.path@, id: self.id@, folded: self.folded }
    }
}

impl Clone for Node {
    fn clone(&self) -> (r: Self)
        ensures
            r@ == self@,
    {
        let path = self.path.clone();
        assert(path@ =~= self.path@);
        Node { path, id: self.id.clone(), folded: self.folded }
    }
}

impl Node {
    /// Whether the node lies above `other` or, where `strictly` is not
    /// set, is at its place.
    fn reaches(&self, other: &Node, strictly: bool) -> (b: bool)
        ensures
            b == if strictly {
                self@.is_above(other@)
            } else {
                self@.leads_to(other@)
            },
    {
        let n = self.path.len();
        let m = other.path.len();
        if n > m || (strictly && n == m) {
            return false;
        }
        let mut k: usize = 0;
        while k < n
            invariant
                n == self.path@.len(),
                m == other.path@.len(),
                n <= m,
                k <= n,
                forall|x: int| 0 <= x < k ==> self.path@[x] == other.path@[x],
            decreases n - k,
        {
            if self.path[k] != other.path[k] {
                assert(other.path@.take(n as int)[k as int] != self.path@[k as int]);
                return false;
            }
            k = k + 1;
        }
        assert(self.path@ =~= other.path@.take(n as int));
        true
    }
}

/// Whether node `i` shows.
fn node_shows(nodes: &Vec<Node>, i: usize) -> (b: bool)
    requires
        i < nodes@.len(),
    ensures
        b == shows(views_of(nodes@), i as int),
{
    let n = nodes.len();
    let mut j: usize = 0;
    while j < n
        invariant
            n == nodes@.len(),
            i < n,
            j <= n,
            forall|x: int|
                0 <= x < j && #[trigger] views_of(nodes@)[x].is_above(views_of(nodes@)[i as int])
                    ==> !views_of(nodes@)[x].folded,
        decreases n - j,
    {
        if nodes[j].folded && nodes[j].reaches(&nodes[i], true) {
            assert(views_of(nodes@)[j as int].is_above(views_of(nodes@)[i as int]));
            return false;
        }
        j = j + 1;
    }
    true
}

/// The nodes of a tree in document order and the place of the node under
/// the cursor.
pub struct Tree {
    nodes: Vec<Node>,
    position: usize,
}

impl View for Tree {
    type V = TreeView;

    closed spec fn view(&self) -> TreeView {
        TreeView { nodes: views_of(self.nodes@), position: self.position as nat }
    }
}

impl Clone for Tree {
    fn clone(&self) -> (r: Self)
        ensures
            r@ == self@,
    {
        proof {
            use_type_invariant(self);
        }
        let mut nodes: Vec<Node> = Vec::new();
        let n = self.nodes.len();
        let mut i: usize = 0;
        while i < n
            invariant
                n == self.nodes@.len(),
                i <= n,
                views_of(nodes@) == views_of(self.nodes@).take(i as int),
            decreases n - i,
        {
            let ghost before = views_of(nodes@);
            nodes.push(self.nodes[i].clone());
            assert(views_of(nodes@) =~= before.push(self.nodes@[i as int]@));
            assert(views_of(self.nodes@).take(i + 1) =~= views_of(self.nodes@).take(
                i as int,
            ).push(self.nodes@[i as int]@));
            i = i + 1;
        }
        assert(views_of(self.nodes@).take(n as int) =~= views_of(self.nodes@));
        Tree { nodes, position: self.position }
    }
}

impl Replicate for Tree {
    fn replicate(&self) -> (r: Self) {
        self.clone()
    }
}

impl Tree {
    /// What holds of every tree: see [`TreeView::wf`].
    #[verifier::type_invariant]
    pub open spec fn cursor_on_a_node_that_shows(self) -> bool {
        self@.wf()
    }

    /// The tree of `nodes`, given in document order, with the cursor on the
    /// first of them that shows; [`Error::NoItems`] where none shows, as
    /// where there is no node at all.
    pub fn new(nodes: Vec<Node>) -> (r: Result<Self, Error>)
        ensures
            match r {
                Ok(tree) => {
                    &&& tree@.nodes == views_of(nodes@)
                    &&& tree@.wf()
                    &&& forall|k: int| 0 <= k < tree@.position ==> !shows(views_of(nodes@), k)
                },
                Err(e) => e == Error::NoItems && forall|k: int|
                    0 <= k < nodes@.len() ==> !shows(views_of(nodes@), k),
            },
    {
        let n = nodes.len();
        let mut i: usize = 0;
        while i < n
            invariant
                n == nodes@.len(),
                i <= n,
                forall|k: int| 0 <= k < i ==> !shows(views_of(nodes@), k),
            decreases n - i,
        {
            if node_shows(&nodes, i) {
                return Ok(Tree { nodes, position: i });
            }
            i = i + 1;
        }
        Err(Error::NoItems)
    }

    /// A tree of one unnamed node, to stand in for a tree that is being
    /// worked on: an unfolded root without an id, with the cursor on it.
    fn stub() -> (tree: Self)
        ensures
            tree@ == (TreeView {
                nodes: seq![
                    NodeView { path: Seq::<usize>::empty(), id: Seq::<char>::empty(), folded: false },
                ],
                position: 0,
            }),
    {
        let mut nodes: Vec<Node> = Vec::new();
        nodes.push(Node { path: Vec::new(), id: String::new(), folded: false });
        assert(views_of(nodes@) =~= seq![
            NodeView { path: Seq::<usize>::empty(), id: Seq::<char>::empty(), folded: false },
        ]);
        Tree { nodes, position: 0 }
    }

    /// The nodes in document order.
    pub fn nodes(&self) -> (nodes: &Vec<Node>)
        ensures
            views_of(nodes@) == self@.nodes,
            self@.wf(),
    {
        proof {
            use_type_invariant(self);
        }
        &self.nodes
    }

    /// The place of the node under the cursor.
    pub fn position(&self) -> (p: usize)
        ensures
            p == self@.position,
            self@.wf(),
    {
        proof {
            use_type_invariant(self);
        }
        self.position
    }

    /// The ids from the root down to the node under the cursor.
    pub fn get(&self) -> (ids: Vec<String>)
        ensures
            ids.deep_view() == self@.get(),
    {
        proof {
            use_type_invariant(self);
        }
        let mut ids: Vec<String> = Vec::new();
        let n = self.nodes.len();
        let mut i: usize = 0;
        while i < n
            invariant
                n == self.nodes@.len(),
                i <= n,
                self.position < n,
                ids.deep_view() == self@.waypoints(i as int),
            decreases n - i,
        {
            if self.nodes[i].reaches(&self.nodes[self.position], false) {
                let ghost before = ids.deep_view();
                ids.push(self.nodes[i].id.clone());
                assert(ids.deep_view() =~= before.push(self.nodes@[i as int].id@));
            }
            i = i + 1;
        }
        ids
    }

    /// Turns the fold of the node under the cursor over.
    pub fn toggle(&mut self)
        ensures
            final(self)@ == old(self)@.toggle(),
            final(self)@.wf(),
    {
        proof {
            use_type_invariant(&*self);
            lemma_toggle_touches_descendants_only(self@);
        }
        // The tree is taken out while the node changes; a tree of one node
        // stands in for it, so that the cursor is at no time without a node.
        let mut taken = Tree::stub();
        std::mem::swap(self, &mut taken);
        let Tree { nodes, position } = taken;
        let mut nodes = nodes;
        let folded = nodes[position].folded;
        nodes[position].folded = !folded;
        assert(views_of(nodes@) =~= old(self)@.toggle().nodes);
        *self = Tree { nodes, position };
    }

    /// Moves the cursor to the next node that shows and says whether there
    /// was one.
    pub fn forward(&mut self) -> (moved: bool)
        ensures
            moved == old(self)@.can_forward(),
            final(self)@.nodes == old(self)@.nodes,
            final(self)@.wf(),
            moved ==> old(self)@.is_next(final(self)@.position as int),
            !moved ==> final(self)@ == old(self)@,
    {
        proof {
            use_type_invariant(&*self);
        }
        let n = self.nodes.len();
        let mut i: usize = self.position + 1;
        while i < n
            invariant
                n == self.nodes@.len(),
                self.position < i <= n,
                *self == *old(self),
                forall|k: int| self.position < k < i ==> !shows(views_of(self.nodes@), k),
            decreases n - i,
        {
            if node_shows(&self.nodes, i) {
                assert(old(self)@.position < i < old(self)@.nodes.len() && shows(
                    old(self)@.nodes,
                    i as int,
                ));
                self.position = i;
                return true;
            }
            i = i + 1;
        }
        false
    }

    /// Moves the cursor to the last node before it that shows and says
    /// whether there was one.
    pub fn backward(&mut self) -> (moved: bool)
        ensures
            moved == old(self)@.can_backward(),
            final(self)@.nodes == old(self)@.nodes,
            final(self)@.wf(),
            moved ==> old(self)@.is_prev(final(self)@.position as int),
            !moved ==> final(self)@ == old(self)@,
    {
        proof {
            use_type_invariant(&*self);
        }
        let mut i: usize = self.position;
        while i > 0
            invariant
                i <= self.position < self.nodes@.len(),
                *self == *old(self),
                forall|k: int| i <= k < self.position ==> !shows(views_of(self.nodes@), k),
            decreases i,
        {
            i = i - 1;
            if node_shows(&self.nodes, i) {
                assert(0 <= i < old(self)@.position && shows(old(self)@.nodes, i as int));
                self.position = i;
                return true;
            }
        }
        false
    }
}

/// The view of the state of a tree.
pub struct StateView {
    pub tree: TreeView,
    pub folded_symbol: Seq<char>,
    pub unfolded_symbol: Seq<char>,
    pub active_item_style: ContentStyle,
    pub inactive_item_style: ContentStyle,
    pub lines: Option<usize>,
}

impl StateView {
    /// The row of node `i`, cut off at `width` columns: one space for each
    /// step from the root, the symbol of its fold, and its id. The row of
    /// the node under the cursor is drawn in the active style, the others
    /// in the inactive one.
    pub open spec fn row(self, i: int, width: u16) -> StyledRow {
        let node = self.tree.nodes[i];
        let symbol = if node.folded { self.folded_symbol } else { self.unfolded_symbol };
        styled(
            truncated(
                spaces(node.path.len()) + graphemes_of(symbol) + graphemes_of(node.id),
                width as nat,
            ),
            if i == self.tree.position {
                self.active_item_style
            } else {
                self.inactive_item_style
            },
        )
    }

    /// The rows of the nodes at `places`.
    pub open spec fn rows_at(self, places: Seq<int>, width: u16) -> Seq<StyledRow> {
        places.map_values(|i: int| self.row(i, width))
    }

    /// The rows drawn in a viewport of the given size: one for each node
    /// that shows, from the node under the cursor on in document order, as
    /// far as the viewport and the number of lines asked for allow.
    pub open spec fn rows(self, width: u16, height: u16) -> Seq<StyledRow> {
        self.rows_at(
            showing(self.tree.nodes, self.tree.position as int, allowed_rows(self.lines, height)),
            width,
        )
    }

    /// The pane that the tree is drawn as: its rows, not scrolled.
    pub open spec fn pane(self, width: u16, height: u16) -> PaneView<StyledRow> {
        PaneView { rows: self.rows(width, height), offset: 0, fixed_height: None }
    }
}

/// A tree and how it is drawn.
pub struct State {
    pub tree: Tree,
    /// Symbol in front of a folded node.
    pub folded_symbol: String,
    /// Symbol in front of an unfolded node.
    pub unfolded_symbol: String,
    /// Style of the node under the cursor.
    pub active_item_style: ContentStyle,
    /// Style of the other nodes.
    pub inactive_item_style: ContentStyle,
    /// Number of lines available for rendering.
    pub lines: Option<usize>,
}

impl View for State {
    type V = StateView;

    open spec fn view(&self) -> StateView {
        StateView {
            tree: self.tree@,
            folded_symbol: self.folded_symbol@,
            unfolded_symbol: self.unfolded_symbol@,
            active_item_style: self.active_item_style,
            inactive_item_style: self.inactive_item_style,
            lines: self.lines,
        }
    }
}

impl Clone for State {
    fn clone(&self) -> (r: Self)
        ensures
            r@ == self@,
    {
        State {
            tree: self.tree.clone(),
            folded_symbol: self.folded_symbol.clone(),
            unfolded_symbol: self.unfolded_symbol.clone(),
            active_item_style: self.active_item_style,
            inactive_item_style: self.inactive_item_style,
            lines: self.lines,
        }
    }
}

impl Replicate for State {
    fn replicate(&self) -> (r: Self) {
        self.clone()
    }
}

impl State {
    /// The row of node `i`, cut off at `width` columns.
    fn row(&self, i: usize, width: u16) -> (row: StyledGraphemes)
        requires
            i < self@.tree.nodes.len(),
        ensures
            row@ == self@.row(i as int, width),
    {
        let nodes = self.tree.nodes();
        let node = &nodes[i];
        assert(views_of(nodes@)[i as int] == node@);
        let mut line = Graphemes::blank(node.path.len());
        let symbol = if node.folded { &self.folded_symbol } else { &self.unfolded_symbol };
        line.extend(&Graphemes::new(symbol.as_str()));
        line.extend(&Graphemes::new(node.id.as_str()));
        StyledGraphemes::from_graphemes(
            &line.truncate_to_width(width as usize),
            if i == self.tree.position() {
                self.active_item_style
            } else {
                self.inactive_item_style
            },
        )
    }
}

impl PaneFactory for State {
    open spec fn pane(v: StateView, width: u16, height: u16) -> PaneView<StyledRow> {
        v.pane(width, height)
    }

    /// Draws the nodes that show, from the node under the cursor on, one to
    /// a row.
    fn create_pane(&self, width: u16, height: u16) -> (pane: Pane<StyledGraphemes>) {
        let allowed = rows_allowed(self.lines, height);
        let nodes = self.tree.nodes();
        let n = nodes.len();
        let mut matrix: Vec<StyledGraphemes> = Vec::new();
        let mut i: usize = self.tree.position();
        let mut left: usize = allowed;
        while i < n && left > 0
            invariant
                n == nodes@.len(),
                views_of(nodes@) == self@.tree.nodes,
                i <= n,
                self@.rows(width, height) == views_of(matrix@) + self@.rows_at(
                    showing(self@.tree.nodes, i as int, left as nat),
                    width,
                ),
            decreases n - i,
        {
            let ghost rest = showing(self@.tree.nodes, i as int, left as nat);
            if node_shows(nodes, i) {
                let row = self.row(i, width);
                let ghost before = views_of(matrix@);
                matrix.push(row);
                left = left - 1;
                proof {
                    let tail = showing(self@.tree.nodes, i + 1, left as nat);
                    assert(rest =~= seq![i as int] + tail);
                    assert(self@.rows_at(rest, width) =~= seq![row@] + self@.rows_at(tail, width));
                    assert(views_of(matrix@) =~= before.push(row@));
                    assert(views_of(matrix@) + self@.rows_at(tail, width) =~= before
                        + self@.rows_at(rest, width));
                }
            }
            i = i + 1;
        }
        proof {
            assert(showing(self@.tree.nodes, i as int, left as nat) =~= Seq::<int>::empty());
            assert(views_of(matrix@) + self@.rows_at(Seq::<int>::empty(), width) =~= views_of(
                matrix@,
            ));
        }
        Pane::new(matrix, 0, None)
    }
}

} // verus!
