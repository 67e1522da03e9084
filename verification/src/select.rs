//! A list to choose one item from, shown in a window that follows the
//! cursor.
use vstd::prelude::*;
use crate::event::{Event, KeyCode, KeyEvent, KeyModifiers};
use crate::cell::{total_width, trimmed, views_of, wrapped};
use crate::grapheme::{
    graphemes_of, matrixify, spaces, styled, Grapheme, Graphemes, StyledGraphemes, StyledRow,
};
use crate::keybind::{bound_to, KeyBind};
use crate::pane::{Pane, PaneView};
use crate::prompt::Outcome;
use crate::selector::{Selector, SelectorView};
use crate::style::{Color, ContentStyle, Style};
use crate::text;
use crate::{PaneFactory, PromptSignal};

pub mod action;
pub mod builder;

verus! {

/// The view of the state of a select prompt.
pub struct StateView {
    pub editor: SelectorView,
    pub title: Option<text::StateView>,
    /// The row of the window that the cursor is on.
    pub screen_position: u16,
    pub label: Seq<Grapheme>,
    pub label_color: Color,
    pub init_move_down_lines: u16,
    pub window: Option<u16>,
    pub suffix_after_trim: Seq<Grapheme>,
}

/// `n`, or the largest 16-bit number where `n` is larger.
pub open spec fn clamped(n: nat) -> u16 {
    if n <= u16::MAX {
        n as u16
    } else {
        u16::MAX
    }
}

/// The smaller of two numbers.
pub open spec fn least(a: u16, b: u16) -> u16 {
    if a <= b {
        a
    } else {
        b
    }
}

impl StateView {
    /// The number of rows that the title takes at the given width: none
    /// without a title.
    pub open spec fn title_lines(self, width: u16) -> u16 {
        match self.title {
            Some(title) => clamped(wrapped(width as usize, graphemes_of(title.text)).len()),
            None => 0,
        }
    }

    /// The number of rows left for the items in a terminal of the given
    /// size, below the title and the lines that the prompt is moved down by.
    pub open spec fn left_space(self, size: (u16, u16)) -> u16 {
        let taken = self.title_lines(size.0) as nat + self.init_move_down_lines as nat;
        if taken >= size.1 {
            0
        } else {
            (size.1 - taken) as u16
        }
    }

    /// The number of rows that the items are shown on: as many as there
    /// are items, as the window allows, and as are left in the terminal.
    pub open spec fn selector_lines(self, size: (u16, u16)) -> u16 {
        let left = self.left_space(size);
        let window = match self.window {
            Some(w) => w,
            None => left,
        };
        least(least(left, window), clamped(self.editor.items.len()))
    }

    /// The row of the window for the last of the rows that the items are
    /// shown on, or the first where there is none.
    pub open spec fn last_line(self, size: (u16, u16)) -> u16 {
        if self.selector_lines(size) > 0 {
            (self.selector_lines(size) - 1) as u16
        } else {
            0
        }
    }

    /// The state after a move to the first item.
    pub open spec fn move_head(self) -> StateView {
        StateView { editor: self.editor.to_head(), screen_position: 0, ..self }
    }

    /// The state after a move to the last item.
    pub open spec fn move_tail(self, size: (u16, u16)) -> StateView {
        StateView { editor: self.editor.to_tail(), screen_position: self.last_line(size), ..self }
    }

    /// The state after a move up: one item up, with the cursor one row up
    /// unless it is on the first row; from the first item, to the last.
    pub open spec fn move_up(self, size: (u16, u16)) -> StateView {
        if self.editor.can_prev() {
            StateView {
                editor: self.editor.prev(),
                screen_position: if self.screen_position > 0 {
                    (self.screen_position - 1) as u16
                } else {
                    0
                },
                ..self
            }
        } else {
            self.move_tail(size)
        }
    }

    /// The state after a move down: one item down, with the cursor one
    /// row down unless it is on the last row; from the last item, to the
    /// first.
    pub open spec fn move_down(self, size: (u16, u16)) -> StateView {
        if self.editor.can_next() {
            StateView {
                editor: self.editor.next(),
                screen_position: if self.screen_position < self.last_line(size) {
                    (self.screen_position + 1) as u16
                } else {
                    self.last_line(size)
                },
                ..self
            }
        } else {
            self.move_head()
        }
    }

    /// The state after `action`.
    pub open spec fn act(self, action: Action, size: (u16, u16)) -> StateView {
        match action {
            Action::MoveUp => self.move_up(size),
            Action::MoveDown => self.move_down(size),
            Action::MoveHead => self.move_head(),
            Action::MoveTail => self.move_tail(size),
            Action::Finish => self,
        }
    }

    /// The place of the item on the first row of the window: as many items
    /// above the current one as the cursor is rows below the first, or the
    /// first item where there are not as many.
    pub open spec fn top(self) -> nat {
        if self.screen_position as nat <= self.editor.position {
            (self.editor.position - self.screen_position) as nat
        } else {
            0
        }
    }

    /// The number of items shown in a terminal of the given size.
    pub open spec fn shown(self, size: (u16, u16)) -> nat {
        let left = (self.editor.items.len() - self.top()) as nat;
        if left <= self.selector_lines(size) {
            left
        } else {
            self.selector_lines(size) as nat
        }
    }

    /// The row of item `i`, trimmed to `width` columns. The row of the
    /// current item begins with the label and is drawn in the colour of the
    /// label; the others begin with as many spaces as the label is wide.
    pub open spec fn row(self, i: int, width: u16) -> StyledRow {
        if i == self.editor.position {
            styled(
                trimmed(
                    self.label + graphemes_of(self.editor.items[i]),
                    width as nat,
                    self.suffix_after_trim,
                ),
                ContentStyle { foreground_color: Some(self.label_color), ..ContentStyle::plain() },
            )
        } else {
            styled(
                trimmed(
                    spaces(total_width(self.label)) + graphemes_of(self.editor.items[i]),
                    width as nat,
                    self.suffix_after_trim,
                ),
                ContentStyle::plain(),
            )
        }
    }

    /// The rows of the items shown in a terminal of the given size, from
    /// the first row of the window on.
    pub open spec fn rows(self, size: (u16, u16)) -> Seq<StyledRow> {
        Seq::new(self.shown(size), |k: int| self.row(self.top() + k, size.0))
    }

    /// The pane that the items are drawn as: their rows, not scrolled.
    pub open spec fn pane(self, width: u16, height: u16) -> PaneView<StyledRow> {
        PaneView { rows: self.rows((width, height)), offset: 0, fixed_height: None }
    }
}

/// What a key can do to a select prompt.
#[derive(Clone, Copy, Debug, PartialEq, Eq)]
pub enum Action {
    /// Move up from the current selected position in the candidates.
    MoveUp,
    /// Move down from the current selected position in the candidates.
    MoveDown,
    /// Move the selected position to head.
    MoveHead,
    /// Move the selected position to tail.
    MoveTail,
    /// End the session with the current item.
    Finish,
}

/// The state of a select prompt.
pub struct State {
    pub editor: Selector,
    pub title: Option<text::State>,
    /// The row of the window that the cursor is on.
    pub screen_position: u16,
    pub label: Graphemes,
    pub label_color: Color,
    pub init_move_down_lines: u16,
    pub window: Option<u16>,
    pub suffix_after_trim: Graphemes,
}

impl View for State {
    type V = StateView;

    open spec fn view(&self) -> StateView {
        StateView {
            editor: self.editor@,
            title: match self.title {
                Some(t) => Some(t@),
                None => None,
            },
            screen_position: self.screen_position,
            label: self.label@,
            label_color: self.label_color,
            init_move_down_lines: self.init_move_down_lines,
            window: self.window,
            suffix_after_trim: self.suffix_after_trim@,
        }
    }
}

/// `n`, or the largest 16-bit number where `n` is larger.
pub fn clamp(n: usize) -> (c: u16)
    ensures
        c == clamped(n as nat),
{
    if n <= u16::MAX as usize {
        n as u16
    } else {
        u16::MAX
    }
}

impl State {
    /// The number of rows that the title takes at the given width.
    pub fn title_lines(&self, width: u16) -> (lines: u16)
        ensures
            lines == self@.title_lines(width),
    {
        match &self.title {
            Some(title) => {
                let rows = matrixify(width as usize, Graphemes::new(title.text.as_str()));
                assert(views_of(rows@).len() == rows@.len());
                clamp(rows.len())
            },
            None => 0,
        }
    }

    /// The number of rows that the items are shown on in a terminal of the
    /// given size.
    pub fn selector_lines(&self, size: (u16, u16)) -> (lines: u16)
        ensures
            lines == self@.selector_lines(size),
    {
        let taken = self.title_lines(size.0) as u32 + self.init_move_down_lines as u32;
        let left: u16 = if taken >= size.1 as u32 {
            0
        } else {
            (size.1 as u32 - taken) as u16
        };
        let window = match self.window {
            Some(w) => w,
            None => left,
        };
        let items = clamp(self.editor.items().len());
        let allowed = if left <= window { left } else { window };
        if allowed <= items {
            allowed
        } else {
            items
        }
    }

    /// The row of the window for the last of the rows that the items are
    /// shown on.
    pub fn last_line(&self, size: (u16, u16)) -> (line: u16)
        ensures
            line == self@.last_line(size),
    {
        let lines = self.selector_lines(size);
        if lines > 0 {
            lines - 1
        } else {
            0
        }
    }

    /// The row of item `i`, trimmed to `width` columns.
    fn row(&self, i: usize, width: u16) -> (row: StyledGraphemes)
        requires
            i < self@.editor.items.len(),
        ensures
            row@ == self@.row(i as int, width),
    {
        let current = i == self.editor.position();
        let mut line = if current { self.label.clone() } else { self.label.padding() };
        let items = self.editor.items();
        assert(items.deep_view()[i as int] == items@[i as int]@);
        line.extend(&Graphemes::new(items[i].as_str()));
        StyledGraphemes::from_graphemes(
            &line.trim_to_width(width as usize, &self.suffix_after_trim),
            if current {
                Style::new().fgc(self.label_color).build()
            } else {
                Style::new().build()
            },
        )
    }
}

impl PaneFactory for State {
    open spec fn pane(v: StateView, width: u16, height: u16) -> PaneView<StyledRow> {
        v.pane(width, height)
    }

    /// Draws the items in the window, one to a row.
    fn create_pane(&self, width: u16, height: u16) -> (pane: Pane<StyledGraphemes>) {
        let lines = self.selector_lines((width, height)) as usize;
        let position = self.editor.position();
        let top = if self.screen_position as usize <= position {
            position - self.screen_position as usize
        } else {
            0
        };
        let total = self.editor.items().len();
        let left = total - top;
        let shown = if left <= lines { left } else { lines };
        let mut matrix: Vec<StyledGraphemes> = Vec::new();
        let mut k: usize = 0;
        while k < shown
            invariant
                k <= shown,
                shown == self@.shown((width, height)),
                top == self@.top(),
                total == self@.editor.items.len(),
                top + shown <= total,
                views_of(matrix@) == self@.rows((width, height)).take(k as int),
            decreases shown - k,
        {
            let row = self.row(top + k, width);
            let ghost before = views_of(matrix@);
            matrix.push(row);
            assert(views_of(matrix@) =~= before.push(row@));
            assert(self@.rows((width, height)).take(k + 1) =~= self@.rows((width, height)).take(
                k as int,
            ).push(row@));
            k = k + 1;
        }
        assert(self@.rows((width, height)).take(shown as int) =~= self@.rows((width, height)));
        Pane::new(matrix, 0, None)
    }
}

/// The keys of a select prompt unless others are bound: the arrows move up
/// and down, Control with `a` and with `e` move to the head and to the
/// tail, Enter ends the session.
pub open spec fn default_bindings() -> Seq<(KeyEvent, Action)> {
    seq![
        (KeyEvent::spec_new(KeyCode::Up, KeyModifiers::spec_none()), Action::MoveUp),
        (KeyEvent::spec_new(KeyCode::Down, KeyModifiers::spec_none()), Action::MoveDown),
        (KeyEvent::spec_new(KeyCode::Char('a'), KeyModifiers::spec_control()), Action::MoveHead),
        (KeyEvent::spec_new(KeyCode::Char('e'), KeyModifiers::spec_control()), Action::MoveTail),
        (KeyEvent::spec_new(KeyCode::Enter, KeyModifiers::spec_none()), Action::Finish),
    ]
}

/// The keys of a select prompt unless others are bound.
pub fn default_keybind() -> (k: KeyBind<Action>)
    ensures
        k@ == default_bindings(),
{
    let mut k: KeyBind<Action> = KeyBind::new();
    k.assign(KeyEvent::new(KeyCode::Up, KeyModifiers::none()), Action::MoveUp);
    k.assign(KeyEvent::new(KeyCode::Down, KeyModifiers::none()), Action::MoveDown);
    k.assign(KeyEvent::new(KeyCode::Char('a'), KeyModifiers::control()), Action::MoveHead);
    k.assign(KeyEvent::new(KeyCode::Char('e'), KeyModifiers::control()), Action::MoveTail);
    k.assign(KeyEvent::new(KeyCode::Enter, KeyModifiers::none()), Action::Finish);
    assert(k@ =~= default_bindings());
    k
}

/// The view of a select prompt in a session.
pub struct DispatcherView {
    pub keybind: Seq<(KeyEvent, Action)>,
    pub state: StateView,
}

impl DispatcherView {
    /// What `event` is bound to: the latest binding of a key, and nothing
    /// for every other event.
    pub open spec fn bound(self, event: Event) -> Option<Action> {
        match event {
            Event::Key(key) => bound_to(self.keybind, key),
            _ => None,
        }
    }

    /// The panes of the prompt from top to bottom: the title, where there
    /// is one, and the items.
    pub open spec fn panes(self, size: (u16, u16)) -> Seq<PaneView<StyledRow>> {
        match self.state.title {
            Some(title) => seq![title.pane(size.0), self.state.pane(size.0, size.1)],
            None => seq![self.state.pane(size.0, size.1)],
        }
    }

    /// The prompt after `event` in a terminal of the given size, and
    /// whether the session goes on: the action that the event is bound to
    /// is taken; an event that is bound to none changes nothing.
    pub open spec fn handle(self, event: Event, size: (u16, u16)) -> (DispatcherView, PromptSignal) {
        match self.bound(event) {
            Some(Action::Finish) => (self, PromptSignal::Quit),
            Some(action) => (
                DispatcherView { state: self.state.act(action, size), ..self },
                PromptSignal::Continue,
            ),
            None => (self, PromptSignal::Continue),
        }
    }
}

/// A select prompt in a session: its keys and its state.
pub struct Dispatcher {
    pub keybind: KeyBind<Action>,
    pub state: State,
}

impl View for Dispatcher {
    type V = DispatcherView;

    open spec fn view(&self) -> DispatcherView {
        DispatcherView { keybind: self.keybind@, state: self.state@ }
    }
}

impl Dispatcher {
    /// Acts on one event in a terminal of the given size and says whether
    /// the session goes on.
    pub fn handle(&mut self, event: &Event, size: (u16, u16)) -> (signal: PromptSignal)
        ensures
            (final(self)@, signal) == old(self)@.handle(*event, size),
    {
        let bound = match event {
            Event::Key(key) => self.keybind.lookup(key),
            _ => None,
        };
        match bound {
            Some(Action::Finish) => PromptSignal::Quit,
            Some(Action::MoveUp) => {
                action::move_up(&mut self.state, size);
                PromptSignal::Continue
            },
            Some(Action::MoveDown) => {
                action::move_down(&mut self.state, size);
                PromptSignal::Continue
            },
            Some(Action::MoveHead) => {
                action::move_head(&mut self.state);
                PromptSignal::Continue
            },
            Some(Action::MoveTail) => {
                action::move_tail(&mut self.state, size);
                PromptSignal::Continue
            },
            None => PromptSignal::Continue,
        }
    }

    /// Draws the prompt from top to bottom: the title, where there is one,
    /// and the items.
    pub fn create_panes(&self, size: (u16, u16)) -> (panes: Vec<Pane<StyledGraphemes>>)
        ensures
            views_of(panes@) == self@.panes(size),
    {
        let mut panes: Vec<Pane<StyledGraphemes>> = Vec::new();
        match &self.state.title {
            Some(title) => {
                panes.push(title.create_pane(size.0, size.1));
            },
            None => {},
        }
        panes.push(self.state.create_pane(size.0, size.1));
        assert(views_of(panes@) =~= self@.panes(size));
        panes
    }

    /// Takes one event through a round of the loop in a terminal of the
    /// given size and says what is to be done.
    ///
    /// An interrupt ends the session at once and changes nothing. Every
    /// other event is acted on: where the session goes on, the prompt is
    /// drawn as it then is; where it ends, the current item is handed out.
    pub fn step(&mut self, event: &Event, size: (u16, u16)) -> (outcome: Outcome<String>)
        ensures
            event.is_interrupt() ==> outcome is Interrupted && final(self)@ == old(self)@,
            !event.is_interrupt() ==> final(self)@ == old(self)@.handle(*event, size).0,
            !event.is_interrupt() ==> match old(self)@.handle(*event, size).1 {
                PromptSignal::Continue => outcome is Draw && views_of(outcome->Draw_0@)
                    == final(self)@.panes(size),
                PromptSignal::Quit => outcome is Finished && outcome->Finished_0@
                    == final(self)@.state.editor.items[final(self)@.state.editor.position as int],
            },
    {
        if event.interrupts() {
            return Outcome::Interrupted;
        }
        match self.handle(event, size) {
            PromptSignal::Continue => Outcome::Draw(self.create_panes(size)),
            PromptSignal::Quit => Outcome::Finished(self.finalize()),
        }
    }

    /// The item that the session ends with: the current one.
    pub fn finalize(&self) -> (item: String)
        ensures
            item@ == self@.state.editor.items[self@.state.editor.position as int],
    {
        self.state.editor.get().clone()
    }
}

} // verus!
