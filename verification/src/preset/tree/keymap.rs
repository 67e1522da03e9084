//! The keymaps of the tree prompt and the names they are registered under.
use vstd::prelude::*;
use crate::event::{Event, KeyCode, KeyModifiers};
use crate::preset::tree::render::Renderer;
use crate::PromptSignal;

verus! {

/// The keymaps of the tree prompt.
#[derive(Clone, Copy, Debug, PartialEq, Eq)]
pub enum Keymap {
    /// The arrow keys move the cursor, the space bar folds and unfolds,
    /// Enter chooses.
    Default,
}

/// The name under which [`Keymap::Default`] is registered.
pub open spec fn default_name() -> Seq<char> {
    "default"@
}

/// The keymap of the tree prompt.
///
/// Enter ends the session. The up and down arrows move the cursor to the
/// neighbouring node that shows, the space bar turns the fold of the node
/// under the cursor over. Every other event changes nothing.
pub fn default(event: &Event, renderer: &mut Renderer) -> (signal: PromptSignal)
    ensures
        old(renderer)@.moves_to(*event, final(renderer)@, signal),
{
    match event {
        Event::Key(key) => {
            if key.is(KeyCode::Enter, KeyModifiers::none()) {
                PromptSignal::Quit
            } else if key.is(KeyCode::Up, KeyModifiers::none()) {
                renderer.tree_snapshot.after_mut().tree.backward();
                PromptSignal::Continue
            } else if key.is(KeyCode::Down, KeyModifiers::none()) {
                renderer.tree_snapshot.after_mut().tree.forward();
                PromptSignal::Continue
            } else if key.is(KeyCode::Char(' '), KeyModifiers::none()) {
                renderer.tree_snapshot.after_mut().tree.toggle();
                PromptSignal::Continue
            } else {
                PromptSignal::Continue
            }
        },
        _ => PromptSignal::Continue,
    }
}

} // verus!
