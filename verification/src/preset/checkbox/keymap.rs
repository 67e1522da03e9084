//! The keymaps of the checkbox prompt and the names they are registered
//! under.
use vstd::prelude::*;
use crate::event::{Event, KeyCode, KeyModifiers};
use crate::preset::checkbox::render::Renderer;
use crate::PromptSignal;

verus! {

/// The keymaps of the checkbox prompt.
#[derive(Clone, Copy, Debug, PartialEq, Eq)]
pub enum Keymap {
    /// The arrow keys move the cursor, the space bar picks, Enter ends.
    Default,
}

/// The name under which [`Keymap::Default`] is registered.
pub open spec fn default_name() -> Seq<char> {
    "default"@
}

/// The keymap of the checkbox prompt.
///
/// Enter ends the session. The up arrow moves to the item before, or from
/// the first to the last; the down arrow moves to the item behind, or from
/// the last to the first. The space bar picks the current item, or gives it
/// up where it was picked. Every other event changes nothing.
pub fn default(event: &Event, renderer: &mut Renderer) -> (signal: PromptSignal)
    ensures
        (final(renderer)@, signal) == old(renderer)@.moves(*event),
{
    match event {
        Event::Key(key) => {
            if key.is(KeyCode::Enter, KeyModifiers::none()) {
                PromptSignal::Quit
            } else if key.is(KeyCode::Up, KeyModifiers::none()) {
                let checkbox = &mut renderer.checkbox_snapshot.after_mut().checkbox;
                if !checkbox.prev() {
                    checkbox.to_tail();
                }
                PromptSignal::Continue
            } else if key.is(KeyCode::Down, KeyModifiers::none()) {
                let checkbox = &mut renderer.checkbox_snapshot.after_mut().checkbox;
                if !checkbox.next() {
                    checkbox.to_head();
                }
                PromptSignal::Continue
            } else if key.is(KeyCode::Char(' '), KeyModifiers::none()) {
                renderer.checkbox_snapshot.after_mut().checkbox.toggle();
                PromptSignal::Continue
            } else {
                PromptSignal::Continue
            }
        },
        _ => PromptSignal::Continue,
    }
}

} // verus!
