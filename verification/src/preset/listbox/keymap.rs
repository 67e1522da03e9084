//! The keymaps of the list prompt and the names they are registered under.
use vstd::prelude::*;
use crate::event::{Event, KeyCode, KeyModifiers};
use crate::preset::listbox::render::Renderer;
use crate::PromptSignal;

verus! {

/// The keymaps of the list prompt.
#[derive(Clone, Copy, Debug, PartialEq, Eq)]
pub enum Keymap {
    /// The arrow keys move the cursor, Enter chooses.
    Default,
}

/// The name under which [`Keymap::Default`] is registered.
pub open spec fn default_name() -> Seq<char> {
    "default"@
}

/// The keymap of the list prompt.
///
/// Enter ends the session. The up arrow moves to the item before, or from
/// the first to the last; the down arrow moves to the item behind, or from
/// the last to the first. Every other event changes nothing.
pub fn default(event: &Event, renderer: &mut Renderer) -> (signal: PromptSignal)
    ensures
        (final(renderer)@, signal) == old(renderer)@.moves(*event),
{
    match event {
        Event::Key(key) => {
            if key.is(KeyCode::Enter, KeyModifiers::none()) {
                PromptSignal::Quit
            } else if key.is(KeyCode::Up, KeyModifiers::none()) {
                match &mut renderer.listbox_snapshot.after_mut().listbox {
                    Some(list) => {
                        if !list.prev() {
                            list.to_tail();
                        }
                    },
                    None => {},
                }
                PromptSignal::Continue
            } else if key.is(KeyCode::Down, KeyModifiers::none()) {
                match &mut renderer.listbox_snapshot.after_mut().listbox {
                    Some(list) => {
                        if !list.next() {
                            list.to_head();
                        }
                    },
                    None => {},
                }
                PromptSignal::Continue
            } else {
                PromptSignal::Continue
            }
        },
        _ => PromptSignal::Continue,
    }
}

} // verus!
