//! The keymaps of the line prompt and the names they are registered under.
use vstd::prelude::*;
use crate::event::{Event, KeyCode, KeyModifiers};
use crate::preset::readline::render::{answer_of, answers, verdict_of, Renderer};
use crate::validate::Validate;
use crate::PromptSignal;

verus! {

/// The keymaps of the line prompt.
#[derive(Clone, Copy, Debug, PartialEq, Eq)]
pub enum Keymap {
    /// The keys edit the line.
    Default,
    /// The keys go through the list of suggestions; the line is not edited.
    OnSuggest,
}

/// The name under which [`Keymap::Default`] is registered.
pub open spec fn default_name() -> Seq<char> {
    "default"@
}

/// The name under which [`Keymap::OnSuggest`] is registered.
pub open spec fn on_suggest_name() -> Seq<char> {
    "on_suggest"@
}

/// The keymap for editing.
///
/// Enter ends the line: the check is asked about the text where one is
/// set, and what it answers is acted on. Tab asks for suggestions where there are candidates,
/// and the answer is acted on. Every other event is typed in.
pub fn default<C: Validate>(event: &Event, renderer: &mut Renderer<C>) -> (signal: PromptSignal)
    ensures
        old(renderer)@.edits_to(*event, final(renderer)@, signal),
{
    let enter = match event {
        Event::Key(key) => key.is(KeyCode::Enter, KeyModifiers::none()),
        _ => false,
    };
    let tab = match event {
        Event::Key(key) => key.is(KeyCode::Tab, KeyModifiers::none()),
        _ => false,
    };
    if enter {
        let text = renderer.text_editor_snapshot.after().text();
        let verdict = match &renderer.validator {
            Some(validator) => {
                if validator.validate(text.as_str()) {
                    None
                } else {
                    Some(validator.error_message(text.as_str()))
                }
            },
            None => None,
        };
        let ghost seen = verdict_of(&verdict);
        let signal = renderer.settle(verdict);
        proof {
            assert((renderer@, signal) == old(renderer)@.settle(seen));
            match (old(renderer)@.validator, seen) {
                (Some(check), Some(message)) => {
                    assert(check.words(old(renderer)@.text(), message));
                },
                _ => {},
            }
        }
        signal
    } else if tab && renderer.suggest.is_some() {
        let text = renderer.text_editor_snapshot.after().text();
        let found = match &renderer.suggest {
            Some(suggest) => suggest.prefix_search(text.as_str()),
            None => None,
        };
        let ghost seen = answer_of(&found);
        renderer.offer(found);
        assert(answers(old(renderer)@.suggest->Some_0, old(renderer)@.text(), seen));
        assert(renderer@ == old(renderer)@.offer(seen));
        PromptSignal::Continue
    } else {
        renderer.type_in(event);
        PromptSignal::Continue
    }
}

/// The keymap for suggestions.
///
/// Tab and the up and down arrows go through the list. Any other event puts
/// the list away and makes the keymap for editing active, which then takes
/// the event.
pub fn on_suggest<C: Validate>(event: &Event, renderer: &mut Renderer<C>) -> (signal: PromptSignal)
    ensures
        old(renderer)@.browses_to(*event, final(renderer)@, signal),
{
    if Renderer::<C>::browses(event) {
        renderer.browse(event);
        PromptSignal::Continue
    } else {
        renderer.leave_suggest();
        default(event, renderer)
    }
}

} // verus!
