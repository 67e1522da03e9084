//! What the keys of a select prompt do.
use vstd::prelude::*;
use crate::select::State;

verus! {

/// Move up from the current selected position in the candidates.
pub fn move_up(state: &mut State, size: (u16, u16))
    ensures
        final(state)@ == old(state)@.move_up(size),
{
    // cyclical movement
    if !state.editor.prev() {
        move_tail(state, size);
    } else if 0 < state.screen_position {
        state.screen_position = state.screen_position - 1;
    }
}

/// Move down from the current selected position in the candidates.
pub fn move_down(state: &mut State, size: (u16, u16))
    ensures
        final(state)@ == old(state)@.move_down(size),
{
    let last = state.last_line(size);
    // cyclical movement
    if !state.editor.next() {
        move_head(state);
    } else if state.screen_position < last {
        state.screen_position = state.screen_position + 1;
    } else {
        state.screen_position = last;
    }
}

/// Move the selected position to head.
pub fn move_head(state: &mut State)
    ensures
        final(state)@ == old(state)@.move_head(),
{
    state.editor.to_head();
    state.screen_position = 0;
}

/// Move the selected position to tail.
pub fn move_tail(state: &mut State, size: (u16, u16))
    ensures
        final(state)@ == old(state)@.move_tail(size),
{
    let last = state.last_line(size);
    state.editor.to_tail();
    state.screen_position = last;
}

} // verus!
