//! Input decisions.
//!
//! The input layer polls devices and debounces clicks outside the library;
//! what reaches the story is one of two abstract signals: "advance
//! requested" or "choice selected at index i". `handle_input` applies one
//! such signal to the game state. `InputHandler` holds the debounce
//! decision itself, over times in whole milliseconds.

use vstd::prelude::*;

use crate::errors::ScriptError;
use crate::game::choice_ok;
use crate::game::GameState;
use crate::sequencer::advance_ok;
use crate::sequencer::core_inv;
use crate::sequencer::needs_resume;
use crate::sequencer::spec_resolve_choice;

verus! {

/// One abstract input signal for the story.
#[derive(Clone, Copy, Debug, PartialEq, Eq, Structural)]
pub enum InputEvent {
    /// The player asked to advance the story.
    AdvanceRequested,
    /// The player selected the choice at this index.
    ChoiceSelected(usize),
}

/// Debounces advance requests: a mouse click only counts when enough time
/// has passed since the last counted click; a key press always counts.
#[derive(Clone, Copy, Debug, PartialEq, Eq, Structural)]
pub struct InputHandler {
    debounce_ms: u64,
    last_click_ms: u64,
}

/// Milliseconds elapsed from `last` to `now`; zero when the clock moved
/// backwards.
pub open spec fn elapsed_ms(last: u64, now: u64) -> u64 {
    if now >= last {
        (now - last) as u64
    } else {
        0
    }
}

impl InputHandler {
    /// The configured debounce interval.
    pub closed spec fn spec_debounce_ms(self) -> u64 {
        self.debounce_ms
    }

    /// The time of the last counted click.
    pub closed spec fn spec_last_click_ms(self) -> u64 {
        self.last_click_ms
    }

    /// A handler with a 300 ms click debounce and no click counted yet.
    pub fn new() -> (r: InputHandler)
        ensures
            r.spec_debounce_ms() == 300,
            r.spec_last_click_ms() == 0,
    {
        InputHandler { debounce_ms: 300, last_click_ms: 0 }
    }

    /// Whether an advance is requested: a mouse click counts only when more
    /// than the debounce interval elapsed since the last counted click (and
    /// is then itself counted); otherwise a space press counts as it is.
    pub fn should_advance(&mut self, mouse_click: bool, space_press: bool, now_ms: u64) -> (r:
        bool)
        ensures
            r == if mouse_click {
                elapsed_ms(old(self).spec_last_click_ms(), now_ms) > old(self).spec_debounce_ms()
            } else {
                space_press
            },
            final(self).spec_debounce_ms() == old(self).spec_debounce_ms(),
            final(self).spec_last_click_ms() == if (mouse_click && elapsed_ms(
                old(self).spec_last_click_ms(),
                now_ms,
            ) > old(self).spec_debounce_ms()) {
                now_ms
            } else {
                old(self).spec_last_click_ms()
            },
    {
        if mouse_click {
            let elapsed: u64 = if now_ms >= self.last_click_ms {
                now_ms - self.last_click_ms
            } else {
                0
            };
            if elapsed > self.debounce_ms {
                self.last_click_ms = now_ms;
                true
            } else {
                false
            }
        } else {
            space_press
        }
    }
}

/// Applies one input signal to the game state: an advance request advances
/// the story (a no-op outside `Continuing`), and a selected choice resolves
/// it (a no-op outside `AwaitingChoice`, refused when the index lies
/// outside the offered set). A failed interpreter call propagates and
/// leaves the sequencer state unchanged from before the call.
pub fn handle_input(state: &mut GameState, event: InputEvent) -> (r: Result<(), ScriptError>)
    requires
        core_inv(old(state).core@),
    ensures
        core_inv(final(state).core@),
        GameState::same_resources(*old(state), *final(state)),
        event == InputEvent::AdvanceRequested ==> {
            &&& r is Ok ==> advance_ok(old(state).core@, final(state).core@)
            &&& r is Err ==> final(state).core@ == old(state).core@ && r == Err::<(), ScriptError>(
                ScriptError::ResumeFailed,
            ) && old(state).core@.state is Continuing && needs_resume(old(state).core@)
        },
        event matches InputEvent::ChoiceSelected(i) ==> {
            &&& !(old(state).core@.state is AwaitingChoice)
                ==> final(state).core@ == old(state).core@ && r is Ok
            &&& old(state).core@.state is AwaitingChoice && i >= old(state).core@.choices.len()
                ==> final(state).core@ == old(state).core@ && r == Err::<(), ScriptError>(
                ScriptError::ChoiceOutOfRange,
            )
            &&& old(state).core@.state is AwaitingChoice && i < old(state).core@.choices.len()
                ==> match r {
                Ok(()) => choice_ok(old(state).core@, final(state).core@),
                Err(e) => (e == ScriptError::ChoiceFailed && final(state).core@
                    == old(state).core@) || (e == ScriptError::ResumeFailed && final(state).core@
                    == spec_resolve_choice(old(state).core@)),
            }
        },
{
    match event {
        InputEvent::AdvanceRequested => state.advance_story(),
        InputEvent::ChoiceSelected(i) => state.make_choice(i),
    }
}

} // verus!
