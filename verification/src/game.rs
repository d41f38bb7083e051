//! The game state: the narrative interpreter, the sequencer core, and the
//! resource bookkeeping the frame loop reads.
//!
//! `advance_story` and `make_choice` are the two operations the input layer
//! invokes. Both call into the narrative interpreter; a failed interpreter
//! call propagates its error and leaves the sequencer state unchanged from
//! before the call.

use vstd::prelude::*;

use crate::errors::ScriptError;
use crate::interp::resume_story;
use crate::registry::CharacterManager;
use crate::sequencer::advance_ok;
use crate::sequencer::core_inv;
use crate::sequencer::init_core_view;
use crate::sequencer::needs_resume;
use crate::sequencer::spec_resolve_choice;
use crate::sequencer::SequencerCore;
use crate::sequencer::SequencerState;
use crate::texture::TextureManager;

verus! {

/// The whole story-side state of the game: the parsed story, the sequencer
/// core, and the plain resource bookkeeping (background key, character
/// registry, texture registry) the render layer consults.
pub struct GameState {
    /// The parsed story, owned by the narrative interpreter. Opaque: all
    /// story progression goes through `advance_story` and `make_choice`.
    pub story: inkling::Story,
    /// The sequencer core; its `speak_state` is what the render layer draws.
    pub core: SequencerCore,
    /// The key of the background texture to draw, if one was chosen.
    pub background: Option<String>,
    /// The character registry.
    pub character_manager: CharacterManager,
    /// The texture registry, once resources were loaded.
    pub textures: Option<TextureManager>,
}

/// How a successful `make_choice` on an awaited, in-range index relates the
/// core before the call to the core after it: the choice set is cleared,
/// the sequencer returns to `Continuing`, and one advance follows.
pub open spec fn choice_ok(pre: crate::sequencer::CoreView, post: crate::sequencer::CoreView) -> bool {
    advance_ok(spec_resolve_choice(pre), post)
}

impl GameState {
    /// The resource fields the story operations never touch.
    pub open spec fn same_resources(pre: GameState, post: GameState) -> bool {
        &&& post.background == pre.background
        &&& post.character_manager == pre.character_manager
        &&& post.textures == pre.textures
    }

    /// Builds the game state from the story text: parses and starts the
    /// story, then performs one advance to pull the initial content. Errs
    /// when the text is not a well-formed script, when the interpreter
    /// refuses to start it, or when the first resumption fails.
    pub fn new(story_content: &str) -> (r: Result<GameState, ScriptError>)
        ensures
            r matches Ok(gs) ==> advance_ok(init_core_view(), gs.core@) && core_inv(gs.core@)
                && gs.background is None && gs.textures is None
                && gs.character_manager.characters@.len() == 0 && gs.character_manager.wf(),
            r matches Err(e) ==> e == ScriptError::ParseFailed || e == ScriptError::StartFailed
                || e == ScriptError::ResumeFailed,
    {
        match inkling::read_story_from_string(story_content) {
            Err(_) => Err(ScriptError::ParseFailed),
            Ok(story) => {
                let mut story = story;
                match inkling::Story::start(&mut story) {
                    Err(_) => Err(ScriptError::StartFailed),
                    Ok(()) => {
                        let mut state = GameState {
                            story,
                            core: SequencerCore::new(),
                            background: None,
                            character_manager: CharacterManager::new(),
                            textures: None,
                        };
                        match state.advance_story() {
                            Ok(()) => Ok(state),
                            Err(e) => Err(e),
                        }
                    },
                }
            },
        }
    }

    /// Advances the story by one step. Outside `Continuing` this is a
    /// no-op. Otherwise, when nothing is buffered, no choice is pending and
    /// the script is not exhausted, the interpreter is resumed first; a
    /// failed resumption propagates as an error and leaves the sequencer
    /// unchanged. The step then consumes the front buffered line into the
    /// speaker state, or honours a pending choice set, or ends the story —
    /// in that order of priority, so buffered lines always surface before
    /// an end or a choice takes effect.
    pub fn advance_story(&mut self) -> (r: Result<(), ScriptError>)
        requires
            core_inv(old(self).core@),
        ensures
            core_inv(final(self).core@),
            GameState::same_resources(*old(self), *final(self)),
            r is Ok ==> advance_ok(old(self).core@, final(self).core@),
            r is Err ==> final(self).core@ == old(self).core@ && r == Err::<(), ScriptError>(
                ScriptError::ResumeFailed,
            ) && old(self).core@.state is Continuing && needs_resume(old(self).core@),
            old(self).core@.state is Continuing && old(self).core@.buffer.len() > 0
                ==> final(self).core@.state is Continuing,
    {
        if !(self.core.state() == SequencerState::Continuing) {
            return Ok(());
        }
        if self.core.buffer_len() == 0 && !self.core.is_choice_pending()
            && !self.core.is_exhausted() {
            match resume_story(&mut self.story) {
                Err(_) => Err(ScriptError::ResumeFailed),
                Ok((lines, outcome)) => {
                    self.core.step(lines, outcome);
                    Ok(())
                },
            }
        } else {
            self.core.dispatch();
            Ok(())
        }
    }

    /// Resolves the awaited choice at `index`. Outside `AwaitingChoice`
    /// this is a no-op; an index outside the offered set is refused and
    /// changes nothing. A valid choice is forwarded to the interpreter (a
    /// refused one propagates as an error and changes nothing), the choice
    /// set is cleared, and one advance follows to pull the next content.
    pub fn make_choice(&mut self, index: usize) -> (r: Result<(), ScriptError>)
        requires
            core_inv(old(self).core@),
        ensures
            core_inv(final(self).core@),
            GameState::same_resources(*old(self), *final(self)),
            !(old(self).core@.state is AwaitingChoice) ==> final(self).core@ == old(self).core@
                && r is Ok,
            old(self).core@.state is AwaitingChoice && index >= old(self).core@.choices.len()
                ==> final(self).core@ == old(self).core@ && r == Err::<(), ScriptError>(
                ScriptError::ChoiceOutOfRange,
            ),
            old(self).core@.state is AwaitingChoice && index < old(self).core@.choices.len()
                ==> match r {
                Ok(()) => choice_ok(old(self).core@, final(self).core@),
                Err(e) => (e == ScriptError::ChoiceFailed && final(self).core@
                    == old(self).core@) || (e == ScriptError::ResumeFailed && final(self).core@
                    == spec_resolve_choice(old(self).core@)),
            },
    {
        if !(self.core.state() == SequencerState::AwaitingChoice) {
            return Ok(());
        }
        if index >= self.core.choices().len() {
            return Err(ScriptError::ChoiceOutOfRange);
        }
        match inkling::Story::make_choice(&mut self.story, index) {
            Err(_) => Err(ScriptError::ChoiceFailed),
            Ok(()) => {
                self.core.resolve_choice();
                proof {
                    assert(core_inv(self.core@));
                }
                self.advance_story()
            },
        }
    }

    /// Whether the story has ended.
    pub fn story_ended(&self) -> (r: bool)
        ensures
            r == (self.core@.state is Ended),
    {
        self.core.state() == SequencerState::Ended
    }
}

} // verus!
