//! Bindings to the narrative interpreter (the `inkling` crate).
//!
//! The interpreter owns the parsed story document and its position in it.
//! Both are opaque here: what a resumption yields depends on the story's
//! internal state, so the bindings promise nothing about the values that
//! come back. The sequencer takes those values as arguments and is verified
//! for every value of them.

use vstd::prelude::*;

use crate::sequencer::ResumeOutcome;
use crate::speaker::RawLine;

verus! {

/// inkling's `Story`: the parsed narrative document together with the
/// interpreter's position in it. Opaque to the library.
#[verifier::external_type_specification]
#[verifier::external_body]
pub struct ExStory(inkling::Story);

/// inkling's runtime error. Opaque; callers map it to
/// [`crate::errors::ScriptError`].
#[verifier::external_type_specification]
#[verifier::external_body]
pub struct ExInklingError(inkling::error::InklingError);

/// inkling's story-parsing error. Opaque; callers map it to
/// [`crate::errors::ScriptError::ParseFailed`].
#[verifier::external_type_specification]
#[verifier::external_body]
pub struct ExReadError(inkling::error::ReadError);

/// Relies on inkling's `read_story_from_string`: parses ink-formatted text
/// into a `Story`, or reports why the text is not a well-formed script.
pub assume_specification[ inkling::read_story_from_string ](string: &str) -> (r: Result<
    inkling::Story,
    inkling::error::ReadError,
>);

/// Relies on inkling's `Story::start`: marks the story as in progress; errs
/// if and only if the story was already started.
pub assume_specification[ inkling::Story::start ](story: &mut inkling::Story) -> (r:
    Result<(), inkling::error::InklingError>);

/// Relies on inkling's `Story::make_choice`: registers the branch selected
/// from the most recently offered choice set with the interpreter.
pub assume_specification[ inkling::Story::make_choice ](
    story: &mut inkling::Story,
    selection: usize,
) -> (r: Result<(), inkling::error::InklingError>);

/// Relies on inkling's `Story::resume`: follows the story until it reaches
/// an end or offers a set of choices, reading every line passed on the way
/// into a buffer. What comes back depends on the interpreter's position, so
/// nothing is stated of the outcome; the sequencer handles every value.
#[verifier::external_body]
pub(crate) fn resume_story(story: &mut inkling::Story) -> (r: Result<
    (Vec<RawLine>, ResumeOutcome),
    inkling::error::InklingError,
>) {
    let mut buffer: inkling::LineBuffer = Vec::new();
    match story.resume(&mut buffer) {
        Err(e) => Err(e),
        Ok(prompt) => {
            let lines = buffer.into_iter().map(|l| RawLine { text: l.text, tags: l.tags }).collect();
            let outcome = match prompt {
                inkling::Prompt::Done => ResumeOutcome::Done,
                inkling::Prompt::Choice(cs) => ResumeOutcome::Choices(cs.into_iter().map(|c| c.text).collect()),
            };
            Ok((lines, outcome))
        },
    }
}

} // verus!
