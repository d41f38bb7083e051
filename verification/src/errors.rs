//! Error taxonomy for the story engine.
//!
//! `ScriptError` covers failures of the narrative interpreter (and a choice
//! index outside the offered set), `RegistrationError` covers resources that
//! cannot be attached, and `LookupError` covers operations that name an
//! identifier nobody registered.

use vstd::prelude::*;

verus! {

/// A story operation against the narrative interpreter failed, or a choice
/// index lay outside the offered set. Failed calls leave the sequencer state
/// unchanged from before the call.
#[derive(Clone, Copy, Debug, PartialEq, Eq, Structural)]
pub enum ScriptError {
    /// The story text was not a well-formed script.
    ParseFailed,
    /// The interpreter refused to start the story.
    StartFailed,
    /// The interpreter failed to resume the story flow.
    ResumeFailed,
    /// The interpreter refused the selected choice.
    ChoiceFailed,
    /// The selected index lay outside the offered choice set.
    ChoiceOutOfRange,
}

/// A resource could not be registered.
#[derive(Clone, Copy, Debug, PartialEq, Eq, Structural)]
pub enum RegistrationError {
    /// The path's extension names no image format the loader handles.
    UnsupportedFormat,
    /// The resource data could not be loaded or decoded. The library never
    /// loads resources itself; the surrounding application reports a failed
    /// load with this value.
    LoadFailed,
}

/// An operation named an identifier that was never registered. Recoverable:
/// the caller may log it and go on without that entry.
#[derive(Clone, Copy, Debug, PartialEq, Eq, Structural)]
pub enum LookupError {
    /// No entry was registered under the given identifier.
    NotRegistered,
}

impl ScriptError {
    /// A short human-readable description of the error.
    pub fn describe(&self) -> (r: &'static str)
        ensures
            r@.len() > 0,
    {
        let s = match self {
            ScriptError::ParseFailed => "the story text could not be parsed",
            ScriptError::StartFailed => "the story could not be started",
            ScriptError::ResumeFailed => "the story flow could not be resumed",
            ScriptError::ChoiceFailed => "the choice could not be registered",
            ScriptError::ChoiceOutOfRange => "the choice index lay outside the offered set",
        };
        proof {
            reveal_strlit("the story text could not be parsed");
            reveal_strlit("the story could not be started");
            reveal_strlit("the story flow could not be resumed");
            reveal_strlit("the choice could not be registered");
            reveal_strlit("the choice index lay outside the offered set");
        }
        s
    }
}

} // verus!
