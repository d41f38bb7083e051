use blueachive::sequencer::{ResumeOutcome, SequencerCore, SequencerState};
use blueachive::speaker::RawLine;

fn line(text: &str) -> RawLine {
    RawLine { text: String::from(text), tags: Vec::new() }
}

#[test]
fn choice_outcome_with_empty_buffer_awaits_choice() {
    let mut core = SequencerCore::new();
    let choices = vec![String::from("Yes"), String::from("No")];
    core.step(Vec::new(), ResumeOutcome::Choices(choices));
    assert_eq!(core.state(), SequencerState::AwaitingChoice);
    assert_eq!(core.choices().len(), 2);
    assert_eq!(core.choices()[0], String::from("Yes"));
    assert_eq!(core.choices()[1], String::from("No"));
    assert!(!core.is_choice_pending());
}

#[test]
fn buffered_lines_surface_before_the_end() {
    let mut core = SequencerCore::new();
    core.step(vec![line("First\n"), line("Second\n")], ResumeOutcome::Done);
    // The script is exhausted, but lines wait: the sequencer keeps going.
    assert!(core.is_exhausted());
    assert_eq!(core.state(), SequencerState::Continuing);
    assert_eq!(core.buffer_len(), 1);
    assert_eq!(core.speak_state.content, String::from("First"));

    core.dispatch();
    assert_eq!(core.state(), SequencerState::Continuing);
    assert_eq!(core.buffer_len(), 0);
    assert_eq!(core.speak_state.content, String::from("Second"));

    // Only now, with the buffer drained, does the exhaustion take effect.
    core.dispatch();
    assert_eq!(core.state(), SequencerState::Ended);
}

#[test]
fn buffered_lines_surface_before_a_choice() {
    let mut core = SequencerCore::new();
    core.step(
        vec![line("Narrator: Make your pick\n")],
        ResumeOutcome::Choices(vec![String::from("Pick me")]),
    );
    assert_eq!(core.state(), SequencerState::Continuing);
    assert!(core.is_choice_pending());
    assert_eq!(core.speak_state.name, Some(String::from("Narrator")));
    assert_eq!(core.speak_state.content, String::from("Make your pick"));

    core.dispatch();
    assert_eq!(core.state(), SequencerState::AwaitingChoice);
    assert!(!core.is_choice_pending());
    assert_eq!(core.choices().len(), 1);
}

#[test]
fn done_with_no_lines_ends_immediately() {
    let mut core = SequencerCore::new();
    core.step(Vec::new(), ResumeOutcome::Done);
    assert_eq!(core.state(), SequencerState::Ended);
    assert_eq!(core.buffer_len(), 0);
}

#[test]
fn resolve_choice_clears_the_set_and_continues() {
    let mut core = SequencerCore::new();
    core.step(Vec::new(), ResumeOutcome::Choices(vec![String::from("A")]));
    assert_eq!(core.state(), SequencerState::AwaitingChoice);
    core.resolve_choice();
    assert_eq!(core.state(), SequencerState::Continuing);
    assert_eq!(core.choices().len(), 0);
}

#[test]
fn fresh_core_is_continuing_and_empty() {
    let core = SequencerCore::new();
    assert_eq!(core.state(), SequencerState::Continuing);
    assert_eq!(core.buffer_len(), 0);
    assert_eq!(core.choices().len(), 0);
    assert!(!core.is_choice_pending());
    assert!(!core.is_exhausted());
    assert_eq!(core.speak_state.content, String::new());
}
