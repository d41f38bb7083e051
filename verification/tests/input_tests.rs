use blueachive::game::GameState;
use blueachive::input::{handle_input, InputEvent, InputHandler};
use blueachive::sequencer::SequencerState;

#[test]
fn space_always_advances() {
    let mut handler = InputHandler::new();
    assert!(handler.should_advance(false, true, 0));
    assert!(handler.should_advance(false, true, 1));
    assert!(!handler.should_advance(false, false, 2));
}

#[test]
fn clicks_are_debounced() {
    let mut handler = InputHandler::new();
    // Too soon after the (zero) starting time.
    assert!(!handler.should_advance(true, false, 100));
    // Enough time has passed; this click counts and is remembered.
    assert!(handler.should_advance(true, false, 400));
    // Too soon after the counted click.
    assert!(!handler.should_advance(true, false, 500));
    // Long enough again.
    assert!(handler.should_advance(true, false, 701));
}

#[test]
fn a_click_with_a_backwards_clock_does_not_advance() {
    let mut handler = InputHandler::new();
    assert!(handler.should_advance(true, false, 1000));
    assert!(!handler.should_advance(true, false, 900));
}

#[test]
fn advance_event_on_an_ended_story_changes_nothing() {
    let mut state = GameState::new("Only line\n").expect("story should load");
    state.advance_story().expect("advance should succeed");
    assert_eq!(state.core.state(), SequencerState::Ended);
    handle_input(&mut state, InputEvent::AdvanceRequested).expect("no-op advance");
    assert_eq!(state.core.state(), SequencerState::Ended);
}

#[test]
fn choice_event_outside_a_choice_is_ignored() {
    let mut state = GameState::new("Some line\n").expect("story should load");
    assert_eq!(state.core.state(), SequencerState::Continuing);
    handle_input(&mut state, InputEvent::ChoiceSelected(0)).expect("ignored choice");
    assert_eq!(state.core.state(), SequencerState::Continuing);
    assert_eq!(state.core.speak_state.content, String::from("Some line"));
}
