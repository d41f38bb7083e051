use blueachive::errors::ScriptError;
use blueachive::game::GameState;
use blueachive::input::{handle_input, InputEvent};
use blueachive::registry::CharacterManager;
use blueachive::sequencer::{ResumeOutcome, SequencerCore, SequencerState};

#[test]
fn single_speaker_line_is_attributed() {
    let state = GameState::new("Aru: Hello there\n").expect("story should load");
    assert_eq!(state.core.speak_state.name, Some(String::from("Aru")));
    assert_eq!(state.core.speak_state.content, String::from("Hello there"));
    assert_eq!(state.core.state(), SequencerState::Continuing);
}

#[test]
fn story_ends_after_last_line() {
    let mut state = GameState::new("A single line of narration\n").expect("story should load");
    assert_eq!(
        state.core.speak_state.content,
        String::from("A single line of narration")
    );
    assert!(!state.story_ended());
    state.advance_story().expect("advance should succeed");
    assert!(state.story_ended());
    // Further advances are no-ops.
    state.advance_story().expect("advance should succeed");
    assert!(state.story_ended());
}

#[test]
fn immediate_choices_await_selection() {
    let story = "*   Yes\n*   No\n";
    let state = GameState::new(story).expect("story should load");
    assert_eq!(state.core.state(), SequencerState::AwaitingChoice);
    let choices = state.core.choices();
    assert_eq!(choices.len(), 2);
    assert_eq!(choices[0], String::from("Yes"));
    assert_eq!(choices[1], String::from("No"));
}

#[test]
fn out_of_range_choice_is_refused_without_state_change() {
    let story = "*   Yes\n*   No\n";
    let mut state = GameState::new(story).expect("story should load");
    assert_eq!(state.core.state(), SequencerState::AwaitingChoice);
    let r = state.make_choice(5);
    assert_eq!(r, Err(ScriptError::ChoiceOutOfRange));
    assert_eq!(state.core.state(), SequencerState::AwaitingChoice);
    assert_eq!(state.core.choices().len(), 2);
}

#[test]
fn choosing_while_continuing_is_a_no_op() {
    let mut state = GameState::new("Aru: Hello there\n").expect("story should load");
    assert_eq!(state.core.state(), SequencerState::Continuing);
    let before_name = state.core.speak_state.name.clone();
    let r = state.make_choice(0);
    assert_eq!(r, Ok(()));
    assert_eq!(state.core.state(), SequencerState::Continuing);
    assert_eq!(state.core.speak_state.name, before_name);
}

#[test]
fn valid_choice_resumes_the_flow() {
    let story = "*   Left\n    You went left.\n*   Right\n    You went right.\n";
    let mut state = GameState::new(story).expect("story should load");
    assert_eq!(state.core.state(), SequencerState::AwaitingChoice);
    state.make_choice(0).expect("choice should be accepted");
    assert_eq!(state.core.state(), SequencerState::Continuing);
    assert_eq!(state.core.speak_state.content, String::from("Left"));
}

#[test]
fn malformed_story_is_reported() {
    let r = GameState::new("-> nowhere\n");
    assert!(matches!(r, Err(ScriptError::ParseFailed)));
}

#[test]
fn advance_event_advances_the_story() {
    let mut state =
        GameState::new("First line\nSecond line\n").expect("story should load");
    assert_eq!(state.core.speak_state.content, String::from("First line"));
    handle_input(&mut state, InputEvent::AdvanceRequested).expect("advance should succeed");
    assert_eq!(state.core.speak_state.content, String::from("Second line"));
}

#[test]
fn choice_event_selects_a_choice() {
    let story = "*   Yes\n*   No\n";
    let mut state = GameState::new(story).expect("story should load");
    handle_input(&mut state, InputEvent::ChoiceSelected(1)).expect("choice should be accepted");
    assert_eq!(state.core.state(), SequencerState::Continuing);
    assert_eq!(state.core.speak_state.content, String::from("No"));
}

#[test]
fn failed_resumption_leaves_the_sequencer_unchanged() {
    // An interpreter that was never started refuses to resume; the advance
    // must report that and change nothing.
    let story = inkling::read_story_from_string("Hello\n").expect("well-formed ink");
    let mut state = GameState {
        story,
        core: SequencerCore::new(),
        background: None,
        character_manager: CharacterManager::new(),
        textures: None,
    };
    let r = state.advance_story();
    assert_eq!(r, Err(ScriptError::ResumeFailed));
    assert_eq!(state.core.state(), SequencerState::Continuing);
    assert_eq!(state.core.buffer_len(), 0);
    assert!(!state.core.is_exhausted());
    assert_eq!(state.core.speak_state.content, String::new());
}

#[test]
fn refused_choice_leaves_the_sequencer_unchanged() {
    // The core awaits a choice the interpreter never offered; forwarding
    // the selection fails and must change nothing.
    let mut story = inkling::read_story_from_string("Hello\n").expect("well-formed ink");
    story.start().expect("first start succeeds");
    let mut core = SequencerCore::new();
    core.step(Vec::new(), ResumeOutcome::Choices(vec![String::from("Ghost")]));
    assert_eq!(core.state(), SequencerState::AwaitingChoice);
    let mut state = GameState {
        story,
        core,
        background: None,
        character_manager: CharacterManager::new(),
        textures: None,
    };
    let r = state.make_choice(0);
    assert_eq!(r, Err(ScriptError::ChoiceFailed));
    assert_eq!(state.core.state(), SequencerState::AwaitingChoice);
    assert_eq!(state.core.choices().len(), 1);
}

#[test]
fn fresh_state_has_no_resources() {
    let state = GameState::new("Hello\n").expect("story should load");
    assert!(state.background.is_none());
    assert!(state.textures.is_none());
    assert_eq!(state.character_manager.characters.len(), 0);
}
