use blueachive::speaker::SpeakerState;

#[test]
fn speaker_line_is_split_at_separator() {
    let st = SpeakerState::parser_line_content(String::from("Aru: Hello there\n"));
    assert_eq!(st.name, Some(String::from("Aru")));
    assert_eq!(st.content, String::from("Hello there"));
    assert_eq!(st.animation, None);
    assert!(st.position.is_none());
    assert!(st.color.is_none());
}

#[test]
fn line_without_separator_has_no_speaker() {
    let st = SpeakerState::parser_line_content(String::from("just narration\n"));
    assert_eq!(st.name, None);
    assert_eq!(st.content, String::from("just narration"));
}

#[test]
fn empty_line_stays_empty() {
    let st = SpeakerState::parser_line_content(String::new());
    assert_eq!(st.name, None);
    assert_eq!(st.content, String::new());
}

#[test]
fn trailing_character_is_always_removed() {
    // The interpreter terminates every line with a newline; the parser
    // removes exactly one trailing character, whatever it is.
    let st = SpeakerState::parser_line_content(String::from("Aru: Hi"));
    assert_eq!(st.name, Some(String::from("Aru")));
    assert_eq!(st.content, String::from("H"));
}

#[test]
fn colon_without_space_is_no_separator() {
    let st = SpeakerState::parser_line_content(String::from("a:b\n"));
    assert_eq!(st.name, None);
    assert_eq!(st.content, String::from("a:b"));
}

#[test]
fn split_happens_at_first_separator() {
    let st = SpeakerState::parser_line_content(String::from("A: B: C\n"));
    assert_eq!(st.name, Some(String::from("A")));
    assert_eq!(st.content, String::from("B: C"));
}

#[test]
fn first_tag_names_the_animation() {
    let tags = vec![String::from("wave"), String::from("ignored")];
    let st = SpeakerState::parse("Aru: Hello\n", &tags);
    assert_eq!(st.name, Some(String::from("Aru")));
    assert_eq!(st.content, String::from("Hello"));
    assert_eq!(st.animation, Some(String::from("wave")));
}

#[test]
fn no_tags_means_no_animation() {
    let tags: Vec<String> = Vec::new();
    let st = SpeakerState::parse("Aru: Hello\n", &tags);
    assert_eq!(st.animation, None);
}

#[test]
fn separator_only_line_is_an_empty_speaker_and_content() {
    let st = SpeakerState::parser_line_content(String::from(": \n"));
    assert_eq!(st.name, Some(String::new()));
    assert_eq!(st.content, String::new());
}

#[test]
fn fresh_speaker_state_is_empty() {
    let st = SpeakerState::new();
    assert_eq!(st.name, None);
    assert_eq!(st.content, String::new());
    assert_eq!(st.animation, None);
}
