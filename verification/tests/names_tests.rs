use blueachive::names::get_characters;

#[test]
fn speakers_are_collected_in_order_of_first_occurrence() {
    let script = "Aru: Hello\nMomoi: Hi\nAru: Again\n";
    let names = get_characters(script);
    assert_eq!(names, vec![String::from("Aru"), String::from("Momoi")]);
}

#[test]
fn only_lines_with_exactly_one_colon_name_a_speaker() {
    let script = "no speaker here\nAru: one colon\nodd: line: two colons\n";
    let names = get_characters(script);
    assert_eq!(names, vec![String::from("Aru")]);
}

#[test]
fn empty_script_names_nobody() {
    assert_eq!(get_characters(""), Vec::<String>::new());
}

#[test]
fn a_final_line_without_newline_still_counts() {
    let names = get_characters("Aru: Hello");
    assert_eq!(names, vec![String::from("Aru")]);
}

#[test]
fn carriage_returns_are_stripped_before_counting() {
    let names = get_characters("Aru: Hello\r\nMomoi: Hi\r\n");
    assert_eq!(names, vec![String::from("Aru"), String::from("Momoi")]);
}

#[test]
fn the_name_is_everything_before_the_colon() {
    // The scanner takes the raw prefix; trimming is the caller's business.
    let names = get_characters("The Old Man: mumble\n");
    assert_eq!(names, vec![String::from("The Old Man")]);
}
