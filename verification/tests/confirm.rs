use commentize::confirm::{answer_to, confirmation, Answer};

#[test]
fn yes_and_no_are_answers() {
    assert_eq!(answer_to("yes"), Answer::Yes);
    assert_eq!(answer_to("no"), Answer::No);
}

#[test]
fn anything_else_is_asked_again() {
    assert_eq!(answer_to(""), Answer::Unclear);
    assert_eq!(answer_to("Yes"), Answer::Unclear);
    assert_eq!(answer_to("y"), Answer::Unclear);
    assert_eq!(answer_to("yess"), Answer::Unclear);
    assert_eq!(answer_to("yea"), Answer::Unclear);
    assert_eq!(answer_to("on"), Answer::Unclear);
    assert_eq!(answer_to(" yes"), Answer::Unclear);
}

#[test]
fn white_space_around_the_answer_is_ignored() {
    assert_eq!(confirmation("yes\n"), Answer::Yes);
    assert_eq!(confirmation("  no \r\n"), Answer::No);
    assert_eq!(confirmation("\tyes"), Answer::Yes);
    assert_eq!(confirmation("y es\n"), Answer::Unclear);
    assert_eq!(confirmation("\n"), Answer::Unclear);
}
