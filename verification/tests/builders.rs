//! Builder staging: last write wins, and a finalized copy is independent of
//! the staging object.

use rtdlib::formatted_text::FormattedText;
use rtdlib::poll_type::PollTypeQuiz;
use rtdlib::poll_type::PollTypeRegular;
use rtdlib::supergroup::Supergroup;

#[test]
fn setter_called_twice_keeps_only_the_last_value() {
    let mut b = PollTypeQuiz::builder();
    b.correct_option_id(1);
    b.correct_option_id(2);
    b.explanation(FormattedText::new(String::from("first")));
    b.explanation(FormattedText::new(String::from("last")));
    let quiz = b.build();
    assert_eq!(quiz.correct_option_id(), 2);
    assert_eq!(quiz.explanation().text(), "last");
}

#[test]
fn builder_defaults_are_zero_and_empty() {
    let quiz = PollTypeQuiz::builder().build();
    assert_eq!(quiz.correct_option_id(), 0);
    assert_eq!(quiz.explanation().text(), "");
    let regular = PollTypeRegular::builder().build();
    assert!(!regular.allow_multiple_answers());
}

#[test]
fn build_copies_out_and_builder_stays_usable() {
    let mut b = Supergroup::builder();
    b.id(1);
    b.username("first");
    let first = b.build();
    b.id(2);
    b.username("second");
    let second = b.build();
    assert_eq!(first.id(), 1);
    assert_eq!(first.username(), "first");
    assert_eq!(second.id(), 2);
    assert_eq!(second.username(), "second");
}

#[test]
fn regular_setter_last_write_wins() {
    let mut b = PollTypeRegular::builder();
    b.allow_multiple_answers(true);
    b.allow_multiple_answers(false);
    assert!(!b.build().allow_multiple_answers());
}
