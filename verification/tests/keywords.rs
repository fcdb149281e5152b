use colored::Color;
use pglogfmt::keywords::{emphasize, Keyword};
use pglogfmt::style::{StyleSpan, TextStyle};

fn plain(text: &str) -> StyleSpan {
    StyleSpan::new(text, TextStyle::plain())
}

fn bold(text: &str, color: Color) -> StyleSpan {
    StyleSpan::new(text, TextStyle::bold(color))
}

fn text_of(spans: &[StyleSpan]) -> String {
    spans.iter().map(|s| s.text.as_str()).collect()
}

#[test]
fn autovacuum_starting_has_one_span_per_keyword() {
    let spans = emphasize("autovacuum starting");
    assert_eq!(
        spans,
        vec![bold("autovacuum", Color::Magenta), plain(" "), bold("starting", Color::Yellow)]
    );
    assert_eq!(spans.iter().filter(|s| s.text == "autovacuum").count(), 1);
    assert_eq!(spans.iter().filter(|s| s.text == "starting").count(), 1);
}

#[test]
fn message_without_keywords_is_one_plain_span() {
    assert_eq!(emphasize("connection received"), vec![plain("connection received")]);
}

#[test]
fn empty_message_has_no_spans() {
    assert_eq!(emphasize(""), Vec::<StyleSpan>::new());
}

#[test]
fn each_keyword_has_its_colour() {
    assert_eq!(emphasize("checkpoint"), vec![bold("checkpoint", Color::Cyan)]);
    assert_eq!(emphasize("complete"), vec![bold("complete", Color::Green)]);
    assert_eq!(emphasize("starting"), vec![bold("starting", Color::Yellow)]);
    assert_eq!(emphasize("autovacuum"), vec![bold("autovacuum", Color::Magenta)]);
}

#[test]
fn keyword_words_and_styles() {
    assert_eq!(Keyword::Checkpoint.text(), "checkpoint");
    assert_eq!(Keyword::Complete.text(), "complete");
    assert_eq!(Keyword::Starting.text(), "starting");
    assert_eq!(Keyword::Autovacuum.text(), "autovacuum");
    assert_eq!(Keyword::Checkpoint.style(), TextStyle::bold(Color::Cyan));
    assert_eq!(Keyword::Complete.style(), TextStyle::bold(Color::Green));
    assert_eq!(Keyword::Starting.style(), TextStyle::bold(Color::Yellow));
    assert_eq!(Keyword::Autovacuum.style(), TextStyle::bold(Color::Magenta));
}

#[test]
fn keywords_inside_words_and_side_by_side() {
    assert_eq!(
        emphasize("checkpoints completed"),
        vec![
            bold("checkpoint", Color::Cyan),
            plain("s "),
            bold("complete", Color::Green),
            plain("d"),
        ]
    );
    assert_eq!(
        emphasize("checkpointcomplete"),
        vec![bold("checkpoint", Color::Cyan), bold("complete", Color::Green)]
    );
}

#[test]
fn a_keyword_met_twice_is_two_spans() {
    assert_eq!(
        emphasize("starting, starting"),
        vec![bold("starting", Color::Yellow), plain(", "), bold("starting", Color::Yellow)]
    );
}

#[test]
fn keywords_are_matched_in_lower_case_only() {
    assert_eq!(emphasize("Checkpoint COMPLETE"), vec![plain("Checkpoint COMPLETE")]);
}

#[test]
fn spans_give_the_message_back() {
    for message in [
        "",
        "checkpoint starting: time",
        "automatic vacuum of table: autovacuum complete",
        "h\u{e9}llo checkpoint w\u{f6}rld",
        "a prefix checkpoin complete",
    ] {
        assert_eq!(text_of(&emphasize(message)), message);
    }
}

#[test]
fn text_beside_a_keyword_keeps_characters_of_several_bytes() {
    assert_eq!(
        emphasize("\u{e9}t\u{e9} complete \u{2713}"),
        vec![plain("\u{e9}t\u{e9} "), bold("complete", Color::Green), plain(" \u{2713}")]
    );
}
