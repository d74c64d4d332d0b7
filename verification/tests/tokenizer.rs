use mad_rust::tokenizer::{try_tokenize, tokenize, Button, Key, Token};

fn s(text: &str) -> String {
    text.to_string()
}

#[test]
fn plain_text_gives_no_token() {
    assert_eq!(tokenize(s("abc")), vec![]);
    assert_eq!(tokenize(s("")), vec![]);
}

#[test]
fn text_before_a_tag_becomes_a_sequence() {
    assert_eq!(
        tokenize(s("abc{+SHIFT}")),
        vec![Token::Sequence(s("abc")), Token::KeyDown(Key::Shift)]
    );
}

#[test]
fn unicode_switch_changes_the_token_kind() {
    assert_eq!(
        tokenize(s("{+UNICODE}héllo{-UNICODE}x{+CTRL}")),
        vec![Token::Unicode(s("héllo")), Token::Sequence(s("x")), Token::KeyDown(Key::Control)]
    );
}

#[test]
fn doubled_braces_stand_for_braces() {
    assert_eq!(
        tokenize(s("a{{b}}c{WAIT_UP}")),
        vec![Token::Sequence(s("a{b}c")), Token::WaitUp]
    );
}

#[test]
fn single_closing_brace_drops_the_next_character() {
    assert_eq!(tokenize(s("a}xb{REPEAT}")), vec![Token::Sequence(s("ab")), Token::Repeat]);
}

#[test]
fn every_known_tag() {
    let tags = [
        ("{REPEAT}", Token::Repeat),
        ("{WAIT_UP}", Token::WaitUp),
        ("{+SHIFT}", Token::KeyDown(Key::Shift)),
        ("{-SHIFT}", Token::KeyUp(Key::Shift)),
        ("{+CTRL}", Token::KeyDown(Key::Control)),
        ("{-CTRL}", Token::KeyUp(Key::Control)),
        ("{+META}", Token::KeyDown(Key::Command)),
        ("{-META}", Token::KeyUp(Key::Command)),
        ("{+ALT}", Token::KeyDown(Key::Alt)),
        ("{-ALT}", Token::KeyUp(Key::Alt)),
        ("{+LEFT}", Token::MouseUp(Button::Left)),
        ("{-LEFT}", Token::MouseDown(Button::Left)),
        ("{+MIDDLE}", Token::MouseUp(Button::Middle)),
        ("{-MIDDLE}", Token::MouseDown(Button::Middle)),
        ("{+RIGHT}", Token::MouseUp(Button::Right)),
        ("{-RIGHT}", Token::MouseDown(Button::Right)),
        ("{SCROLL_UP}", Token::Click(Button::ScrollUp)),
        ("{SCROLL_DOWN}", Token::Click(Button::ScrollDown)),
    ];
    for (text, token) in tags {
        assert_eq!(tokenize(s(text)), vec![token]);
    }
}

#[test]
fn unknown_tag_is_ignored() {
    assert_eq!(tokenize(s("x{NOPE}{+ALT}")), vec![Token::Sequence(s("x")), Token::KeyDown(Key::Alt)]);
}

#[test]
fn unclosed_tag_has_no_tokens() {
    assert_eq!(try_tokenize(s("ab{+SHIFT")), None);
    assert_eq!(try_tokenize(s("{")), Some(vec![]));
}

#[test]
fn tag_with_doubled_brace_inside() {
    // `{{` inside a tag adds a brace to its name, which no tag has.
    assert_eq!(tokenize(s("{A{{B}{+SHIFT}")), vec![Token::KeyDown(Key::Shift)]);
}

#[test]
fn tokens_of_a_concatenation() {
    let a = tokenize(s("ab{+SHIFT}"));
    let b = tokenize(s("x{-SHIFT}{REPEAT}"));
    let mut both = a.clone();
    both.extend(b);
    assert_eq!(tokenize(s("ab{+SHIFT}x{-SHIFT}{REPEAT}")), both);
}
