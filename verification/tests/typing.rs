use thehand::typing::{type_text, TypingAction};

#[test]
fn each_character_is_a_key_followed_by_a_pause() {
    assert_eq!(
        type_text("a\nb", 10),
        vec![
            TypingAction::Char('a'),
            TypingAction::Pause(10),
            TypingAction::Enter,
            TypingAction::Pause(10),
            TypingAction::Char('b'),
            TypingAction::Pause(10),
        ]
    );
}

#[test]
fn no_delay_means_no_pause() {
    assert_eq!(
        type_text("✓\n\n", 0),
        vec![TypingAction::Char('✓'), TypingAction::Enter, TypingAction::Enter]
    );
}

#[test]
fn empty_text_needs_no_key() {
    assert_eq!(type_text("", 10), vec![]);
}

#[test]
fn carriage_return_is_an_ordinary_character() {
    assert_eq!(type_text("\r", 0), vec![TypingAction::Char('\r')]);
}
