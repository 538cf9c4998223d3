use boosty::confirm::{
    approval_question, approves, char_is_blank, decide_unasked, reason_question, rejection_message,
    Decision,
};
use boosty::types::AgentPermissions;

#[test]
fn a_lone_y_approves() {
    assert!(approves("y"));
    assert!(approves("Y"));
    assert!(approves("y\n"));
    assert!(approves("  y \r\n"));
    assert!(approves("\tY\t"));
    assert!(approves("\u{a0}y\u{3000}"));
}

#[test]
fn everything_else_refuses() {
    assert!(!approves(""));
    assert!(!approves("\n"));
    assert!(!approves("   "));
    assert!(!approves("n"));
    assert!(!approves("yes"));
    assert!(!approves("y y"));
    assert!(!approves("yy"));
    assert!(!approves("y."));
    assert!(!approves("ny"));
    assert!(!approves("\u{ff59}"));
    assert!(!approves("y\u{0}"));
}

#[test]
fn approval_agrees_with_trimming_and_lowering() {
    let answers = ["y", "Y", " y ", "n", "", "ya", " Y\n", "yY", "\u{2003}y", "y\u{200b}", "ý"];
    for answer in answers {
        assert_eq!(approves(answer), answer.trim().to_lowercase() == "y");
    }
}

#[test]
fn blank_characters_are_those_that_trim_removes() {
    for code in 0u32..0x3100 {
        if let Some(c) = char::from_u32(code) {
            assert_eq!(char_is_blank(c), c.is_whitespace());
        }
    }
    assert!(!char_is_blank('\u{feff}'));
    assert!(!char_is_blank('\u{10ffff}'));
}

#[test]
fn with_every_command_allowed_nothing_is_asked() {
    assert_eq!(decide_unasked(AgentPermissions::AllowAll), Some(Decision::Approved));
    assert_eq!(decide_unasked(AgentPermissions::ConfirmAll), None);
}

#[test]
fn the_rejection_message_holds_the_reason_word_for_word() {
    assert_eq!(
        rejection_message("rm is dangerous\n"),
        "User rejected tool call with reason: rm is dangerous\n"
    );
    assert_eq!(rejection_message(""), "User rejected tool call with reason: ");
}

#[test]
fn the_question_shows_the_command() {
    assert_eq!(approval_question("ls -la"), "Requesting to run:\nls -la\n(y/n)?\n");
}

#[test]
fn the_question_after_a_refusal() {
    assert_eq!(reason_question(), "Enter rejection reason:\n");
}
