//! Confirmation of commands: what the user's answer to "run this command?"
//! means. Anything but a clear yes is a refusal.

use crate::types::AgentPermissions;
use vstd::prelude::*;
use vstd::string::*;

verus! {

/// Whether a tool call may run.
#[derive(Clone, Debug, PartialEq, Eq)]
pub enum Decision {
    Approved,
    Rejected { reason: String },
}

pub enum DecisionView {
    Approved,
    Rejected { reason: Seq<char> },
}

impl View for Decision {
    type V = DecisionView;

    open spec fn view(&self) -> DecisionView {
        match self {
            Decision::Approved => DecisionView::Approved,
            Decision::Rejected { reason } => DecisionView::Rejected { reason: reason@ },
        }
    }
}

/// Whether `c` is white space: the characters with the Unicode property
/// White_Space.
pub open spec fn is_blank(c: char) -> bool {
    let n = c as u32;
    (0x09 <= n <= 0x0d) || n == 0x20 || n == 0x85 || n == 0xa0 || n == 0x1680 || (0x2000 <= n
        <= 0x200a) || n == 0x2028 || n == 0x2029 || n == 0x202f || n == 0x205f || n == 0x3000
}

/// Whether `c` is the letter y, in either case.
pub open spec fn is_y(c: char) -> bool {
    c == 'y' || c == 'Y'
}

/// Whether every character of `answer` but the one at `at` is white space.
pub open spec fn blank_around(answer: Seq<char>, at: int) -> bool {
    forall|j: int| 0 <= j < answer.len() && j != at ==> is_blank(#[trigger] answer[j])
}

/// Whether an answer approves: it is the single letter y, in either case,
/// with nothing but white space before and after it. An empty answer, a blank
/// one, and every other text refuse.
pub open spec fn says_yes(answer: Seq<char>) -> bool {
    exists|i: int| 0 <= i < answer.len() && is_y(#[trigger] answer[i]) && blank_around(answer, i)
}

/// The decision that is made without asking the user.
pub open spec fn unasked(permissions: AgentPermissions) -> Option<DecisionView> {
    match permissions {
        AgentPermissions::AllowAll => Some(DecisionView::Approved),
        AgentPermissions::ConfirmAll => None,
    }
}

/// The text that a refused tool call gets as its result.
pub open spec fn rejection_text(reason: Seq<char>) -> Seq<char> {
    "User rejected tool call with reason: "@ + reason
}

/// The question that is put to the user before `command` runs.
pub open spec fn approval_prompt(command: Seq<char>) -> Seq<char> {
    "Requesting to run:\n"@ + command + "\n(y/n)?\n"@
}

/// The question that is put to the user after a refusal.
pub open spec fn reason_prompt() -> Seq<char> {
    "Enter rejection reason:\n"@
}

/// Whether a character is white space.
pub fn char_is_blank(c: char) -> (blank: bool)
    ensures
        blank == is_blank(c),
{
    let n: u32 = c as u32;
    (0x09 <= n && n <= 0x0d) || n == 0x20 || n == 0x85 || n == 0xa0 || n == 0x1680 || (0x2000 <= n
        && n <= 0x200a) || n == 0x2028 || n == 0x2029 || n == 0x202f || n == 0x205f || n == 0x3000
}

/// Whether the user's answer approves the command.
pub fn approves(answer: &str) -> (yes: bool)
    ensures
        yes == says_yes(answer@),
{
    // Whether the single candidate letter has been seen, and where it stands.
    let mut seen = false;
    let ghost mut at: int = 0;
    for c in it: answer.chars()
        invariant
            it.seq() == answer@,
            seen ==> 0 <= at < it.index() && is_y(answer@[at]) && forall|j: int|
                0 <= j < it.index() && j != at ==> is_blank(#[trigger] answer@[j]),
            !seen ==> forall|j: int| 0 <= j < it.index() ==> is_blank(#[trigger] answer@[j]),
    {
        let ghost i = it.index();
        assert(c == answer@[i]);
        if !char_is_blank(c) {
            if seen || !(c == 'y' || c == 'Y') {
                proof {
                    // Two characters that are not blank, or one that is no y:
                    // whichever position is tried, another one is in the way.
                    assert forall|k: int|
                        0 <= k < answer@.len() && is_y(#[trigger] answer@[k]) implies !blank_around(
                        answer@,
                        k,
                    ) by {
                        if k == i {
                            assert(seen);
                            assert(!is_blank(answer@[at])) by {
                                lemma_y_is_not_blank(answer@[at]);
                            }
                        } else {
                            assert(!is_blank(answer@[i]));
                        }
                    }
                }
                return false;
            }
            seen = true;
            proof {
                at = i;
            }
        }
    }
    if seen {
        assert(blank_around(answer@, at));
        true
    } else {
        assert forall|k: int| 0 <= k < answer@.len() implies !is_y(#[trigger] answer@[k]) by {
            lemma_y_is_not_blank(answer@[k]);
        }
        false
    }
}

/// The letter y is not white space.
pub proof fn lemma_y_is_not_blank(c: char)
    ensures
        is_y(c) ==> !is_blank(c),
{
}

/// The decision that needs no question: with every command allowed the call
/// is approved unasked; otherwise there is none, and the user is to be asked.
pub fn decide_unasked(permissions: AgentPermissions) -> (decision: Option<Decision>)
    ensures
        match decision {
            Some(d) => unasked(permissions) == Some(d@),
            None => unasked(permissions) is None,
        },
{
    match permissions {
        AgentPermissions::AllowAll => Some(Decision::Approved),
        AgentPermissions::ConfirmAll => None,
    }
}

/// The result text of a tool call that was refused for `reason`.
pub fn rejection_message(reason: &str) -> (text: String)
    ensures
        text@ == rejection_text(reason@),
{
    let mut text = String::from_str("User rejected tool call with reason: ");
    text.append(reason);
    text
}

/// The question to put to the user before `command` runs.
pub fn approval_question(command: &str) -> (text: String)
    ensures
        text@ == approval_prompt(command@),
{
    let mut text = String::from_str("Requesting to run:\n");
    text.append(command);
    text.append("\n(y/n)?\n");
    text
}

/// The question to put to the user after a refusal.
pub fn reason_question() -> (text: String)
    ensures
        text@ == reason_prompt(),
{
    "Enter rejection reason:\n".to_owned()
}

} // verus!
