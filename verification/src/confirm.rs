//! The confirmation gate: what the operator's reply to a prompt decides.
//!
//! It has two levels. The ordinary one takes `y` or `yes`; the
//! elevated one, which guards dangerous actions, takes only the full word.
//! Everything else denies, and so does a reply that could not be read: to
//! go on by accident is the worse mistake.

use crate::text::{
    chars_of, lemma_lowered_idempotent, lemma_lowered_trimmed, lemma_trimmed_idempotent, lower_all,
    lowered, trim, trimmed,
};
use vstd::prelude::*;

verus! {

/// The decision at one confirmation prompt.
#[derive(Clone, Copy, Debug, PartialEq, Eq, Structural)]
pub enum ConfirmationOutcome {
    Authorized,
    Denied,
}

/// What a reply says: the line without the white space round it, in lower
/// case.
pub open spec fn answer(reply: Seq<char>) -> Seq<char> {
    lowered(trimmed(reply))
}

/// The reply is the full word `yes`.
pub open spec fn says_yes(reply: Seq<char>) -> bool {
    answer(reply) == seq!['y', 'e', 's']
}

/// The reply is the short form `y`.
pub open spec fn says_y(reply: Seq<char>) -> bool {
    answer(reply) == seq!['y']
}

/// The decision of the ordinary gate on a reply; `None` stands for a line
/// that could not be read.
pub open spec fn ordinary_decision(reply: Option<Seq<char>>) -> ConfirmationOutcome {
    match reply {
        Some(line) => if says_y(line) || says_yes(line) {
            ConfirmationOutcome::Authorized
        } else {
            ConfirmationOutcome::Denied
        },
        None => ConfirmationOutcome::Denied,
    }
}

/// The decision of the elevated gate on a reply; `None` stands for a line
/// that could not be read.
pub open spec fn elevated_decision(reply: Option<Seq<char>>) -> ConfirmationOutcome {
    match reply {
        Some(line) => if says_yes(line) {
            ConfirmationOutcome::Authorized
        } else {
            ConfirmationOutcome::Denied
        },
        None => ConfirmationOutcome::Denied,
    }
}

/// The text of an optional line.
pub open spec fn line_text(reply: Option<&str>) -> Option<Seq<char>> {
    match reply {
        Some(line) => Some(line@),
        None => None,
    }
}

/// What the operator is shown at the ordinary prompt.
pub open spec fn prompt_text(description: Seq<char>) -> Seq<char> {
    "\n是否执行 "@ + description + " (y/n): "@
}

/// What the operator is shown at the elevated prompt: the operation, that
/// it is dangerous, and that only the full word will do.
pub open spec fn elevated_prompt_text(description: Seq<char>) -> Seq<char> {
    "\n危险操作! 确定要执行 "@ + description + " 吗? 输入 yes 确认: "@
}

/// The ordinary prompt for an operation.
pub fn prompt(description: &str) -> (text: String)
    ensures
        text@ == prompt_text(description@),
{
    let mut text = String::from_str("\n是否执行 ");
    text.append(description);
    text.append(" (y/n): ");
    text
}

/// The elevated prompt for an operation.
pub fn elevated_prompt(description: &str) -> (text: String)
    ensures
        text@ == elevated_prompt_text(description@),
{
    let mut text = String::from_str("\n危险操作! 确定要执行 ");
    text.append(description);
    text.append(" 吗? 输入 yes 确认: ");
    text
}

/// The trimmed, lower-cased characters of a reply.
fn answer_of(reply: &str) -> (r: Vec<char>)
    ensures
        r@ == answer(reply@),
{
    lower_all(&trim(&chars_of(reply)))
}

/// Decides an ordinary confirmation from the line that the operator gave.
pub fn confirm(reply: Option<&str>) -> (outcome: ConfirmationOutcome)
    ensures
        outcome == ordinary_decision(line_text(reply)),
{
    match reply {
        Some(line) => {
            let a = answer_of(line);
            let short = a.len() == 1 && a[0] == 'y';
            let full = a.len() == 3 && a[0] == 'y' && a[1] == 'e' && a[2] == 's';
            proof {
                assert(short == (a@ =~= seq!['y']));
                assert(full == (a@ =~= seq!['y', 'e', 's']));
            }
            if short || full {
                ConfirmationOutcome::Authorized
            } else {
                ConfirmationOutcome::Denied
            }
        },
        None => ConfirmationOutcome::Denied,
    }
}

/// Decides an elevated confirmation from the line that the operator gave.
pub fn confirm_elevated(reply: Option<&str>) -> (outcome: ConfirmationOutcome)
    ensures
        outcome == elevated_decision(line_text(reply)),
{
    match reply {
        Some(line) => {
            let a = answer_of(line);
            let full = a.len() == 3 && a[0] == 'y' && a[1] == 'e' && a[2] == 's';
            proof {
                assert(full == (a@ =~= seq!['y', 'e', 's']));
            }
            if full {
                ConfirmationOutcome::Authorized
            } else {
                ConfirmationOutcome::Denied
            }
        },
        None => ConfirmationOutcome::Denied,
    }
}

/// The elevated gate is the stricter one: what it takes, the ordinary gate
/// takes too.
pub proof fn lemma_elevated_is_stricter(reply: Option<Seq<char>>)
    requires
        elevated_decision(reply) == ConfirmationOutcome::Authorized,
    ensures
        ordinary_decision(reply) == ConfirmationOutcome::Authorized,
{
}

/// The short form passes the ordinary gate and not the elevated one.
pub proof fn lemma_short_form_is_not_enough(line: Seq<char>)
    requires
        says_y(line),
    ensures
        ordinary_decision(Some(line)) == ConfirmationOutcome::Authorized,
        elevated_decision(Some(line)) == ConfirmationOutcome::Denied,
{
    assert(seq!['y'].len() != seq!['y', 'e', 's'].len());
}

/// Neither gate tells capitals from small letters.
pub proof fn lemma_decisions_ignore_case(line: Seq<char>)
    ensures
        ordinary_decision(Some(lowered(line))) == ordinary_decision(Some(line)),
        elevated_decision(Some(lowered(line))) == elevated_decision(Some(line)),
{
    lemma_lowered_trimmed(line);
    lemma_lowered_idempotent(trimmed(line));
}

/// Neither gate minds the white space round a reply.
pub proof fn lemma_decisions_ignore_margins(line: Seq<char>)
    ensures
        ordinary_decision(Some(trimmed(line))) == ordinary_decision(Some(line)),
        elevated_decision(Some(trimmed(line))) == elevated_decision(Some(line)),
{
    lemma_trimmed_idempotent(line);
}

/// A reply of white space alone is denied at both gates.
pub proof fn lemma_blank_reply_is_denied(line: Seq<char>)
    requires
        trimmed(line).len() == 0,
    ensures
        ordinary_decision(Some(line)) == ConfirmationOutcome::Denied,
        elevated_decision(Some(line)) == ConfirmationOutcome::Denied,
{
    assert(answer(line).len() == 0);
    assert(seq!['y'].len() == 1);
    assert(seq!['y', 'e', 's'].len() == 3);
}

} // verus!
