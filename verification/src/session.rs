//! The operator's side of a session: what a line typed at the prompt asks
//! for.

use crate::text::{chars_of, same_chars, trim_str, trimmed};
use vstd::prelude::*;

verus! {

/// What the operator asks for with one line.
#[derive(Clone, Debug, PartialEq, Eq)]
pub enum Input {
    /// End the session.
    Quit,
    /// Hand the text to the planner.
    Query(String),
}

/// An input as a mathematical value.
pub enum InputModel {
    Quit,
    Query(Seq<char>),
}

impl View for Input {
    type V = InputModel;

    open spec fn view(&self) -> InputModel {
        match self {
            Input::Quit => InputModel::Quit,
            Input::Query(text) => InputModel::Query(text@),
        }
    }
}

/// The words that end a session.
pub open spec fn is_quit_word(word: Seq<char>) -> bool {
    word == "quit"@ || word == "exit"@ || word == "q"@
}

/// What a line asks for: to end the session, if without the white space
/// round it it is one of the words that do so, as they are written; else
/// the line without that white space is a query, an empty one too.
pub open spec fn interpreted(line: Seq<char>) -> InputModel {
    if is_quit_word(trimmed(line)) {
        InputModel::Quit
    } else {
        InputModel::Query(trimmed(line))
    }
}

/// Reads a line that the operator typed.
pub fn interpret(line: &str) -> (input: Input)
    ensures
        input@ == interpreted(line@),
{
    let word = trim_str(line);
    let chars = chars_of(word);
    if same_chars(&chars, &chars_of("quit")) || same_chars(&chars, &chars_of("exit")) || same_chars(
        &chars,
        &chars_of("q"),
    ) {
        Input::Quit
    } else {
        Input::Query(String::from_str(word))
    }
}

} // verus!
