//! The line of input that the editor asks for below the text, such as the
//! name to save a document under.
use crate::editor::KeyCode;
use vstd::prelude::*;

verus! {

/// Whether `c` is a control character: one of the first 32 code points, or
/// one from U+007F to U+009F.
pub open spec fn is_control_char(c: char) -> bool {
    (c as u32) < 0x20 || (0x7f <= c as u32 && c as u32 <= 0x9f)
}

/// Tells whether `c` is a control character.
pub fn is_control(c: char) -> (control: bool)
    ensures
        control == is_control_char(c),
{
    let code = c as u32;
    code < 0x20 || (0x7f <= code && code <= 0x9f)
}

/// The input after a key press. Backspace takes the last character off, a
/// character that is no control character is added, escape throws the
/// input away, and no other key changes it.
pub open spec fn input_after(input: Seq<char>, code: KeyCode) -> Seq<char> {
    match code {
        KeyCode::Backspace => if input.len() > 0 {
            input.drop_last()
        } else {
            input
        },
        KeyCode::Char(c) => if is_control_char(c) {
            input
        } else {
            input.push(c)
        },
        KeyCode::Esc => Seq::empty(),
        _ => input,
    }
}

/// Whether a key press ends the input: enter and escape do.
pub open spec fn ends_input(code: KeyCode) -> bool {
    code == KeyCode::Enter || code == KeyCode::Esc
}

/// The answer that an input gives: the input, unless it is empty.
pub open spec fn answer_of(input: Seq<char>) -> Option<Seq<char>> {
    if input.len() == 0 {
        None
    } else {
        Some(input)
    }
}

/// Applies a key press to the input and tells whether the input has
/// ended.
pub fn prompt_keypress(input: &mut String, code: KeyCode) -> (ended: bool)
    ensures
        final(input)@ == input_after(old(input)@, code),
        ended == ends_input(code),
{
    match code {
        KeyCode::Backspace => {
            input.pop();
            false
        },
        KeyCode::Enter => true,
        KeyCode::Char(c) => {
            if !is_control(c) {
                input.push(c);
            }
            false
        },
        KeyCode::Esc => {
            *input = String::new();
            true
        },
        _ => false,
    }
}

/// Turns the input into an answer: none if the input is empty.
pub fn prompt_answer(input: String) -> (answer: Option<String>)
    ensures
        answer is Some == answer_of(input@) is Some,
        answer is Some ==> Some(answer->0@) == answer_of(input@),
{
    if input.as_str().is_empty() {
        None
    } else {
        Some(input)
    }
}

} // verus!
