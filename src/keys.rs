use vstd::prelude::*;

verus! {

/// What a keypress decides for one changed line.
#[derive(Clone, Copy, Debug, PartialEq, Eq, Structural)]
pub struct Decision {
    /// Whether the line goes into the merged text.
    pub accept: bool,
    /// Whether the same answer holds for the following lines of the same kind.
    pub block: bool,
}

/// The meaning of a key in the line prompt, letters taken in either case:
/// `a` keeps the line, `s` drops it, `d` and `f` do the same for the whole
/// block of lines of that kind. Any other key means nothing.
pub open spec fn decision_of(c: char) -> Option<Decision> {
    if c == 'a' || c == 'A' {
        Some(Decision { accept: true, block: false })
    } else if c == 's' || c == 'S' {
        Some(Decision { accept: false, block: false })
    } else if c == 'd' || c == 'D' {
        Some(Decision { accept: true, block: true })
    } else if c == 'f' || c == 'F' {
        Some(Decision { accept: false, block: true })
    } else {
        None
    }
}

/// Reads a key of the line prompt.
pub fn read_accept_input(c: char) -> (r: Option<Decision>)
    ensures
        r == decision_of(c),
{
    if c == 'a' || c == 'A' {
        Some(Decision { accept: true, block: false })
    } else if c == 's' || c == 'S' {
        Some(Decision { accept: false, block: false })
    } else if c == 'd' || c == 'D' {
        Some(Decision { accept: true, block: true })
    } else if c == 'f' || c == 'F' {
        Some(Decision { accept: false, block: true })
    } else {
        None
    }
}

/// The meaning of a key in the save prompt: `s` saves, `d` discards, in
/// either case; any other key means nothing.
pub open spec fn save_answer_of(c: char) -> Option<bool> {
    if c == 's' || c == 'S' {
        Some(true)
    } else if c == 'd' || c == 'D' {
        Some(false)
    } else {
        None
    }
}

/// Reads a key of the save prompt.
pub fn read_save_question(c: char) -> (r: Option<bool>)
    ensures
        r == save_answer_of(c),
{
    if c == 's' || c == 'S' {
        Some(true)
    } else if c == 'd' || c == 'D' {
        Some(false)
    } else {
        None
    }
}

/// In write mode, whether the other file must be offered the original's
/// content: only when the two differ.
pub fn needs_push(original: &String, other: &String) -> (r: bool)
    ensures
        r == (original@ != other@),
{
    !original.eq(other)
}

} // verus!
