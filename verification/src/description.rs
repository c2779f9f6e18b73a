//! The adapter's structural representation as text: its name around one field,
//! `iterator`, that holds the wrapped iterator's own representation.
use vstd::prelude::*;
use vstd::string::StringExecFns;

verus! {

/// The representation on one line around `inner`, the wrapped iterator's own
/// one-line representation.
pub open spec fn compact_text(inner: Seq<char>) -> Seq<char> {
    "AdjacentPairs { iterator: "@ + inner + " }"@
}

/// What a character of a nested representation becomes one level deeper: a
/// line break takes the indentation of the next line with it, every other
/// character stays as it is.
pub open spec fn nested_char(c: char) -> Seq<char> {
    if c == '\n' {
        seq!['\n', ' ', ' ', ' ', ' ']
    } else {
        seq![c]
    }
}

/// `text` one level deeper: every line after the first is indented by four
/// spaces.
pub open spec fn nested_text(text: Seq<char>) -> Seq<char>
    decreases text.len(),
{
    if text.len() == 0 {
        text
    } else {
        nested_text(text.drop_last()) + nested_char(text.last())
    }
}

/// The representation over several lines around `inner`, the wrapped
/// iterator's own multi-line representation: the field stands on a line of its
/// own, indented by four spaces and closed by a comma, and the lines of `inner`
/// that follow its first are indented with it.
pub open spec fn pretty_text(inner: Seq<char>) -> Seq<char> {
    "AdjacentPairs {\n    iterator: "@ + nested_text(inner) + ",\n}"@
}

/// `String::push`: appends one character to the end of the text.
pub assume_specification[ String::push ](text: &mut String, ch: char)
    ensures
        final(text)@ == old(text)@.push(ch),
;

/// Builds the one-line representation around `inner`.
pub fn compact_description(inner: &str) -> (text: String)
    ensures
        text@ == compact_text(inner@),
{
    let mut text = String::from_str("AdjacentPairs { iterator: ");
    text.append(inner);
    text.append(" }");
    text
}

/// Builds the multi-line representation around `inner`.
pub fn pretty_description(inner: &str) -> (text: String)
    ensures
        text@ == pretty_text(inner@),
{
    broadcast use vstd::string::group_string_axioms;

    let mut text = String::from_str("AdjacentPairs {\n    iterator: ");
    let ghost head = text@;
    for c in chars: inner.chars()
        invariant
            chars.seq() == inner@,
            text@ == head + nested_text(inner@.take(chars.index())),
    {
        proof {
            let done = inner@.take(chars.index() + 1);
            assert(done.drop_last() =~= inner@.take(chars.index()));
            assert(done.last() == c);
        }
        text.push(c);
        if c == '\n' {
            text.append("    ");
            proof {
                reveal_strlit("    ");
                assert("    "@ =~= seq![' ', ' ', ' ', ' ']);
            }
        }
        assert(text@ =~= head + nested_text(inner@.take(chars.index() + 1)));
    }
    assert(inner@.take(inner@.len() as int) =~= inner@);
    text.append(",\n}");
    text
}

/// The one-line representation, from what formatting the wrapped iterator
/// gave: around `inner`, the text it wrote, where it succeeded, and its error,
/// unchanged, where it failed.
pub fn compact_description_of(outcome: Result<(), core::fmt::Error>, inner: &str) -> (text: Result<
    String,
    core::fmt::Error,
>)
    ensures
        outcome is Ok ==> (text matches Ok(line) && line@ == compact_text(inner@)),
        outcome matches Err(error) ==> (text matches Err(handed_on) && handed_on == error),
{
    match outcome {
        Ok(()) => Ok(compact_description(inner)),
        Err(error) => Err(error),
    }
}

/// The multi-line representation, from what formatting the wrapped iterator
/// gave: around `inner`, the text it wrote, where it succeeded, and its error,
/// unchanged, where it failed.
pub fn pretty_description_of(outcome: Result<(), core::fmt::Error>, inner: &str) -> (text: Result<
    String,
    core::fmt::Error,
>)
    ensures
        outcome is Ok ==> (text matches Ok(lines) && lines@ == pretty_text(inner@)),
        outcome matches Err(error) ==> (text matches Err(handed_on) && handed_on == error),
{
    match outcome {
        Ok(()) => Ok(pretty_description(inner)),
        Err(error) => Err(error),
    }
}

} // verus!
