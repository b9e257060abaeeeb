//! Filename sanitiser: makes a title or a playlist name safe to use as one
//! path component.

use vstd::prelude::*;

verus! {

/// The characters that may not appear in a file name:
/// `\ / : * ? " < > |`.
pub open spec fn is_reserved(c: char) -> bool {
    c == '\\' || c == '/' || c == ':' || c == '*' || c == '?' || c == '"' || c == '<' || c == '>'
        || c == '|'
}

/// What one character becomes: `_` for a reserved character, itself otherwise.
pub open spec fn sanitized_char(c: char) -> char {
    if is_reserved(c) {
        '_'
    } else {
        c
    }
}

/// The sanitised form of a text: same length, every reserved character
/// replaced by `_`, every other character kept in place.
pub open spec fn sanitized(text: Seq<char>) -> Seq<char> {
    Seq::new(text.len(), |i: int| sanitized_char(text[i]))
}

/// No character of `text` is reserved.
pub open spec fn is_clean(text: Seq<char>) -> bool {
    forall|i: int| 0 <= i < text.len() ==> !is_reserved(#[trigger] text[i])
}

/// Tells whether `c` is one of the reserved characters.
pub fn reserved(c: char) -> (r: bool)
    ensures
        r == is_reserved(c),
{
    c == '\\' || c == '/' || c == ':' || c == '*' || c == '?' || c == '"' || c == '<' || c == '>'
        || c == '|'
}

/// Replaces every occurrence of `\ / : * ? " < > |` in `text` with `_`.
///
/// The result has as many characters as `text` and holds no reserved
/// character.
pub fn sanitize(text: &str) -> (clean: String)
    ensures
        clean@ == sanitized(text@),
        clean@.len() == text@.len(),
        is_clean(clean@),
{
    let mut clean = String::new();
    for c in it: text.chars()
        invariant
            it.seq() == text@,
            clean@ == sanitized(it.seq().take(it.index() as int)),
    {
        let ghost before = it.seq().take(it.index() as int);
        let kept: char = if reserved(c) { '_' } else { c };
        clean.push(kept);
        assert(before.push(c) =~= it.seq().take(it.index() + 1));
        assert(clean@ =~= sanitized(before.push(c)));
    }
    assert(text@.take(text@.len() as int) =~= text@);
    clean
}

/// A sanitised text holds none of the reserved characters.
pub proof fn sanitized_is_clean(text: Seq<char>)
    ensures
        is_clean(sanitized(text)),
        sanitized(text).len() == text.len(),
{
}

/// Sanitising leaves a text without reserved characters as it is.
pub proof fn sanitized_keeps_clean_text(text: Seq<char>)
    requires
        is_clean(text),
    ensures
        sanitized(text) == text,
{
    assert(sanitized(text) =~= text);
}

/// Sanitising is idempotent: a second pass changes nothing.
pub proof fn sanitized_is_idempotent(text: Seq<char>)
    ensures
        sanitized(sanitized(text)) == sanitized(text),
{
    assert(sanitized(sanitized(text)) =~= sanitized(text));
}

} // verus!
