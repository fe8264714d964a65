//! Sequence-level building blocks the render templates are written with:
//! indexed concatenation of text pieces, joining with a separator, and
//! indentation.

use vstd::prelude::*;

verus! {

/// Concatenation, in index order, of the first `n` pieces `piece(0)`,
/// `piece(1)`, ..., `piece(n - 1)`.
pub open spec fn concat_pieces(n: int, piece: spec_fn(int) -> Seq<char>) -> Seq<char>
    decreases n,
{
    if n <= 0 {
        Seq::empty()
    } else {
        concat_pieces(n - 1, piece) + piece(n - 1)
    }
}

/// The artifacts of one render request, joined with exactly one blank line
/// between consecutive artifacts and nothing around the whole sequence.
pub open spec fn join_blank(parts: Seq<Seq<char>>) -> Seq<char>
    decreases parts.len(),
{
    if parts.len() == 0 {
        Seq::empty()
    } else if parts.len() == 1 {
        parts[0]
    } else {
        join_blank(parts.drop_last()) + "\n\n"@ + parts.last()
    }
}

/// Words joined by single spaces, with nothing around the whole line.
pub open spec fn join_space(words: Seq<Seq<char>>) -> Seq<char>
    decreases words.len(),
{
    if words.len() == 0 {
        Seq::empty()
    } else if words.len() == 1 {
        words[0]
    } else {
        join_space(words.drop_last()) + " "@ + words.last()
    }
}

/// One level of indentation is four spaces; nesting is by repetition.
pub open spec fn tab_spec(n: nat) -> Seq<char>
    decreases n,
{
    if n == 0 {
        Seq::empty()
    } else {
        tab_spec((n - 1) as nat) + "    "@
    }
}

} // verus!
