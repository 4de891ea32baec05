//! Expressions as they come in a request path, made readable.
use crate::text::{replace_all, replaced};
use vstd::prelude::*;

verus! {

/// What a request path carries for a caret: `%5E`.
pub open spec fn caret_escape() -> Seq<char> {
    seq!['%', '5', 'E']
}

/// What a request path carries for a space: `%20`.
pub open spec fn space_escape() -> Seq<char> {
    seq!['%', '2', '0']
}

/// An expression as it arrives in a request path, made readable: the caret
/// escape becomes `^`, the space escape vanishes, and then each of `div`,
/// `DIV`, `d` and `D`, in this order, becomes the division sign.
pub open spec fn decoded(input: Seq<char>) -> Seq<char> {
    let carets = replaced(input, caret_escape(), seq!['^']);
    let spaces = replaced(carets, space_escape(), Seq::empty());
    let lower_word = replaced(spaces, seq!['d', 'i', 'v'], seq!['/']);
    let upper_word = replaced(lower_word, seq!['D', 'I', 'V'], seq!['/']);
    let lower_letter = replaced(upper_word, seq!['d'], seq!['/']);
    replaced(lower_letter, seq!['D'], seq!['/'])
}

/// A decoded expression with the variable written in lower case: every `X`
/// becomes `x`.
pub open spec fn with_lower_variable(expression: Seq<char>) -> Seq<char> {
    replaced(expression, seq!['X'], seq!['x'])
}

/// Decodes the expression of a request path for display.
pub fn decode_expression(input: &str) -> (out: String)
    ensures
        out@ == decoded(input@),
{
    proof {
        reveal_strlit("%5E");
        reveal_strlit("^");
        reveal_strlit("%20");
        reveal_strlit("");
        reveal_strlit("div");
        reveal_strlit("DIV");
        reveal_strlit("d");
        reveal_strlit("D");
        reveal_strlit("/");
        assert("%5E"@ =~= caret_escape());
        assert("^"@ =~= seq!['^']);
        assert("%20"@ =~= space_escape());
        assert(""@ =~= Seq::<char>::empty());
        assert("div"@ =~= seq!['d', 'i', 'v']);
        assert("DIV"@ =~= seq!['D', 'I', 'V']);
        assert("d"@ =~= seq!['d']);
        assert("D"@ =~= seq!['D']);
        assert("/"@ =~= seq!['/']);
    }
    let carets = replace_all(input, "%5E", "^");
    let spaces = replace_all(carets.as_str(), "%20", "");
    let lower_word = replace_all(spaces.as_str(), "div", "/");
    let upper_word = replace_all(lower_word.as_str(), "DIV", "/");
    let lower_letter = replace_all(upper_word.as_str(), "d", "/");
    replace_all(lower_letter.as_str(), "D", "/")
}

/// Writes the variable of an expression in lower case.
pub fn lower_variable(expression: &str) -> (out: String)
    ensures
        out@ == with_lower_variable(expression@),
{
    proof {
        reveal_strlit("X");
        reveal_strlit("x");
        assert("X"@ =~= seq!['X']);
        assert("x"@ =~= seq!['x']);
    }
    replace_all(expression, "X", "x")
}

} // verus!
