//! The output format: one record per token, `<word><delimiter><offset>`
//! followed by a single space.

use crate::extract::{token_views, Token, TokenView};
use vstd::prelude::*;

verus! {

/// The delimiter used where none is asked for: a flag glyph that is unlikely
/// to occur in a word and cannot occur in an offset.
pub const DEFAULT_DELIMITER: &'static str = "\u{2691}";

/// The character for a decimal digit.
pub open spec fn digit(d: nat) -> char
    recommends
        d < 10,
{
    if d == 0 {
        '0'
    } else if d == 1 {
        '1'
    } else if d == 2 {
        '2'
    } else if d == 3 {
        '3'
    } else if d == 4 {
        '4'
    } else if d == 5 {
        '5'
    } else if d == 6 {
        '6'
    } else if d == 7 {
        '7'
    } else if d == 8 {
        '8'
    } else {
        '9'
    }
}

/// A number in decimal notation, without sign or leading zeros.
pub open spec fn decimal(n: nat) -> Seq<char>
    decreases n,
{
    if n < 10 {
        seq![digit(n)]
    } else {
        decimal(n / 10).push(digit(n % 10))
    }
}

/// The record of one token: its text, the delimiter, its offset in decimal,
/// and one space.
pub open spec fn record(token: TokenView, delimiter: Seq<char>) -> Seq<char> {
    token.text + delimiter + decimal(token.byte_offset) + seq![' ']
}

/// The records of a sequence of tokens, one after the other.
pub open spec fn records(tokens: Seq<TokenView>, delimiter: Seq<char>) -> Seq<char>
    decreases tokens.len(),
{
    if tokens.len() == 0 {
        Seq::empty()
    } else {
        records(tokens.drop_last(), delimiter) + record(tokens.last(), delimiter)
    }
}

/// The one-character text for a decimal digit.
fn digit_text(d: usize) -> (text: &'static str)
    requires
        d < 10,
    ensures
        text@ == seq![digit(d as nat)],
{
    proof {
        reveal_strlit("0");
        reveal_strlit("1");
        reveal_strlit("2");
        reveal_strlit("3");
        reveal_strlit("4");
        reveal_strlit("5");
        reveal_strlit("6");
        reveal_strlit("7");
        reveal_strlit("8");
        reveal_strlit("9");
    }
    if d == 0 {
        "0"
    } else if d == 1 {
        "1"
    } else if d == 2 {
        "2"
    } else if d == 3 {
        "3"
    } else if d == 4 {
        "4"
    } else if d == 5 {
        "5"
    } else if d == 6 {
        "6"
    } else if d == 7 {
        "7"
    } else if d == 8 {
        "8"
    } else {
        "9"
    }
}

/// Writes a number in decimal notation.
pub fn decimal_string(n: usize) -> (text: String)
    ensures
        text@ == decimal(n as nat),
    decreases n,
{
    if n < 10 {
        String::from_str(digit_text(n))
    } else {
        let mut text = decimal_string(n / 10);
        text.append(digit_text(n % 10));
        text
    }
}

/// Writes the record of one token.
pub fn render_token(token: &Token, delimiter: &str) -> (text: String)
    ensures
        text@ == record(token@, delimiter@),
{
    proof {
        reveal_strlit(" ");
    }
    let mut text = String::from_str(token.text.as_str());
    text.append(delimiter);
    text.append(decimal_string(token.byte_offset).as_str());
    text.append(" ");
    text
}

/// Writes the records of the tokens, in their order. For no tokens the
/// output is empty; nothing follows the space that ends the last record.
pub fn render(tokens: &Vec<Token>, delimiter: &str) -> (text: String)
    ensures
        text@ == records(token_views(tokens@), delimiter@),
{
    let ghost views = token_views(tokens@);
    let mut text = String::new();
    let mut i: usize = 0;
    while i < tokens.len()
        invariant
            i <= tokens.len(),
            views == token_views(tokens@),
            text@ == records(views.take(i as int), delimiter@),
        decreases tokens.len() - i,
    {
        proof {
            assert(views.take(i + 1).drop_last() =~= views.take(i as int));
        }
        text.append(render_token(&tokens[i], delimiter).as_str());
        i += 1;
    }
    proof {
        assert(views.take(i as int) =~= views);
    }
    text
}

} // verus!
