//! Text helpers: decimal numerals, joining pieces and splitting on a
//! separator character.

use vstd::prelude::*;
use vstd::string::{StrSliceExecFns, StringExecFns};

verus! {

/// The character that writes the digit `d`.
pub open spec fn digit(d: nat) -> char
    recommends
        d < 10,
{
    seq!['0', '1', '2', '3', '4', '5', '6', '7', '8', '9'][d as int]
}

/// The decimal numeral of `n`, without sign or leading zeros.
pub open spec fn decimal(n: nat) -> Seq<char>
    decreases n,
{
    if n < 10 {
        seq![digit(n)]
    } else {
        decimal(n / 10).push(digit(n % 10))
    }
}

/// The pieces written one after another, with `separator` between each two
/// neighbours.
pub open spec fn join(pieces: Seq<Seq<char>>, separator: Seq<char>) -> Seq<char>
    decreases pieces.len(),
{
    if pieces.len() == 0 {
        Seq::empty()
    } else if pieces.len() == 1 {
        pieces[0]
    } else {
        join(pieces.drop_last(), separator) + separator + pieces.last()
    }
}

/// The pieces of `text` between the occurrences of `separator`. Every
/// occurrence ends a piece, so a text with `n` separators has `n + 1`
/// pieces, some of which may be empty.
pub open spec fn split(text: Seq<char>, separator: char) -> Seq<Seq<char>>
    decreases text.len(),
{
    if text.len() == 0 {
        seq![Seq::empty()]
    } else {
        let before = split(text.drop_last(), separator);
        if text.last() == separator {
            before.push(Seq::empty())
        } else {
            before.drop_last().push(before.last().push(text.last()))
        }
    }
}

/// The views of a vector of strings.
pub open spec fn texts(strings: Seq<String>) -> Seq<Seq<char>> {
    strings.map_values(|s: String| s@)
}

/// Splitting never yields an empty list, no piece holds the separator, and
/// joining the pieces with the separator gives the text back. Together these
/// determine the pieces.
pub proof fn lemma_split_inverts_join(text: Seq<char>, separator: char)
    ensures
        split(text, separator).len() >= 1,
        forall|i: int|
            0 <= i < split(text, separator).len() ==> !(#[trigger] split(text, separator)[i])
                .contains(separator),
        join(split(text, separator), seq![separator]) == text,
    decreases text.len(),
{
    if text.len() > 0 {
        let shorter = text.drop_last();
        let before = split(shorter, separator);
        let pieces = split(text, separator);
        lemma_split_inverts_join(shorter, separator);
        if text.last() == separator {
            assert(pieces.drop_last() =~= before);
        } else if before.len() > 1 {
            assert(pieces.drop_last() =~= before.drop_last());
            assert(shorter.push(text.last()) =~= text);
        }
    }
}

/// The string that writes one digit.
fn digit_str(d: u64) -> (text: &'static str)
    requires
        d < 10,
    ensures
        text@ == seq![digit(d as nat)],
{
    proof {
        reveal_strlit("0");
        reveal_strlit("1");
        reveal_strlit("2");
        reveal_strlit("3");
        reveal_strlit("4");
        reveal_strlit("5");
        reveal_strlit("6");
        reveal_strlit("7");
        reveal_strlit("8");
        reveal_strlit("9");
    }
    let text = if d == 0 {
        "0"
    } else if d == 1 {
        "1"
    } else if d == 2 {
        "2"
    } else if d == 3 {
        "3"
    } else if d == 4 {
        "4"
    } else if d == 5 {
        "5"
    } else if d == 6 {
        "6"
    } else if d == 7 {
        "7"
    } else if d == 8 {
        "8"
    } else {
        "9"
    };
    text
}

/// Writes `n` in decimal.
pub fn decimal_string(n: u64) -> (text: String)
    ensures
        text@ == decimal(n as nat),
    decreases n,
{
    if n < 10 {
        String::from_str(digit_str(n))
    } else {
        let mut text = decimal_string(n / 10);
        text.append(digit_str(n % 10));
        text
    }
}

/// Splits `text` at every occurrence of `separator`. Each character is found
/// by counting from the start, so the time grows with the square of the
/// length: meant for short texts such as one command-line argument.
pub fn split_on(text: &str, separator: char) -> (pieces: Vec<String>)
    ensures
        texts(pieces@) == split(text@, separator),
{
    let length: usize = text.unicode_len();
    let mut pieces: Vec<String> = Vec::new();
    let mut start: usize = 0;
    let mut position: usize = 0;
    assert(text@.take(0) =~= Seq::<char>::empty());
    while position < length
        invariant
            length == text@.len(),
            start <= position <= length,
            texts(pieces@).push(text@.subrange(start as int, position as int)) == split(
                text@.take(position as int),
                separator,
            ),
        decreases length - position,
    {
        let c = text.get_char(position);
        let ghost seen = text@.take(position as int);
        let ghost next = text@.take(position + 1);
        assert(next.drop_last() =~= seen);
        let ghost open = text@.subrange(start as int, position as int);
        if c == separator {
            pieces.push(String::from_str(text.substring_char(start, position)));
            start = position + 1;
            assert(text@.subrange(start as int, position + 1) =~= Seq::<char>::empty());
        } else {
            assert(open.push(c) =~= text@.subrange(start as int, position + 1));
        }
        position = position + 1;
    }
    assert(text@.take(length as int) =~= text@);
    pieces.push(String::from_str(text.substring_char(start, length)));
    pieces
}

} // verus!
