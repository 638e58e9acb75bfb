//! The point-token grammar: a single ASCII digit for each coordinate,
//! enclosed in parentheses and separated by a comma with an optional single
//! following space — `(D,D)` or `(D, D)`.
//!
//! A token is accepted when the pattern occurs *anywhere* in it (it is not
//! anchored to the token's ends), so trailing garbage after a valid match is
//! accepted; the coordinates are taken from the leftmost occurrence. This
//! deliberate laxity is part of the parsing contract.

use vstd::prelude::*;

verus! {

/// One decimal ASCII digit, `'0'` through `'9'`.
pub open spec fn is_digit_char(c: char) -> bool {
    c == '0' || c == '1' || c == '2' || c == '3' || c == '4' || c == '5' || c == '6' || c == '7'
        || c == '8' || c == '9'
}

/// The numeric value of a digit character (meaningful only under
/// `is_digit_char`).
pub open spec fn digit_char_val(c: char) -> int {
    if c == '0' {
        0
    } else if c == '1' {
        1
    } else if c == '2' {
        2
    } else if c == '3' {
        3
    } else if c == '4' {
        4
    } else if c == '5' {
        5
    } else if c == '6' {
        6
    } else if c == '7' {
        7
    } else if c == '8' {
        8
    } else {
        9
    }
}

/// The no-space variant `(D,D)` starts at position `i` of `s`.
pub open spec fn match_short_at(s: Seq<char>, i: int) -> bool {
    &&& 0 <= i
    &&& i + 5 <= s.len()
    &&& s[i] == '('
    &&& is_digit_char(s[i + 1])
    &&& s[i + 2] == ','
    &&& is_digit_char(s[i + 3])
    &&& s[i + 4] == ')'
}

/// The one-space variant `(D, D)` starts at position `i` of `s`.
pub open spec fn match_long_at(s: Seq<char>, i: int) -> bool {
    &&& 0 <= i
    &&& i + 6 <= s.len()
    &&& s[i] == '('
    &&& is_digit_char(s[i + 1])
    &&& s[i + 2] == ','
    &&& s[i + 3] == ' '
    &&& is_digit_char(s[i + 4])
    &&& s[i + 5] == ')'
}

/// Either variant of the point pattern starts at position `i` of `s`.
pub open spec fn match_at(s: Seq<char>, i: int) -> bool {
    match_short_at(s, i) || match_long_at(s, i)
}

/// The least position `>= i` at which the pattern starts, or `-1` if there is
/// none. The shortest pattern is five characters long, so the search stops
/// once fewer than five characters remain.
pub open spec fn first_match_from(s: Seq<char>, i: int) -> int
    decreases s.len() + 5 - i,
{
    if i + 5 > s.len() {
        -1
    } else if match_at(s, i) {
        i
    } else {
        first_match_from(s, i + 1)
    }
}

/// The least position at which the pattern starts, or `-1` if the token
/// contains no match.
pub open spec fn first_match(s: Seq<char>) -> int {
    first_match_from(s, 0)
}

/// The token contains the point pattern somewhere.
pub open spec fn has_point_match(s: Seq<char>) -> bool {
    first_match(s) >= 0
}

/// The x coordinate of a match starting at `i` (the digit right after the
/// opening parenthesis).
pub open spec fn point_x_at(s: Seq<char>, i: int) -> int {
    digit_char_val(s[i + 1])
}

/// The y coordinate of a match starting at `i` (the digit after the comma,
/// skipping the optional space).
pub open spec fn point_y_at(s: Seq<char>, i: int) -> int {
    if match_short_at(s, i) {
        digit_char_val(s[i + 3])
    } else {
        digit_char_val(s[i + 4])
    }
}

/// What parsing a single token yields: the coordinates of the leftmost match,
/// or nothing when the token contains no match.
pub open spec fn parse_point_spec(s: Seq<char>) -> Option<(int, int)> {
    if has_point_match(s) {
        Some((point_x_at(s, first_match(s)), point_y_at(s, first_match(s))))
    } else {
        None
    }
}

/// `first_match_from` finds exactly the least match position at or after `i`:
/// a result of `-1` means no position `>= i` matches, and a non-negative
/// result is a match position preceded by no other.
pub proof fn lemma_first_match_from(s: Seq<char>, i: int)
    requires
        0 <= i,
    ensures
        first_match_from(s, i) == -1 || first_match_from(s, i) >= i,
        first_match_from(s, i) == -1 ==> (forall|j: int| j >= i ==> !match_at(s, j)),
        first_match_from(s, i) >= 0 ==> {
            &&& i <= first_match_from(s, i)
            &&& match_at(s, first_match_from(s, i))
            &&& forall|j: int| i <= j < first_match_from(s, i) ==> !match_at(s, j)
        },
    decreases s.len() + 5 - i,
{
    if i + 5 > s.len() {
        assert(forall|j: int| j >= i ==> !match_at(s, j));
    } else if match_at(s, i) {
    } else {
        lemma_first_match_from(s, i + 1);
    }
}

/// Digit test, mirroring `is_digit_char`.
pub(crate) fn digit_check(c: char) -> (b: bool)
    ensures
        b == is_digit_char(c),
{
    c == '0' || c == '1' || c == '2' || c == '3' || c == '4' || c == '5' || c == '6' || c == '7'
        || c == '8' || c == '9'
}

/// Digit conversion, mirroring `digit_char_val`.
pub(crate) fn digit_value(c: char) -> (v: i32)
    requires
        is_digit_char(c),
    ensures
        v == digit_char_val(c),
        0 <= v <= 9,
{
    if c == '0' {
        0
    } else if c == '1' {
        1
    } else if c == '2' {
        2
    } else if c == '3' {
        3
    } else if c == '4' {
        4
    } else if c == '5' {
        5
    } else if c == '6' {
        6
    } else if c == '7' {
        7
    } else if c == '8' {
        8
    } else {
        9
    }
}

} // verus!
