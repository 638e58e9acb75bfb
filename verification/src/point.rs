//! The point parser: one textual token to one `(x, y)` coordinate pair.

use vstd::prelude::*;

use crate::grammar::digit_check;
use crate::grammar::digit_char_val;
use crate::grammar::digit_value;
use crate::grammar::first_match;
use crate::grammar::first_match_from;
use crate::grammar::has_point_match;
use crate::grammar::is_digit_char;
use crate::grammar::lemma_first_match_from;
use crate::grammar::match_at;
use crate::grammar::match_long_at;
use crate::grammar::match_short_at;
use crate::grammar::parse_point_spec;
use vstd::string::StrSliceExecFns;

verus! {

/// An (x,y) coordinate pair.
#[derive(Debug, Clone, Copy, PartialEq, Eq, Structural)]
pub struct Point {
    pub x: i32,
    pub y: i32,
}

/// The failure of a parse: the offending token did not match the point
/// grammar.
#[derive(Debug)]
pub enum ParseError {
    Malformed(String),
}

impl ParseError {
    /// The token that failed to parse.
    pub open spec fn spec_token(self) -> Seq<char> {
        match self {
            ParseError::Malformed(t) => t@,
        }
    }
}

impl From<(i32, i32)> for Point {
    fn from(t: (i32, i32)) -> (r: Self) {
        Point { x: t.0, y: t.1 }
    }
}

impl vstd::std_specs::convert::FromSpecImpl<(i32, i32)> for Point {
    open spec fn obeys_from_spec() -> bool {
        true
    }

    open spec fn from_spec(t: (i32, i32)) -> Point {
        Point { x: t.0, y: t.1 }
    }
}

/// Whether the point pattern starts at character position `i` of `s`,
/// mirroring `match_at`.
fn pattern_starts_at(s: &str, i: usize, n: usize) -> (b: bool)
    requires
        n == s@.len(),
        i + 5 <= n,
    ensures
        b == match_at(s@, i as int),
{
    let c0 = s.get_char(i);
    let c1 = s.get_char(i + 1);
    let c2 = s.get_char(i + 2);
    let c3 = s.get_char(i + 3);
    let c4 = s.get_char(i + 4);
    if !(c0 == '(' && digit_check(c1) && c2 == ',') {
        return false;
    }
    if digit_check(c3) && c4 == ')' {
        return true;
    }
    if c3 == ' ' && digit_check(c4) && n >= 6 && i <= n - 6 {
        s.get_char(i + 5) == ')'
    } else {
        false
    }
}

impl Point {
    /// Parse one token. Succeeds exactly when the point pattern occurs
    /// somewhere in the token, and then takes the coordinates from the
    /// leftmost occurrence; otherwise reports the whole token as malformed.
    pub fn from_str(s: &str) -> (r: Result<Point, ParseError>)
        ensures
            r is Ok <==> has_point_match(s@),
            (match r {
                Ok(p) => {
                    &&& parse_point_spec(s@) == Some((p.x as int, p.y as int))
                    &&& 0 <= p.x <= 9
                    &&& 0 <= p.y <= 9
                },
                Err(e) => {
                    &&& parse_point_spec(s@) is None
                    &&& e.spec_token() == s@
                },
            }),
    {
        let n = s.unicode_len();
        let mut i: usize = 0;
        while n >= 5 && i <= n - 5
            invariant
                n == s@.len(),
                i <= n,
                forall|j: int| 0 <= j < i ==> !match_at(s@, j),
            decreases n - i,
        {
            if pattern_starts_at(s, i, n) {
                proof {
                    lemma_first_match_from(s@, 0);
                    assert(match_at(s@, i as int));
                    let fm = first_match_from(s@, 0);
                    if fm == -1 {
                        assert(!match_at(s@, i as int));
                        assert(false);
                    } else if fm < i {
                        assert(!match_at(s@, fm));
                        assert(false);
                    } else if fm > i {
                        assert(!match_at(s@, i as int));
                        assert(false);
                    }
                    assert(first_match(s@) == i);
                }
                let cx = s.get_char(i + 1);
                let c3 = s.get_char(i + 3);
                let x = digit_value(cx);
                let y = if digit_check(c3) {
                    digit_value(c3)
                } else {
                    assert(match_long_at(s@, i as int));
                    digit_value(s.get_char(i + 4))
                };
                return Ok(Point { x, y });
            }
            i += 1;
        }
        proof {
            assert(forall|j: int| j >= 0 ==> !match_at(s@, j));
            lemma_first_match_from(s@, 0);
        }
        Err(ParseError::Malformed(s.to_owned()))
    }
}

/// The grammar is insensitive to the optional space after the comma: for any
/// two digits, the no-space token `(D,D)` and the one-space token `(D, D)`
/// parse to the same coordinates.
pub proof fn lemma_space_variants_agree(d1: char, d2: char)
    requires
        is_digit_char(d1),
        is_digit_char(d2),
    ensures
        parse_point_spec(seq!['(', d1, ',', d2, ')']) == Some(
            (digit_char_val(d1), digit_char_val(d2)),
        ),
        parse_point_spec(seq!['(', d1, ',', ' ', d2, ')']) == Some(
            (digit_char_val(d1), digit_char_val(d2)),
        ),
        parse_point_spec(seq!['(', d1, ',', d2, ')']) == parse_point_spec(
            seq!['(', d1, ',', ' ', d2, ')'],
        ),
{
    let short = seq!['(', d1, ',', d2, ')'];
    let long = seq!['(', d1, ',', ' ', d2, ')'];
    assert(match_short_at(short, 0));
    assert(first_match(short) == 0);
    assert(match_long_at(long, 0));
    assert(!match_short_at(long, 0));
    assert(first_match(long) == 0);
}

} // verus!
