//! The graph builder: splits the input on single spaces, parses each token as
//! a point, and aggregates the points in source order. The first malformed
//! token aborts the whole parse with its error.

use vstd::prelude::*;

use crate::grammar::first_match;
use crate::grammar::has_point_match;
use crate::grammar::point_x_at;
use crate::grammar::point_y_at;
use crate::point::ParseError;
use crate::point::Point;
use vstd::string::StrSliceExecFns;

verus! {

/// The position of the first space character of `s`, or `-1` if there is
/// none.
pub open spec fn first_space(s: Seq<char>) -> int
    decreases s.len(),
{
    if s.len() == 0 {
        -1
    } else if s[0] == ' ' {
        0
    } else {
        let r = first_space(s.subrange(1, s.len() as int));
        if r < 0 {
            -1
        } else {
            r + 1
        }
    }
}

/// The tokens of `s`: the maximal substrings between single space
/// delimiters, in source order. Consecutive spaces yield empty tokens, and
/// the empty input yields one empty token.
pub open spec fn split_spec(s: Seq<char>) -> Seq<Seq<char>>
    decreases s.len(),
{
    let i = first_space(s);
    if 0 <= i < s.len() {
        seq![s.subrange(0, i)] + split_spec(s.subrange(i + 1, s.len() as int))
    } else {
        seq![s]
    }
}

/// Every token of `s` contains the point pattern.
pub open spec fn all_tokens_match(s: Seq<char>) -> bool {
    forall|k: int|
        0 <= k < split_spec(s).len() ==> has_point_match(#[trigger] split_spec(s)[k])
}

/// The coordinates a token parses to (meaningful only under
/// `has_point_match`).
pub open spec fn point_of_token(t: Seq<char>) -> (int, int) {
    (point_x_at(t, first_match(t)), point_y_at(t, first_match(t)))
}

/// The coordinate pairs of the whole input, token by token, in source order.
pub open spec fn points_spec(s: Seq<char>) -> Seq<(int, int)> {
    split_spec(s).map_values(|t: Seq<char>| point_of_token(t))
}

/// The coordinate pairs a sequence of points holds.
pub open spec fn point_pairs(ps: Seq<Point>) -> Seq<(int, int)> {
    ps.map_values(|p: Point| (p.x as int, p.y as int))
}

/// The index of the first token of `toks` without a point match, or `-1`
/// when every token matches.
pub open spec fn first_bad_index(toks: Seq<Seq<char>>) -> int
    decreases toks.len(),
{
    if toks.len() == 0 {
        -1
    } else if !has_point_match(toks[0]) {
        0
    } else {
        let r = first_bad_index(toks.subrange(1, toks.len() as int));
        if r < 0 {
            -1
        } else {
            r + 1
        }
    }
}

/// A position holding a space and preceded by none is the first space.
proof fn lemma_first_space_is(s: Seq<char>, j: int)
    requires
        0 <= j < s.len(),
        s[j] == ' ',
        forall|t: int| 0 <= t < j ==> s[t] != ' ',
    ensures
        first_space(s) == j,
    decreases s.len(),
{
    if j == 0 {
    } else {
        let sub = s.subrange(1, s.len() as int);
        assert(s[0] != ' ');
        assert(sub[j - 1] == ' ');
        assert(forall|t: int| 0 <= t < j - 1 ==> sub[t] == s[t + 1] && s[t + 1] != ' ');
        lemma_first_space_is(sub, j - 1);
    }
}

/// A string without a space has no first space.
proof fn lemma_no_space(s: Seq<char>)
    requires
        forall|t: int| 0 <= t < s.len() ==> s[t] != ' ',
    ensures
        first_space(s) == -1,
    decreases s.len(),
{
    if s.len() == 0 {
    } else {
        let sub = s.subrange(1, s.len() as int);
        assert(forall|t: int| 0 <= t < sub.len() ==> sub[t] == s[t + 1] && s[t + 1] != ' ');
        lemma_no_space(sub);
    }
}

/// A token without a match that no unmatched token precedes is the first
/// bad token.
proof fn lemma_first_bad_index_is(toks: Seq<Seq<char>>, b: int)
    requires
        0 <= b < toks.len(),
        !has_point_match(toks[b]),
        forall|k: int| 0 <= k < b ==> has_point_match(#[trigger] toks[k]),
    ensures
        first_bad_index(toks) == b,
    decreases toks.len(),
{
    if b == 0 {
    } else {
        assert(has_point_match(toks[0]));
        let sub = toks.subrange(1, toks.len() as int);
        assert(!has_point_match(sub[b - 1]));
        assert(forall|k: int| 0 <= k < b - 1 ==> sub[k] == toks[k + 1] && has_point_match(
            #[trigger] toks[k + 1],
        ));
        lemma_first_bad_index_is(sub, b - 1);
    }
}

/// Parsing the empty input fails: its single token is the empty token,
/// which holds no point pattern.
pub proof fn lemma_empty_input_rejected()
    ensures
        !all_tokens_match(Seq::<char>::empty()),
{
    let s = Seq::<char>::empty();
    assert(first_space(s) == -1);
    assert(split_spec(s) == seq![s]);
    assert(!has_point_match(split_spec(s)[0]));
}

/// The position of the first space of `s`, found by a left-to-right scan.
fn find_space(s: &str, n: usize) -> (r: Option<usize>)
    requires
        n == s@.len(),
    ensures
        (match r {
            Some(j) => j < n && s@[j as int] == ' ' && first_space(s@) == j,
            None => first_space(s@) == -1,
        }),
{
    let mut j: usize = 0;
    while j < n
        invariant
            n == s@.len(),
            j <= n,
            forall|t: int| 0 <= t < j ==> s@[t] != ' ',
        decreases n - j,
    {
        if s.get_char(j) == ' ' {
            proof {
                lemma_first_space_is(s@, j as int);
            }
            return Some(j);
        }
        j += 1;
    }
    proof {
        lemma_no_space(s@);
    }
    None
}

/// The data needed to render a graph: an ordered sequence of points.
#[derive(Debug)]
pub struct Graph {
    pub points: Vec<Point>,
}

impl Graph {
    /// Every stored point carries single-digit coordinates, as the point
    /// grammar guarantees of every parsed point.
    pub open spec fn wf(self) -> bool {
        forall|k: int|
            0 <= k < self.points@.len() ==> 0 <= (#[trigger] self.points@[k]).x <= 9 && 0
                <= self.points@[k].y <= 9
    }

    /// Parse the whole input: split on single spaces, parse each token in
    /// order, and collect the points. The first malformed token makes the
    /// whole parse fail with that token's error.
    pub fn from_str(s: &str) -> (r: Result<Graph, ParseError>)
        ensures
            r is Ok <==> all_tokens_match(s@),
            (match r {
                Ok(g) => {
                    &&& point_pairs(g.points@) == points_spec(s@)
                    &&& g.wf()
                },
                Err(e) => {
                    &&& first_bad_index(split_spec(s@)) >= 0
                    &&& e.spec_token() == split_spec(s@)[first_bad_index(split_spec(s@))]
                },
            }),
    {
        let mut points: Vec<Point> = Vec::new();
        let mut rest: &str = s;
        let ghost mut done: Seq<Seq<char>> = Seq::empty();
        loop
            invariant
                split_spec(s@) == done + split_spec(rest@),
                points@.len() == done.len(),
                forall|k: int| 0 <= k < done.len() ==> has_point_match(#[trigger] done[k]),
                forall|k: int|
                    0 <= k < done.len() ==> point_of_token(#[trigger] done[k]) == (
                        points@[k].x as int,
                        points@[k].y as int,
                    ),
                forall|k: int|
                    0 <= k < points@.len() ==> 0 <= (#[trigger] points@[k]).x <= 9 && 0
                        <= points@[k].y <= 9,
            decreases rest@.len(),
        {
            let m = rest.unicode_len();
            match find_space(rest, m) {
                None => {
                    // no space left: the rest is the final token
                    assert(split_spec(rest@) == seq![rest@]);
                    match Point::from_str(rest) {
                        Ok(p) => {
                            points.push(p);
                            proof {
                                done = done.push(rest@);
                                assert(split_spec(s@) =~= done);
                                assert(point_pairs(points@) =~= points_spec(s@));
                            }
                            return Ok(Graph { points });
                        },
                        Err(e) => {
                            proof {
                                let toks = split_spec(s@);
                                assert(toks[done.len() as int] == rest@);
                                lemma_first_bad_index_is(toks, done.len() as int);
                            }
                            return Err(e);
                        },
                    }
                },
                Some(j) => {
                    let token = rest.substring_char(0, j);
                    assert(split_spec(rest@) == seq![rest@.subrange(0, j as int)] + split_spec(
                        rest@.subrange(j + 1, rest@.len() as int),
                    ));
                    match Point::from_str(token) {
                        Ok(p) => {
                            points.push(p);
                            let ghost old_rest = rest@;
                            rest = rest.substring_char(j + 1, m);
                            proof {
                                done = done.push(old_rest.subrange(0, j as int));
                                assert(split_spec(s@) =~= done + split_spec(rest@));
                            }
                        },
                        Err(e) => {
                            proof {
                                let toks = split_spec(s@);
                                assert(toks[done.len() as int] == rest@.subrange(0, j as int));
                                lemma_first_bad_index_is(toks, done.len() as int);
                            }
                            return Err(e);
                        },
                    }
                },
            }
        }
    }
}

impl PartialEq for Graph {
    /// Structural equality: the point sequences are equal.
    fn eq(&self, other: &Graph) -> (r: bool) {
        if self.points.len() != other.points.len() {
            return false;
        }
        let mut k: usize = 0;
        while k < self.points.len()
            invariant
                self.points@.len() == other.points@.len(),
                k <= self.points@.len(),
                forall|j: int| 0 <= j < k ==> self.points@[j] == other.points@[j],
            decreases self.points@.len() - k,
        {
            if !(self.points[k] == other.points[k]) {
                return false;
            }
            k += 1;
        }
        proof {
            assert(self.points@ =~= other.points@);
        }
        true
    }
}

impl vstd::std_specs::cmp::PartialEqSpecImpl for Graph {
    open spec fn obeys_eq_spec() -> bool {
        true
    }

    open spec fn eq_spec(&self, other: &Graph) -> bool {
        self.points@ == other.points@
    }
}

impl Default for Graph {
    /// The empty graph: no points.
    fn default() -> (r: Graph)
        ensures
            r.points@ == Seq::<Point>::empty(),
    {
        Graph { points: Vec::new() }
    }
}

} // verus!
