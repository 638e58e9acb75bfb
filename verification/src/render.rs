//! Rendering of a parse outcome to text: the ordered point list on success,
//! a description of the offending token on failure.

use vstd::prelude::*;

use crate::graph::point_pairs;
use crate::graph::Graph;
use crate::point::ParseError;
use crate::point::Point;
use vstd::string::StrSliceExecFns;
use vstd::string::StringExecFns;

verus! {

/// The character of a single decimal digit value.
pub open spec fn digit_char(d: int) -> char {
    if d == 0 {
        '0'
    } else if d == 1 {
        '1'
    } else if d == 2 {
        '2'
    } else if d == 3 {
        '3'
    } else if d == 4 {
        '4'
    } else if d == 5 {
        '5'
    } else if d == 6 {
        '6'
    } else if d == 7 {
        '7'
    } else if d == 8 {
        '8'
    } else {
        '9'
    }
}

/// The text of one coordinate pair: `(x, y)`.
pub open spec fn render_point_spec(pr: (int, int)) -> Seq<char> {
    "("@ + seq![digit_char(pr.0)] + ", "@ + seq![digit_char(pr.1)] + ")"@
}

/// The text of a point list: the points in order, separated by `, `.
pub open spec fn render_points_spec(ps: Seq<(int, int)>) -> Seq<char>
    decreases ps.len(),
{
    if ps.len() == 0 {
        Seq::empty()
    } else if ps.len() == 1 {
        render_point_spec(ps[0])
    } else {
        render_points_spec(ps.drop_last()) + ", "@ + render_point_spec(ps.last())
    }
}

/// The text of a successfully parsed graph.
pub open spec fn render_graph_spec(ps: Seq<(int, int)>) -> Seq<char> {
    "Graph { points: ["@ + render_points_spec(ps) + "] }"@
}

/// The text of a failed parse: a description naming the offending token.
pub open spec fn render_error_spec(t: Seq<char>) -> Seq<char> {
    "Error: invalid point string "@ + t
}

/// The one-character text of a digit value, mirroring `digit_char`.
fn digit_str(d: i32) -> (r: &'static str)
    requires
        0 <= d <= 9,
    ensures
        r@ == seq![digit_char(d as int)],
{
    if d == 0 {
        proof {
            reveal_strlit("0");
            assert("0"@ =~= seq![digit_char(0)]);
        }
        "0"
    } else if d == 1 {
        proof {
            reveal_strlit("1");
            assert("1"@ =~= seq![digit_char(1)]);
        }
        "1"
    } else if d == 2 {
        proof {
            reveal_strlit("2");
            assert("2"@ =~= seq![digit_char(2)]);
        }
        "2"
    } else if d == 3 {
        proof {
            reveal_strlit("3");
            assert("3"@ =~= seq![digit_char(3)]);
        }
        "3"
    } else if d == 4 {
        proof {
            reveal_strlit("4");
            assert("4"@ =~= seq![digit_char(4)]);
        }
        "4"
    } else if d == 5 {
        proof {
            reveal_strlit("5");
            assert("5"@ =~= seq![digit_char(5)]);
        }
        "5"
    } else if d == 6 {
        proof {
            reveal_strlit("6");
            assert("6"@ =~= seq![digit_char(6)]);
        }
        "6"
    } else if d == 7 {
        proof {
            reveal_strlit("7");
            assert("7"@ =~= seq![digit_char(7)]);
        }
        "7"
    } else if d == 8 {
        proof {
            reveal_strlit("8");
            assert("8"@ =~= seq![digit_char(8)]);
        }
        "8"
    } else {
        proof {
            reveal_strlit("9");
            assert("9"@ =~= seq![digit_char(9)]);
        }
        "9"
    }
}

/// Render one point as `(x, y)`.
fn render_point(p: &Point) -> (r: String)
    requires
        0 <= p.x <= 9,
        0 <= p.y <= 9,
    ensures
        r@ == render_point_spec((p.x as int, p.y as int)),
{
    let mut out = String::new();
    out.append("(");
    out.append(digit_str(p.x));
    out.append(", ");
    out.append(digit_str(p.y));
    out.append(")");
    proof {
        assert(out@ =~= render_point_spec((p.x as int, p.y as int)));
    }
    out
}

/// Render a parsed graph as its ordered point list.
pub(crate) fn render_graph(g: &Graph) -> (r: String)
    requires
        g.wf(),
    ensures
        r@ == render_graph_spec(point_pairs(g.points@)),
{
    let ghost pairs = point_pairs(g.points@);
    let mut out = String::new();
    out.append("Graph { points: [");
    proof {
        assert(out@ =~= "Graph { points: ["@ + render_points_spec(pairs.take(0)));
    }
    let mut k: usize = 0;
    while k < g.points.len()
        invariant
            g.wf(),
            pairs == point_pairs(g.points@),
            pairs.len() == g.points@.len(),
            k <= g.points@.len(),
            out@ == "Graph { points: ["@ + render_points_spec(pairs.take(k as int)),
        decreases g.points@.len() - k,
    {
        if k > 0 {
            out.append(", ");
        }
        let p = g.points[k];
        let piece = render_point(&p);
        out.append(piece.as_str());
        proof {
            let t1 = pairs.take(k as int);
            let t2 = pairs.take(k as int + 1);
            assert(t2.last() == pairs[k as int]);
            assert(t2.drop_last() =~= t1);
            if k == 0 {
                assert(render_points_spec(t2) == render_point_spec(pairs[0]));
            } else {
                assert(render_points_spec(t2) == render_points_spec(t1) + ", "@
                    + render_point_spec(pairs[k as int]));
            }
            assert(out@ =~= "Graph { points: ["@ + render_points_spec(t2));
        }
        k += 1;
    }
    out.append("] }");
    proof {
        assert(pairs.take(pairs.len() as int) =~= pairs);
        assert(out@ =~= render_graph_spec(pairs));
    }
    out
}

/// Render a parse failure as a description naming the offending token.
pub(crate) fn render_error(e: &ParseError) -> (r: String)
    ensures
        r@ == render_error_spec(e.spec_token()),
{
    match e {
        ParseError::Malformed(t) => {
            let mut out = String::new();
            out.append("Error: invalid point string ");
            out.append(t.as_str());
            proof {
                assert(out@ =~= render_error_spec(t@));
            }
            out
        },
    }
}

} // verus!
