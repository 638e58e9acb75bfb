//! A tiny plotting front end: parses a space-delimited list of single-digit
//! `(x,y)` coordinate pairs and renders the parsed structure as text.

use vstd::prelude::*;

mod grammar;
mod graph;
mod point;
mod render;

pub use render::digit_char;
pub use render::render_error_spec;
pub use render::render_graph_spec;
pub use render::render_point_spec;
pub use render::render_points_spec;

pub use graph::all_tokens_match;
pub use graph::first_bad_index;
pub use graph::first_space;
pub use graph::lemma_empty_input_rejected;
pub use graph::point_of_token;
pub use graph::point_pairs;
pub use graph::points_spec;
pub use graph::split_spec;
pub use graph::Graph;

pub use point::lemma_space_variants_agree;
pub use point::ParseError;
pub use point::Point;

pub use grammar::digit_char_val;
pub use grammar::first_match;
pub use grammar::first_match_from;
pub use grammar::has_point_match;
pub use grammar::is_digit_char;
pub use grammar::lemma_first_match_from;
pub use grammar::match_at;
pub use grammar::match_long_at;
pub use grammar::match_short_at;
pub use grammar::parse_point_spec;
pub use grammar::point_x_at;
pub use grammar::point_y_at;

verus! {

/// The text `plot` returns for a given input: the rendered point list when
/// every token parses, else the rendered description of the first malformed
/// token.
pub open spec fn plot_spec(s: Seq<char>) -> Seq<char> {
    if all_tokens_match(s) {
        render_graph_spec(points_spec(s))
    } else {
        render_error_spec(split_spec(s)[first_bad_index(split_spec(s))])
    }
}

/// Take a series of points in string form and produce a plot in string form.
/// Malformed input never raises a fault: it becomes descriptive text in the
/// returned string.
pub fn plot(input: &str) -> (r: String)
    ensures
        r@ == plot_spec(input@),
{
    match Graph::from_str(input) {
        Ok(g) => render::render_graph(&g),
        Err(e) => render::render_error(&e),
    }
}

/// The plot text is a pure function of the input: equal inputs render to
/// equal output text.
pub proof fn lemma_plot_deterministic(s1: Seq<char>, s2: Seq<char>)
    requires
        s1 == s2,
    ensures
        plot_spec(s1) == plot_spec(s2),
{
}

} // verus!
