use graphcloset::plot;
use graphcloset::Graph;
use graphcloset::ParseError;
use graphcloset::Point;

#[test]
#[allow(unused_variables)]
fn test_point_from_str() {
    let input = "(1,2)";
    let input2 = "(1, 2)";
    let point = Point::from_str(input).unwrap();
    let point2 = Point::from_str(input).unwrap();
    assert_eq!(point, point2);
    assert_eq!(point.x, 1);
    assert_eq!(point.y, 2);
}

#[test]
#[should_panic]
fn test_point_from_str_invalid() {
    let bad_input = "(1,)2";
    let _ = Point::from_str(bad_input).unwrap();
    unreachable!()
}

#[test]
fn test_graph_from_str() {
    let default = "(4,5) (1,2) (7,8)";
    let graph = Graph::from_str(default).unwrap();
    assert_eq!(
        graph,
        Graph {
            points: vec![
                Point::from((4, 5)),
                Point::from((1, 2)),
                Point::from((7, 8))
            ]
        }
    );
}

#[test]
fn space_variants_parse_to_equal_points() {
    let no_space = Point::from_str("(1,2)").unwrap();
    let one_space = Point::from_str("(1, 2)").unwrap();
    assert_eq!(no_space, one_space);
    assert_eq!(no_space.x, 1);
    assert_eq!(no_space.y, 2);
}

#[test]
fn malformed_token_reports_the_token() {
    match Point::from_str("(1,)2") {
        Ok(_) => panic!("a token without a digit before the closing parenthesis must fail"),
        Err(ParseError::Malformed(t)) => assert_eq!(t, "(1,)2"),
    }
}

#[test]
fn multi_digit_coordinates_are_rejected() {
    assert!(Point::from_str("(10,5)").is_err());
}

#[test]
fn negative_coordinates_are_rejected() {
    assert!(Point::from_str("(-1,2)").is_err());
}

#[test]
fn empty_input_fails() {
    match Graph::from_str("") {
        Ok(_) => panic!("the empty input holds one empty token, which must fail"),
        Err(ParseError::Malformed(t)) => assert_eq!(t, ""),
    }
    assert_eq!(plot(""), "Error: invalid point string ");
}

#[test]
fn graph_keeps_source_order() {
    let graph = Graph::from_str("(4,5) (1,2) (7,8)").unwrap();
    assert_eq!(graph.points.len(), 3);
    assert_eq!(graph.points[0], Point::from((4, 5)));
    assert_eq!(graph.points[1], Point::from((1, 2)));
    assert_eq!(graph.points[2], Point::from((7, 8)));
}

#[test]
fn plot_renders_the_points_in_order() {
    let text = plot("(4,5) (1,2) (7,8)");
    assert_eq!(text, "Graph { points: [(4, 5), (1, 2), (7, 8)] }");
    let again = plot("(4,5) (1,2) (7,8)");
    assert_eq!(text, again);
}

#[test]
fn plot_reports_the_first_malformed_token() {
    assert_eq!(plot("(4,5) x (7,8)"), "Error: invalid point string x");
    assert_eq!(plot("(4,5) x (7,8"), "Error: invalid point string x");
}

#[test]
fn plot_renders_a_single_point() {
    assert_eq!(plot("(1,2)"), "Graph { points: [(1, 2)] }");
    assert_eq!(plot("(0,9)"), "Graph { points: [(0, 9)] }");
}

#[test]
fn the_space_variant_splits_apart_in_a_list() {
    // the graph builder splits on every single space, so the one-space
    // point form cannot survive inside a list
    assert_eq!(plot("(1, 2)"), "Error: invalid point string (1,");
}

#[test]
fn trailing_garbage_after_a_match_is_accepted() {
    let point = Point::from_str("(1,2)garbage").unwrap();
    assert_eq!(point, Point::from((1, 2)));
}

#[test]
fn the_leftmost_match_wins() {
    let point = Point::from_str("zz(3,4)(5,6)").unwrap();
    assert_eq!(point, Point::from((3, 4)));
}

#[test]
fn consecutive_spaces_yield_an_empty_token_which_fails() {
    match Graph::from_str("(1,2)  (3,4)") {
        Ok(_) => panic!("the empty token between two spaces must fail"),
        Err(ParseError::Malformed(t)) => assert_eq!(t, ""),
    }
}

#[test]
fn default_graph_is_empty() {
    let graph = Graph::default();
    assert_eq!(graph, Graph { points: vec![] });
    assert_eq!(graph.points.len(), 0);
}

#[test]
fn point_from_tuple_keeps_the_fields() {
    let point = Point::from((3, 7));
    assert_eq!(point.x, 3);
    assert_eq!(point.y, 7);
}
