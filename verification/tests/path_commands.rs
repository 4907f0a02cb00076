use channel_geometry::channel::{
    Arc, ChannelPath, GeometryError, LineSegment, PathPiece, SVGPath,
};
use channel_geometry::primitives::Point;

fn pt(x: &str, y: &str) -> Point {
    Point { x: x.to_string(), y: y.to_string() }
}

#[test]
fn empty_path_renders_empty_and_measures_zero() {
    let path = ChannelPath::new();
    assert_eq!(path.svg_path_command(false), Ok("".to_string()));
    assert_eq!(path.length().unwrap().0, "0".to_string());
}

#[test]
fn line_segment_command_and_length() {
    let line = LineSegment { start: pt("0", "0"), end: pt("3", "4") };
    assert_eq!(line.svg_path_command(false), Ok("L 3 4 ".to_string()));
    assert_eq!(line.length().unwrap().0, "5".to_string());
}

#[test]
fn coordinates_are_canonicalized_in_commands() {
    let line = LineSegment { start: pt("0", "0"), end: pt("80.50", "-0.250") };
    assert_eq!(line.svg_path_command(true), Ok("L 80.5 -0.25 ".to_string()));
}

#[test]
fn two_piece_path_renders_move_then_one_command_per_piece() {
    let mut path = ChannelPath::new();
    path.add(PathPiece::LineSegment(LineSegment { start: pt("35", "35"), end: pt("80", "80") }));
    path.add(PathPiece::Arc(Arc {
        start: pt("80", "80"),
        end: pt("125", "125"),
        center: pt("125", "80"),
        right: true,
    }));
    assert_eq!(
        path.svg_path_command(true),
        Ok("M 35 35 L 80 80 A 45 45 0 0 0 125 125 ".to_string())
    );
}

#[test]
fn path_starts_at_first_piece_even_for_arcs() {
    let mut path = ChannelPath::new();
    path.add(PathPiece::Arc(Arc {
        start: pt("80", "80"),
        end: pt("125", "125"),
        center: pt("125", "80"),
        right: true,
    }));
    assert_eq!(
        path.svg_path_command(true),
        Ok("M 80 80 A 45 45 0 0 0 125 125 ".to_string())
    );
}

#[test]
fn arc_command_writes_set_flags_as_ones() {
    let arc = Arc {
        start: pt("230", "230"),
        end: pt("275", "275"),
        center: pt("275", "230"),
        right: false,
    };
    assert_eq!(arc.svg_path_command(true), Ok("A 45 45 0 1 1 275 275 ".to_string()));
}

#[test]
fn single_piece_path_measures_that_piece() {
    let line = LineSegment { start: pt("0", "0"), end: pt("3", "4") };
    let mut path = ChannelPath::new();
    path.add(PathPiece::LineSegment(line.clone()));
    assert_eq!(path.length(), line.length());
}

#[test]
fn path_length_sums_piece_lengths() {
    let mut path = ChannelPath::new();
    path.add(PathPiece::LineSegment(LineSegment { start: pt("0", "0"), end: pt("3", "4") }));
    path.add(PathPiece::LineSegment(LineSegment { start: pt("3", "4"), end: pt("6", "8") }));
    assert_eq!(path.length().unwrap().0, "10".to_string());
}

#[test]
fn degenerate_piece_fails_the_whole_path() {
    let mut path = ChannelPath::new();
    path.add(PathPiece::LineSegment(LineSegment { start: pt("0", "0"), end: pt("5", "5") }));
    path.add(PathPiece::Arc(Arc {
        start: pt("5", "5"),
        end: pt("9", "5"),
        center: pt("5", "5"),
        right: true,
    }));
    assert_eq!(path.svg_path_command(false), Err(GeometryError::DegenerateArc));
    assert_eq!(path.length(), Err(GeometryError::DegenerateArc));
}

#[test]
fn builder_appends_in_order() {
    let mut path = ChannelPath::new();
    assert_eq!(path.pieces.len(), 0);
    let first = PathPiece::LineSegment(LineSegment { start: pt("0", "0"), end: pt("1", "0") });
    let second = PathPiece::LineSegment(LineSegment { start: pt("1", "0"), end: pt("1", "1") });
    path.add(first.clone());
    path.add(second.clone());
    assert_eq!(path.pieces, vec![first, second]);
}
