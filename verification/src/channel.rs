//! Channels and their centerline paths: the path-piece model, the
//! classification of an arc into the renderer triple (radius, large-arc flag,
//! sweep flag), path rendering, and path length.

use crate::network::NodeId;
use crate::numerics::{
    add_text, asin_text, canon_text, div_text, hypot_text, lt_text, mul_text, num_add, num_asin,
    num_canon, num_div, num_hypot, num_lt, num_mul, num_sub, orient, orient_sign, sub_text,
};
use crate::primitives::{point_eq, Point};
use vstd::prelude::*;

verus! {

/// A structure holding a microfluidic channel.
#[derive(Debug, Clone, PartialEq)]
pub struct Channel {
    /// Id of the channel.
    pub id: usize,
    /// Start node.
    pub node_a: NodeId,
    /// End node.
    pub node_b: NodeId,
    /// Channel shape.
    pub shape: Shape,
}

/// Channel shape/cross-section types.
#[derive(Debug, Clone, PartialEq)]
pub enum Shape {
    /// Rectangular channel cross-section variant.
    Rectangular(RectangularShape),
    /// Circular channel cross-section variant.
    Cylindrical(CylindricalShape),
}

/// Rectangular channel cross-section.
#[derive(Debug, Clone, PartialEq)]
pub struct RectangularShape {
    /// Channel width.
    pub width: String,
    /// Channel height.
    pub height: String,
}

/// Round channel cross-section.
#[derive(Debug, Clone, PartialEq)]
pub struct CylindricalShape {
    /// Cross-section radius.
    pub radius: String,
}

/// A continuous channel path made of arcs and straight segments.
#[derive(Debug, Clone, PartialEq)]
pub struct ChannelPath {
    /// Single pieces of the path, in traversal order.
    pub pieces: Vec<PathPiece>,
}

/// Single piece of a path, can be of several types.
#[derive(Debug, Clone, PartialEq)]
pub enum PathPiece {
    /// Circular arc segment.
    Arc(Arc),
    /// Straight line segment.
    LineSegment(LineSegment),
}

/// A straight line segment.
#[derive(Debug, Clone, PartialEq)]
pub struct LineSegment {
    /// Starting point of the segment.
    pub start: Point,
    /// End point of the segment.
    pub end: Point,
}

/// Arc segment.
///
/// Invariant expected from callers, not re-validated here: `start` and `end`
/// lie on one circle around `center`.
#[derive(Debug, Clone, PartialEq)]
pub struct Arc {
    /// Clockwise rotation of the arc from start through end; `right == true`
    /// means clockwise, counterclockwise otherwise.  Mathematical (Y-up)
    /// axis convention assumed.
    pub right: bool,
    /// Starting point of the segment.
    pub start: Point,
    /// End point of the segment.
    pub end: Point,
    /// Center point of the arc's complete circle.
    pub center: Point,
}

/// A path or piece length, as the decimal text of a double-precision value.
#[derive(Debug, Clone, PartialEq)]
pub struct PathLength(pub String);

/// Radius of an arc command, as decimal text.
#[derive(Debug, Clone, PartialEq)]
pub struct Radius(pub String);

/// Whether an arc command draws the longer of the two possible arcs.
#[derive(Debug, Copy, Clone, PartialEq, Eq, Structural)]
pub struct LargeArcFlag(pub bool);

/// The rotational direction in which an arc command is drawn.
#[derive(Debug, Copy, Clone, PartialEq, Eq, Structural)]
pub struct SweepFlag(pub bool);

/// Unrecoverable breach of the geometric input contract.
#[derive(Debug, Copy, Clone, PartialEq, Eq, Structural)]
pub enum GeometryError {
    /// An arc whose start coincides with its center: no radius can be
    /// derived from a point arc with no extent.
    DegenerateArc,
    /// The two orientation tests disagree in a way that no valid circle
    /// allows: the chord test is decided while the tangent test is not.
    InconsistentOrientation,
}

/// Distance between two points: the hypotenuse of the coordinate differences,
/// written `a` minus `b` in both coordinates.
pub open spec fn distance_text(a: Point, b: Point) -> Seq<char> {
    hypot_text(sub_text(a.x@, b.x@), sub_text(a.y@, b.y@))
}

/// Decimal text of the circle constant in shortest round-trip notation.
pub open spec fn pi_text() -> Seq<char> {
    "3.141592653589793"@
}

/// Large-arc flag of the orientation decision table, before the degenerate
/// full-circle case: decided by the side of the chord the center lies on.
pub open spec fn table_large(right: bool, o0: i8) -> bool {
    if o0 > 0 {
        !right
    } else if o0 < 0 {
        right
    } else {
        false
    }
}

/// Sweep flag of the orientation decision table before inversion: decided by
/// the side of the tangent at `start` the end point lies on.
pub open spec fn table_sweep(right: bool, o1: i8) -> bool {
    if o1 > 0 {
        !right
    } else if o1 < 0 {
        right
    } else {
        false
    }
}

/// Whether the two orientation signs are a combination a valid circle can
/// produce: an undecided tangent test together with a decided chord test is
/// geometrically inconsistent.
pub open spec fn orientation_consistent(o0: i8, o1: i8) -> bool {
    o1 != 0 || o0 == 0
}

impl Arc {
    /// Whether the arc closes on itself: start and end are the same point.
    pub open spec fn full_circle(self) -> bool {
        point_eq(self.start, self.end)
    }

    /// Horizontal coordinate of the point that offsets `start` by a quarter
    /// turn of the vector from `center` to `start`: a point on the tangent
    /// of the circle at `start`.
    pub open spec fn probe_x(self) -> Seq<char> {
        sub_text(add_text(self.start.x@, self.start.y@), self.center.y@)
    }

    /// Vertical coordinate of the tangent probe point.
    pub open spec fn probe_y(self) -> Seq<char> {
        sub_text(add_text(self.start.y@, self.center.x@), self.start.x@)
    }

    /// Orientation sign of (start, center, end): which side of the chord the
    /// center lies on.
    pub open spec fn chord_side(self) -> i8 {
        orient_sign(
            self.start.x@,
            self.start.y@,
            self.center.x@,
            self.center.y@,
            self.end.x@,
            self.end.y@,
        )
    }

    /// Orientation sign of (start, tangent probe, end): which side of the
    /// tangent at `start` the end point lies on.
    pub open spec fn tangent_side(self) -> i8 {
        orient_sign(
            self.start.x@,
            self.start.y@,
            self.probe_x(),
            self.probe_y(),
            self.end.x@,
            self.end.y@,
        )
    }

    /// Whether classification succeeds: either the arc is a full circle, or
    /// it has an extent and its orientation signs are consistent.
    pub open spec fn classification_ok(self) -> bool {
        self.full_circle() || (!point_eq(self.start, self.center)
            && orientation_consistent(self.chord_side(), self.tangent_side()))
    }

    /// The error classification reports when it fails.
    pub open spec fn classification_err(self) -> GeometryError {
        if point_eq(self.start, self.center) {
            GeometryError::DegenerateArc
        } else {
            GeometryError::InconsistentOrientation
        }
    }

    /// Radius as classification derives it: distance from center to start.
    pub open spec fn radius_text(self) -> Seq<char> {
        distance_text(self.center, self.start)
    }

    /// The large-arc flag of the arc: fixed to `true` for a full circle,
    /// otherwise decided by the chord-side orientation.  Unaffected by
    /// vertical inversion.
    pub open spec fn large_flag(self) -> bool {
        if self.full_circle() {
            true
        } else {
            table_large(self.right, self.chord_side())
        }
    }

    /// The sweep flag of the arc: fixed to `false` for a full circle,
    /// otherwise the table's sweep sense, flipped when the output coordinate
    /// system's vertical axis is inverted.
    pub open spec fn sweep_flag(self, invert: bool) -> bool {
        if self.full_circle() {
            false
        } else {
            table_sweep(self.right, self.tangent_side()) != invert
        }
    }

    /// Radius of the arc's circle: the distance from `start` to `center`.
    pub fn radius(&self) -> (r: String)
        ensures
            r@ == distance_text(self.start, self.center),
    {
        let dx = num_sub(self.start.x.as_str(), self.center.x.as_str());
        let dy = num_sub(self.start.y.as_str(), self.center.y.as_str());
        num_hypot(dx.as_str(), dy.as_str())
    }

    /// Derives the renderer triple (radius, large-arc flag, sweep flag) of
    /// the arc, under an optional vertical-axis inversion of the output.
    ///
    /// A full circle (`start == end`) yields large-arc `true` and sweep
    /// `false` unconditionally.  A point arc (`start == center` with an
    /// extent) and an inconsistent orientation-sign combination are reported
    /// as errors: guessing would render a wrong but valid-looking path.
    pub fn svg_representation_values(&self, invert: bool) -> (res: Result<
        (Radius, LargeArcFlag, SweepFlag),
        GeometryError,
    >)
        ensures
            res matches Ok((r, l, sw)) ==> self.classification_ok() && r.0@ == self.radius_text()
                && l == (LargeArcFlag(self.large_flag()))
                && sw == (SweepFlag(self.sweep_flag(invert))),
            res matches Err(e) ==> !self.classification_ok() && e == self.classification_err(),
    {
        let dx = num_sub(self.center.x.as_str(), self.start.x.as_str());
        let dy = num_sub(self.center.y.as_str(), self.start.y.as_str());
        let radius = num_hypot(dx.as_str(), dy.as_str());

        if self.start.same_location(&self.end) {
            return Ok((Radius(radius), LargeArcFlag(true), SweepFlag(false)));
        }
        if self.start.same_location(&self.center) {
            return Err(GeometryError::DegenerateArc);
        }

        let o0 = orient(
            self.start.x.as_str(),
            self.start.y.as_str(),
            self.center.x.as_str(),
            self.center.y.as_str(),
            self.end.x.as_str(),
            self.end.y.as_str(),
        );
        let px = num_sub(
            num_add(self.start.x.as_str(), self.start.y.as_str()).as_str(),
            self.center.y.as_str(),
        );
        let py = num_sub(
            num_add(self.start.y.as_str(), self.center.x.as_str()).as_str(),
            self.start.x.as_str(),
        );
        let o1 = orient(
            self.start.x.as_str(),
            self.start.y.as_str(),
            px.as_str(),
            py.as_str(),
            self.end.x.as_str(),
            self.end.y.as_str(),
        );

        if o1 == 0 && o0 != 0 {
            return Err(GeometryError::InconsistentOrientation);
        }
        let large = if o0 > 0 {
            !self.right
        } else if o0 < 0 {
            self.right
        } else {
            false
        };
        let sweep = if o1 > 0 {
            !self.right
        } else if o1 < 0 {
            self.right
        } else {
            false
        };
        Ok((Radius(radius), LargeArcFlag(large), SweepFlag(sweep != invert)))
    }

    /// The length of the geometrically shorter of the two arcs between
    /// `start` and `end`: `2r * asin(chord / 2r)`, or half the circumference
    /// in the antipodal case where the chord reaches the diameter.
    pub open spec fn minor_len_text(self) -> Seq<char> {
        let r = distance_text(self.start, self.center);
        let two_r = mul_text("2"@, r);
        let chord = distance_text(self.start, self.end);
        if lt_text(chord, two_r) {
            mul_text(two_r, asin_text(div_text(chord, two_r)))
        } else {
            mul_text(r, pi_text())
        }
    }

    /// The arc's length: the minor length, or the rest of the circumference
    /// `2*pi*r - minor` when the large-arc flag selects the longer arc.
    pub open spec fn arc_len_text(self) -> Seq<char> {
        let r = distance_text(self.start, self.center);
        let two_r = mul_text("2"@, r);
        if self.large_flag() {
            sub_text(mul_text(two_r, pi_text()), self.minor_len_text())
        } else {
            self.minor_len_text()
        }
    }
}

/// The command prefix moving to a path's first point.
pub open spec fn move_cmd_text(p: Point) -> Seq<char> {
    "M "@ + canon_text(p.x@) + " "@ + canon_text(p.y@) + " "@
}

/// The line-to command of a straight segment.
pub open spec fn line_cmd_text(l: LineSegment) -> Seq<char> {
    "L "@ + canon_text(l.end.x@) + " "@ + canon_text(l.end.y@) + " "@
}

/// A renderer flag as text: `1` for set, `0` for clear.
pub open spec fn flag_text(b: bool) -> Seq<char> {
    if b {
        "1"@
    } else {
        "0"@
    }
}

/// The arc-to command of an arc piece: endpoint parameterization with two
/// equal radii, rotation angle fixed at zero, then the two flags and the end
/// point.
pub open spec fn arc_cmd_text(a: Arc, invert: bool) -> Seq<char> {
    "A "@ + a.radius_text() + " "@ + a.radius_text() + " 0 "@ + flag_text(a.large_flag()) + " "@
        + flag_text(a.sweep_flag(invert)) + " "@ + canon_text(a.end.x@) + " "@
        + canon_text(a.end.y@) + " "@
}

/// Whether a piece's geometry is renderable: lines always are, arcs when
/// their classification succeeds.
pub open spec fn piece_ok(p: PathPiece) -> bool {
    match p {
        PathPiece::Arc(a) => a.classification_ok(),
        PathPiece::LineSegment(_) => true,
    }
}

/// The error a piece reports; line segments never fail, the value for them
/// is immaterial.
pub open spec fn piece_err(p: PathPiece) -> GeometryError {
    match p {
        PathPiece::Arc(a) => a.classification_err(),
        PathPiece::LineSegment(_) => GeometryError::DegenerateArc,
    }
}

/// The command a single piece contributes to a rendered path.
pub open spec fn piece_cmd_text(p: PathPiece, invert: bool) -> Seq<char> {
    match p {
        PathPiece::Arc(a) => arc_cmd_text(a, invert),
        PathPiece::LineSegment(l) => line_cmd_text(l),
    }
}

/// The starting point of a piece.
pub open spec fn piece_start(p: PathPiece) -> Point {
    match p {
        PathPiece::Arc(a) => a.start,
        PathPiece::LineSegment(l) => l.start,
    }
}

/// The length text of a single piece.
pub open spec fn piece_len_text(p: PathPiece) -> Seq<char> {
    match p {
        PathPiece::Arc(a) => a.arc_len_text(),
        PathPiece::LineSegment(l) => distance_text(l.start, l.end),
    }
}

/// Whether every piece of a sequence is renderable.
pub open spec fn pieces_ok(s: Seq<PathPiece>) -> bool {
    forall|i: int| 0 <= i < s.len() ==> piece_ok(#[trigger] s[i])
}

/// The error of the first piece that fails, for a sequence where one does.
pub open spec fn first_err(s: Seq<PathPiece>) -> GeometryError
    decreases s.len(),
{
    if s.len() == 0 {
        GeometryError::DegenerateArc
    } else if !piece_ok(s[0]) {
        piece_err(s[0])
    } else {
        first_err(s.drop_first())
    }
}

/// Concatenation of the pieces' commands, in sequence order.
pub open spec fn pieces_cmd_text(s: Seq<PathPiece>, invert: bool) -> Seq<char>
    decreases s.len(),
{
    if s.len() == 0 {
        Seq::empty()
    } else {
        pieces_cmd_text(s.drop_last(), invert) + piece_cmd_text(s.last(), invert)
    }
}

/// The full command string of a path: empty for an empty path, otherwise a
/// move to the first piece's start followed by one command per piece.
pub open spec fn path_cmd_text(s: Seq<PathPiece>, invert: bool) -> Seq<char> {
    if s.len() == 0 {
        ""@
    } else {
        move_cmd_text(piece_start(s[0])) + pieces_cmd_text(s, invert)
    }
}

/// The length text of a path: zero for an empty path, otherwise the pieces'
/// lengths summed left to right.
pub open spec fn path_len_text(s: Seq<PathPiece>) -> Seq<char>
    decreases s.len(),
{
    if s.len() == 0 {
        "0"@
    } else if s.len() == 1 {
        piece_len_text(s[0])
    } else {
        add_text(path_len_text(s.drop_last()), piece_len_text(s.last()))
    }
}

impl ChannelPath {
    /// An empty path with no pieces.
    pub fn new() -> (p: ChannelPath)
        ensures
            p.pieces@ == Seq::<PathPiece>::empty(),
    {
        ChannelPath { pieces: Vec::new() }
    }

    /// Appends a piece at the end of the path.  Contiguity with the previous
    /// piece's end point is the caller's responsibility and is deliberately
    /// not validated here.
    pub fn add(&mut self, piece: PathPiece)
        ensures
            final(self).pieces@ == old(self).pieces@.push(piece),
    {
        self.pieces.push(piece);
    }
}

/// Rendering and measuring of path geometry.
pub trait SVGPath {
    /// Whether the value's geometry is renderable and measurable.
    spec fn geom_ok(&self) -> bool;

    /// The error reported when it is not.
    spec fn geom_err(&self) -> GeometryError;

    /// The command text rendering produces.
    spec fn cmd_text(&self, invert_y: bool) -> Seq<char>;

    /// The length text measuring produces.
    spec fn len_text(&self) -> Seq<char>;

    /// Renders the value as path-command text, flipping arc sweeps when the
    /// target's vertical axis points downward.
    fn svg_path_command(&self, invert_y: bool) -> (res: Result<String, GeometryError>)
        ensures
            res matches Ok(s) ==> self.geom_ok() && s@ == self.cmd_text(invert_y),
            res matches Err(e) ==> !self.geom_ok() && e == self.geom_err(),
    ;

    /// The length of the value's centerline geometry.
    fn length(&self) -> (res: Result<PathLength, GeometryError>)
        ensures
            res matches Ok(l) ==> self.geom_ok() && l.0@ == self.len_text(),
            res matches Err(e) ==> !self.geom_ok() && e == self.geom_err(),
    ;
}

impl SVGPath for LineSegment {
    open spec fn geom_ok(&self) -> bool {
        true
    }

    open spec fn geom_err(&self) -> GeometryError {
        GeometryError::DegenerateArc
    }

    open spec fn cmd_text(&self, invert_y: bool) -> Seq<char> {
        line_cmd_text(*self)
    }

    open spec fn len_text(&self) -> Seq<char> {
        distance_text(self.start, self.end)
    }

    fn svg_path_command(&self, invert_y: bool) -> (res: Result<String, GeometryError>) {
        let mut s = String::from_str("L ");
        s.append(num_canon(self.end.x.as_str()).as_str());
        s.append(" ");
        s.append(num_canon(self.end.y.as_str()).as_str());
        s.append(" ");
        Ok(s)
    }

    fn length(&self) -> (res: Result<PathLength, GeometryError>) {
        let dx = num_sub(self.start.x.as_str(), self.end.x.as_str());
        let dy = num_sub(self.start.y.as_str(), self.end.y.as_str());
        Ok(PathLength(num_hypot(dx.as_str(), dy.as_str())))
    }
}

impl SVGPath for Arc {
    open spec fn geom_ok(&self) -> bool {
        self.classification_ok()
    }

    open spec fn geom_err(&self) -> GeometryError {
        self.classification_err()
    }

    open spec fn cmd_text(&self, invert_y: bool) -> Seq<char> {
        arc_cmd_text(*self, invert_y)
    }

    open spec fn len_text(&self) -> Seq<char> {
        self.arc_len_text()
    }

    fn svg_path_command(&self, invert_y: bool) -> (res: Result<String, GeometryError>) {
        let values = self.svg_representation_values(invert_y);
        match values {
            Err(e) => Err(e),
            Ok((radius, LargeArcFlag(large), SweepFlag(sweep))) => {
                let mut s = String::from_str("A ");
                s.append(radius.0.as_str());
                s.append(" ");
                s.append(radius.0.as_str());
                s.append(" 0 ");
                s.append(if large { "1" } else { "0" });
                s.append(" ");
                s.append(if sweep { "1" } else { "0" });
                s.append(" ");
                s.append(num_canon(self.end.x.as_str()).as_str());
                s.append(" ");
                s.append(num_canon(self.end.y.as_str()).as_str());
                s.append(" ");
                Ok(s)
            }
        }
    }

    fn length(&self) -> (res: Result<PathLength, GeometryError>) {
        let values = self.svg_representation_values(false);
        match values {
            Err(e) => Err(e),
            Ok((_, LargeArcFlag(large), _)) => {
                let r = self.radius();
                let two_r = num_mul("2", r.as_str());
                let cdx = num_sub(self.start.x.as_str(), self.end.x.as_str());
                let cdy = num_sub(self.start.y.as_str(), self.end.y.as_str());
                let chord = num_hypot(cdx.as_str(), cdy.as_str());
                let short = if num_lt(chord.as_str(), two_r.as_str()) {
                    let ratio = num_div(chord.as_str(), two_r.as_str());
                    num_mul(two_r.as_str(), num_asin(ratio.as_str()).as_str())
                } else {
                    num_mul(r.as_str(), "3.141592653589793")
                };
                if large {
                    let circumference = num_mul(two_r.as_str(), "3.141592653589793");
                    Ok(PathLength(num_sub(circumference.as_str(), short.as_str())))
                } else {
                    Ok(PathLength(short))
                }
            }
        }
    }
}

impl SVGPath for ChannelPath {
    open spec fn geom_ok(&self) -> bool {
        pieces_ok(self.pieces@)
    }

    open spec fn geom_err(&self) -> GeometryError {
        first_err(self.pieces@)
    }

    open spec fn cmd_text(&self, invert_y: bool) -> Seq<char> {
        path_cmd_text(self.pieces@, invert_y)
    }

    open spec fn len_text(&self) -> Seq<char> {
        path_len_text(self.pieces@)
    }

    fn svg_path_command(&self, invert_y: bool) -> (res: Result<String, GeometryError>) {
        let n = self.pieces.len();
        if n == 0 {
            return Ok(String::from_str(""));
        }
        let mut s = String::from_str("M ");
        let first = match &self.pieces[0] {
            PathPiece::Arc(a) => &a.start,
            PathPiece::LineSegment(l) => &l.start,
        };
        s.append(num_canon(first.x.as_str()).as_str());
        s.append(" ");
        s.append(num_canon(first.y.as_str()).as_str());
        s.append(" ");
        assert(s@ == move_cmd_text(piece_start(self.pieces@[0])));
        let ghost prefix = s@;
        for i in 0..n
            invariant
                n == self.pieces@.len(),
                pieces_ok(self.pieces@.take(i as int)),
                prefix == move_cmd_text(piece_start(self.pieces@[0])),
                s@ == prefix + pieces_cmd_text(self.pieces@.take(i as int), invert_y),
        {
            let cmd = match &self.pieces[i] {
                PathPiece::Arc(a) => a.svg_path_command(invert_y),
                PathPiece::LineSegment(l) => l.svg_path_command(invert_y),
            };
            match cmd {
                Ok(c) => s.append(c.as_str()),
                Err(e) => {
                    proof {
                        lemma_first_err_at(self.pieces@, i as int);
                    }
                    return Err(e);
                }
            }
            proof {
                assert(self.pieces@.take(i + 1).drop_last() =~= self.pieces@.take(i as int));
                assert(self.pieces@.take(i + 1).last() == self.pieces@[i as int]);
            }
        }
        proof {
            assert(self.pieces@.take(n as int) =~= self.pieces@);
        }
        Ok(s)
    }

    fn length(&self) -> (res: Result<PathLength, GeometryError>) {
        let n = self.pieces.len();
        if n == 0 {
            return Ok(PathLength(String::from_str("0")));
        }
        let first = match &self.pieces[0] {
            PathPiece::Arc(a) => a.length(),
            PathPiece::LineSegment(l) => l.length(),
        };
        let mut acc = match first {
            Ok(l) => l.0,
            Err(e) => {
                proof {
                    lemma_first_err_at(self.pieces@, 0);
                }
                return Err(e);
            }
        };
        assert(self.pieces@.take(1) =~= seq![self.pieces@[0]]);
        for i in 1..n
            invariant
                n == self.pieces@.len(),
                1 <= i <= n,
                pieces_ok(self.pieces@.take(i as int)),
                acc@ == path_len_text(self.pieces@.take(i as int)),
        {
            let len = match &self.pieces[i] {
                PathPiece::Arc(a) => a.length(),
                PathPiece::LineSegment(l) => l.length(),
            };
            match len {
                Ok(l) => {
                    let sum = num_add(acc.as_str(), l.0.as_str());
                    acc = sum;
                }
                Err(e) => {
                    proof {
                        lemma_first_err_at(self.pieces@, i as int);
                    }
                    return Err(e);
                }
            }
            proof {
                assert(self.pieces@.take(i + 1).drop_last() =~= self.pieces@.take(i as int));
                assert(self.pieces@.take(i + 1).last() == self.pieces@[i as int]);
            }
        }
        proof {
            assert(self.pieces@.take(n as int) =~= self.pieces@);
        }
        Ok(PathLength(acc))
    }
}

/// When every piece before position `i` is renderable and the piece at `i`
/// is not, the sequence's first error is the error of the piece at `i`.
pub proof fn lemma_first_err_at(s: Seq<PathPiece>, i: int)
    requires
        0 <= i < s.len(),
        pieces_ok(s.take(i)),
        !piece_ok(s[i]),
    ensures
        !pieces_ok(s),
        first_err(s) == piece_err(s[i]),
    decreases i,
{
    if i == 0 {
        assert(first_err(s) == piece_err(s[0]));
    } else {
        assert(piece_ok(s[0])) by {
            assert(s.take(i)[0] == s[0]);
        }
        assert(s.drop_first().take(i - 1) =~= s.take(i).drop_first());
        assert(pieces_ok(s.drop_first().take(i - 1))) by {
            assert(forall|j: int|
                0 <= j < i - 1 ==> #[trigger] s.drop_first().take(i - 1)[j] == s.take(i)[j + 1]);
        }
        assert(s.drop_first()[i - 1] == s[i]);
        lemma_first_err_at(s.drop_first(), i - 1);
        assert(first_err(s) == first_err(s.drop_first()));
    }
}

} // verus!
