//! Properties of the arc classification and of path rendering and length,
//! stated and proved once for all inputs.

use crate::channel::{
    move_cmd_text, path_cmd_text, path_len_text, piece_cmd_text, piece_len_text, piece_start,
    pieces_cmd_text, Arc, PathPiece,
};
use crate::numerics::add_text;
use crate::primitives::point_eq;
use vstd::prelude::*;

verus! {

/// A full circle (an arc whose start and end coincide) classifies as the
/// large arc with a clear sweep flag, whatever the rotation direction of the
/// arc and whatever the inversion.
pub proof fn lemma_full_circle_flags(a: Arc, invert: bool)
    ensures
        point_eq(a.start, a.end) ==> a.classification_ok() && a.large_flag() && !a.sweep_flag(
            invert,
        ),
{
}

/// Toggling the vertical inversion flips the sweep flag of every arc with an
/// extent; the large-arc flag is a function of the arc alone (its signature
/// takes no inversion), so it is unchanged.  A full circle is the one
/// exception: its sweep flag is pinned to `false` under either inversion.
pub proof fn lemma_inversion_flips_sweep(a: Arc, invert: bool)
    ensures
        !point_eq(a.start, a.end) ==> a.sweep_flag(!invert) == !a.sweep_flag(invert),
        point_eq(a.start, a.end) ==> a.sweep_flag(!invert) == a.sweep_flag(invert),
{
}

/// Swapping the rotation direction of an arc with an extent complements the
/// sweep flag (wherever the tangent test is decided) and complements the
/// large-arc flag wherever the chord test is decided; in the collinear chord
/// case the large-arc flag is `false` for either direction.  In the fully
/// collinear case (both tests undecided) the pre-inversion sweep is pinned
/// instead, so that case is left out of the sweep clause.
pub proof fn lemma_direction_complement(a: Arc, b: Arc, invert: bool)
    requires
        b == (Arc { right: !a.right, start: a.start, end: a.end, center: a.center }),
    ensures
        !point_eq(a.start, a.end) && a.tangent_side() != 0 ==> b.sweep_flag(invert)
            == !a.sweep_flag(invert),
        !point_eq(a.start, a.end) && a.chord_side() != 0 ==> b.large_flag() == !a.large_flag(),
        !point_eq(a.start, a.end) && a.chord_side() == 0 ==> !b.large_flag() && !a.large_flag(),
{
}

/// A path's length is the sum of its pieces' lengths: an empty path measures
/// zero, a single piece measures exactly that piece, and appending a piece
/// to a nonempty path adds that piece's length to the path's.
pub proof fn lemma_path_length_sum(s: Seq<PathPiece>, p: PathPiece)
    ensures
        path_len_text(Seq::<PathPiece>::empty()) == "0"@,
        path_len_text(seq![p]) == piece_len_text(p),
        s.len() >= 1 ==> path_len_text(s.push(p)) == add_text(
            path_len_text(s),
            piece_len_text(p),
        ),
{
    assert(seq![p][0] == p);
    if s.len() >= 1 {
        assert(s.push(p).drop_last() =~= s);
        assert(s.push(p).last() == p);
    }
}

/// Rendering a two-piece path yields exactly one move-to command, placed at
/// the first piece's start point, followed by the two pieces' commands in
/// input order.
pub proof fn lemma_render_two_pieces(p0: PathPiece, p1: PathPiece, invert: bool)
    ensures
        path_cmd_text(seq![p0, p1], invert) == move_cmd_text(piece_start(p0)) + piece_cmd_text(
            p0,
            invert,
        ) + piece_cmd_text(p1, invert),
{
    let s = seq![p0, p1];
    assert(s.drop_last() =~= seq![p0]);
    assert(seq![p0].drop_last() =~= Seq::<PathPiece>::empty());
    assert(s[0] == p0 && s.last() == p1 && seq![p0].last() == p0);
    assert(pieces_cmd_text(Seq::<PathPiece>::empty(), invert) == Seq::<char>::empty());
    assert(pieces_cmd_text(seq![p0], invert) =~= piece_cmd_text(p0, invert));
    assert(pieces_cmd_text(s, invert) =~= piece_cmd_text(p0, invert) + piece_cmd_text(p1, invert));
    assert(path_cmd_text(s, invert) =~= move_cmd_text(piece_start(p0)) + piece_cmd_text(p0, invert)
        + piece_cmd_text(p1, invert));
}

} // verus!
