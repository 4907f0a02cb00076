//! Trusted numeric primitives.
//!
//! Coordinates and lengths travel through this library as decimal text: a
//! `String` holding the usual notation of a double-precision value, such as
//! `"45"`, `"-0.5"` or `"3.141592653589793"`.  Verified code never interprets
//! that text; every numeric operation the geometry needs is delegated to one
//! of the wrappers below, which parses its operands, applies one
//! double-precision operation, and writes the result back in Rust's shortest
//! round-trip notation.  Each wrapper's result is pinned to an uninterpreted
//! name, so contracts can state exactly which operations are applied to which
//! operands, in which order, without restating floating-point arithmetic.
//!
//! Verus does not reason about floating point, so no floating-point type
//! name or literal appears anywhere in this library's source; the few
//! unchecked bodies below are the only places where floating-point values
//! exist at all, and they obtain them exclusively by parsing text.
//!
//! Conventions shared by all wrappers:
//! - operand text that does not parse as a number is read as zero (the zero
//!   fallback is obtained through `serde_json::Number`, which hands it out
//!   already in double precision);
//! - each name denotes a pure function of its operands' text: the underlying
//!   operations (IEEE 754 arithmetic, the platform's `hypot` and `asin`, the
//!   exact orientation determinant, Rust's float formatter) depend on their
//!   arguments alone.

use vstd::prelude::*;

verus! {

/// Text of the IEEE 754 sum of the values written in `a` and `b`.
pub uninterp spec fn add_text(a: Seq<char>, b: Seq<char>) -> Seq<char>;

/// Text of the IEEE 754 difference of the values written in `a` and `b`.
pub uninterp spec fn sub_text(a: Seq<char>, b: Seq<char>) -> Seq<char>;

/// Text of the IEEE 754 product of the values written in `a` and `b`.
pub uninterp spec fn mul_text(a: Seq<char>, b: Seq<char>) -> Seq<char>;

/// Text of the IEEE 754 quotient of the values written in `a` and `b`.
pub uninterp spec fn div_text(a: Seq<char>, b: Seq<char>) -> Seq<char>;

/// Text of the hypotenuse `sqrt(a * a + b * b)` of the values written in
/// `a` and `b`.
pub uninterp spec fn hypot_text(a: Seq<char>, b: Seq<char>) -> Seq<char>;

/// Text of the arcsine, in radians, of the value written in `a`.
pub uninterp spec fn asin_text(a: Seq<char>) -> Seq<char>;

/// Whether the values written in `a` and `b` are equal as doubles.
pub uninterp spec fn eq_text(a: Seq<char>, b: Seq<char>) -> bool;

/// Whether the value written in `a` is strictly below the one written in `b`.
pub uninterp spec fn lt_text(a: Seq<char>, b: Seq<char>) -> bool;

/// The value written in `a`, rewritten in canonical shortest round-trip
/// notation.
pub uninterp spec fn canon_text(a: Seq<char>) -> Seq<char>;

/// Sign of the orientation determinant of the three points `(ax, ay)`,
/// `(bx, by)`, `(cx, cy)`: `1` for a counterclockwise turn, `-1` for a
/// clockwise turn, `0` for collinear points.
pub uninterp spec fn orient_sign(
    ax: Seq<char>,
    ay: Seq<char>,
    bx: Seq<char>,
    by: Seq<char>,
    cx: Seq<char>,
    cy: Seq<char>,
) -> i8;

/// Relies on IEEE 754 addition of binary64 values.
#[verifier::external_body]
pub(crate) fn num_add(a: &str, b: &str) -> (r: String)
    ensures
        r@ == add_text(a@, b@),
{
    let zero = serde_json::Number::from(0u8).as_f64().unwrap_or_default();
    let x = a.parse().unwrap_or(zero);
    let y = b.parse().unwrap_or(zero);
    format!("{}", x + y)
}

/// Relies on IEEE 754 subtraction of binary64 values.
#[verifier::external_body]
pub(crate) fn num_sub(a: &str, b: &str) -> (r: String)
    ensures
        r@ == sub_text(a@, b@),
{
    let zero = serde_json::Number::from(0u8).as_f64().unwrap_or_default();
    let x = a.parse().unwrap_or(zero);
    let y = b.parse().unwrap_or(zero);
    format!("{}", x - y)
}

/// Relies on IEEE 754 multiplication of binary64 values.
#[verifier::external_body]
pub(crate) fn num_mul(a: &str, b: &str) -> (r: String)
    ensures
        r@ == mul_text(a@, b@),
{
    let zero = serde_json::Number::from(0u8).as_f64().unwrap_or_default();
    let x = a.parse().unwrap_or(zero);
    let y = b.parse().unwrap_or(zero);
    format!("{}", x * y)
}

/// Relies on IEEE 754 division of binary64 values.
#[verifier::external_body]
pub(crate) fn num_div(a: &str, b: &str) -> (r: String)
    ensures
        r@ == div_text(a@, b@),
{
    let zero = serde_json::Number::from(0u8).as_f64().unwrap_or_default();
    let x = a.parse().unwrap_or(zero);
    let y = b.parse().unwrap_or(zero);
    format!("{}", x / y)
}

/// Relies on the standard library's `hypot` for binary64 values.
#[verifier::external_body]
pub(crate) fn num_hypot(a: &str, b: &str) -> (r: String)
    ensures
        r@ == hypot_text(a@, b@),
{
    let zero = serde_json::Number::from(0u8).as_f64().unwrap_or_default();
    let x = a.parse().unwrap_or(zero);
    let y = b.parse().unwrap_or(zero);
    format!("{}", x.hypot(y))
}

/// Relies on the standard library's `asin` for binary64 values.
#[verifier::external_body]
pub(crate) fn num_asin(a: &str) -> (r: String)
    ensures
        r@ == asin_text(a@),
{
    let zero = serde_json::Number::from(0u8).as_f64().unwrap_or_default();
    let x = a.parse().unwrap_or(zero);
    format!("{}", x.asin())
}

/// Relies on IEEE 754 equality of binary64 values (exact, no tolerance).
#[verifier::external_body]
pub(crate) fn num_eq(a: &str, b: &str) -> (r: bool)
    ensures
        r == eq_text(a@, b@),
{
    let zero = serde_json::Number::from(0u8).as_f64().unwrap_or_default();
    let x = a.parse().unwrap_or(zero);
    let y = b.parse().unwrap_or(zero);
    x == y
}

/// Relies on the IEEE 754 `<` comparison of binary64 values.
#[verifier::external_body]
pub(crate) fn num_lt(a: &str, b: &str) -> (r: bool)
    ensures
        r == lt_text(a@, b@),
{
    let zero = serde_json::Number::from(0u8).as_f64().unwrap_or_default();
    let x = a.parse().unwrap_or(zero);
    let y = b.parse().unwrap_or(zero);
    x < y
}

/// Relies on Rust's formatter for binary64 values, which writes the shortest
/// text that reads back as the same value.
#[verifier::external_body]
pub(crate) fn num_canon(a: &str) -> (r: String)
    ensures
        r@ == canon_text(a@),
{
    let zero = serde_json::Number::from(0u8).as_f64().unwrap_or_default();
    let x = a.parse().unwrap_or(zero);
    format!("{}", x)
}

/// Relies on `geometry_predicates::orient2d`, the adaptive exact orientation
/// test: its result is positive exactly when the three points occur in
/// counterclockwise order, negative when clockwise, zero when collinear.
/// Only that three-way sign is handed on.
#[verifier::external_body]
pub(crate) fn orient(ax: &str, ay: &str, bx: &str, by: &str, cx: &str, cy: &str) -> (r: i8)
    ensures
        r == orient_sign(ax@, ay@, bx@, by@, cx@, cy@),
{
    let zero = serde_json::Number::from(0u8).as_f64().unwrap_or_default();
    let pa = [ax.parse().unwrap_or(zero), ay.parse().unwrap_or(zero)];
    let pb = [bx.parse().unwrap_or(zero), by.parse().unwrap_or(zero)];
    let pc = [cx.parse().unwrap_or(zero), cy.parse().unwrap_or(zero)];
    let v = geometry_predicates::orient2d(pa, pb, pc);
    if v > zero { 1 } else if v < zero { -1 } else { 0 }
}

} // verus!
