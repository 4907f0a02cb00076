use channel_geometry::channel::{Arc, GeometryError, LargeArcFlag, Radius, SVGPath, SweepFlag};
use channel_geometry::primitives::Point;

fn pt(x: &str, y: &str) -> Point {
    Point { x: x.to_string(), y: y.to_string() }
}

fn quarter_arc_1() -> Arc {
    Arc { start: pt("80", "80"), end: pt("125", "125"), center: pt("125", "80"), right: true }
}

#[test]
fn case_1() {
    assert_eq!(
        quarter_arc_1().svg_representation_values(true),
        Ok((Radius("45".to_string()), LargeArcFlag(false), SweepFlag(false)))
    )
}

#[test]
fn case_2() {
    assert_eq!(
        (Arc {
            start: pt("230", "80"),
            end: pt("275", "125"),
            center: pt("230", "125"),
            right: true
        })
        .svg_representation_values(true),
        Ok((Radius("45".to_string()), LargeArcFlag(true), SweepFlag(false)))
    )
}

#[test]
fn case_3() {
    assert_eq!(
        (Arc {
            start: pt("80", "230"),
            end: pt("125", "275"),
            center: pt("80", "275"),
            right: false
        })
        .svg_representation_values(true),
        Ok((Radius("45".to_string()), LargeArcFlag(false), SweepFlag(true)))
    )
}

#[test]
fn case_4() {
    assert_eq!(
        (Arc {
            start: pt("230", "230"),
            end: pt("275", "275"),
            center: pt("275", "230"),
            right: false
        })
        .svg_representation_values(true),
        Ok((Radius("45".to_string()), LargeArcFlag(true), SweepFlag(true)))
    )
}

#[test]
fn full_circle_is_large_and_unswept() {
    for right in [false, true] {
        for invert in [false, true] {
            let arc = Arc {
                start: pt("10", "0"),
                end: pt("10", "0"),
                center: pt("0", "0"),
                right,
            };
            assert_eq!(
                arc.svg_representation_values(invert),
                Ok((Radius("10".to_string()), LargeArcFlag(true), SweepFlag(false)))
            );
        }
    }
}

#[test]
fn point_arc_is_rejected() {
    let arc = Arc { start: pt("5", "5"), end: pt("9", "5"), center: pt("5", "5"), right: true };
    assert_eq!(arc.svg_representation_values(false), Err(GeometryError::DegenerateArc));
}

#[test]
fn inconsistent_orientation_is_rejected() {
    // End collinear with the tangent probe while the chord test is decided:
    // impossible for points on one circle around the center.
    let arc = Arc { start: pt("0", "0"), end: pt("2", "0"), center: pt("0", "1"), right: true };
    assert_eq!(arc.svg_representation_values(false), Err(GeometryError::InconsistentOrientation));
}

#[test]
fn inversion_flips_sweep_only() {
    let arc = quarter_arc_1();
    let (r0, l0, s0) = arc.svg_representation_values(false).unwrap();
    let (r1, l1, s1) = arc.svg_representation_values(true).unwrap();
    assert_eq!(r0, r1);
    assert_eq!(l0, l1);
    assert_eq!(s1.0, !s0.0);
}

#[test]
fn direction_swap_complements_both_flags() {
    let cw = quarter_arc_1();
    let ccw = Arc { right: false, ..cw.clone() };
    let (_, l0, s0) = cw.svg_representation_values(false).unwrap();
    let (_, l1, s1) = ccw.svg_representation_values(false).unwrap();
    assert_eq!(l1.0, !l0.0);
    assert_eq!(s1.0, !s0.0);
}

#[test]
fn collinear_chord_is_never_large() {
    // Center on the chord: a half circle, minor by convention for both
    // rotation directions.
    for right in [false, true] {
        let arc =
            Arc { start: pt("-10", "0"), end: pt("10", "0"), center: pt("0", "0"), right };
        let (r, l, _) = arc.svg_representation_values(false).unwrap();
        assert_eq!(r, Radius("10".to_string()));
        assert_eq!(l, LargeArcFlag(false));
    }
}

#[test]
fn quarter_arc_length() {
    let len = quarter_arc_1().length().unwrap();
    let value: f64 = len.0.parse().unwrap();
    let expected = 22.5 * std::f64::consts::PI;
    assert!((value - expected).abs() < 1e-9);
}

#[test]
fn minor_and_major_sum_to_circumference() {
    let minor_arc = quarter_arc_1();
    let major_arc = Arc { right: false, ..minor_arc.clone() };
    let minor: f64 = minor_arc.length().unwrap().0.parse().unwrap();
    let major: f64 = major_arc.length().unwrap().0.parse().unwrap();
    let circumference = 2.0 * std::f64::consts::PI * 45.0;
    assert!(minor >= 0.0 && minor <= circumference);
    assert!(major >= 0.0 && major <= circumference);
    assert!((minor + major - circumference).abs() < 1e-9);
}

#[test]
fn full_circle_length_is_circumference() {
    let arc =
        Arc { start: pt("45", "0"), end: pt("45", "0"), center: pt("0", "0"), right: true };
    let value: f64 = arc.length().unwrap().0.parse().unwrap();
    let circumference = 2.0 * std::f64::consts::PI * 45.0;
    assert!((value - circumference).abs() < 1e-9);
}

#[test]
fn antipodal_arc_length_is_half_circumference() {
    // Chord equal to the diameter: the branch that avoids the arcsine.
    let arc =
        Arc { start: pt("-10", "0"), end: pt("10", "0"), center: pt("0", "0"), right: true };
    let value: f64 = arc.length().unwrap().0.parse().unwrap();
    assert!((value - 10.0 * std::f64::consts::PI).abs() < 1e-12);
}

#[test]
fn chord_beyond_diameter_falls_back_to_half_circumference() {
    // The end point does not lie on the circle around the center, so the
    // chord exceeds the diameter; the length computation must avoid the
    // arcsine and fall back to half the circumference.
    let arc = Arc { start: pt("0", "0"), end: pt("9", "1"), center: pt("0", "1"), right: false };
    let value: f64 = arc.length().unwrap().0.parse().unwrap();
    assert!((value - std::f64::consts::PI).abs() < 1e-12);
}

#[test]
fn point_arc_length_is_rejected() {
    let arc = Arc { start: pt("5", "5"), end: pt("9", "5"), center: pt("5", "5"), right: true };
    assert_eq!(arc.length(), Err(GeometryError::DegenerateArc));
}

#[test]
fn same_location_is_value_equality() {
    assert!(pt("80", "80").same_location(&pt("80.0", "80.00")));
    assert!(!pt("80", "80").same_location(&pt("80", "81")));
}
