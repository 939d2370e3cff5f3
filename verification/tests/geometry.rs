use hello_bevy::math::{isqrt64, normalize, FixedVec2};

#[test]
fn isqrt_of_small_values() {
    assert_eq!(isqrt64(0), 0);
    assert_eq!(isqrt64(1), 1);
    assert_eq!(isqrt64(2), 1);
    assert_eq!(isqrt64(3), 1);
    assert_eq!(isqrt64(4), 2);
    assert_eq!(isqrt64(8), 2);
    assert_eq!(isqrt64(9), 3);
}

#[test]
fn isqrt_of_interesting_values() {
    assert_eq!(isqrt64(999_999), 999);
    assert_eq!(isqrt64(1_000_000), 1000);
    assert_eq!(isqrt64(2_000_000), 1414);
    assert_eq!(isqrt64(100_000_000), 10000);
    assert_eq!(isqrt64(8_000_000_000_000_000_000), 2_828_427_124);
}

#[test]
fn normalize_cardinal_vectors() {
    assert_eq!(normalize(FixedVec2 { x: 5, y: 0 }), FixedVec2 { x: 1000, y: 0 });
    assert_eq!(normalize(FixedVec2 { x: 0, y: -7 }), FixedVec2 { x: 0, y: -1000 });
    assert_eq!(
        normalize(FixedVec2 { x: -123_456, y: 0 }),
        FixedVec2 { x: -1000, y: 0 },
    );
}

#[test]
fn normalize_diagonal_vector() {
    assert_eq!(normalize(FixedVec2 { x: 1000, y: 1000 }), FixedVec2 { x: 707, y: 707 });
}

#[test]
fn normalize_three_four_five_triangle() {
    assert_eq!(
        normalize(FixedVec2 { x: 3000, y: -4000 }),
        FixedVec2 { x: 600, y: -800 },
    );
}

#[test]
fn normalize_keeps_components_within_unit() {
    let samples = [
        FixedVec2 { x: 1, y: 1 },
        FixedVec2 { x: -2_000_000_000, y: 2_000_000_000 },
        FixedVec2 { x: 17, y: -3 },
        FixedVec2 { x: 0, y: 2_000_000_000 },
    ];
    for v in samples {
        let n = normalize(v);
        assert!(n.x.abs() <= 1000);
        assert!(n.y.abs() <= 1000);
    }
}
