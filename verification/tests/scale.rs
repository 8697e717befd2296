use bevy_baseview_windows::error::WindowError;
use bevy_baseview_windows::scale::{
    resolve_scale, LogicalSize, PhysicalSize, ResolvedScale, ScaleFactor, ScalePolicy,
};

fn ratio(numer: i64, denom: u64) -> ScaleFactor {
    ScaleFactor { numer, denom }
}

fn size(width: u32, height: u32) -> LogicalSize {
    LogicalSize { width, height }
}

fn physical(policy: ScalePolicy, logical: LogicalSize) -> PhysicalSize {
    resolve_scale(policy, logical).expect("a valid factor resolves").physical
}

#[test]
fn factor_two_doubles_the_size() {
    let resolved = resolve_scale(ScalePolicy::Explicit(ratio(2, 1)), size(100, 50));
    assert_eq!(
        resolved,
        Ok(ResolvedScale { factor: ratio(2, 1), physical: PhysicalSize { width: 200, height: 100 } })
    );
}

#[test]
fn factor_one_and_a_half() {
    let resolved = resolve_scale(ScalePolicy::Explicit(ratio(3, 2)), size(800, 600));
    assert_eq!(
        resolved,
        Ok(ResolvedScale { factor: ratio(3, 2), physical: PhysicalSize { width: 1200, height: 900 } })
    );
}

#[test]
fn factor_from_float_bits_agrees_with_float_rounding() {
    // 1.25 is 5/4 exactly, so the exact ratio and the float product agree.
    let factor: f64 = 1.25;
    for logical in [0u32, 1, 2, 3, 10, 99, 100, 801, 1080] {
        let expected = (f64::from(logical) * factor).round() as u32;
        let got = physical(ScalePolicy::Explicit(ratio(5, 4)), size(logical, logical));
        assert_eq!(got, PhysicalSize { width: expected, height: expected });
    }
}

#[test]
fn system_default_keeps_the_size() {
    let resolved = resolve_scale(ScalePolicy::SystemDefault(None), size(640, 480));
    assert_eq!(
        resolved,
        Ok(ResolvedScale { factor: ratio(1, 1), physical: PhysicalSize { width: 640, height: 480 } })
    );
}

#[test]
fn system_default_follows_a_reported_factor() {
    let resolved = resolve_scale(ScalePolicy::SystemDefault(Some(ratio(2, 1))), size(640, 480));
    assert_eq!(
        resolved,
        Ok(ResolvedScale { factor: ratio(2, 1), physical: PhysicalSize { width: 1280, height: 960 } })
    );
}

#[test]
fn a_report_that_is_no_factor_counts_as_none() {
    for reported in [ratio(0, 1), ratio(-2, 1), ratio(2, 0), ratio(0, 0)] {
        let resolved = resolve_scale(ScalePolicy::SystemDefault(Some(reported)), size(640, 480));
        assert_eq!(
            resolved,
            Ok(ResolvedScale {
                factor: ratio(1, 1),
                physical: PhysicalSize { width: 640, height: 480 }
            })
        );
    }
}

#[test]
fn zero_factor_is_invalid() {
    assert_eq!(
        resolve_scale(ScalePolicy::Explicit(ratio(0, 1)), size(100, 50)),
        Err(WindowError::InvalidScale)
    );
}

#[test]
fn negative_factor_is_invalid() {
    assert_eq!(
        resolve_scale(ScalePolicy::Explicit(ratio(-3, 2)), size(100, 50)),
        Err(WindowError::InvalidScale)
    );
    assert_eq!(
        resolve_scale(ScalePolicy::Explicit(ratio(i64::MIN, 1)), size(100, 50)),
        Err(WindowError::InvalidScale)
    );
}

#[test]
fn factor_that_is_not_finite_is_invalid() {
    assert_eq!(
        resolve_scale(ScalePolicy::Explicit(ratio(1, 0)), size(100, 50)),
        Err(WindowError::InvalidScale)
    );
    assert_eq!(
        resolve_scale(ScalePolicy::Explicit(ratio(0, 0)), size(100, 50)),
        Err(WindowError::InvalidScale)
    );
}

#[test]
fn validity_of_factors() {
    assert!(ratio(1, 1).is_valid());
    assert!(ratio(i64::MAX, u64::MAX).is_valid());
    assert!(!ratio(0, 5).is_valid());
    assert!(!ratio(-1, 5).is_valid());
    assert!(!ratio(5, 0).is_valid());
    assert_eq!(ScaleFactor::one(), ratio(1, 1));
}

#[test]
fn a_half_rounds_away_from_zero() {
    let half = ScalePolicy::Explicit(ratio(1, 2));
    // 0.5, 1.5 and 2.5 lie halfway and go up; 1.0 and 2.0 are exact.
    assert_eq!(physical(half, size(1, 2)), PhysicalSize { width: 1, height: 1 });
    assert_eq!(physical(half, size(3, 4)), PhysicalSize { width: 2, height: 2 });
    assert_eq!(physical(half, size(5, 0)), PhysicalSize { width: 3, height: 0 });
}

#[test]
fn below_and_above_a_half() {
    let third = ScalePolicy::Explicit(ratio(1, 3));
    // 1/3 goes down to 0, 2/3 up to 1, 4/3 down to 1, 5/3 up to 2.
    assert_eq!(physical(third, size(1, 2)), PhysicalSize { width: 0, height: 1 });
    assert_eq!(physical(third, size(4, 5)), PhysicalSize { width: 1, height: 2 });
    let two_thirds = ScalePolicy::Explicit(ratio(2, 3));
    // 200/3 = 66.67 and 100/3 = 33.33.
    assert_eq!(physical(two_thirds, size(100, 50)), PhysicalSize { width: 67, height: 33 });
}

#[test]
fn equal_ratios_give_equal_sizes() {
    let a = physical(ScalePolicy::Explicit(ratio(3, 2)), size(801, 333));
    let b = physical(ScalePolicy::Explicit(ratio(300, 200)), size(801, 333));
    assert_eq!(a, b);
    assert_eq!(a, PhysicalSize { width: 1202, height: 500 });
}

#[test]
fn sizes_stop_at_the_largest_u32() {
    let double = ScalePolicy::Explicit(ratio(2, 1));
    assert_eq!(
        physical(double, size(u32::MAX, 0x8000_0000)),
        PhysicalSize { width: u32::MAX, height: u32::MAX }
    );
    assert_eq!(
        physical(double, size(0x7fff_ffff, 0)),
        PhysicalSize { width: 0xffff_fffe, height: 0 }
    );
    let huge = ScalePolicy::Explicit(ratio(i64::MAX, 1));
    assert_eq!(physical(huge, size(u32::MAX, 1)), PhysicalSize { width: u32::MAX, height: u32::MAX });
    assert_eq!(physical(huge, size(0, 0)), PhysicalSize { width: 0, height: 0 });
}

#[test]
fn tiny_factors_give_no_pixels() {
    let tiny = ScalePolicy::Explicit(ratio(1, u64::MAX));
    assert_eq!(physical(tiny, size(u32::MAX, 1)), PhysicalSize { width: 0, height: 0 });
    let largest = ScalePolicy::Explicit(ratio(i64::MAX, u64::MAX));
    // Just under a half: 1 goes to 0, 2 goes to 1, 3 to 1 and 4 to 2.
    assert_eq!(physical(largest, size(1, 2)), PhysicalSize { width: 0, height: 1 });
    assert_eq!(physical(largest, size(3, 4)), PhysicalSize { width: 1, height: 2 });
}

#[test]
fn resolving_twice_gives_the_same() {
    let policy = ScalePolicy::Explicit(ratio(7, 4));
    let logical = size(1023, 767);
    let first = resolve_scale(policy, logical);
    let second = resolve_scale(policy, logical);
    assert_eq!(first, second);
    assert_eq!(
        first,
        Ok(ResolvedScale { factor: ratio(7, 4), physical: PhysicalSize { width: 1790, height: 1342 } })
    );
}
