use raster_core::utility::{i32_clamp, i32_max, i32_min, u32_clamp, u32_clamp01, u32_max, u32_min};

#[test]
fn signed_min_max_clamp() {
    assert_eq!(i32_max(-3, 7), 7);
    assert_eq!(i32_max(7, -3), 7);
    assert_eq!(i32_min(-3, 7), -3);
    assert_eq!(i32_min(5, 5), 5);
    assert_eq!(i32_clamp(-10, -2, 4), -2);
    assert_eq!(i32_clamp(10, -2, 4), 4);
    assert_eq!(i32_clamp(1, -2, 4), 1);
    assert_eq!(i32_clamp(1, 6, 4), 4);
}

#[test]
fn unsigned_min_max_clamp() {
    assert_eq!(u32_max(3, 7), 7);
    assert_eq!(u32_min(3, 7), 3);
    assert_eq!(u32_min(u32::MAX, 0), 0);
    assert_eq!(u32_clamp(0, 2, 4), 2);
    assert_eq!(u32_clamp(9, 2, 4), 4);
    assert_eq!(u32_clamp(3, 2, 4), 3);
    assert_eq!(u32_clamp01(0), 0);
    assert_eq!(u32_clamp01(1), 1);
    assert_eq!(u32_clamp01(42), 1);
}
