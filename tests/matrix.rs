use raster_core::matrix::{transpose3, transpose4};

#[test]
fn transpose3_swaps_rows_and_columns() {
    let b = [[9.0f32, 8., 7.], [6., 5., 4.], [3., 2., 1.]];
    assert_eq!(transpose3(b), [[9., 6., 3.], [8., 5., 2.], [7., 4., 1.]]);
    assert_eq!(transpose3(transpose3(b)), b);
}

#[test]
fn transpose4_swaps_rows_and_columns() {
    let b = [[9.0f32, 8., 7., 0.], [6., 5., 4., 1.], [3., 2., 1., 0.], [0., 1., 0., 1.]];
    assert_eq!(
        transpose4(b),
        [[9., 6., 3., 0.], [8., 5., 2., 1.], [7., 4., 1., 0.], [0., 1., 0., 1.]]
    );
    assert_eq!(transpose4(transpose4(b)), b);
    let ints = [[1, 2, 3, 4], [5, 6, 7, 8], [9, 10, 11, 12], [13, 14, 15, 16]];
    assert_eq!(transpose4(transpose4(ints)), ints);
}
