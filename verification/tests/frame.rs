use raytracer::frame::{into_rows, rgba_to_rgb};

#[test]
fn rows_come_out_row_major_in_input_order() {
    let flat: Vec<u32> = vec![1, 2, 3, 4, 5, 6];
    let rows = into_rows(&flat, 3, 2);
    assert_eq!(rows, vec![vec![1, 2, 3], vec![4, 5, 6]]);
}

#[test]
fn rows_carry_pixel_payloads_unchanged() {
    // The readback buffer holds four f32 channels per pixel.
    let flat: Vec<[f32; 4]> = vec![
        [0.1, 0.2, 0.3, 1.0],
        [0.4, 0.5, 0.6, 1.0],
        [0.7, 0.8, 0.9, 1.0],
        [1.0, 0.0, 0.5, 1.0],
    ];
    let rows = into_rows(&flat, 2, 2);
    assert_eq!(rows.len(), 2);
    assert_eq!(rows[0][1], [0.4, 0.5, 0.6, 1.0]);
    assert_eq!(rows[1][0], [0.7, 0.8, 0.9, 1.0]);
}

#[test]
fn an_empty_grid_has_the_asked_for_rows() {
    let flat: Vec<u8> = Vec::new();
    let rows = into_rows(&flat, 0, 3);
    assert_eq!(rows, vec![Vec::<u8>::new(), Vec::new(), Vec::new()]);
    let none = into_rows(&Vec::<u8>::new(), 5, 0);
    assert!(none.is_empty());
}

#[test]
fn packing_drops_exactly_the_alpha_bytes() {
    let rgba: Vec<u8> = vec![10, 20, 30, 255, 40, 50, 60, 255, 70, 80, 90, 0];
    assert_eq!(rgba_to_rgb(&rgba), vec![10, 20, 30, 40, 50, 60, 70, 80, 90]);
}

#[test]
fn packing_an_empty_buffer_gives_an_empty_buffer() {
    assert_eq!(rgba_to_rgb(&Vec::new()), Vec::<u8>::new());
}
