use julia_jokes::julia::{sample, Sample, C_TENTHS, ESCAPE_RADIUS, SPAN};
use julia_jokes::render::{HEIGHT, WIDTH};

#[test]
fn the_row_gives_the_real_part() {
    assert_eq!(sample(3, 7), Sample { re_steps: 7, im_steps: 3 });
    assert_eq!(sample(0, 799), Sample { re_steps: 799, im_steps: 0 });
    assert_eq!(sample(799, 0), Sample { re_steps: 0, im_steps: 799 });
}

#[test]
fn the_diagonal_has_equal_parts() {
    for i in [0u32, 1, 400, 799, u32::MAX] {
        assert_eq!(sample(i, i), Sample { re_steps: i, im_steps: i });
    }
}

#[test]
fn transposed_pixels_have_transposed_samples() {
    let a = sample(123, 456);
    let b = sample(456, 123);
    assert_eq!(a.re_steps, b.im_steps);
    assert_eq!(a.im_steps, b.re_steps);
}

#[test]
fn the_parameters_are_those_of_the_picture() {
    assert_eq!(SPAN, 3);
    assert_eq!(C_TENTHS, (-4, 6));
    assert_eq!(ESCAPE_RADIUS, 2);
}

#[test]
fn the_parameters_convert_to_the_single_precision_constants() {
    assert_eq!(C_TENTHS.0 as f32 / 10.0, -0.4f32);
    assert_eq!(C_TENTHS.1 as f32 / 10.0, 0.6f32);
    assert_eq!(SPAN as f32, 3.0f32);
    assert_eq!(SPAN as f32 / 2.0, 1.5f32);
    assert_eq!(ESCAPE_RADIUS as f32, 2.0f32);
}

#[test]
fn the_centre_pixel_samples_the_origin() {
    let at = sample(400, 400);
    let re = at.re_steps as f32 * (SPAN as f32 / WIDTH as f32) - SPAN as f32 / 2.0;
    let im = at.im_steps as f32 * (SPAN as f32 / HEIGHT as f32) - SPAN as f32 / 2.0;
    assert_eq!(re, 0.0);
    assert_eq!(im, 0.0);
}

#[test]
fn the_corner_pixel_samples_the_corner() {
    let at = sample(0, 0);
    let re = at.re_steps as f32 * (SPAN as f32 / WIDTH as f32) - SPAN as f32 / 2.0;
    let im = at.im_steps as f32 * (SPAN as f32 / HEIGHT as f32) - SPAN as f32 / 2.0;
    assert_eq!(re, -1.5);
    assert_eq!(im, -1.5);
}
