use mdbrot::kernel::{KERNEL_NAME, SOURCE};
use mdbrot::source;

#[test]
fn the_source_is_the_kernel_text() {
    assert_eq!(source(), SOURCE);
    assert_eq!(source(), source());
}

#[test]
fn the_source_defines_the_named_kernel() {
    assert_eq!(KERNEL_NAME, "mandelbrot");
    assert!(source().contains("__kernel void mandelbrot(__global uchar *image,"));
    assert!(source().contains("int width,"));
    assert!(source().contains("int height)"));
}

#[test]
fn the_source_can_be_handed_over_as_a_c_string() {
    assert!(!source().contains('\0'));
    assert!(source().is_ascii());
}

#[test]
fn work_items_past_the_last_pixel_return() {
    let text = source();
    let guard = text.find("if (id >= width * height)").unwrap();
    let first_write = text.find("image[").unwrap();
    let first_division = text.find("id / width").unwrap();
    assert!(guard < first_division);
    assert!(guard < first_write);
}

#[test]
fn the_source_iterates_800_times_over_the_documented_window() {
    let text = source();
    assert!(text.contains("const int max_iter = 800,"));
    assert!(text.contains("max_color = 255,"));
    assert!(text.contains("float x0 = (float)j / width * 3.5f - 2.5f,"));
    assert!(text.contains("y0 = (float)i / height * 2.0f - 1.0f,"));
    assert!(text.contains("while ((x * x + y * y <= 4) && (iter < max_iter))"));
    assert!(text.contains("tx = x * x - y * y + x0;"));
    assert!(text.contains("y = 2 * x * y + y0;"));
}

#[test]
fn points_that_never_escape_are_black() {
    let text = source();
    let black = text.find("float color = 0.0f;").unwrap();
    let escaped = text.find("if (iter < max_iter)").unwrap();
    let smooth = text
        .find("float smooth = 1.0f + iter - log(log(sqrt(x * x + y * y))) / log(2.0f);")
        .unwrap();
    assert!(black < escaped);
    assert!(escaped < smooth);
    assert!(text.contains("color = (8 * max_color * smooth) / max_iter;"));
    assert!(text.contains("color = (color > max_color) ? max_color : color;"));
}

#[test]
fn only_red_is_shaded() {
    let text = source();
    assert!(text.contains("image[4 * i * width + 4 * j + 0] = (uchar)color;"));
    assert!(text.contains("image[4 * i * width + 4 * j + 1] = 0;"));
    assert!(text.contains("image[4 * i * width + 4 * j + 2] = 0;"));
    assert!(text.contains("image[4 * i * width + 4 * j + 3] = 255;"));
}
